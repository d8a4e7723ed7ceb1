use compaction_scheduler::split::{DatagenSplit, KafkaSplit, KinesisSplit, NexmarkSplit, PulsarSplit, SplitImpl};
use compaction_scheduler::stream_filter::{
    Condition, Convention, Distribution, LogicalFilter, Schema, StreamFilter,
};

#[test]
fn stream_filter_keeps_logical_properties() {
    let logical = LogicalFilter {
        schema: Schema { fields: vec!["v1".to_string(), "v2".to_string()] },
        distribution: Distribution::HashShard(vec![1, 0]),
        predicate: Condition { conjunctions: vec!["v1 > 3".to_string()] },
    };
    let f = StreamFilter::new(logical);
    assert_eq!(f.base.schema.fields, vec!["v1".to_string(), "v2".to_string()]);
    assert!(matches!(&f.base.distribution, Distribution::HashShard(k) if k == &vec![1, 0]));
    assert_eq!(f.base.convention, Convention::Stream);
    assert_eq!(f.predicate().conjunctions, vec!["v1 > 3".to_string()]);
}

#[test]
fn split_id_and_type() {
    let kafka = SplitImpl::Kafka(KafkaSplit {
        split_id: "0".to_string(),
        topic: "t".to_string(),
        start_offset: Some(5),
        stop_offset: None,
    });
    assert_eq!(kafka.id(), "0");
    assert_eq!(kafka.get_type(), "kafka");
    let pulsar = SplitImpl::Pulsar(PulsarSplit { split_id: "p-1".to_string(), topic: "p".to_string() });
    assert_eq!(pulsar.id(), "p-1");
    assert_eq!(pulsar.get_type(), "pulsar");
    let kinesis = SplitImpl::Kinesis(KinesisSplit {
        split_id: "shard-7".to_string(),
        shard_id: "shard-7".to_string(),
    });
    assert_eq!(kinesis.id(), "shard-7");
    assert_eq!(kinesis.get_type(), "kinesis");
    let nexmark = SplitImpl::Nexmark(NexmarkSplit { split_id: "4-2".to_string(), split_index: 2, split_num: 4 });
    assert_eq!(nexmark.id(), "4-2");
    assert_eq!(nexmark.get_type(), "nexmark");
    let datagen = SplitImpl::Datagen(DatagenSplit { split_id: "2-0".to_string(), split_index: 0, split_num: 2 });
    assert_eq!(datagen.id(), "2-0");
    assert_eq!(datagen.get_type(), "datagen");
}
