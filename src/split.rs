use vstd::prelude::*;

verus! {

/// A partition of a Kafka topic.
pub struct KafkaSplit {
    pub split_id: String,
    pub topic: String,
    pub start_offset: Option<i64>,
    pub stop_offset: Option<i64>,
}

/// A partition of a Pulsar topic.
pub struct PulsarSplit {
    pub split_id: String,
    pub topic: String,
}

/// A shard of a Kinesis stream.
pub struct KinesisSplit {
    pub split_id: String,
    pub shard_id: String,
}

/// One of the parallel generators of a Nexmark source.
pub struct NexmarkSplit {
    pub split_id: String,
    pub split_index: i32,
    pub split_num: i32,
}

/// One of the parallel generators of a datagen source.
pub struct DatagenSplit {
    pub split_id: String,
    pub split_index: i32,
    pub split_num: i32,
}

/// A unit of a source's data that one reader consumes.
pub enum SplitImpl {
    Kafka(KafkaSplit),
    Pulsar(PulsarSplit),
    Kinesis(KinesisSplit),
    Nexmark(NexmarkSplit),
    Datagen(DatagenSplit),
}

impl SplitImpl {
    /// The identifier of the split, whatever its source.
    pub open spec fn id_spec(&self) -> Seq<char> {
        match self {
            SplitImpl::Kafka(k) => k.split_id@,
            SplitImpl::Pulsar(p) => p.split_id@,
            SplitImpl::Kinesis(k) => k.split_id@,
            SplitImpl::Nexmark(n) => n.split_id@,
            SplitImpl::Datagen(d) => d.split_id@,
        }
    }

    /// The name of the split's source type.
    pub open spec fn type_spec(&self) -> Seq<char> {
        match self {
            SplitImpl::Kafka(_) => "kafka"@,
            SplitImpl::Pulsar(_) => "pulsar"@,
            SplitImpl::Kinesis(_) => "kinesis"@,
            SplitImpl::Nexmark(_) => "nexmark"@,
            SplitImpl::Datagen(_) => "datagen"@,
        }
    }

    /// The identifier of the split.
    pub fn id(&self) -> (r: String)
        ensures
            r@ == self.id_spec(),
    {
        match self {
            SplitImpl::Kafka(k) => k.split_id.clone(),
            SplitImpl::Pulsar(p) => p.split_id.clone(),
            SplitImpl::Kinesis(k) => k.split_id.clone(),
            SplitImpl::Nexmark(n) => n.split_id.clone(),
            SplitImpl::Datagen(d) => d.split_id.clone(),
        }
    }

    /// The name of the split's source type.
    pub fn get_type(&self) -> (r: String)
        ensures
            r@ == self.type_spec(),
    {
        match self {
            SplitImpl::Kafka(_) => "kafka".to_owned(),
            SplitImpl::Pulsar(_) => "pulsar".to_owned(),
            SplitImpl::Kinesis(_) => "kinesis".to_owned(),
            SplitImpl::Nexmark(_) => "nexmark".to_owned(),
            SplitImpl::Datagen(_) => "datagen".to_owned(),
        }
    }
}

} // verus!
