use vstd::prelude::*;

verus! {

broadcast use vstd::std_specs::vec::vec_clone_deep_view_proof;

/// The output columns of a plan node, by name.
pub struct Schema {
    pub fields: Vec<String>,
}

impl Schema {
    pub open spec fn view(&self) -> Seq<Seq<char>> {
        self.fields.deep_view()
    }

    /// A copy of the schema.
    pub fn duplicate(&self) -> (r: Schema)
        ensures
            r.view() == self.view(),
    {
        Schema { fields: self.fields.clone() }
    }
}

/// How the rows of a plan node are spread over the parallel units.
pub enum Distribution {
    Any,
    Single,
    Broadcast,
    /// Rows are sharded by a hash of these column indices.
    HashShard(Vec<usize>),
}

impl Distribution {
    /// Whether two distributions are the same.
    pub open spec fn same(&self, other: &Distribution) -> bool {
        match (*self, *other) {
            (Distribution::Any, Distribution::Any) => true,
            (Distribution::Single, Distribution::Single) => true,
            (Distribution::Broadcast, Distribution::Broadcast) => true,
            (Distribution::HashShard(a), Distribution::HashShard(b)) => a@ == b@,
            _ => false,
        }
    }

    /// A copy of the distribution.
    pub fn duplicate(&self) -> (r: Distribution)
        ensures
            r.same(self),
    {
        match self {
            Distribution::Any => Distribution::Any,
            Distribution::Single => Distribution::Single,
            Distribution::Broadcast => Distribution::Broadcast,
            Distribution::HashShard(keys) => {
                let copied = keys.clone();
                proof {
                    assert(copied.deep_view() == keys.deep_view());
                    assert(copied@ =~= keys@) by {
                        assert forall|i: int| 0 <= i < keys@.len() implies copied@[i] == keys@[i] by {
                            assert(copied.deep_view()[i] == keys.deep_view()[i]);
                        }
                    }
                }
                Distribution::HashShard(copied)
            },
        }
    }
}

/// A conjunction of boolean expressions, each in its textual form.
pub struct Condition {
    pub conjunctions: Vec<String>,
}

/// Whether a plan node belongs to the logical or to the streaming plan.
#[derive(Clone, Copy, Debug, PartialEq, Eq, Structural)]
pub enum Convention {
    Logical,
    Stream,
}

/// The properties every plan node carries.
pub struct PlanBase {
    pub schema: Schema,
    pub distribution: Distribution,
    pub convention: Convention,
}

/// A logical filter: the rows of its input that satisfy `predicate`.
pub struct LogicalFilter {
    pub schema: Schema,
    pub distribution: Distribution,
    pub predicate: Condition,
}

/// The streaming form of a [`LogicalFilter`].
pub struct StreamFilter {
    pub base: PlanBase,
    logical: LogicalFilter,
}

impl StreamFilter {
    /// The logical filter that this node implements.
    pub closed spec fn logical(&self) -> LogicalFilter {
        self.logical
    }

    /// The node's plan properties.
    pub closed spec fn plan_base(&self) -> PlanBase {
        self.base
    }

    /// A streaming filter with the schema and distribution of `logical`.
    pub fn new(logical: LogicalFilter) -> (r: Self)
        ensures
            r.logical() == logical,
            r.plan_base().schema.view() == logical.schema.view(),
            r.plan_base().distribution.same(&logical.distribution),
            r.plan_base().convention == Convention::Stream,
    {
        let base = PlanBase {
            schema: logical.schema.duplicate(),
            distribution: logical.distribution.duplicate(),
            convention: Convention::Stream,
        };
        StreamFilter { base, logical }
    }

    /// The filter's predicate.
    pub fn predicate(&self) -> (r: &Condition)
        ensures
            *r == self.logical().predicate,
    {
        &self.logical.predicate
    }
}

} // verus!
