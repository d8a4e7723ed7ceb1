use std::collections::HashSet;
use std::collections::VecDeque;
use vstd::prelude::*;

verus! {

broadcast use vstd::std_specs::hash::group_hash_axioms;

/// Identifier of an independently schedulable compaction group.
pub type CompactionGroupId = u64;

/// A deduplicating FIFO of compaction requests: at most one unconsumed
/// signal is held per compaction group.
pub struct CompactionRequestChannel {
    queue: VecDeque<CompactionGroupId>,
    scheduled: HashSet<CompactionGroupId>,
}

impl CompactionRequestChannel {
    /// The signals waiting to be received, oldest first.
    pub closed spec fn queued(&self) -> Seq<CompactionGroupId> {
        self.queue@
    }

    /// The groups whose requests are currently suppressed as duplicates.
    pub closed spec fn pending(&self) -> Set<CompactionGroupId> {
        self.scheduled@
    }

    /// Every queued signal is unique and its group is marked pending.
    pub open spec fn wf(&self) -> bool {
        &&& self.queued().no_duplicates()
        &&& forall|i: int|
            0 <= i < self.queued().len() ==> #[trigger] self.pending().contains(self.queued()[i])
    }

    /// The effect of `try_send(group)` taking `pre` to `post` and returning `sent`.
    pub open spec fn try_send_spec(pre: &Self, group: CompactionGroupId, post: &Self, sent: bool) -> bool {
        if pre.pending().contains(group) {
            &&& !sent
            &&& post.queued() == pre.queued()
            &&& post.pending() == pre.pending()
        } else {
            &&& sent
            &&& post.queued() == pre.queued().push(group)
            &&& post.pending() == pre.pending().insert(group)
        }
    }

    /// The effect of `receive` taking `pre` to `post` and returning `got`.
    pub open spec fn receive_spec(pre: &Self, post: &Self, got: Option<CompactionGroupId>) -> bool {
        &&& post.pending() == pre.pending()
        &&& match got {
            Some(g) => {
                &&& pre.queued().len() > 0
                &&& g == pre.queued()[0]
                &&& post.queued() == pre.queued().drop_first()
            },
            None => {
                &&& pre.queued().len() == 0
                &&& post.queued() == pre.queued()
            },
        }
    }

    /// The effect of `unschedule(group)` taking `pre` to `post`.
    pub open spec fn unschedule_spec(pre: &Self, group: CompactionGroupId, post: &Self) -> bool {
        &&& post.queued() == pre.queued()
        &&& post.pending() == pre.pending().remove(group)
    }

    /// An empty channel.
    pub fn new() -> (r: Self)
        ensures
            r.wf(),
            r.queued() == Seq::<CompactionGroupId>::empty(),
            r.pending() == Set::<CompactionGroupId>::empty(),
    {
        CompactionRequestChannel { queue: VecDeque::new(), scheduled: HashSet::new() }
    }

    /// Whether no signal is waiting.
    pub fn is_empty(&self) -> (r: bool)
        ensures
            r == (self.queued().len() == 0),
    {
        self.queue.len() == 0
    }

    /// Enqueues a signal for `compaction_group` unless one is already pending;
    /// returns whether a signal was enqueued.
    pub fn try_send(&mut self, compaction_group: CompactionGroupId) -> (r: bool)
        requires
            old(self).wf(),
        ensures
            final(self).wf(),
            Self::try_send_spec(old(self), compaction_group, final(self), r),
    {
        if self.scheduled.contains(&compaction_group) {
            return false;
        }
        self.queue.push_back(compaction_group);
        self.scheduled.insert(compaction_group);
        proof {
            assert forall|i: int| 0 <= i < self.queued().len() implies
                #[trigger] self.pending().contains(self.queued()[i]) by {
                if i < old(self).queued().len() {
                    assert(old(self).pending().contains(old(self).queued()[i]));
                }
            }
            assert(!old(self).queued().contains(compaction_group)) by {
                if old(self).queued().contains(compaction_group) {
                    let i = choose|i: int|
                        0 <= i < old(self).queued().len() && old(self).queued()[i]
                            == compaction_group;
                    assert(old(self).pending().contains(old(self).queued()[i]));
                }
            }
        }
        true
    }

    /// Takes the oldest signal, if any. Its group stays pending until it is
    /// unscheduled.
    pub fn receive(&mut self) -> (r: Option<CompactionGroupId>)
        requires
            old(self).wf(),
        ensures
            final(self).wf(),
            Self::receive_spec(old(self), final(self), r),
    {
        let r = self.queue.pop_front();
        proof {
            assert forall|i: int| 0 <= i < self.queued().len() implies
                #[trigger] self.pending().contains(self.queued()[i]) by {
                assert(self.queued()[i] == old(self).queued()[i + 1]);
                assert(old(self).pending().contains(old(self).queued()[i + 1]));
            }
        }
        r
    }

    /// Stops suppressing requests for a group whose signal has been received.
    pub fn unschedule(&mut self, compaction_group: CompactionGroupId)
        requires
            old(self).wf(),
            !old(self).queued().contains(compaction_group),
        ensures
            final(self).wf(),
            Self::unschedule_spec(old(self), compaction_group, final(self)),
    {
        self.scheduled.remove(&compaction_group);
        proof {
            assert forall|i: int| 0 <= i < self.queued().len() implies
                #[trigger] self.pending().contains(self.queued()[i]) by {
                assert(old(self).pending().contains(old(self).queued()[i]));
            }
        }
    }
}

/// Two requests for a group that is not pending leave one signal for it:
/// the first is queued at the back, the second is refused and changes nothing.
pub proof fn lemma_duplicate_request_suppressed(
    c0: &CompactionRequestChannel,
    c1: &CompactionRequestChannel,
    c2: &CompactionRequestChannel,
    group: CompactionGroupId,
    sent1: bool,
    sent2: bool,
)
    requires
        c0.wf(),
        !c0.pending().contains(group),
        CompactionRequestChannel::try_send_spec(c0, group, c1, sent1),
        CompactionRequestChannel::try_send_spec(c1, group, c2, sent2),
    ensures
        sent1,
        !sent2,
        c2.queued() == c0.queued().push(group),
        c2.queued().no_duplicates(),
        c2.pending().contains(group),
{
    assert(!c0.queued().contains(group)) by {
        if c0.queued().contains(group) {
            let i = choose|i: int| 0 <= i < c0.queued().len() && c0.queued()[i] == group;
            assert(c0.pending().contains(c0.queued()[i]));
        }
    }
    assert(c2.queued().no_duplicates()) by {
        assert forall|i: int, j: int|
            0 <= i < c2.queued().len() && 0 <= j < c2.queued().len() && i != j implies
            c2.queued()[i] != c2.queued()[j] by {
            if i == c0.queued().len() as int {
                assert(c0.queued()[j] == c2.queued()[j]);
            } else if j == c0.queued().len() as int {
                assert(c0.queued()[i] == c2.queued()[i]);
            }
        }
    }
}

/// A request made after a group's signal was received and unscheduled is
/// accepted and queued, so the group is delivered again.
pub proof fn lemma_request_after_receive_queued(
    c0: &CompactionRequestChannel,
    c1: &CompactionRequestChannel,
    c2: &CompactionRequestChannel,
    c3: &CompactionRequestChannel,
    group: CompactionGroupId,
    sent: bool,
)
    requires
        c0.wf(),
        CompactionRequestChannel::receive_spec(c0, c1, Some(group)),
        CompactionRequestChannel::unschedule_spec(c1, group, c2),
        CompactionRequestChannel::try_send_spec(c2, group, c3, sent),
    ensures
        sent,
        c3.queued() == c0.queued().drop_first().push(group),
        c3.pending().contains(group),
{
}

} // verus!
