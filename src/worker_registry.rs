use vstd::prelude::*;

verus! {

/// Identifier of a compactor worker's connection context.
pub type WorkerId = u32;

/// The worker that a round-robin selection over `workers` starting at `cursor` returns.
pub open spec fn pick_from(workers: Seq<WorkerId>, cursor: nat) -> Option<WorkerId> {
    if workers.len() == 0 {
        None
    } else {
        Some(workers[(cursor % workers.len()) as int])
    }
}

/// The cursor after a round-robin selection over `workers` starting at `cursor`.
pub open spec fn advance_cursor(workers: Seq<WorkerId>, cursor: nat) -> nat {
    if workers.len() == 0 {
        cursor
    } else {
        cursor % workers.len() + 1
    }
}

/// The live compactor workers, handed out in round-robin order.
pub struct WorkerRegistry {
    workers: Vec<WorkerId>,
    cursor: usize,
}

impl WorkerRegistry {
    /// The live workers, in registration order.
    pub closed spec fn workers(&self) -> Seq<WorkerId> {
        self.workers@
    }

    /// The position from which the next selection starts.
    pub closed spec fn cursor(&self) -> nat {
        self.cursor as nat
    }

    /// Each worker is registered once.
    pub open spec fn wf(&self) -> bool {
        self.workers().no_duplicates()
    }

    /// The worker that the next selection returns.
    pub open spec fn next_spec(&self) -> Option<WorkerId> {
        pick_from(self.workers(), self.cursor())
    }

    /// The effect of `next_worker` taking `pre` to `post` and returning `r`.
    pub open spec fn next_worker_spec(pre: &Self, post: &Self, r: Option<WorkerId>) -> bool {
        &&& r == pre.next_spec()
        &&& post.workers() == pre.workers()
        &&& post.cursor() == advance_cursor(pre.workers(), pre.cursor())
    }

    /// Holds of every worker but `id`.
    pub open spec fn other_than(id: WorkerId) -> spec_fn(WorkerId) -> bool {
        |w: WorkerId| w != id
    }

    /// The effect of `remove_worker(id)` taking `pre` to `post`.
    pub open spec fn remove_worker_spec(pre: &Self, id: WorkerId, post: &Self) -> bool {
        &&& post.workers() == pre.workers().filter(Self::other_than(id))
        &&& post.cursor() == pre.cursor()
    }

    /// A registry with no workers.
    pub fn new() -> (r: Self)
        ensures
            r.wf(),
            r.workers() == Seq::<WorkerId>::empty(),
            r.cursor() == 0,
    {
        WorkerRegistry { workers: Vec::new(), cursor: 0 }
    }

    /// Registers a worker; returns false, changing nothing, if it is already live.
    pub fn add_worker(&mut self, id: WorkerId) -> (r: bool)
        requires
            old(self).wf(),
        ensures
            final(self).wf(),
            r == !old(self).workers().contains(id),
            final(self).workers() == if r {
                old(self).workers().push(id)
            } else {
                old(self).workers()
            },
            final(self).cursor() == old(self).cursor(),
    {
        let mut i: usize = 0;
        while i < self.workers.len()
            invariant
                0 <= i <= self.workers@.len(),
                self.workers@ == old(self).workers@,
                self.workers@.no_duplicates(),
                self.cursor == old(self).cursor,
                forall|j: int| 0 <= j < i ==> self.workers@[j] != id,
            decreases self.workers@.len() - i,
        {
            if self.workers[i] == id {
                return false;
            }
            i = i + 1;
        }
        self.workers.push(id);
        true
    }

    /// Picks the next live worker in round-robin order, or none if no worker is live.
    pub fn next_worker(&mut self) -> (r: Option<WorkerId>)
        requires
            old(self).wf(),
        ensures
            final(self).wf(),
            Self::next_worker_spec(old(self), final(self), r),
            r matches Some(w) ==> old(self).workers().contains(w),
    {
        let n = self.workers.len();
        if n == 0 {
            return None;
        }
        let idx = self.cursor % n;
        self.cursor = idx + 1;
        Some(self.workers[idx])
    }

    /// Drops a worker, so that no later selection returns it.
    pub fn remove_worker(&mut self, id: WorkerId)
        requires
            old(self).wf(),
        ensures
            final(self).wf(),
            Self::remove_worker_spec(old(self), id, final(self)),
            !final(self).workers().contains(id),
    {
        let ghost pre = self.workers@;
        let mut kept: Vec<WorkerId> = Vec::new();
        let mut i: usize = 0;
        while i < self.workers.len()
            invariant
                0 <= i <= self.workers@.len(),
                self.workers@ == pre,
                self.cursor == old(self).cursor,
                pre.no_duplicates(),
                kept@ == pre.subrange(0, i as int).filter(Self::other_than(id)),
                kept@.no_duplicates(),
                forall|k: int| 0 <= k < kept@.len() ==> pre.subrange(0, i as int).contains(#[trigger] kept@[k]),
            decreases self.workers@.len() - i,
        {
            let w = self.workers[i];
            proof {
                let s = pre.subrange(0, i + 1);
                assert(s.drop_last() == pre.subrange(0, i as int));
                assert(s.last() == w);
                reveal(Seq::filter);
                assert(!pre.subrange(0, i as int).contains(w)) by {
                    if pre.subrange(0, i as int).contains(w) {
                        let j = choose|j: int| 0 <= j < i && pre.subrange(0, i as int)[j] == w;
                        assert(pre[j] == pre[i as int]);
                    }
                }
                assert forall|k: int| 0 <= k < kept@.len() implies s.contains(#[trigger] kept@[k]) by {
                    let j = choose|j: int| 0 <= j < i && pre.subrange(0, i as int)[j] == kept@[k];
                    assert(s[j] == kept@[k]);
                }
            }
            if w != id {
                kept.push(w);
                proof {
                    let s = pre.subrange(0, i + 1);
                    assert(kept@.last() == w && s[i as int] == w);
                }
            }
            i = i + 1;
        }
        proof {
            assert(pre.subrange(0, pre.len() as int) == pre);
            reveal(Seq::filter);
            #[allow(deprecated)]
            pre.filter_lemma(Self::other_than(id));
        }
        self.workers = kept;
    }
}

} // verus!
