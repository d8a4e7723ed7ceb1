use vstd::prelude::*;
use crate::request_channel::CompactionGroupId;
use crate::request_channel::CompactionRequestChannel;
use crate::worker_registry::advance_cursor;
use crate::worker_registry::pick_from;
use crate::worker_registry::WorkerId;
use crate::worker_registry::WorkerRegistry;

verus! {

/// Seconds to wait before selecting again when no worker is live.
pub const BACKOFF_SECS: u64 = 60;

/// Seconds allowed for handing a task to a worker.
pub const SEND_TIMEOUT_SECS: u64 = 5;

/// Lifecycle of the dispatch loop.
#[derive(Clone, Copy, Debug, PartialEq, Eq, Structural)]
pub enum LoopState {
    NotStarted,
    Running,
    Stopped,
}

/// What the running loop is doing.
#[derive(Clone, Copy, Debug, PartialEq, Eq, Structural)]
pub enum Phase {
    /// Waiting for a request or for shutdown.
    Waiting,
    /// Fetching a task on behalf of `group`.
    Fetching { group: CompactionGroupId },
    /// Sleeping before the next worker selection for `group`'s task.
    BackingOff { group: CompactionGroupId },
    /// Assigning `group`'s task to `worker`.
    Sending { group: CompactionGroupId, worker: WorkerId },
}

/// Result of asking the task source for a compaction task.
#[derive(Clone, Copy, Debug, PartialEq, Eq, Structural)]
pub enum FetchOutcome {
    Task,
    NoTask,
    Failed,
}

/// Why the authority refused to record an assignment.
#[derive(Clone, Copy, Debug, PartialEq, Eq, Structural)]
pub enum AssignError {
    InvalidContext,
    CompactorUnreachable,
    Other,
}

/// What happened since the loop last acted.
#[derive(Clone, Copy, Debug, PartialEq, Eq, Structural)]
pub enum Event {
    /// A request may be waiting in the channel.
    RequestReady,
    /// Every sender of the channel is gone.
    ChannelClosed,
    /// Shutdown was signalled.
    Shutdown,
    /// The task fetch finished.
    Fetched(FetchOutcome),
    /// The backoff sleep finished.
    BackoffElapsed,
    /// The authority recorded the assignment.
    AssignSucceeded,
    /// The authority refused the assignment.
    AssignFailed(AssignError),
}

/// What the driver of the loop must do next.
#[derive(Clone, Copy, Debug, PartialEq, Eq, Structural)]
pub enum Action {
    /// Block until a request is ready or shutdown is signalled.
    Wait,
    /// A request is queued: check for shutdown without blocking, then report it.
    Receive,
    /// Fetch one compaction task; `group` is a hint.
    FetchTask { group: CompactionGroupId },
    /// Sleep `secs` seconds, then report that the backoff elapsed.
    Backoff { secs: u64 },
    /// Send the task to `worker` within `timeout_secs` and have the authority record it.
    Send { worker: WorkerId, timeout_secs: u64 },
    /// Leave the loop.
    Exit,
}

/// Failures after which the worker is treated as dead.
pub open spec fn is_fatal_spec(e: AssignError) -> bool {
    e == AssignError::InvalidContext || e == AssignError::CompactorUnreachable
}

/// Whether an assignment failure means the worker is dead.
pub fn is_fatal(e: AssignError) -> (r: bool)
    ensures
        r == is_fatal_spec(e),
{
    match e {
        AssignError::InvalidContext => true,
        AssignError::CompactorUnreachable => true,
        AssignError::Other => false,
    }
}

/// The request channel is left as it was.
pub open spec fn chan_same(c0: &CompactionRequestChannel, c1: &CompactionRequestChannel) -> bool {
    &&& c1.queued() == c0.queued()
    &&& c1.pending() == c0.pending()
}

/// The worker registry is left as it was.
pub open spec fn reg_same(r0: &WorkerRegistry, r1: &WorkerRegistry) -> bool {
    &&& r1.workers() == r0.workers()
    &&& r1.cursor() == r0.cursor()
}

/// How the loop waits, given what is queued.
pub open spec fn wait_action(c: &CompactionRequestChannel) -> Action {
    if c.queued().len() == 0 {
        Action::Wait
    } else {
        Action::Receive
    }
}

/// The action that a phase is waiting on.
pub open spec fn awaited(phase: Phase, c: &CompactionRequestChannel) -> Action {
    match phase {
        Phase::Waiting => wait_action(c),
        Phase::Fetching { group } => Action::FetchTask { group },
        Phase::BackingOff { .. } => Action::Backoff { secs: BACKOFF_SECS },
        Phase::Sending { worker, .. } => Action::Send { worker, timeout_secs: SEND_TIMEOUT_SECS },
    }
}

/// A worker selection for `group` over `workers` from `cursor`, leaving registry `r1`.
pub open spec fn select_spec(
    group: CompactionGroupId,
    workers: Seq<WorkerId>,
    cursor: nat,
    r1: &WorkerRegistry,
    phase1: Phase,
    act: Action,
) -> bool {
    &&& r1.workers() == workers
    &&& r1.cursor() == advance_cursor(workers, cursor)
    &&& match pick_from(workers, cursor) {
        None => {
            &&& phase1 == Phase::BackingOff { group }
            &&& act == Action::Backoff { secs: BACKOFF_SECS }
        },
        Some(w) => {
            &&& phase1 == Phase::Sending { group, worker: w }
            &&& act == Action::Send { worker: w, timeout_secs: SEND_TIMEOUT_SECS }
        },
    }
}

/// One step of the running loop in `phase` on `event`.
pub open spec fn running_step_spec(
    phase: Phase,
    c0: &CompactionRequestChannel,
    r0: &WorkerRegistry,
    event: Event,
    phase1: Phase,
    c1: &CompactionRequestChannel,
    r1: &WorkerRegistry,
    act: Action,
) -> bool {
    match (phase, event) {
        (Phase::Waiting, Event::RequestReady) => {
            &&& reg_same(r0, r1)
            &&& if c0.queued().len() > 0 {
                let g = c0.queued()[0];
                &&& c1.queued() == c0.queued().drop_first()
                &&& c1.pending() == c0.pending().remove(g)
                &&& phase1 == Phase::Fetching { group: g }
                &&& act == Action::FetchTask { group: g }
            } else {
                &&& chan_same(c0, c1)
                &&& phase1 == Phase::Waiting
                &&& act == Action::Wait
            }
        },
        (Phase::Fetching { group }, Event::Fetched(FetchOutcome::Task)) => {
            &&& chan_same(c0, c1)
            &&& select_spec(group, r0.workers(), r0.cursor(), r1, phase1, act)
        },
        (Phase::Fetching { .. }, Event::Fetched(_)) => {
            &&& chan_same(c0, c1)
            &&& reg_same(r0, r1)
            &&& phase1 == Phase::Waiting
            &&& act == wait_action(c0)
        },
        (Phase::BackingOff { group }, Event::BackoffElapsed) => {
            &&& chan_same(c0, c1)
            &&& select_spec(group, r0.workers(), r0.cursor(), r1, phase1, act)
        },
        (Phase::Sending { group, .. }, Event::AssignSucceeded) => {
            &&& CompactionRequestChannel::try_send_spec(c0, group, c1, !c0.pending().contains(group))
            &&& reg_same(r0, r1)
            &&& phase1 == Phase::Waiting
            &&& act == wait_action(c1)
        },
        (Phase::Sending { group, worker }, Event::AssignFailed(e)) => {
            &&& chan_same(c0, c1)
            &&& if is_fatal_spec(e) {
                select_spec(
                    group,
                    r0.workers().filter(WorkerRegistry::other_than(worker)),
                    r0.cursor(),
                    r1,
                    phase1,
                    act,
                )
            } else {
                select_spec(group, r0.workers(), r0.cursor(), r1, phase1, act)
            }
        },
        _ => {
            &&& chan_same(c0, c1)
            &&& reg_same(r0, r1)
            &&& phase1 == phase
            &&& act == awaited(phase, c0)
        },
    }
}

/// The decisions of the compaction dispatch loop: a state machine that is fed
/// the outcome of each wait, fetch, sleep and assignment, and answers with the
/// next thing to do.
pub struct DispatchLoop {
    pub state: LoopState,
    pub phase: Phase,
}

impl DispatchLoop {
    /// One step of the loop from `pre` on `event`, with the request channel and
    /// worker registry going from `c0`, `r0` to `c1`, `r1`.
    pub open spec fn step_spec(
        pre: Self,
        c0: &CompactionRequestChannel,
        r0: &WorkerRegistry,
        event: Event,
        post: Self,
        c1: &CompactionRequestChannel,
        r1: &WorkerRegistry,
        act: Action,
    ) -> bool {
        match pre.state {
            LoopState::Running => match event {
                Event::Shutdown | Event::ChannelClosed => {
                    &&& post == (DispatchLoop { state: LoopState::Stopped, phase: Phase::Waiting })
                    &&& chan_same(c0, c1)
                    &&& reg_same(r0, r1)
                    &&& act == Action::Exit
                },
                _ => {
                    &&& post.state == LoopState::Running
                    &&& running_step_spec(pre.phase, c0, r0, event, post.phase, c1, r1, act)
                },
            },
            _ => {
                &&& post == pre
                &&& chan_same(c0, c1)
                &&& reg_same(r0, r1)
                &&& act == Action::Exit
            },
        }
    }

    /// A loop that has not started.
    pub fn new() -> (r: Self)
        ensures
            r == (DispatchLoop { state: LoopState::NotStarted, phase: Phase::Waiting }),
    {
        DispatchLoop { state: LoopState::NotStarted, phase: Phase::Waiting }
    }

    /// Starts the loop; returns false, changing nothing, if it was started before.
    pub fn start(&mut self) -> (r: bool)
        ensures
            r == (old(self).state == LoopState::NotStarted),
            *final(self) == if r {
                DispatchLoop { state: LoopState::Running, phase: Phase::Waiting }
            } else {
                *old(self)
            },
    {
        match self.state {
            LoopState::NotStarted => {
                self.state = LoopState::Running;
                self.phase = Phase::Waiting;
                true
            },
            _ => false,
        }
    }

    /// Wait for a request, or take the one already queued.
    fn wait_on(chan: &CompactionRequestChannel) -> (r: Action)
        ensures
            r == wait_action(chan),
    {
        if chan.is_empty() {
            Action::Wait
        } else {
            Action::Receive
        }
    }

    /// Pick a worker for `group`'s task, or back off when none is live.
    fn select(&mut self, group: CompactionGroupId, reg: &mut WorkerRegistry) -> (r: Action)
        requires
            old(reg).wf(),
        ensures
            final(reg).wf(),
            final(self).state == old(self).state,
            select_spec(group, old(reg).workers(), old(reg).cursor(), final(reg), final(self).phase, r),
    {
        match reg.next_worker() {
            None => {
                self.phase = Phase::BackingOff { group };
                Action::Backoff { secs: BACKOFF_SECS }
            },
            Some(w) => {
                self.phase = Phase::Sending { group, worker: w };
                Action::Send { worker: w, timeout_secs: SEND_TIMEOUT_SECS }
            },
        }
    }

    /// The action that the current phase is still waiting on.
    fn reissue(&self, chan: &CompactionRequestChannel) -> (r: Action)
        ensures
            r == awaited(self.phase, chan),
    {
        match self.phase {
            Phase::Waiting => Self::wait_on(chan),
            Phase::Fetching { group } => Action::FetchTask { group },
            Phase::BackingOff { .. } => Action::Backoff { secs: BACKOFF_SECS },
            Phase::Sending { worker, .. } => Action::Send { worker, timeout_secs: SEND_TIMEOUT_SECS },
        }
    }

    /// Feeds one event to the loop and returns what to do next. A received
    /// group is unscheduled at once, a group whose task was assigned is
    /// requested again, and a worker that failed fatally is removed. Events
    /// that the current phase does not wait on change nothing.
    pub fn step(
        &mut self,
        chan: &mut CompactionRequestChannel,
        reg: &mut WorkerRegistry,
        event: Event,
    ) -> (r: Action)
        requires
            old(chan).wf(),
            old(reg).wf(),
        ensures
            final(chan).wf(),
            final(reg).wf(),
            Self::step_spec(*old(self), old(chan), old(reg), event, *final(self), final(chan), final(reg), r),
    {
        match self.state {
            LoopState::Running => {},
            _ => {
                return Action::Exit;
            },
        }
        match event {
            Event::Shutdown | Event::ChannelClosed => {
                self.state = LoopState::Stopped;
                self.phase = Phase::Waiting;
                return Action::Exit;
            },
            _ => {},
        }
        match (self.phase, event) {
            (Phase::Waiting, Event::RequestReady) => {
                match chan.receive() {
                    Some(g) => {
                        proof {
                            assert(!chan.queued().contains(g)) by {
                                if chan.queued().contains(g) {
                                    let j = choose|j: int| 0 <= j < chan.queued().len() && chan.queued()[j] == g;
                                    assert(old(chan).queued()[j + 1] == old(chan).queued()[0]);
                                }
                            }
                        }
                        chan.unschedule(g);
                        self.phase = Phase::Fetching { group: g };
                        Action::FetchTask { group: g }
                    },
                    None => Action::Wait,
                }
            },
            (Phase::Fetching { group }, Event::Fetched(FetchOutcome::Task)) => {
                self.select(group, reg)
            },
            (Phase::Fetching { .. }, Event::Fetched(_)) => {
                self.phase = Phase::Waiting;
                Self::wait_on(chan)
            },
            (Phase::BackingOff { group }, Event::BackoffElapsed) => {
                self.select(group, reg)
            },
            (Phase::Sending { group, .. }, Event::AssignSucceeded) => {
                chan.try_send(group);
                self.phase = Phase::Waiting;
                Self::wait_on(chan)
            },
            (Phase::Sending { group, worker }, Event::AssignFailed(e)) => {
                if is_fatal(e) {
                    reg.remove_worker(worker);
                }
                self.select(group, reg)
            },
            _ => self.reissue(chan),
        }
    }
}

/// Once the loop has taken a group's signal to work on it, a new request for
/// that group is accepted and queued behind the others, so the group is
/// delivered again after the current assignment.
pub proof fn lemma_request_during_assignment_delivered(
    pre: DispatchLoop,
    c0: &CompactionRequestChannel,
    r0: &WorkerRegistry,
    post: DispatchLoop,
    c1: &CompactionRequestChannel,
    r1: &WorkerRegistry,
    c2: &CompactionRequestChannel,
    group: CompactionGroupId,
    sent: bool,
)
    requires
        pre.state == LoopState::Running,
        pre.phase == Phase::Waiting,
        c0.wf(),
        DispatchLoop::step_spec(
            pre,
            c0,
            r0,
            Event::RequestReady,
            post,
            c1,
            r1,
            Action::FetchTask { group },
        ),
        CompactionRequestChannel::try_send_spec(c1, group, c2, sent),
    ensures
        sent,
        c2.queued() == c0.queued().drop_first().push(group),
{
}

/// After an assignment fails with a fatal error, the worker that was tried is
/// gone from the registry and is not the worker chosen next.
pub proof fn lemma_fatal_failure_removes_worker(
    pre: DispatchLoop,
    c0: &CompactionRequestChannel,
    r0: &WorkerRegistry,
    err: AssignError,
    post: DispatchLoop,
    c1: &CompactionRequestChannel,
    r1: &WorkerRegistry,
    act: Action,
    group: CompactionGroupId,
    worker: WorkerId,
)
    requires
        pre.state == LoopState::Running,
        pre.phase == (Phase::Sending { group, worker }),
        is_fatal_spec(err),
        DispatchLoop::step_spec(pre, c0, r0, Event::AssignFailed(err), post, c1, r1, act),
    ensures
        !r1.workers().contains(worker),
        r1.next_spec() != Some(worker),
        act matches Action::Send { worker: w, .. } ==> w != worker,
        post.phase matches Phase::Sending { worker: w, .. } ==> w != worker,
{
    let kept = r0.workers().filter(WorkerRegistry::other_than(worker));
    #[allow(deprecated)]
    r0.workers().filter_lemma(WorkerRegistry::other_than(worker));
    assert(r1.workers() == kept);
    assert(forall|i: int| 0 <= i < kept.len() ==> (WorkerRegistry::other_than(worker))(#[trigger] kept[i]));
    if let Some(w) = pick_from(kept, r0.cursor()) {
        assert(w == kept[(r0.cursor() % kept.len()) as int]);
    }
    if let Some(w) = r1.next_spec() {
        assert(w == kept[(r1.cursor() % kept.len()) as int]);
    }
}

/// A transient assignment failure keeps the worker, and a success after it
/// ends the assignment and re-queues the group once.
pub proof fn lemma_transient_failure_then_success(
    s0: DispatchLoop,
    c0: &CompactionRequestChannel,
    r0: &WorkerRegistry,
    err: AssignError,
    s1: DispatchLoop,
    c1: &CompactionRequestChannel,
    r1: &WorkerRegistry,
    a1: Action,
    s2: DispatchLoop,
    c2: &CompactionRequestChannel,
    r2: &WorkerRegistry,
    a2: Action,
    group: CompactionGroupId,
    worker: WorkerId,
)
    requires
        s0.state == LoopState::Running,
        s0.phase == (Phase::Sending { group, worker }),
        !is_fatal_spec(err),
        DispatchLoop::step_spec(s0, c0, r0, Event::AssignFailed(err), s1, c1, r1, a1),
        s1.phase matches Phase::Sending { .. },
        DispatchLoop::step_spec(s1, c1, r1, Event::AssignSucceeded, s2, c2, r2, a2),
    ensures
        r1.workers() == r0.workers(),
        s1.phase == (Phase::Sending { group, worker: s1.phase->worker }),
        s2 == (DispatchLoop { state: LoopState::Running, phase: Phase::Waiting }),
        c2.queued() == if c0.pending().contains(group) {
            c0.queued()
        } else {
            c0.queued().push(group)
        },
        c2.pending().contains(group),
        a2 == Action::Wait || a2 == Action::Receive,
{
}

/// Selecting with no live worker backs off for the configured interval, and
/// while backing off no worker is selected until the backoff has elapsed.
pub proof fn lemma_backoff_on_empty_registry(
    pre: DispatchLoop,
    c0: &CompactionRequestChannel,
    r0: &WorkerRegistry,
    event: Event,
    post: DispatchLoop,
    c1: &CompactionRequestChannel,
    r1: &WorkerRegistry,
    act: Action,
)
    requires
        pre.state == LoopState::Running,
        DispatchLoop::step_spec(pre, c0, r0, event, post, c1, r1, act),
    ensures
        (post.state == LoopState::Running && (post.phase matches Phase::BackingOff { .. })) ==> act
            == (Action::Backoff { secs: BACKOFF_SECS }),
        ((pre.phase matches Phase::Fetching { .. }) && event == Event::Fetched(FetchOutcome::Task)
            && r0.workers().len() == 0) ==> (post.phase matches Phase::BackingOff { .. }),
        ((pre.phase matches Phase::BackingOff { .. }) && event != Event::BackoffElapsed && event
            != Event::Shutdown && event != Event::ChannelClosed) ==> {
            &&& post == pre
            &&& reg_same(r0, r1)
            &&& act == (Action::Backoff { secs: BACKOFF_SECS })
        },
{
}

/// Shutdown stops a running loop, and a stopped loop stays stopped and takes
/// nothing more from the channel, whatever is still queued.
pub proof fn lemma_shutdown_stops_loop(
    pre: DispatchLoop,
    c0: &CompactionRequestChannel,
    r0: &WorkerRegistry,
    event: Event,
    post: DispatchLoop,
    c1: &CompactionRequestChannel,
    r1: &WorkerRegistry,
    act: Action,
)
    requires
        (pre.state == LoopState::Running && event == Event::Shutdown) || pre.state
            == LoopState::Stopped,
        DispatchLoop::step_spec(pre, c0, r0, event, post, c1, r1, act),
    ensures
        post.state == LoopState::Stopped,
        act == Action::Exit,
        chan_same(c0, c1),
        reg_same(r0, r1),
{
}

} // verus!
