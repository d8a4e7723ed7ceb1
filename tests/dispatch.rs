use compaction_scheduler::dispatch::{
    is_fatal, Action, AssignError, DispatchLoop, Event, FetchOutcome, LoopState, Phase,
    BACKOFF_SECS, SEND_TIMEOUT_SECS,
};
use compaction_scheduler::request_channel::CompactionRequestChannel;
use compaction_scheduler::worker_registry::WorkerRegistry;

fn running(workers: &[u32]) -> (DispatchLoop, CompactionRequestChannel, WorkerRegistry) {
    let mut d = DispatchLoop::new();
    assert!(d.start());
    let mut reg = WorkerRegistry::new();
    for w in workers {
        reg.add_worker(*w);
    }
    (d, CompactionRequestChannel::new(), reg)
}

fn send(worker: u32) -> Action {
    Action::Send { worker, timeout_secs: SEND_TIMEOUT_SECS }
}

#[test]
fn start_only_once() {
    let mut d = DispatchLoop::new();
    assert_eq!(d.state, LoopState::NotStarted);
    assert!(d.start());
    assert_eq!(d.state, LoopState::Running);
    assert!(!d.start());
    assert_eq!(d.state, LoopState::Running);
}

#[test]
fn loop_not_started_exits() {
    let mut d = DispatchLoop::new();
    let mut chan = CompactionRequestChannel::new();
    let mut reg = WorkerRegistry::new();
    chan.try_send(1);
    assert_eq!(d.step(&mut chan, &mut reg, Event::RequestReady), Action::Exit);
    assert_eq!(d.state, LoopState::NotStarted);
    assert_eq!(chan.receive(), Some(1));
}

#[test]
fn fatal_errors_classified() {
    assert!(is_fatal(AssignError::InvalidContext));
    assert!(is_fatal(AssignError::CompactorUnreachable));
    assert!(!is_fatal(AssignError::Other));
}

#[test]
fn successful_assignment_reschedules_group() {
    let (mut d, mut chan, mut reg) = running(&[1]);
    assert_eq!(d.step(&mut chan, &mut reg, Event::RequestReady), Action::Wait);
    chan.try_send(5);
    assert_eq!(d.step(&mut chan, &mut reg, Event::RequestReady), Action::FetchTask { group: 5 });
    assert_eq!(d.phase, Phase::Fetching { group: 5 });
    assert_eq!(d.step(&mut chan, &mut reg, Event::Fetched(FetchOutcome::Task)), send(1));
    assert_eq!(d.phase, Phase::Sending { group: 5, worker: 1 });
    assert_eq!(d.step(&mut chan, &mut reg, Event::AssignSucceeded), Action::Receive);
    assert_eq!(d.phase, Phase::Waiting);
    assert_eq!(chan.receive(), Some(5));
    assert_eq!(chan.receive(), None);
}

#[test]
fn request_during_assignment_is_delivered_again() {
    let (mut d, mut chan, mut reg) = running(&[1]);
    chan.try_send(8);
    assert_eq!(d.step(&mut chan, &mut reg, Event::RequestReady), Action::FetchTask { group: 8 });
    assert!(chan.try_send(8));
    assert_eq!(d.step(&mut chan, &mut reg, Event::Fetched(FetchOutcome::Task)), send(1));
    assert_eq!(d.step(&mut chan, &mut reg, Event::AssignSucceeded), Action::Receive);
    assert_eq!(d.step(&mut chan, &mut reg, Event::RequestReady), Action::FetchTask { group: 8 });
    assert!(chan.is_empty());
}

#[test]
fn no_task_or_failed_fetch_goes_back_to_waiting() {
    let (mut d, mut chan, mut reg) = running(&[1]);
    chan.try_send(2);
    d.step(&mut chan, &mut reg, Event::RequestReady);
    assert_eq!(d.step(&mut chan, &mut reg, Event::Fetched(FetchOutcome::NoTask)), Action::Wait);
    chan.try_send(2);
    chan.try_send(3);
    d.step(&mut chan, &mut reg, Event::RequestReady);
    assert_eq!(d.step(&mut chan, &mut reg, Event::Fetched(FetchOutcome::Failed)), Action::Receive);
    assert_eq!(d.phase, Phase::Waiting);
    assert_eq!(reg.next_worker(), Some(1));
}

#[test]
fn fatal_failure_removes_worker() {
    let (mut d, mut chan, mut reg) = running(&[1, 2]);
    chan.try_send(4);
    d.step(&mut chan, &mut reg, Event::RequestReady);
    assert_eq!(d.step(&mut chan, &mut reg, Event::Fetched(FetchOutcome::Task)), send(1));
    let next = d.step(&mut chan, &mut reg, Event::AssignFailed(AssignError::CompactorUnreachable));
    assert_eq!(next, send(2));
    for _ in 0..4 {
        assert_eq!(reg.next_worker(), Some(2));
    }
}

#[test]
fn invalid_context_on_last_worker_backs_off() {
    let (mut d, mut chan, mut reg) = running(&[6]);
    chan.try_send(4);
    d.step(&mut chan, &mut reg, Event::RequestReady);
    assert_eq!(d.step(&mut chan, &mut reg, Event::Fetched(FetchOutcome::Task)), send(6));
    let next = d.step(&mut chan, &mut reg, Event::AssignFailed(AssignError::InvalidContext));
    assert_eq!(next, Action::Backoff { secs: BACKOFF_SECS });
    assert_eq!(reg.next_worker(), None);
}

#[test]
fn transient_failure_then_success() {
    let (mut d, mut chan, mut reg) = running(&[1]);
    chan.try_send(9);
    d.step(&mut chan, &mut reg, Event::RequestReady);
    assert_eq!(d.step(&mut chan, &mut reg, Event::Fetched(FetchOutcome::Task)), send(1));
    assert_eq!(d.step(&mut chan, &mut reg, Event::AssignFailed(AssignError::Other)), send(1));
    assert_eq!(d.step(&mut chan, &mut reg, Event::AssignSucceeded), Action::Receive);
    assert_eq!(chan.receive(), Some(9));
    assert_eq!(chan.receive(), None);
    assert_eq!(reg.next_worker(), Some(1));
}

#[test]
fn empty_registry_backs_off_before_selecting() {
    let (mut d, mut chan, mut reg) = running(&[]);
    chan.try_send(3);
    d.step(&mut chan, &mut reg, Event::RequestReady);
    let backoff = Action::Backoff { secs: 60 };
    assert_eq!(d.step(&mut chan, &mut reg, Event::Fetched(FetchOutcome::Task)), backoff);
    assert_eq!(d.phase, Phase::BackingOff { group: 3 });
    reg.add_worker(5);
    assert_eq!(d.step(&mut chan, &mut reg, Event::RequestReady), backoff);
    assert_eq!(d.step(&mut chan, &mut reg, Event::AssignSucceeded), backoff);
    assert_eq!(d.phase, Phase::BackingOff { group: 3 });
    assert_eq!(d.step(&mut chan, &mut reg, Event::BackoffElapsed), send(5));
}

#[test]
fn shutdown_stops_with_pending_signals() {
    let (mut d, mut chan, mut reg) = running(&[1]);
    chan.try_send(1);
    chan.try_send(2);
    chan.try_send(3);
    assert_eq!(d.step(&mut chan, &mut reg, Event::Shutdown), Action::Exit);
    assert_eq!(d.state, LoopState::Stopped);
    assert_eq!(d.step(&mut chan, &mut reg, Event::RequestReady), Action::Exit);
    assert!(!d.start());
    assert_eq!(chan.receive(), Some(1));
    assert_eq!(chan.receive(), Some(2));
    assert_eq!(chan.receive(), Some(3));
}

#[test]
fn shutdown_while_backing_off() {
    let (mut d, mut chan, mut reg) = running(&[]);
    chan.try_send(3);
    d.step(&mut chan, &mut reg, Event::RequestReady);
    d.step(&mut chan, &mut reg, Event::Fetched(FetchOutcome::Task));
    assert_eq!(d.step(&mut chan, &mut reg, Event::Shutdown), Action::Exit);
    assert_eq!(d.state, LoopState::Stopped);
}

#[test]
fn closed_channel_stops_loop() {
    let (mut d, mut chan, mut reg) = running(&[1]);
    assert_eq!(d.step(&mut chan, &mut reg, Event::ChannelClosed), Action::Exit);
    assert_eq!(d.state, LoopState::Stopped);
}

#[test]
fn unexpected_event_reissues_action() {
    let (mut d, mut chan, mut reg) = running(&[1]);
    chan.try_send(2);
    d.step(&mut chan, &mut reg, Event::RequestReady);
    assert_eq!(d.step(&mut chan, &mut reg, Event::BackoffElapsed), Action::FetchTask { group: 2 });
    d.step(&mut chan, &mut reg, Event::Fetched(FetchOutcome::Task));
    assert_eq!(d.step(&mut chan, &mut reg, Event::Fetched(FetchOutcome::Task)), send(1));
}
