use compaction_scheduler::worker_registry::WorkerRegistry;

#[test]
fn empty_registry_has_no_worker() {
    let mut reg = WorkerRegistry::new();
    assert_eq!(reg.next_worker(), None);
}

#[test]
fn workers_are_picked_round_robin() {
    let mut reg = WorkerRegistry::new();
    assert!(reg.add_worker(10));
    assert!(reg.add_worker(20));
    assert!(reg.add_worker(30));
    assert!(!reg.add_worker(20));
    assert_eq!(reg.next_worker(), Some(10));
    assert_eq!(reg.next_worker(), Some(20));
    assert_eq!(reg.next_worker(), Some(30));
    assert_eq!(reg.next_worker(), Some(10));
}

#[test]
fn removed_worker_is_never_picked() {
    let mut reg = WorkerRegistry::new();
    reg.add_worker(1);
    reg.add_worker(2);
    reg.add_worker(3);
    reg.remove_worker(2);
    for _ in 0..6 {
        assert_ne!(reg.next_worker(), Some(2));
    }
    reg.remove_worker(1);
    reg.remove_worker(3);
    assert_eq!(reg.next_worker(), None);
    reg.remove_worker(9);
    assert_eq!(reg.next_worker(), None);
}
