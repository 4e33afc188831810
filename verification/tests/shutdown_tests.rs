use devimint::shutdown::{
    cleanup_decision, race_result, CleanupAction, GroupState, MainEnd, RaceWinner, TaskGroup,
};

#[test]
fn repeated_shutdown_transitions_exactly_once() {
    let mut g = TaskGroup::new();
    assert_eq!(g.state, GroupState::Running);
    g.make_shutdown_rx();
    g.make_shutdown_rx();
    g.make_shutdown_rx();
    assert!(!g.rx_resolved());
    let first = g.shutdown();
    let second = g.shutdown();
    let third = g.shutdown();
    assert!(first);
    assert!(!second);
    assert!(!third);
    assert_eq!(g.state, GroupState::ShutdownRequested);
    // Every waiter observes the one transition.
    assert!(g.rx_resolved());
    assert_eq!(g.waiters, 3);
}

#[test]
fn shutdown_request_never_reverts() {
    let mut g = TaskGroup::new();
    g.track_task();
    g.track_task();
    g.shutdown();
    g.task_exited();
    assert_eq!(g.state, GroupState::ShutdownRequested);
    g.task_exited();
    assert_eq!(g.state, GroupState::Drained);
    assert!(g.rx_resolved());
    assert!(!g.shutdown());
    assert_eq!(g.state, GroupState::Drained);
}

#[test]
fn race_returns_the_futures_result_when_it_wins() {
    let r = race_result(RaceWinner::Main(31u64));
    assert_eq!(r.ok(), Some(31));
}

#[test]
fn race_returns_cancelled_when_shutdown_wins() {
    let r = race_result::<u64>(RaceWinner::Shutdown);
    assert!(r.is_err());
}

#[test]
fn cancelled_main_exits_early_and_successfully() {
    let a = cleanup_decision::<u64, Vec<u8>>(MainEnd::CancelledByShutdown);
    assert!(matches!(a, CleanupAction::ExitEarlyOk));
}

#[test]
fn finished_main_waits_for_the_shutdown_signal() {
    let a = cleanup_decision::<u64, Vec<u8>>(MainEnd::Finished(Ok(9)));
    assert!(matches!(a, CleanupAction::WaitForShutdownThenDrop(9)));
}

#[test]
fn failed_main_propagates_its_error() {
    let a = cleanup_decision::<u64, Vec<u8>>(MainEnd::Finished(Err(b"setup failed".to_vec())));
    match a {
        CleanupAction::Fail(e) => assert_eq!(e, b"setup failed".to_vec()),
        _ => panic!("expected the failure to propagate"),
    }
}
