use devimint::config::GlobalConfig;
use devimint::procs::ProcessManager;
use devimint::shutdown::{GroupState, TaskGroup};

fn manager() -> ProcessManager {
    ProcessManager::new(GlobalConfig::new(b"/tmp/d".to_vec(), 4, 0))
}

#[test]
fn spawned_processes_are_tracked() {
    let mut m = manager();
    let a = m.register(b"bitcoind".to_vec(), true);
    let b = m.register(b"lightningd".to_vec(), true);
    let c = m.register(b"esplora".to_vec(), true);
    assert_eq!((a, b, c), (0, 1, 2));
    assert_eq!(m.process_count(), 3);
    assert!(m.is_running(0) && m.is_running(1) && m.is_running(2));
}

#[test]
fn double_stop_is_a_no_op() {
    let mut m = manager();
    let h = m.register(b"bitcoind".to_vec(), true);
    m.stop(h);
    assert!(!m.is_running(h));
    m.stop(h);
    assert!(!m.is_running(h));
    assert_eq!(m.process_count(), 1);
}

#[test]
fn group_shutdown_tears_down_all_three_processes() {
    // Three tracked processes; the task group's shutdown is requested; all
    // three receive termination, and the registry shows every entry exited.
    let mut m = manager();
    m.register(b"bitcoind".to_vec(), true);
    m.register(b"lightningd".to_vec(), true);
    m.register(b"esplora".to_vec(), true);
    let mut g = TaskGroup::new();
    g.track_task();
    assert!(g.shutdown());
    m.teardown();
    assert_eq!(m.process_count(), 3);
    for h in 0..3 {
        assert!(!m.is_running(h));
    }
    g.task_exited();
    assert_eq!(g.state, GroupState::Drained);
}
