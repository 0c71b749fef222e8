use spaceboard::process::{liveness_from_query, ProcessTable};

#[test]
fn query_false_without_matching_process() {
    let t = ProcessTable { matching: 0, pending: 0 };
    assert!(!t.query());
}

#[test]
fn query_true_with_matching_process() {
    let t = ProcessTable { matching: 1, pending: 0 };
    assert!(t.query());
    let many = ProcessTable { matching: 7, pending: 2 };
    assert!(many.query());
}

#[test]
fn commanded_start_leaves_query_unchanged() {
    let stopped = ProcessTable { matching: 0, pending: 0 };
    assert_eq!(stopped.command_start().query(), stopped.query());
    let running = ProcessTable { matching: 1, pending: 0 };
    assert_eq!(running.command_start().query(), running.query());
}

#[test]
fn scheduled_start_turns_query_true() {
    let t = ProcessTable { matching: 0, pending: 0 };
    let commanded = t.command_start();
    assert!(!commanded.query());
    let scheduled = commanded.schedule_start();
    assert!(scheduled.query());
    assert_eq!(scheduled, ProcessTable { matching: 1, pending: 0 });
}

#[test]
fn show_signal_preserves_processes() {
    let running = ProcessTable { matching: 2, pending: 1 };
    assert_eq!(running.signal_show(), running);
    let stopped = ProcessTable { matching: 0, pending: 0 };
    assert_eq!(stopped.signal_show(), stopped);
}

#[test]
fn hide_signal_preserves_processes() {
    let running = ProcessTable { matching: 2, pending: 1 };
    assert_eq!(running.signal_hide(), running);
    assert_eq!(running.signal_hide().query(), running.query());
}

#[test]
fn kill_removes_every_matching_process() {
    let running = ProcessTable { matching: 5, pending: 1 };
    let killed = running.kill();
    assert!(!killed.query());
    assert_eq!(killed, ProcessTable { matching: 0, pending: 1 });
}

#[test]
fn query_error_is_coerced_to_not_running() {
    assert!(!liveness_from_query(None));
    assert!(!liveness_from_query(Some(false)));
    assert!(liveness_from_query(Some(true)));
}
