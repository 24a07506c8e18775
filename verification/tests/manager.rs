use runtime::bridge::manager::BridgeState;

#[test]
fn bridge_state_lifecycle() {
    let mut state = BridgeState::new();
    assert!(!state.is_running());
    assert!(state.poll_target().is_none());
    assert_eq!(state.heartbeat_target(), Err((false, "not_running".to_string())));
    assert_eq!(state.reconnect_target().err().map(|e| e.to_string()), Some("Request failed: Bridge not running".to_string()));

    state.start_completed("env-1".to_string(), "secret".to_string());
    assert!(state.is_running());
    assert_eq!(state.environment_id(), Some("env-1".to_string()));
    assert_eq!(state.poll_target(), Some(("env-1".to_string(), "secret".to_string())));

    state.work_acknowledged("w1".into(), "t1".into(), "s1".into(), 10);
    state.work_acknowledged("w2".into(), "t2".into(), "s2".into(), 11);
    state.work_acknowledged("w1".into(), "t3".into(), "s3".into(), 12);
    assert_eq!(state.active_session_count(), 3);

    state.work_stopped("w1");
    assert_eq!(state.active_session_count(), 1);
    state.work_stopped("w1");
    assert_eq!(state.active_session_count(), 1);
    state.work_stopped("w2");
    assert_eq!(state.active_session_count(), 0);

    state.stop_completed();
    assert!(!state.is_running());
    // the environment is kept after a stop
    assert_eq!(state.poll_target(), Some(("env-1".to_string(), "secret".to_string())));
}

#[test]
fn acknowledge_then_stop_same_work() {
    let mut a = BridgeState::new();
    a.start_completed("e".into(), "s".into());
    a.work_acknowledged("w0".into(), "t".into(), "s0".into(), 1);
    a.work_acknowledged("w9".into(), "t".into(), "s9".into(), 2);
    a.work_stopped("w9");
    assert_eq!(a.active_session_count(), 1);
}
