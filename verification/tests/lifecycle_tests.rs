use screen_stream::lifecycle::{Lifecycle, Phase, SessionInfo};

#[test]
fn fresh_manager_tracks_nothing() {
    let m = Lifecycle::new();
    assert_eq!(m.phase, Phase::Stopped);
    assert_eq!(m.current_session(), None);
}

#[test]
fn stop_with_no_session_is_a_noop() {
    let mut m = Lifecycle::new();
    let prev = m.request_stop();
    assert_eq!(prev, None);
    assert_eq!(m.phase, Phase::Stopped);
    // And again: stopping twice is the same as stopping once.
    let prev = m.request_stop();
    assert_eq!(prev, None);
    assert_eq!(m.phase, Phase::Stopped);
}

#[test]
fn start_then_bind_runs_the_session() {
    let mut m = Lifecycle::new();
    let prev = m.request_start(9191, 0);
    assert_eq!(prev, None);
    assert_eq!(
        m.phase,
        Phase::Starting(SessionInfo { port: 9191, display_index: 0 })
    );
    m.bind_succeeded();
    assert_eq!(
        m.phase,
        Phase::Running(SessionInfo { port: 9191, display_index: 0 })
    );
    assert_eq!(
        m.current_session(),
        Some(SessionInfo { port: 9191, display_index: 0 })
    );
}

#[test]
fn bind_failure_fails_closed() {
    let mut m = Lifecycle::new();
    m.request_start(9191, 0);
    m.bind_failed();
    assert_eq!(m.phase, Phase::Stopped);
    assert_eq!(m.current_session(), None);
}

#[test]
fn restart_on_same_port_succeeds() {
    let mut m = Lifecycle::new();
    m.request_start(9191, 0);
    m.bind_succeeded();
    let prev = m.request_stop();
    assert_eq!(prev, Some(SessionInfo { port: 9191, display_index: 0 }));
    assert_eq!(m.phase, Phase::Stopped);
    let prev = m.request_start(9191, 0);
    assert_eq!(prev, None);
    m.bind_succeeded();
    assert_eq!(
        m.phase,
        Phase::Running(SessionInfo { port: 9191, display_index: 0 })
    );
}

#[test]
fn start_over_running_session_replaces_it() {
    let mut m = Lifecycle::new();
    m.request_start(9191, 0);
    m.bind_succeeded();
    // Same port, different display index: the old session is handed back
    // to be stopped first.
    let prev = m.request_start(9191, 1);
    assert_eq!(prev, Some(SessionInfo { port: 9191, display_index: 0 }));
    m.bind_succeeded();
    assert_eq!(
        m.phase,
        Phase::Running(SessionInfo { port: 9191, display_index: 1 })
    );
}

#[test]
fn start_over_running_session_can_fail_closed() {
    let mut m = Lifecycle::new();
    m.request_start(9191, 0);
    m.bind_succeeded();
    let prev = m.request_start(9191, 1);
    assert_eq!(prev, Some(SessionInfo { port: 9191, display_index: 0 }));
    // The port was not yet released: the bind fails, and no session at all
    // is recorded — a clear error, never a hang.
    m.bind_failed();
    assert_eq!(m.phase, Phase::Stopped);
    assert_eq!(m.current_session(), None);
}

#[test]
fn stop_after_start_hands_back_the_session() {
    let mut m = Lifecycle::new();
    m.request_start(8080, 2);
    m.bind_succeeded();
    let prev = m.request_stop();
    assert_eq!(prev, Some(SessionInfo { port: 8080, display_index: 2 }));
    assert_eq!(m.phase, Phase::Stopped);
}
