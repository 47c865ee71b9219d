use worker_channel::lifecycle::{WorkerEvent, WorkerLifecycle};

#[test]
fn worker_runs_then_exits_cleanly() {
    let mut state = WorkerLifecycle::Spawning;
    assert!(!state.accepts_requests());
    state.advance(WorkerEvent::ChannelsLive);
    assert_eq!(state, WorkerLifecycle::Running);
    assert!(state.accepts_requests());
    state.advance(WorkerEvent::CloseRequested);
    assert_eq!(state, WorkerLifecycle::Closing);
    assert!(!state.accepts_requests());
    state.advance(WorkerEvent::Reaped { exit_ok: true });
    assert_eq!(state, WorkerLifecycle::Closed { crashed: false });
}

#[test]
fn worker_crash_is_terminal() {
    // An I/O error on a running worker tears it down; the reap ends in a
    // crash, and nothing revives a closed worker.
    let mut state = WorkerLifecycle::Running;
    state.advance(WorkerEvent::IoError);
    assert_eq!(state, WorkerLifecycle::Closing);
    state.advance(WorkerEvent::Reaped { exit_ok: false });
    assert_eq!(state, WorkerLifecycle::Closed { crashed: true });
    for event in [
        WorkerEvent::ChannelsLive,
        WorkerEvent::CloseRequested,
        WorkerEvent::IoError,
        WorkerEvent::Reaped { exit_ok: true },
    ] {
        state.advance(event);
        assert_eq!(state, WorkerLifecycle::Closed { crashed: true });
        assert!(!state.accepts_requests());
    }
}

#[test]
fn failed_spawn_never_runs() {
    let mut state = WorkerLifecycle::Spawning;
    state.advance(WorkerEvent::IoError);
    assert_eq!(state, WorkerLifecycle::Closed { crashed: true });
}
