use dsh_desktop::launch::Backend;
use dsh_desktop::state::{begin_shutdown, get_backend_url, reload, restart_backend, AppState};
use dsh_desktop::status::{BackendStatus, BACKEND_STATUS_EVENT};
use dsh_desktop::watchdog::{restart_delay, start_watchdog, Turn, Watchdog, WatchdogEvent};

fn backend() -> Backend {
    Backend { pid: 42, port: 5000, url: "http://127.0.0.1:5000".to_string() }
}

fn status(state: &str, url: Option<&str>, message: Option<&str>) -> Option<BackendStatus> {
    Some(BackendStatus {
        state: state.to_string(),
        url: url.map(|u| u.to_string()),
        message: message.map(|m| m.to_string()),
    })
}

fn awaiting(state: &mut AppState<()>) -> Watchdog {
    let turn = start_watchdog(state);
    assert_eq!(turn.announce, status("starting", None, None));
    let turn = turn.watchdog.next(state, WatchdogEvent::Started(backend()));
    assert_eq!(turn.announce, None);
    turn.watchdog
}

fn serving(state: &mut AppState<()>) -> Watchdog {
    let watchdog = awaiting(state);
    watchdog.next(state, WatchdogEvent::Ready).watchdog
}

/// Lets a run that has ended settle and pause.
fn after(state: &mut AppState<()>, turn: Turn) -> (bool, Turn) {
    let turn = turn.watchdog.next(state, WatchdogEvent::Settled);
    let errored = match &turn.watchdog {
        Watchdog::Pausing { errored } => *errored,
        other => panic!("unexpected phase: {other:?}"),
    };
    (errored, turn.watchdog.next(state, WatchdogEvent::Paused))
}

#[test]
fn the_url_is_published_only_when_ready() {
    let mut state: AppState<()> = AppState::default();
    let watchdog = awaiting(&mut state);
    assert_eq!(state.pid, Some(42));
    assert_eq!(restart_backend(&state), Some(42));
    assert_eq!(get_backend_url(&state), None);
    assert_eq!(reload(&state), None);

    let turn = watchdog.next(&mut state, WatchdogEvent::Ready);
    assert_eq!(turn.announce, status("ready", Some("http://127.0.0.1:5000"), None));
    assert_eq!(get_backend_url(&state), Some("http://127.0.0.1:5000".to_string()));
    assert_eq!(reload(&state), Some("http://127.0.0.1:5000/".to_string()));
    assert_eq!(
        turn.watchdog,
        Watchdog::Serving { pid: 42, url: "http://127.0.0.1:5000".to_string() }
    );
}

#[test]
fn a_backend_that_exits_is_started_again() {
    let mut state: AppState<()> = AppState::default();
    let watchdog = serving(&mut state);
    let turn = watchdog.next(&mut state, WatchdogEvent::Gone);
    assert_eq!(turn.announce, status("stopped", None, Some("backend process exited; restarting…")));
    assert_eq!(state, AppState::default());
    let (errored, turn) = after(&mut state, turn);
    assert!(!errored);
    assert_eq!(turn.watchdog, Watchdog::Starting);
    assert_eq!(turn.announce, status("starting", None, None));
}

#[test]
fn a_backend_that_exits_early_is_an_error() {
    let mut state: AppState<()> = AppState::default();
    let watchdog = awaiting(&mut state);
    let event = WatchdogEvent::ExitedEarly {
        status: "exit status: 1".to_string(),
        tail: "EISDIR".to_string(),
    };
    let turn = watchdog.next(&mut state, event);
    assert_eq!(turn.announce, None);
    assert_eq!(state.pid, Some(42));
    let turn = turn.watchdog.next(&mut state, WatchdogEvent::Gone);
    assert_eq!(
        turn.announce,
        status("error", None, Some("backend exited before ready (exit status: 1).\nEISDIR"))
    );
    assert_eq!(state, AppState::default());
    let (errored, turn) = after(&mut state, turn);
    assert!(errored);
    assert_eq!(turn.watchdog, Watchdog::Starting);
}

#[test]
fn a_backend_that_is_not_ready_in_time_is_ended() {
    let mut state: AppState<()> = AppState::default();
    let watchdog = awaiting(&mut state);
    let turn = watchdog.next(&mut state, WatchdogEvent::TimedOut { tail: "slow".to_string() });
    match &turn.watchdog {
        Watchdog::Ending { pid, .. } => assert_eq!(*pid, 42),
        other => panic!("unexpected phase: {other:?}"),
    }
    let turn = turn.watchdog.next(&mut state, WatchdogEvent::Ended);
    assert_eq!(turn.announce, None);
    assert_eq!(state.pid, Some(42));
    let turn = turn.watchdog.next(&mut state, WatchdogEvent::Gone);
    assert_eq!(
        turn.announce,
        status("error", None, Some("backend did not become ready within 60s.\nslow"))
    );
    assert_eq!(state, AppState::default());
    assert!(after(&mut state, turn).0);
}

#[test]
fn a_start_that_fails_is_an_error() {
    let mut state: AppState<()> = AppState::default();
    let turn = start_watchdog(&state);
    let turn = turn.watchdog.next(&mut state, WatchdogEvent::StartFailed("no dsh".to_string()));
    assert_eq!(turn.announce, status("error", None, Some("no dsh")));
    let (errored, turn) = after(&mut state, turn);
    assert!(errored);
    assert_eq!(turn.watchdog, Watchdog::Starting);
}

#[test]
fn an_error_pauses_longer() {
    assert_eq!(restart_delay(false), 1);
    assert_eq!(restart_delay(true), 3);
}

#[test]
fn nothing_starts_while_the_application_exits() {
    let mut state: AppState<()> = AppState::default();
    let watchdog = serving(&mut state);
    assert_eq!(begin_shutdown(&mut state), Some(42));
    assert!(state.shutting_down);
    let turn = watchdog.next(&mut state, WatchdogEvent::Gone);
    let turn = turn.watchdog.next(&mut state, WatchdogEvent::Settled);
    assert_eq!(turn.watchdog, Watchdog::Finished);
    let turn = turn.watchdog.next(&mut state, WatchdogEvent::Paused);
    assert_eq!(turn.watchdog, Watchdog::Finished);
    assert_eq!(turn.announce, None);
    assert_eq!(start_watchdog(&state).watchdog, Watchdog::Finished);

    let paused = Watchdog::Pausing { errored: true }.next(&mut state, WatchdogEvent::Paused);
    assert_eq!(paused.watchdog, Watchdog::Finished);
    assert_eq!(begin_shutdown(&mut state), None);
}

#[test]
fn an_event_that_is_not_awaited_changes_nothing() {
    let mut state: AppState<()> = AppState::default();
    let turn = Watchdog::Starting.next(&mut state, WatchdogEvent::Ready);
    assert_eq!(turn.watchdog, Watchdog::Starting);
    assert_eq!(turn.announce, None);
    assert_eq!(state, AppState::default());
}

#[test]
fn the_status_event_has_its_name() {
    assert_eq!(BACKEND_STATUS_EVENT, "backend-status");
}
