use dsh_desktop::state::{
    get_backend_url, get_update_version, reload, reload_target, restart_backend, AppState,
    PendingUpdate,
};

fn at(url: Option<&str>) -> AppState<()> {
    AppState { url: url.map(|u| u.to_string()), ..AppState::default() }
}

#[test]
fn the_state_begins_empty() {
    let state: AppState<()> = AppState::default();
    assert_eq!(state.pid, None);
    assert_eq!(state.url, None);
    assert!(!state.shutting_down);
    assert_eq!(state.pending, None);
    assert!(!state.downloading);
    assert_eq!(get_backend_url(&state), None);
    assert_eq!(restart_backend(&state), None);
    assert_eq!(get_update_version(&state), None);
}

#[test]
fn a_reload_goes_to_the_backend() {
    let port_80 = at(Some("http://127.0.0.1:80"));
    assert_eq!(reload_target(&port_80), "http://127.0.0.1:80");
    assert_eq!(reload(&port_80), Some("http://127.0.0.1/".to_string()));
    let port_0 = at(Some("http://127.0.0.1:0"));
    assert_eq!(reload(&port_0), Some("http://127.0.0.1:0/".to_string()));
    let last = at(Some("http://127.0.0.1:65535"));
    assert_eq!(reload(&last), Some("http://127.0.0.1:65535/".to_string()));
}

#[test]
fn a_reload_without_a_backend_goes_nowhere() {
    assert_eq!(reload_target(&at(None)), "index.html");
    assert_eq!(reload(&at(None)), None);
    assert_eq!(reload(&at(Some("http://127.0.0.1:65536"))), None);
}

#[test]
fn the_pending_version_is_known() {
    let pending = PendingUpdate { version: "0.2.3".to_string(), update: (), bytes: vec![1, 2] };
    let state = AppState { pending: Some(pending), ..AppState::default() };
    assert_eq!(get_update_version(&state), Some("0.2.3".to_string()));
}
