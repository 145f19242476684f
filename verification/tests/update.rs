use dsh_desktop::state::{get_update_version, AppState, PendingUpdate};
use dsh_desktop::update::{
    auto_update_check, check_delay, check_for_updates, install_update, Dialog, UpdateEvent,
    UpdateFlow, UpdatePayload, LATER_BUTTON, RESTART_BUTTON, UPDATE_AVAILABLE_EVENT,
};

fn pending() -> PendingUpdate<u8> {
    PendingUpdate { version: "0.2.3".to_string(), update: 7, bytes: vec![1, 2, 3] }
}

fn idle() -> AppState<u8> {
    AppState::default()
}

fn holding() -> AppState<u8> {
    AppState { pending: Some(pending()), ..AppState::default() }
}

fn busy() -> AppState<u8> {
    AppState { downloading: true, ..AppState::default() }
}

fn dialog(title: &str, message: &str) -> Dialog {
    Dialog { title: title.to_string(), message: message.to_string() }
}

fn prompt() -> Dialog {
    dialog(
        "Update Ready",
        "DeepSeek Harness 0.2.3 has been downloaded.\n\nRestart now to install the update?",
    )
}

fn download(flow: UpdateFlow<u8>, state: &mut AppState<u8>) -> UpdateFlow<u8> {
    let found = UpdateEvent::Found { version: "0.2.3".to_string(), update: 7 };
    let flow = flow.next(state, found);
    assert_eq!(state.pending, None);
    flow.next(state, UpdateEvent::Downloaded(vec![1, 2, 3]))
}

#[test]
fn a_manual_check_downloads_announces_and_asks() {
    let mut state = idle();
    let flow = check_for_updates(&mut state);
    assert_eq!(flow, UpdateFlow::Checking { manual: true });
    assert!(state.downloading);
    let flow = download(flow, &mut state);
    let payload = UpdatePayload { version: "0.2.3".to_string() };
    assert_eq!(flow, UpdateFlow::Announcing { manual: true, payload });
    assert_eq!(get_update_version(&state), Some("0.2.3".to_string()));
    let flow = flow.next(&mut state, UpdateEvent::Announced);
    assert_eq!(flow, UpdateFlow::Asking { prompt: prompt(), pending: pending() });
    assert_eq!(state, busy());
    let flow = flow.next(&mut state, UpdateEvent::Chosen(true));
    assert_eq!(flow, UpdateFlow::Installing { asked: true, pending: pending() });
    let flow = flow.next(&mut state, UpdateEvent::Installed);
    assert_eq!(flow, UpdateFlow::Restarting);
    assert!(state.downloading);
}

#[test]
fn a_background_check_only_announces() {
    let mut state = idle();
    let flow = auto_update_check(&mut state);
    assert_eq!(flow, UpdateFlow::Checking { manual: false });
    let flow = download(flow, &mut state);
    let flow = flow.next(&mut state, UpdateEvent::Announced);
    assert_eq!(flow, UpdateFlow::Over(Ok(())));
    assert_eq!(state, holding());
}

#[test]
fn a_background_check_fails_silently() {
    for event in [UpdateEvent::UpToDate, UpdateEvent::Failed("offline".to_string())] {
        let mut state = idle();
        let flow = auto_update_check(&mut state).next(&mut state, event);
        assert_eq!(flow, UpdateFlow::Over(Ok(())));
        assert_eq!(state, idle());
    }
}

#[test]
fn a_manual_check_reports() {
    let cases = [
        (UpdateEvent::UpToDate, "You are running the latest version."),
        (UpdateEvent::Failed("offline".to_string()), "Update check failed: offline"),
    ];
    for (event, message) in cases {
        let mut state = idle();
        let flow = check_for_updates(&mut state).next(&mut state, event);
        let told = dialog("DeepSeek Harness", message);
        assert_eq!(flow, UpdateFlow::Reporting { dialog: told, result: Ok(()) });
        assert!(state.downloading);
        let flow = flow.next(&mut state, UpdateEvent::Dismissed);
        assert_eq!(flow, UpdateFlow::Over(Ok(())));
        assert_eq!(state, idle());
    }
}

#[test]
fn a_failed_download_is_reported() {
    let mut state = idle();
    let flow = check_for_updates(&mut state);
    let flow =
        flow.next(&mut state, UpdateEvent::Found { version: "0.2.3".to_string(), update: 7 });
    let flow = flow.next(&mut state, UpdateEvent::Failed("broken".to_string()));
    let told = dialog("DeepSeek Harness", "Update check failed: broken");
    assert_eq!(flow, UpdateFlow::Reporting { dialog: told, result: Ok(()) });
    assert_eq!(state, busy());
}

#[test]
fn only_one_operation_runs_at_a_time() {
    let mut state = busy();
    assert_eq!(
        install_update(&mut state),
        UpdateFlow::Over(Err("Another update operation is already running.".to_string()))
    );
    assert_eq!(check_for_updates(&mut state), UpdateFlow::Over(Ok(())));
    assert_eq!(auto_update_check(&mut state), UpdateFlow::Over(Ok(())));
    assert_eq!(state, busy());
}

#[test]
fn nothing_new_is_downloaded_while_one_is_pending() {
    let mut state = holding();
    assert_eq!(auto_update_check(&mut state), UpdateFlow::Over(Ok(())));
    assert_eq!(state, holding());
    assert_eq!(
        check_for_updates(&mut state),
        UpdateFlow::Asking { prompt: prompt(), pending: pending() }
    );
}

#[test]
fn later_keeps_the_update() {
    let mut state = holding();
    let flow = check_for_updates(&mut state).next(&mut state, UpdateEvent::Chosen(false));
    assert_eq!(flow, UpdateFlow::Over(Ok(())));
    assert_eq!(state, holding());
}

#[test]
fn installing_asks_nothing() {
    let mut state = holding();
    let flow = install_update(&mut state);
    assert_eq!(flow, UpdateFlow::Installing { asked: false, pending: pending() });
    assert_eq!(state, busy());
    assert_eq!(flow.next(&mut state, UpdateEvent::Installed), UpdateFlow::Restarting);
}

#[test]
fn installing_needs_a_download() {
    let mut state = idle();
    assert_eq!(
        install_update(&mut state),
        UpdateFlow::Over(Err("No downloaded update is available.".to_string()))
    );
    assert_eq!(state, idle());
}

#[test]
fn a_failed_installation_can_be_tried_again() {
    let mut state = holding();
    let flow = install_update(&mut state);
    let flow = flow.next(&mut state, UpdateEvent::Failed("denied".to_string()));
    let told = dialog("DeepSeek Harness", "Install failed: denied");
    assert_eq!(flow, UpdateFlow::Reporting { dialog: told, result: Err("denied".to_string()) });
    assert_eq!(get_update_version(&state), Some("0.2.3".to_string()));
    let flow = flow.next(&mut state, UpdateEvent::Dismissed);
    assert_eq!(flow, UpdateFlow::Over(Err("denied".to_string())));
    assert_eq!(state, holding());
    assert_eq!(
        install_update(&mut state),
        UpdateFlow::Installing { asked: false, pending: pending() }
    );
}

#[test]
fn a_failed_installation_after_the_prompt_is_reported() {
    let mut state = holding();
    let flow = check_for_updates(&mut state).next(&mut state, UpdateEvent::Chosen(true));
    let flow = flow.next(&mut state, UpdateEvent::Failed("denied".to_string()));
    let told = dialog("DeepSeek Harness", "Install failed: denied");
    assert_eq!(flow, UpdateFlow::Reporting { dialog: told, result: Ok(()) });
    let flow = flow.next(&mut state, UpdateEvent::Dismissed);
    assert_eq!(flow, UpdateFlow::Over(Ok(())));
    assert_eq!(state, idle());
}

#[test]
fn an_event_that_is_not_expected_changes_nothing() {
    let mut state = idle();
    let flow = check_for_updates(&mut state).next(&mut state, UpdateEvent::Installed);
    assert_eq!(flow, UpdateFlow::Checking { manual: true });
    assert_eq!(state, busy());
}

#[test]
fn checks_run_every_half_hour() {
    assert_eq!(check_delay(true), 20);
    assert_eq!(check_delay(false), 30 * 60);
    assert_eq!(UPDATE_AVAILABLE_EVENT, "update-available");
    assert_eq!(RESTART_BUTTON, "Restart & Update");
    assert_eq!(LATER_BUTTON, "Later");
}
