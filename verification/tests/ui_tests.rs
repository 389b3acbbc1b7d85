use orion_rpc::ui::{version_caption, UiCommand, UiEffect, UiState, EXECUTE_UPDATE_REQUEST};

#[test]
fn new_window_shows_no_update() {
    let s = UiState::new(true);
    let b = s.update_button();
    assert_eq!(b.label, "No update available");
    assert!(b.disabled);
    let a = s.autolaunch_button();
    assert_eq!(a.label, "Disable");
    assert!(!a.disabled);
    assert_eq!(UiState::new(false).autolaunch_button().label, "Enable");
}

#[test]
fn announced_update_is_offered_once() {
    let mut s = UiState::new(false);
    assert!(!s.begin_update());
    let e = s.apply_command(UiCommand::UpdateAvailable { version: "1.2.0".to_string() });
    assert_eq!(e, UiEffect::Refresh);
    let b = s.update_button();
    assert_eq!(b.label, "Update (v1.2.0)");
    assert!(!b.disabled);
    assert!(s.begin_update());
    let b = s.update_button();
    assert_eq!(b.label, "Updating...");
    assert!(b.disabled);
    assert!(!s.begin_update());
    assert_eq!(EXECUTE_UPDATE_REQUEST, "ExecuteUpdate");
}

#[test]
fn failed_update_can_be_retried() {
    let mut s = UiState::new(false);
    s.apply_command(UiCommand::UpdateAvailable { version: "2.0.0".to_string() });
    assert!(s.begin_update());
    s.apply_command(UiCommand::UpdateFailed { reason: "network".to_string() });
    assert!(!s.update_loading);
    assert_eq!(s.update_button().label, "Update (v2.0.0)");
    assert!(s.begin_update());
}

#[test]
fn toggle_succeeds() {
    let mut s = UiState::new(false);
    assert_eq!(s.begin_autolaunch_toggle(), Some(true));
    let a = s.autolaunch_button();
    assert_eq!(a.label, "Updating...");
    assert!(a.disabled);
    assert_eq!(s.begin_autolaunch_toggle(), None);
    s.finish_autolaunch_toggle(true, true);
    assert!(s.is_autolaunch);
    assert!(!s.autolaunch_loading);
    assert_eq!(s.autolaunch_button().label, "Disable");
}

#[test]
fn toggle_failure_keeps_setting() {
    let mut s = UiState::new(true);
    assert_eq!(s.begin_autolaunch_toggle(), Some(false));
    s.finish_autolaunch_toggle(false, false);
    assert!(s.is_autolaunch);
    assert!(!s.autolaunch_loading);
}

#[test]
fn window_commands() {
    let mut s = UiState::new(false);
    assert_eq!(s.apply_command(UiCommand::ShowWindow), UiEffect::ActivateWindow);
    assert_eq!(s.apply_command(UiCommand::Quit), UiEffect::Quit);
    assert!(s.update_version.is_none());
}

#[test]
fn caption_shows_version() {
    assert_eq!(version_caption("0.1.0"), "Version: v0.1.0");
}
