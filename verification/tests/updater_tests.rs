use orion_rpc::backend::AppCommand;
use orion_rpc::ui::UiCommand;
use orion_rpc::updater::{
    bin_name_or_default, check_for_updates, install_follow_up, UpdateCheckError, UpdatePoller,
    CHECK_INTERVAL_SECS, FIRST_CHECK_DELAY_SECS,
};
use orion_rpc::version::VersionError;

#[test]
fn fetch_error_is_kept() {
    match check_for_updates(Err("offline".to_string()), "1.0.0") {
        Err(UpdateCheckError::Fetch(e)) => assert_eq!(e, "offline"),
        _ => panic!("expected a fetch error"),
    }
}

#[test]
fn version_error_is_reported() {
    let r = check_for_updates(Ok(vec!["nope".to_string()]), "1.0.0");
    assert!(matches!(r, Err(UpdateCheckError::Version(_))));
}

#[test]
fn newer_release_is_found() {
    let r = check_for_updates(Ok(vec!["1.1.0".to_string(), "1.0.0".to_string()]), "1.0.0");
    assert_eq!(r.ok().unwrap(), Some("1.1.0".to_string()));
    let none = check_for_updates(Ok(vec![]), "1.0.0");
    assert_eq!(none.ok().unwrap(), None);
}

#[test]
fn found_update_is_announced_once() {
    let mut poller = UpdatePoller::new();
    assert!(poller.wants_check());
    assert!(poller.after_check(Ok(None)).is_none());
    assert!(poller.after_check(Err(UpdateCheckError::Fetch("x".to_string()))).is_none());
    assert!(poller.wants_check());
    match poller.after_check(Ok(Some("1.1.0".to_string()))) {
        Some(AppCommand::UiCommand(UiCommand::UpdateAvailable { version })) => {
            assert_eq!(version, "1.1.0")
        }
        _ => panic!("expected an announcement"),
    }
    assert!(!poller.wants_check());
    assert!(poller.after_check(Ok(Some("1.2.0".to_string()))).is_none());
}

#[test]
fn version_error_names_the_version() {
    let r = check_for_updates(Ok(vec!["nope".to_string()]), "also nope");
    assert!(matches!(r, Err(UpdateCheckError::Version(VersionError::Running(_)))));
    let r = check_for_updates(Ok(vec!["nope".to_string()]), "1.0.0");
    assert!(matches!(r, Err(UpdateCheckError::Version(VersionError::Release(_)))));
}

#[test]
fn install_outcomes() {
    let done = install_follow_up(Ok(true));
    assert!(done.relaunch);
    assert!(matches!(done.notify, AppCommand::Quit));
    assert!(!done.release_lock);

    let nothing = install_follow_up(Ok(false));
    assert!(!nothing.relaunch);
    assert!(nothing.release_lock);
    match nothing.notify {
        AppCommand::UiCommand(UiCommand::UpdateFailed { reason }) => {
            assert_eq!(reason, "No update was applied.")
        }
        _ => panic!("expected a failure"),
    }

    let failed = install_follow_up(Err("disk full".to_string()));
    assert!(!failed.relaunch);
    assert!(failed.release_lock);
    match failed.notify {
        AppCommand::UiCommand(UiCommand::UpdateFailed { reason }) => assert_eq!(reason, "disk full"),
        _ => panic!("expected a failure"),
    }
}

#[test]
fn bin_name_defaults() {
    assert_eq!(bin_name_or_default(None), "orion-rpc.exe");
    assert_eq!(bin_name_or_default(Some("orion".to_string())), "orion");
}

#[test]
fn check_timing() {
    assert_eq!(FIRST_CHECK_DELAY_SECS, 20);
    assert_eq!(CHECK_INTERVAL_SECS, 2 * 60 * 60);
}
