use orion_rpc::auto_launch::{
    build_error, change_outcome, entry_needs_removal, is_startup_enabled, launch_settings,
    requested_change, set_startup, startup_enabled_from, toggle_error, CurrentExe, EntryCall,
    EntryChange,
};
use orion_rpc::instance::{is_show_signal, show_signal_bytes, InstanceError, Role, SOCKET_NAME};

#[test]
fn settings_for_a_path() {
    let s = launch_settings(&CurrentExe::Path("/opt/orion/orion-rpc".to_string())).ok().unwrap();
    assert_eq!(s.app_name, "Orion RPC");
    assert_eq!(s.app_path, "/opt/orion/orion-rpc");
    assert_eq!(s.args, vec!["--autostart".to_string()]);
}

#[test]
fn unusable_paths_are_errors() {
    assert_eq!(
        launch_settings(&CurrentExe::NotUnicode).err().unwrap(),
        "Invalid executable path characters"
    );
    assert_eq!(
        launch_settings(&CurrentExe::Unavailable("gone".to_string())).err().unwrap(),
        "Failed to get current exe path: gone"
    );
    assert_eq!(
        set_startup(&CurrentExe::NotUnicode, true).unwrap_err(),
        "Invalid executable path characters"
    );
    assert_eq!(
        set_startup(&CurrentExe::Unavailable("gone".to_string()), false).unwrap_err(),
        "Failed to get current exe path: gone"
    );
    assert!(!is_startup_enabled(&CurrentExe::NotUnicode));
    assert!(!is_startup_enabled(&CurrentExe::Unavailable("gone".to_string())));
}

#[test]
fn query_outcomes() {
    assert!(startup_enabled_from(&Some(Ok(true))));
    assert!(!startup_enabled_from(&Some(Ok(false))));
    assert!(!startup_enabled_from(&Some(Err("denied".to_string()))));
    assert!(!startup_enabled_from(&None));
    assert!(!entry_needs_removal(&Ok(true)));
    assert!(entry_needs_removal(&Ok(false)));
    assert!(entry_needs_removal(&Err("denied".to_string())));
}

#[test]
fn toggle_errors() {
    assert_eq!(toggle_error(true, "denied"), "Failed to enable startup: denied");
    assert_eq!(toggle_error(false, "denied"), "Failed to disable startup: denied");
}

#[test]
fn show_signal() {
    assert_eq!(show_signal_bytes(), b"show".to_vec());
    assert!(is_show_signal(b"show"));
    assert!(!is_show_signal(b"shoW"));
    assert!(!is_show_signal(b"sho"));
    assert!(!is_show_signal(b"shows"));
    assert_eq!(SOCKET_NAME, "orion-rpc-v1");
    assert_ne!(Role::Primary, Role::Secondary);
}

#[test]
fn requested_changes() {
    assert_eq!(requested_change(true), EntryChange::Enable);
    assert_eq!(requested_change(false), EntryChange::Disable);
}

#[test]
fn change_outcomes() {
    let call = |change, outcome| EntryCall { change, outcome };
    assert_eq!(change_outcome(call(EntryChange::Enable, Ok(()))), Ok(()));
    assert_eq!(
        change_outcome(call(EntryChange::Enable, Err("denied".to_string()))),
        Err("Failed to enable startup: denied".to_string())
    );
    assert_eq!(
        change_outcome(call(EntryChange::Disable, Err("denied".to_string()))),
        Err("Failed to disable startup: denied".to_string())
    );
    assert_eq!(build_error("no os"), "Failed to build auto-launch helper: no os");
}

#[test]
fn instance_error_messages() {
    let io = || std::io::Error::new(std::io::ErrorKind::Other, "boom");
    assert_eq!(InstanceError::Bind(io()).message(), "failed to bind ipc socket: boom");
    assert_eq!(
        InstanceError::Connect(io()).message(),
        "failed to connect to running instance: boom"
    );
    assert_eq!(InstanceError::Signal(io()).message(), "failed to signal running instance: boom");
}
