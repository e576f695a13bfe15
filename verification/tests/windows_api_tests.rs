use buddy::windows_api::{
    execute_system, launch, open_path, Platform, SystemAction, SystemRequest, WindowsActionError,
};

fn spawned(request: SystemRequest) -> (String, Vec<String>) {
    match request {
        SystemRequest::Spawn(line) => (line.program, line.args),
        other => panic!("unexpected: {:?}", other),
    }
}

#[test]
fn opening_a_path_starts_it_through_the_shell() {
    let (program, args) = spawned(open_path("C:\\docs\\my file.pdf", Platform::Windows).unwrap());
    assert_eq!(program, "cmd");
    assert_eq!(args, vec!["/C", "start", "", "\"C:\\docs\\my file.pdf\""]);
}

#[test]
fn launching_an_application_starts_it_through_the_shell() {
    let (program, args) = spawned(launch("notepad", Platform::Windows).unwrap());
    assert_eq!(program, "cmd");
    assert_eq!(args, vec!["/C", "start", "", "\"notepad\""]);
}

#[test]
fn other_platforms_refuse_every_action() {
    assert!(matches!(
        open_path("x", Platform::Other),
        Err(WindowsActionError::Unsupported("open path is only supported on Windows"))
    ));
    assert!(matches!(
        launch("x", Platform::Other),
        Err(WindowsActionError::Unsupported("launch requires Windows"))
    ));
    for action in [
        SystemAction::VolumeMute,
        SystemAction::VolumeUp,
        SystemAction::VolumeDown,
        SystemAction::VolumeSet(10),
        SystemAction::Sleep,
        SystemAction::Shutdown,
        SystemAction::Restart,
        SystemAction::Lock,
    ] {
        assert!(matches!(
            execute_system(action, Platform::Other),
            Err(WindowsActionError::Unsupported("system controls available only on Windows"))
        ));
    }
}

#[test]
fn volume_actions_press_their_keys() {
    assert!(matches!(
        execute_system(SystemAction::VolumeMute, Platform::Windows),
        Ok(SystemRequest::VolumeKey(0xad))
    ));
    assert!(matches!(
        execute_system(SystemAction::VolumeDown, Platform::Windows),
        Ok(SystemRequest::VolumeKey(0xae))
    ));
    assert!(matches!(
        execute_system(SystemAction::VolumeUp, Platform::Windows),
        Ok(SystemRequest::VolumeKey(0xaf))
    ));
}

#[test]
fn volume_level_is_capped_at_one_hundred() {
    assert!(matches!(
        execute_system(SystemAction::VolumeSet(30), Platform::Windows),
        Ok(SystemRequest::SetVolume(30))
    ));
    assert!(matches!(
        execute_system(SystemAction::VolumeSet(100), Platform::Windows),
        Ok(SystemRequest::SetVolume(100))
    ));
    assert!(matches!(
        execute_system(SystemAction::VolumeSet(255), Platform::Windows),
        Ok(SystemRequest::SetVolume(100))
    ));
}

#[test]
fn power_actions_map_to_their_requests() {
    assert!(matches!(
        execute_system(SystemAction::Sleep, Platform::Windows),
        Ok(SystemRequest::Suspend)
    ));
    assert!(matches!(
        execute_system(SystemAction::Lock, Platform::Windows),
        Ok(SystemRequest::Lock)
    ));
    let (program, args) = spawned(execute_system(SystemAction::Shutdown, Platform::Windows).unwrap());
    assert_eq!(program, "shutdown");
    assert_eq!(args, vec!["/s", "/t", "0"]);
    let (program, args) = spawned(execute_system(SystemAction::Restart, Platform::Windows).unwrap());
    assert_eq!(program, "shutdown");
    assert_eq!(args, vec!["/r", "/t", "0"]);
}

#[test]
fn action_errors_describe_themselves() {
    assert_eq!(WindowsActionError::Io("denied".to_string()).message(), "io error: denied");
    assert_eq!(WindowsActionError::Windows("0x80070005".to_string()).message(), "win32 error: 0x80070005");
    assert_eq!(
        WindowsActionError::Unsupported("launch requires Windows").message(),
        "unsupported: launch requires Windows"
    );
}
