use buddy::config::Config;
use buddy::executor::{
    complete, parse_system_action, parse_volume_level, CommandExecutor, ExecutionError,
    ExecutionResult, Plan,
};
use buddy::intent::Intent;
use buddy::windows_api::{Platform, SystemAction, SystemRequest, WindowsActionError};

fn sample_config() -> Config {
    let mut cfg = Config::default();
    cfg.files.insert("resume".to_string(), "docs/resume.pdf".to_string());
    cfg.applications.insert("chrome".to_string(), "C:\\Program Files\\chrome.exe".to_string());
    cfg
}

fn args_of(request: &SystemRequest) -> (String, Vec<String>) {
    match request {
        SystemRequest::Spawn(line) => (line.program.clone(), line.args.clone()),
        other => panic!("unexpected: {:?}", other),
    }
}

#[test]
fn system_action_names_are_exact() {
    assert!(matches!(parse_system_action("volume_mute"), Ok(SystemAction::VolumeMute)));
    assert!(matches!(parse_system_action("volume_up"), Ok(SystemAction::VolumeUp)));
    assert!(matches!(parse_system_action("volume_down"), Ok(SystemAction::VolumeDown)));
    assert!(matches!(parse_system_action("sleep"), Ok(SystemAction::Sleep)));
    assert!(matches!(parse_system_action("shutdown"), Ok(SystemAction::Shutdown)));
    assert!(matches!(parse_system_action("restart"), Ok(SystemAction::Restart)));
    assert!(matches!(parse_system_action("lock"), Ok(SystemAction::Lock)));
}

#[test]
fn unknown_system_action_is_refused_by_name() {
    for name in ["", "Sleep", "hibernate", "volume", "set volume_set 10", " lock"] {
        match parse_system_action(name) {
            Err(ExecutionError::UnsupportedSystemAction(text)) => assert_eq!(text, name),
            other => panic!("unexpected: {:?}", other),
        }
    }
}

#[test]
fn volume_level_is_read_from_the_digits() {
    assert!(matches!(parse_system_action("volume_set 30"), Ok(SystemAction::VolumeSet(30))));
    assert!(matches!(parse_system_action("volume_set_to_7%"), Ok(SystemAction::VolumeSet(7))));
    assert!(matches!(parse_system_action("volume_set 1 0 0"), Ok(SystemAction::VolumeSet(100))));
    assert!(matches!(parse_system_action("volume_set 007"), Ok(SystemAction::VolumeSet(7))));
    assert!(matches!(parse_system_action("volume_set 0"), Ok(SystemAction::VolumeSet(0))));
    assert!(matches!(parse_system_action("volume_set 255"), Ok(SystemAction::VolumeSet(255))));
}

#[test]
fn volume_level_defaults_to_fifty() {
    assert!(matches!(parse_system_action("volume_set"), Ok(SystemAction::VolumeSet(50))));
    assert!(matches!(parse_system_action("volume_set loud"), Ok(SystemAction::VolumeSet(50))));
    assert!(matches!(parse_system_action("volume_set 256"), Ok(SystemAction::VolumeSet(50))));
    assert!(matches!(parse_system_action("volume_set 99999999999"), Ok(SystemAction::VolumeSet(50))));
    assert_eq!(parse_volume_level("no digits"), 50);
    assert_eq!(parse_volume_level("2 5 5"), 255);
    assert_eq!(parse_volume_level("0000000300"), 50);
    assert_eq!(parse_volume_level("00000000030"), 30);
}

#[test]
fn open_file_plans_the_mapped_path() {
    let cfg = sample_config();
    let executor = CommandExecutor::new(&cfg);
    let intent = Intent::OpenFile { target: "resume".to_string(), confidence: 0 };
    for platform in [Platform::Windows, Platform::Other] {
        match executor.execute(&intent, platform) {
            Ok(Plan::Open { path, message }) => {
                assert_eq!(path, "docs/resume.pdf");
                assert_eq!(message, "Opened resume");
            }
            other => panic!("unexpected: {:?}", other),
        }
    }
}

#[test]
fn unmapped_keys_are_missing_mappings() {
    let cfg = sample_config();
    let executor = CommandExecutor::new(&cfg);
    let file = Intent::OpenFile { target: "chrome".to_string(), confidence: 0 };
    let app = Intent::OpenApp { target: "resume".to_string(), confidence: 0 };
    assert!(matches!(
        executor.execute(&file, Platform::Windows),
        Err(ExecutionError::MissingMapping(key)) if key == "chrome"
    ));
    assert!(matches!(
        executor.execute(&app, Platform::Other),
        Err(ExecutionError::MissingMapping(key)) if key == "resume"
    ));
    assert!(matches!(
        executor.open_target("ghost"),
        Err(ExecutionError::MissingMapping(key)) if key == "ghost"
    ));
}

#[test]
fn open_app_plans_a_quoted_start_command() {
    let cfg = sample_config();
    let executor = CommandExecutor::new(&cfg);
    let intent = Intent::OpenApp { target: "chrome".to_string(), confidence: 0 };
    match executor.execute(&intent, Platform::Windows) {
        Ok(Plan::Perform { request, message }) => {
            let (program, args) = args_of(&request);
            assert_eq!(program, "cmd");
            assert_eq!(args, vec!["/C", "start", "", "\"C:\\Program Files\\chrome.exe\""]);
            assert_eq!(message, "Launched chrome");
        }
        other => panic!("unexpected: {:?}", other),
    }
    assert!(matches!(
        executor.launch_target("chrome", Platform::Other),
        Err(ExecutionError::Windows(WindowsActionError::Unsupported("launch requires Windows")))
    ));
}

#[test]
fn system_intent_plans_its_request() {
    let cfg = sample_config();
    let executor = CommandExecutor::new(&cfg);
    let intent = Intent::System { target: "volume_down".to_string(), confidence: 0 };
    match executor.execute(&intent, Platform::Windows) {
        Ok(Plan::Perform { request, message }) => {
            assert!(matches!(request, SystemRequest::VolumeKey(0xae)));
            assert_eq!(message, "Executed volume_down");
        }
        other => panic!("unexpected: {:?}", other),
    }
    assert!(matches!(
        executor.run_system("volume_down", Platform::Other),
        Err(ExecutionError::Windows(WindowsActionError::Unsupported(
            "system controls available only on Windows"
        )))
    ));
    assert!(matches!(
        executor.run_system("hibernate", Platform::Windows),
        Err(ExecutionError::UnsupportedSystemAction(name)) if name == "hibernate"
    ));
    assert!(matches!(
        executor.run_system("hibernate", Platform::Other),
        Err(ExecutionError::UnsupportedSystemAction(_))
    ));
}

#[test]
fn answer_is_handed_on_and_unknown_is_refused() {
    let cfg = sample_config();
    let executor = CommandExecutor::new(&cfg);
    let answer = Intent::Answer { response: "5".to_string(), confidence: 0 };
    assert!(matches!(
        executor.execute(&answer, Platform::Other),
        Ok(Plan::Answer(text)) if text == "5"
    ));
    assert!(matches!(
        executor.execute(&Intent::Unknown { confidence: 0 }, Platform::Windows),
        Err(ExecutionError::UnknownIntent)
    ));
}

#[test]
fn completion_reports_the_sentence_or_the_systems_complaint() {
    assert!(matches!(
        complete("Opened resume".to_string(), Ok(())),
        Ok(ExecutionResult::Action(text)) if text == "Opened resume"
    ));
    assert!(matches!(
        complete("Opened resume".to_string(), Err(WindowsActionError::Io("denied".to_string()))),
        Err(ExecutionError::Windows(WindowsActionError::Io(text))) if text == "denied"
    ));
}

#[test]
fn execution_errors_describe_themselves() {
    assert_eq!(
        ExecutionError::MissingMapping("ghost".to_string()).message(),
        "no mapping for key 'ghost'"
    );
    assert_eq!(
        ExecutionError::Windows(WindowsActionError::Unsupported("launch requires Windows"))
            .message(),
        "windows action failed: unsupported: launch requires Windows"
    );
    assert_eq!(ExecutionError::UnknownIntent.message(), "intent classified as unknown");
    assert_eq!(
        ExecutionError::UnsupportedSystemAction("hibernate".to_string()).message(),
        "unsupported system action 'hibernate'"
    );
    assert_eq!(ExecutionError::Io("gone".to_string()).message(), "io error: gone");
}
