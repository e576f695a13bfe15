use buddy::config::{
    AudioConfig, Config, DeepSeekConfig, FeedbackConfig, FeedbackMode, HotkeyConfig,
    LoggingConfig, SystemConfig, TranscriptionConfig,
};
use buddy::mapping::Mapping;

#[test]
fn defaults_are_as_documented() {
    let cfg = Config::default();
    assert_eq!(cfg.audio.device_name, None);
    assert_eq!(cfg.audio.capture_duration_secs, 3);
    assert_eq!(cfg.audio.sample_rate, 16_000);
    assert_eq!(cfg.hotkey.key, "ctrl+alt+b");
    assert_eq!(cfg.feedback.mode, FeedbackMode::Tts);
    assert_eq!(cfg.feedback.success_sound, None);
    assert_eq!(cfg.feedback.error_sound, None);
    assert_eq!(cfg.feedback.tts_voice, "default");
    assert_eq!(cfg.deepseek.endpoint, "http://localhost:11434/api/chat");
    assert_eq!(cfg.deepseek.model, "deepseek-r1:latest");
    assert_eq!(cfg.deepseek.timeout_secs, 5);
    assert_eq!(cfg.transcription.model_path, "buddy/models/ggml-base.en.bin");
    assert_eq!(cfg.transcription.language, None);
    assert_eq!(cfg.transcription.threads, None);
    assert!(cfg.files.is_empty());
    assert!(cfg.applications.is_empty());
    assert_eq!(cfg.system, SystemConfig::default());
    assert_eq!(cfg.logging, LoggingConfig { debug: false, whisper_log: false });
    assert_eq!(cfg.deepseek_timeout(), 5);
}

#[test]
fn section_defaults_match_their_parts() {
    assert_eq!(AudioConfig::default_capture_duration_secs(), 3);
    assert_eq!(AudioConfig::default_sample_rate(), 16_000);
    assert_eq!(HotkeyConfig::default_key(), "ctrl+alt+b");
    assert_eq!(HotkeyConfig::default().key, "ctrl+alt+b");
    assert_eq!(FeedbackMode::default(), FeedbackMode::Tts);
    assert_eq!(FeedbackConfig::default_voice(), "default");
    assert_eq!(FeedbackConfig::default().tts_voice, "default");
    assert_eq!(DeepSeekConfig::default_endpoint(), "http://localhost:11434/api/chat");
    assert_eq!(DeepSeekConfig::default_model(), "deepseek-r1:latest");
    assert_eq!(DeepSeekConfig::default_timeout_secs(), 5);
    assert_eq!(DeepSeekConfig::default().timeout_secs, 5);
    assert_eq!(TranscriptionConfig::default_model_path(), "buddy/models/ggml-base.en.bin");
    assert_eq!(AudioConfig::default().sample_rate, 16_000);
}

#[test]
fn every_system_action_is_enabled_by_default() {
    assert_eq!(
        SystemConfig::default().enabled_actions(),
        vec![
            "volume_mute",
            "volume_up",
            "volume_down",
            "volume_set",
            "sleep",
            "shutdown",
            "restart",
            "lock"
        ]
    );
}

#[test]
fn only_enabled_actions_are_listed_in_order() {
    let system = SystemConfig {
        volume_mute: false,
        volume_up: true,
        volume_down: false,
        volume_set: false,
        sleep: true,
        shutdown: false,
        restart: false,
        lock: true,
    };
    assert_eq!(system.enabled_actions(), vec!["volume_up", "sleep", "lock"]);
    let none = SystemConfig {
        volume_mute: false,
        volume_up: false,
        volume_down: false,
        volume_set: false,
        sleep: false,
        shutdown: false,
        restart: false,
        lock: false,
    };
    assert!(none.enabled_actions().is_empty());
    let mut cfg = Config::default();
    cfg.system = system;
    assert_eq!(cfg.system_actions(), vec!["volume_up", "sleep", "lock"]);
}

#[test]
fn mapping_keeps_each_key_once_in_insertion_order() {
    let mut table = Mapping::new();
    assert!(table.is_empty());
    table.insert("resume".to_string(), "docs/resume.pdf".to_string());
    table.insert("notes".to_string(), "notes.txt".to_string());
    table.insert("resume".to_string(), "docs/cv.pdf".to_string());
    assert_eq!(table.len(), 2);
    assert!(!table.is_empty());
    assert_eq!(table.keys(), vec!["resume".to_string(), "notes".to_string()]);
    assert_eq!(table.get("resume"), Some(&"docs/cv.pdf".to_string()));
    assert_eq!(table.get("notes"), Some(&"notes.txt".to_string()));
    assert_eq!(table.get("ghost"), None);
    assert!(table.contains_key("notes"));
    assert!(!table.contains_key("Notes"));
    assert!(!table.contains_key(""));
}

#[test]
fn mapping_builder_and_copy_agree_with_insert() {
    let table = Mapping::new()
        .with_entry("a".to_string(), "1".to_string())
        .with_entry("b".to_string(), "2".to_string())
        .with_entry("a".to_string(), "3".to_string());
    let copy = table.clone();
    assert_eq!(copy.keys(), vec!["a".to_string(), "b".to_string()]);
    assert_eq!(copy.get("a"), Some(&"3".to_string()));
    assert_eq!(copy.len(), table.len());
}

#[test]
fn config_lists_its_mapping_keys() {
    let mut cfg = Config::default();
    cfg.files.insert("resume".to_string(), "resume.pdf".to_string());
    cfg.files.insert("budget".to_string(), "budget.xlsx".to_string());
    cfg.applications.insert("chrome".to_string(), "chrome.exe".to_string());
    assert_eq!(cfg.file_keys(), vec!["resume".to_string(), "budget".to_string()]);
    assert_eq!(cfg.app_keys(), vec!["chrome".to_string()]);
}
