use buddy::config::{FeedbackConfig, FeedbackMode};
use buddy::feedback::{select_voice, FeedbackPlayer};

fn player(mode: FeedbackMode) -> FeedbackPlayer {
    FeedbackPlayer::new(&FeedbackConfig {
        mode,
        success_sound: Some("ok.wav".to_string()),
        error_sound: None,
        tts_voice: "default".to_string(),
    })
}

fn names(list: &[&str]) -> Vec<String> {
    list.iter().map(|s| s.to_string()).collect()
}

#[test]
fn player_takes_its_settings_from_the_configuration() {
    let p = player(FeedbackMode::Both);
    assert_eq!(p.mode, FeedbackMode::Both);
    assert_eq!(p.success_sound, Some("ok.wav".to_string()));
    assert_eq!(p.error_sound, None);
}

#[test]
fn sound_mode_plays_and_does_not_speak() {
    let plan = player(FeedbackMode::Sound).success();
    assert_eq!(plan.sound, Some("ok.wav".to_string()));
    assert_eq!(plan.speech, None);
    let plan = player(FeedbackMode::Sound).error("Command failed");
    assert_eq!(plan.sound, None);
    assert_eq!(plan.speech, None);
}

#[test]
fn speech_mode_speaks_and_does_not_play() {
    let plan = player(FeedbackMode::Tts).success();
    assert_eq!(plan.sound, None);
    assert_eq!(plan.speech, Some("Ok".to_string()));
    let plan = player(FeedbackMode::Tts).error("Command failed");
    assert_eq!(plan.sound, None);
    assert_eq!(plan.speech, Some("Command failed".to_string()));
}

#[test]
fn both_mode_plays_then_speaks() {
    let plan = player(FeedbackMode::Both).success();
    assert_eq!(plan.sound, Some("ok.wav".to_string()));
    assert_eq!(plan.speech, Some("Ok".to_string()));
    let plan = player(FeedbackMode::Both).error("Intent failed");
    assert_eq!(plan.sound, None);
    assert_eq!(plan.speech, Some("Intent failed".to_string()));
}

#[test]
fn saying_a_text_speaks_in_every_mode() {
    for mode in [FeedbackMode::Sound, FeedbackMode::Tts, FeedbackMode::Both] {
        let plan = player(mode).say("five");
        assert_eq!(plan.sound, None);
        assert_eq!(plan.speech, Some("five".to_string()));
    }
}

#[test]
fn default_voice_selects_nothing() {
    let voices = names(&["default", "Zira", "David"]);
    assert_eq!(select_voice("default", &voices), None);
    assert_eq!(select_voice("DEFAULT", &voices), None);
}

#[test]
fn preferred_voice_is_found_in_any_letter_case() {
    let voices = names(&["Microsoft David", "Microsoft Zira", "microsoft zira"]);
    assert_eq!(select_voice("microsoft zira", &voices), Some(1));
    assert_eq!(select_voice("MICROSOFT DAVID", &voices), Some(0));
    assert_eq!(select_voice("Hazel", &voices), None);
    assert_eq!(select_voice("Zira", &Vec::new()), None);
}
