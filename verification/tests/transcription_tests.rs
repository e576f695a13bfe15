use buddy::config::{Config, SystemConfig};
use buddy::transcription::{
    build_transcription_prompt, compile_constraints, configure_timeouts, configure_topic,
    duration_to_timespan, language_tag, sort_keys, span_from_millis, transcript_for, Span,
    TranscriptionError,
};

fn nothing_enabled() -> SystemConfig {
    SystemConfig {
        volume_mute: false,
        volume_up: false,
        volume_down: false,
        volume_set: false,
        sleep: false,
        shutdown: false,
        restart: false,
        lock: false,
    }
}

#[test]
fn keys_are_sorted_like_the_standard_library_sorts() {
    let keys: Vec<String> =
        ["resume", "budget", "Zeta", "", "résumé", "b", "budget2", "a", "resume"]
            .iter()
            .map(|s| s.to_string())
            .collect();
    let mut expected = keys.clone();
    expected.sort();
    assert_eq!(sort_keys(&keys), expected);
    assert_eq!(sort_keys(&Vec::new()), Vec::<String>::new());
}

#[test]
fn hint_lists_files_then_apps_then_system_actions() {
    let mut cfg = Config::default();
    cfg.files.insert("resume".to_string(), "r.pdf".to_string());
    cfg.files.insert("budget".to_string(), "b.xlsx".to_string());
    cfg.applications.insert("notepad".to_string(), "notepad.exe".to_string());
    cfg.applications.insert("chrome".to_string(), "chrome.exe".to_string());
    assert_eq!(
        build_transcription_prompt(&cfg),
        Some(
            "Open budget. Open resume. Launch chrome. Launch notepad. Mute volume. Volume up. Volume down. Set volume to 50. Go to sleep. Restart computer. Shut down computer. Lock computer."
                .to_string()
        )
    );
}

#[test]
fn hint_leaves_out_what_is_disabled() {
    let mut cfg = Config::default();
    cfg.system = SystemConfig { sleep: true, lock: true, ..nothing_enabled() };
    assert_eq!(
        build_transcription_prompt(&cfg),
        Some("Go to sleep. Lock computer.".to_string())
    );
    cfg.system = nothing_enabled();
    cfg.files.insert("notes".to_string(), "n.txt".to_string());
    assert_eq!(build_transcription_prompt(&cfg), Some("Open notes.".to_string()));
}

#[test]
fn empty_configuration_has_no_hint() {
    let mut cfg = Config::default();
    cfg.system = nothing_enabled();
    assert_eq!(build_transcription_prompt(&cfg), None);
}

#[test]
fn seconds_are_counted_in_ticks_of_a_hundred_nanoseconds() {
    assert_eq!(duration_to_timespan(Span { secs: 0, subsec_nanos: 0 }), 0);
    assert_eq!(duration_to_timespan(Span { secs: 3, subsec_nanos: 0 }), 30_000_000);
    assert_eq!(duration_to_timespan(Span { secs: 1, subsec_nanos: 200_000_000 }), 12_000_000);
    assert_eq!(duration_to_timespan(Span { secs: 0, subsec_nanos: 199 }), 1);
    assert_eq!(duration_to_timespan(Span { secs: 0, subsec_nanos: 99 }), 0);
}

#[test]
fn ticks_saturate_at_the_ends_of_the_range() {
    assert_eq!(duration_to_timespan(Span { secs: 922_337_203_685, subsec_nanos: 0 }), 9_223_372_036_850_000_000);
    assert_eq!(
        duration_to_timespan(Span { secs: 922_337_203_685, subsec_nanos: 999_999_999 }),
        i64::MAX
    );
    assert_eq!(duration_to_timespan(Span { secs: 922_337_203_686, subsec_nanos: 0 }), i64::MAX);
    assert_eq!(duration_to_timespan(Span { secs: i64::MAX as u64, subsec_nanos: 0 }), i64::MAX);
    assert_eq!(duration_to_timespan(Span { secs: u64::MAX, subsec_nanos: 500 }), -10_000_000 + 5);
    assert_eq!(duration_to_timespan(Span { secs: 1 << 63, subsec_nanos: 0 }), i64::MIN);
    for &(secs, nanos) in [(5u64, 7u32), (u64::MAX, 0), (1 << 63, 999_999_999), (u64::MAX - 922_337_203_685, 0)].iter() {
        let expected = (secs as i64).saturating_mul(10_000_000).saturating_add((nanos as i64) / 100);
        assert_eq!(duration_to_timespan(Span { secs, subsec_nanos: nanos }), expected);
    }
}

#[test]
fn milliseconds_split_into_seconds_and_nanoseconds() {
    assert_eq!(span_from_millis(1200), Span { secs: 1, subsec_nanos: 200_000_000 });
    assert_eq!(span_from_millis(0), Span { secs: 0, subsec_nanos: 0 });
    assert_eq!(span_from_millis(999), Span { secs: 0, subsec_nanos: 999_000_000 });
    let span = span_from_millis(u64::MAX);
    assert_eq!(span.secs, u64::MAX / 1000);
    assert_eq!(span.subsec_nanos, 615_000_000);
}

#[test]
fn silence_timeouts_default_to_the_capture_length() {
    let (initial, end) = configure_timeouts(None, None, 3);
    assert_eq!(initial, Span { secs: 3, subsec_nanos: 0 });
    assert_eq!(end, Span { secs: 1, subsec_nanos: 200_000_000 });
    let (initial, _) = configure_timeouts(None, None, 0);
    assert_eq!(initial, Span { secs: 1, subsec_nanos: 0 });
    let (initial, end) = configure_timeouts(Some(2500), Some(300), 9);
    assert_eq!(initial, Span { secs: 2, subsec_nanos: 500_000_000 });
    assert_eq!(end, Span { secs: 0, subsec_nanos: 300_000_000 });
}

#[test]
fn topic_is_the_hint_with_single_spaces() {
    assert_eq!(configure_topic("  open   my\tresume \n"), "open my resume");
    assert_eq!(configure_topic("music"), "music");
    assert_eq!(configure_topic(""), "dictation");
    assert_eq!(configure_topic(" \u{3000}\t"), "dictation");
    for hint in ["a  b", " x ", "one\u{a0}two", "", "trailing ", "\nlead"] {
        let expected = hint.split_whitespace().collect::<Vec<_>>().join(" ");
        let expected = if expected.is_empty() { "dictation".to_string() } else { expected };
        assert_eq!(configure_topic(hint), expected, "{:?}", hint);
    }
}

#[test]
fn blank_language_tags_are_left_out() {
    assert_eq!(language_tag(Some(" en-US ")), Some("en-US"));
    assert_eq!(language_tag(Some("de")), Some("de"));
    assert_eq!(language_tag(Some("   ")), None);
    assert_eq!(language_tag(Some("")), None);
    assert_eq!(language_tag(None), None);
}

#[test]
fn recogniser_verdicts_become_transcripts() {
    assert!(matches!(transcript_for(0, "open".to_string()), Ok(text) if text == "open"));
    assert!(matches!(transcript_for(7, "noise".to_string()), Ok(text) if text.is_empty()));
    assert!(matches!(transcript_for(8, "noise".to_string()), Ok(text) if text.is_empty()));
    for status in [1, 2, 3, 4, 5, 6, 9, 10, -1] {
        assert!(matches!(
            transcript_for(status, "x".to_string()),
            Err(TranscriptionError::RecognitionStatus(code)) if code == status
        ));
    }
}

#[test]
fn failed_constraints_are_reported_by_status() {
    assert!(compile_constraints(0).is_ok());
    assert!(matches!(
        compile_constraints(3),
        Err(TranscriptionError::CompilationStatus(3))
    ));
}
