use buddy::cli::{colorize, parse_args, resolve, Color, Invocation, RunOptions};

fn args(list: &[&str]) -> Vec<String> {
    list.iter().map(|s| s.to_string()).collect()
}

fn run(list: &[&str]) -> RunOptions {
    match parse_args(&args(list)) {
        Invocation::Run(options) => options,
        other => panic!("unexpected: {:?}", other),
    }
}

#[test]
fn empty_command_line_runs_with_the_default_path() {
    let options = run(&[]);
    assert_eq!(options.config_path, "config.toml");
    assert_eq!(options.debug_override, None);
    assert_eq!(options.whisper_log_override, None);
    assert!(options.test_phrases.is_empty());
}

#[test]
fn first_plain_argument_is_the_config_path() {
    let options = run(&["--debug", "my.toml", "other.toml", "--no-whisper-log"]);
    assert_eq!(options.config_path, "my.toml");
    assert_eq!(options.debug_override, Some(true));
    assert_eq!(options.whisper_log_override, Some(false));
}

#[test]
fn later_flags_override_earlier_ones() {
    let options = run(&["--debug", "--no-debug", "--whisper-log"]);
    assert_eq!(options.debug_override, Some(false));
    assert_eq!(options.whisper_log_override, Some(true));
}

#[test]
fn unknown_flags_are_passed_over() {
    let options = run(&["--verbose", "-x", "--", "cfg.toml"]);
    assert_eq!(options.config_path, "-x");
    assert_eq!(options.debug_override, None);
}

#[test]
fn test_phrases_take_the_argument_after_them() {
    let options = run(&["--test-intent", "open my resume", "--test-intent", "--debug", "cfg.toml"]);
    assert_eq!(options.test_phrases, vec!["open my resume", "--debug"]);
    assert_eq!(options.debug_override, None);
    assert_eq!(options.config_path, "cfg.toml");
}

#[test]
fn test_phrase_flag_without_a_phrase_ends_the_run() {
    assert!(matches!(parse_args(&args(&["cfg.toml", "--test-intent"])), Invocation::MissingValue));
    assert!(matches!(parse_args(&args(&["--test-intent"])), Invocation::MissingValue));
}

#[test]
fn list_audio_comes_before_everything_else() {
    assert!(matches!(parse_args(&args(&["--list-audio"])), Invocation::ListAudio));
    assert!(matches!(
        parse_args(&args(&["cfg.toml", "--test-intent", "--list-audio"])),
        Invocation::ListAudio
    ));
    assert!(matches!(
        parse_args(&args(&["--debug", "--test-intent", "x", "--list-audio", "--test-intent"])),
        Invocation::ListAudio
    ));
}

#[test]
fn command_line_wins_over_the_configuration() {
    assert!(resolve(Some(true), false));
    assert!(!resolve(Some(false), true));
    assert!(resolve(None, true));
    assert!(!resolve(None, false));
}

#[test]
fn text_is_wrapped_in_its_colour() {
    assert_eq!(colorize("ok", Color::Red, false), "\x1b[31mok\x1b[0m");
    assert_eq!(colorize("ok", Color::Green, false), "\x1b[32mok\x1b[0m");
    assert_eq!(colorize("ok", Color::Yellow, false), "\x1b[33mok\x1b[0m");
    assert_eq!(colorize("", Color::Cyan, false), "\x1b[36m\x1b[0m");
    assert_eq!(colorize("ok", Color::Cyan, true), "ok");
}
