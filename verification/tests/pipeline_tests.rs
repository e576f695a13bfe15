use buddy::executor::{ExecutionError, ExecutionResult};
use buddy::intent::Intent;
use buddy::pipeline::{
    handle_intent, is_help_request, Action, Event, Feedback, Pipeline, Stage, Step,
    CAPTURE_FAILED, COMMAND_FAILED, HELP_TEXT, INTENT_FAILED, NOTHING_HEARD,
    TRANSCRIPTION_FAILED, UNKNOWN_COMMAND,
};
use buddy::windows_api::WindowsActionError;

fn at(stage: Stage, queued: u64) -> Pipeline {
    Pipeline { stage, queued, capture_secs: 3 }
}

fn intent() -> Intent {
    Intent::OpenFile { target: "resume".to_string(), confidence: 0 }
}

fn action_done() -> Event {
    Event::Executed(Ok(ExecutionResult::Action("Opened resume".to_string())))
}

fn run_cycle(p: Pipeline) -> (Pipeline, Step) {
    assert_eq!(p.stage, Stage::Capturing);
    let (p, step) = p.step(Event::Captured(true));
    assert!(matches!(step.action, Action::Transcribe));
    let (p, step) = p.step(Event::Transcribed(Some("open my resume".to_string())));
    assert!(matches!(step.action, Action::Classify(_)));
    let (p, step) = p.step(Event::Classified(Some(intent())));
    assert!(matches!(step.action, Action::Execute(_)));
    p.step(action_done())
}

#[test]
fn trigger_starts_a_capture_of_the_configured_length() {
    let (p, step) = Pipeline::new(3).step(Event::Trigger);
    assert_eq!(p, at(Stage::Capturing, 0));
    assert!(matches!(step.feedback, Feedback::Silent));
    assert!(matches!(step.action, Action::Capture(Some(3))));
}

#[test]
fn zero_length_means_capture_until_stopped() {
    assert_eq!(Pipeline::new(0).max_duration(), None);
    assert_eq!(Pipeline::new(12).max_duration(), Some(12));
    let (_, step) = Pipeline::new(0).step(Event::Trigger);
    assert!(matches!(step.action, Action::Capture(None)));
}

#[test]
fn stages_follow_each_other_in_order() {
    let (p, step) = at(Stage::Capturing, 0).step(Event::Captured(true));
    assert_eq!(p.stage, Stage::Transcribing);
    assert!(matches!(step.action, Action::Transcribe));
    let (p, step) = p.step(Event::Transcribed(Some(" open my resume ".to_string())));
    assert_eq!(p.stage, Stage::Classifying);
    assert!(matches!(step.action, Action::Classify(text) if text == " open my resume "));
    let (p, step) = p.step(Event::Classified(Some(intent())));
    assert_eq!(p.stage, Stage::Executing);
    assert!(matches!(
        step.action,
        Action::Execute(Intent::OpenFile { target, .. }) if target == "resume"
    ));
    let (p, step) = p.step(action_done());
    assert_eq!(p, at(Stage::Idle, 0));
    assert!(matches!(step.feedback, Feedback::Success(message) if message == "Opened resume"));
    assert!(matches!(step.action, Action::WaitHotkey));
}

#[test]
fn failed_capture_is_reported_and_the_loop_goes_on() {
    let (p, step) = at(Stage::Capturing, 0).step(Event::Captured(false));
    assert_eq!(p, at(Stage::Idle, 0));
    assert!(matches!(step.feedback, Feedback::Failure(CAPTURE_FAILED)));
    assert!(matches!(step.action, Action::WaitHotkey));
}

#[test]
fn failed_transcription_is_reported_and_the_loop_goes_on() {
    let (p, step) = at(Stage::Transcribing, 0).step(Event::Transcribed(None));
    assert_eq!(p.stage, Stage::Idle);
    assert!(matches!(step.feedback, Feedback::Failure(TRANSCRIPTION_FAILED)));
    assert!(matches!(step.action, Action::WaitHotkey));
}

#[test]
fn silence_is_reported_without_asking_the_classifier() {
    for text in ["", "  \n"] {
        let (p, step) = at(Stage::Transcribing, 0).step(Event::Transcribed(Some(text.to_string())));
        assert_eq!(p.stage, Stage::Idle);
        assert!(matches!(step.feedback, Feedback::Failure(NOTHING_HEARD)));
        assert!(matches!(step.action, Action::WaitHotkey));
    }
}

#[test]
fn help_is_answered_without_asking_the_classifier() {
    let (p, step) = at(Stage::Transcribing, 0).step(Event::Transcribed(Some(" Help! ".to_string())));
    assert_eq!(p.stage, Stage::Idle);
    assert!(matches!(step.feedback, Feedback::Help));
    assert!(matches!(step.action, Action::WaitHotkey));
    assert_eq!(
        HELP_TEXT,
        "Say: open <file>, launch <app>, set volume, mute, lock, sleep, or ask a question."
    );
}

#[test]
fn help_requests_ignore_case_space_and_end_marks() {
    for text in ["help", "HELP", " Help. ", "help?!", "\thelp...\n", "hElP!!!"] {
        assert!(is_help_request(text), "{:?}", text);
    }
    for text in ["", "helps", "help me", ".help", "help .", "hel p", "?", "h\u{212a}lp"] {
        assert!(!is_help_request(text), "{:?}", text);
    }
}

#[test]
fn failed_classification_is_reported_and_the_loop_goes_on() {
    let (p, step) = at(Stage::Classifying, 0).step(Event::Classified(None));
    assert_eq!(p.stage, Stage::Idle);
    assert!(matches!(step.feedback, Feedback::Failure(INTENT_FAILED)));
    assert!(matches!(step.action, Action::WaitHotkey));
}

#[test]
fn outcome_of_the_execution_chooses_the_report() {
    assert!(matches!(
        handle_intent(Ok(ExecutionResult::Action("Opened resume".to_string()))),
        Feedback::Success(message) if message == "Opened resume"
    ));
    assert!(matches!(
        handle_intent(Ok(ExecutionResult::Answer("5".to_string()))),
        Feedback::Say(text) if text == "5"
    ));
    assert!(matches!(
        handle_intent(Err(ExecutionError::UnknownIntent)),
        Feedback::Failure(UNKNOWN_COMMAND)
    ));
    assert!(matches!(
        handle_intent(Err(ExecutionError::MissingMapping("x".to_string()))),
        Feedback::Failure(COMMAND_FAILED)
    ));
    assert!(matches!(
        handle_intent(Err(ExecutionError::Windows(WindowsActionError::Io("x".to_string())))),
        Feedback::Failure(COMMAND_FAILED)
    ));
    assert_eq!(UNKNOWN_COMMAND, "I don't know how to do that");
    assert_eq!(COMMAND_FAILED, "Command failed");
    assert_eq!(NOTHING_HEARD, "I didn't hear anything");
    assert_eq!(INTENT_FAILED, "Intent failed");
}

#[test]
fn failed_execution_is_reported_and_the_loop_goes_on() {
    let (p, step) = at(Stage::Executing, 0).step(Event::Executed(Err(ExecutionError::UnknownIntent)));
    assert_eq!(p.stage, Stage::Idle);
    assert!(matches!(step.feedback, Feedback::Failure(UNKNOWN_COMMAND)));
    assert!(matches!(step.action, Action::WaitHotkey));
}

#[test]
fn closed_queue_ends_the_pipeline_at_any_stage() {
    for stage in [
        Stage::Idle,
        Stage::Capturing,
        Stage::Transcribing,
        Stage::Classifying,
        Stage::Executing,
    ] {
        let (p, step) = at(stage, 2).step(Event::HotkeyClosed);
        assert_eq!(p.stage, Stage::Stopped);
        assert!(matches!(step.action, Action::Stop));
    }
    let (p, step) = at(Stage::Stopped, 0).step(Event::Trigger);
    assert_eq!(p, at(Stage::Stopped, 0));
    assert!(matches!(step.action, Action::Nothing));
}

#[test]
fn pipeline_events_out_of_place_change_nothing() {
    let (p, step) = at(Stage::Idle, 0).step(Event::Captured(true));
    assert_eq!(p, at(Stage::Idle, 0));
    assert!(matches!(step.action, Action::Nothing));
    let (p, step) = at(Stage::Capturing, 1).step(action_done());
    assert_eq!(p, at(Stage::Capturing, 1));
    assert!(matches!(step.action, Action::Nothing));
    let (p, _) = at(Stage::Executing, 0).step(Event::Transcribed(None));
    assert_eq!(p, at(Stage::Executing, 0));
}

#[test]
fn trigger_during_a_cycle_is_queued_not_interleaved() {
    for stage in [Stage::Capturing, Stage::Transcribing, Stage::Classifying, Stage::Executing] {
        let (p, step) = at(stage, 0).step(Event::Trigger);
        assert_eq!(p, at(stage, 1));
        assert!(matches!(step.action, Action::Nothing));
        assert!(matches!(step.feedback, Feedback::Silent));
    }
}

#[test]
fn second_trigger_during_capture_gives_one_more_cycle() {
    let (p, step) = Pipeline::new(3).step(Event::Trigger);
    assert!(matches!(step.action, Action::Capture(_)));
    let (p, step) = p.step(Event::Trigger);
    assert!(matches!(step.action, Action::Nothing));
    assert_eq!(p, at(Stage::Capturing, 1));
    let (p, step) = run_cycle(p);
    assert!(matches!(step.feedback, Feedback::Success(_)));
    assert!(matches!(step.action, Action::Capture(Some(3))));
    assert_eq!(p, at(Stage::Capturing, 0));
    let (p, step) = run_cycle(p);
    assert!(matches!(step.action, Action::WaitHotkey));
    assert_eq!(p, at(Stage::Idle, 0));
}

#[test]
fn every_queued_trigger_gets_its_own_cycle() {
    let (p, _) = Pipeline::new(3).step(Event::Trigger);
    let (p, _) = p.step(Event::Trigger);
    let (p, _) = p.step(Event::Captured(true));
    let (p, _) = p.step(Event::Trigger);
    assert_eq!(p, at(Stage::Transcribing, 2));
    let mut cycles = 1;
    let (mut p, mut step) = p.step(Event::Transcribed(None));
    while matches!(step.action, Action::Capture(_)) {
        cycles += 1;
        let next = run_cycle(p);
        p = next.0;
        step = next.1;
    }
    assert_eq!(cycles, 3);
    assert_eq!(p, at(Stage::Idle, 0));
    assert!(matches!(step.action, Action::WaitHotkey));
}
