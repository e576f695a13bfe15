//! The orchestrator: the order in which a trigger is turned into a capture,
//! a transcript, an intent and an action, and what is reported at each
//! stage's end.

use vstd::prelude::*;
use crate::executor::{ExecutionError, ExecutionResult};
use crate::intent::Intent;
use crate::text::{
    chars_eq_ignore_ascii_case, chars_of, eq_ignoring_ascii_case, is_blank, is_blank_str,
    trailing_marks, trim_bounds, trimmed, without_end_marks,
};

verus! {

/// Where the orchestrator stands within a cycle.
#[derive(Clone, Copy, Debug, PartialEq, Eq, Structural)]
pub enum Stage {
    /// No cycle is in flight; the next trigger starts one.
    Idle,
    /// Audio is being recorded.
    Capturing,
    /// The recording is being turned into text.
    Transcribing,
    /// The text is being classified.
    Classifying,
    /// The intent is being carried out.
    Executing,
    /// The queue of triggers was closed; nothing more happens.
    Stopped,
}

/// The orchestrator's state.
#[derive(Clone, Copy, Debug, PartialEq, Eq, Structural)]
pub struct Pipeline {
    /// The stage of the cycle in flight.
    pub stage: Stage,
    /// The triggers that arrived while a cycle was in flight and wait for
    /// their own.
    pub queued: u64,
    /// How long a capture lasts, in seconds; zero for a capture that is
    /// stopped from outside.
    pub capture_secs: u64,
}

/// What happened outside the orchestrator.
#[derive(Debug)]
pub enum Event {
    /// The chord was triggered.
    Trigger,
    /// The queue of triggers was closed.
    HotkeyClosed,
    /// The capture ended; whether it succeeded.
    Captured(bool),
    /// The transcription ended, with the text or without.
    Transcribed(Option<String>),
    /// The classification ended, with the intent or without.
    Classified(Option<Intent>),
    /// The execution ended.
    Executed(Result<ExecutionResult, ExecutionError>),
}

/// What the orchestrator asks for next.
#[derive(Debug)]
pub enum Action {
    /// Wait for the next trigger.
    WaitHotkey,
    /// Record for this many seconds, or until stopped from outside.
    Capture(Option<u64>),
    /// Turn the recording into text.
    Transcribe,
    /// Classify this text.
    Classify(String),
    /// Carry out this intent.
    Execute(Intent),
    /// End the pipeline.
    Stop,
    /// Nothing.
    Nothing,
}

/// What is reported to the user.
#[derive(Debug)]
pub enum Feedback {
    /// Nothing.
    Silent,
    /// The cue for a success, with the sentence that says what was done.
    Success(String),
    /// The cue for a failure, with this message.
    Failure(&'static str),
    /// This text, spoken.
    Say(String),
    /// The help text, spoken.
    Help,
}

/// One step of the orchestrator: a report, then a request.
#[derive(Debug)]
pub struct Step {
    /// What is reported first.
    pub feedback: Feedback,
    /// What is asked for then.
    pub action: Action,
}

/// What is said when a recording holds no speech.
pub const NOTHING_HEARD: &'static str = "I didn't hear anything";

/// What is said when the recording failed.
pub const CAPTURE_FAILED: &'static str = "Capture failed";

/// What is said when the transcription failed.
pub const TRANSCRIPTION_FAILED: &'static str = "Transcription failed";

/// What is said when the classification failed.
pub const INTENT_FAILED: &'static str = "Intent failed";

/// What is said when the intent is unknown.
pub const UNKNOWN_COMMAND: &'static str = "I don't know how to do that";

/// What is said when the action failed.
pub const COMMAND_FAILED: &'static str = "Command failed";

/// What is said when the user asks for help.
pub const HELP_TEXT: &'static str =
    "Say: open <file>, launch <app>, set volume, mute, lock, sleep, or ask a question.";

/// Whether a transcript asks for help: it is the word `help` in any letter
/// case, with white space around it and end marks after it left out.
pub open spec fn asks_for_help(transcript: Seq<char>) -> bool {
    eq_ignoring_ascii_case(without_end_marks(trimmed(transcript)), "help"@)
}

/// How long a capture lasts: the configured seconds, or until stopped from
/// outside where none are configured.
pub open spec fn capture_length(secs: u64) -> Option<u64> {
    if secs == 0 {
        None
    } else {
        Some(secs)
    }
}

/// The state and the request with which a cycle ends: the next cycle
/// starts at once where a trigger waits, and the orchestrator waits for
/// one where none does.
pub open spec fn cycle_end(p: Pipeline) -> (Pipeline, Action) {
    if p.queued > 0 {
        (
            Pipeline { stage: Stage::Capturing, queued: (p.queued - 1) as u64, ..p },
            Action::Capture(capture_length(p.capture_secs)),
        )
    } else {
        (Pipeline { stage: Stage::Idle, ..p }, Action::WaitHotkey)
    }
}

/// A cycle's end together with the report that closes it.
pub open spec fn closing(p: Pipeline, feedback: Feedback) -> (Pipeline, Step) {
    (cycle_end(p).0, Step { feedback, action: cycle_end(p).1 })
}

/// What is reported for the outcome of an execution.
pub open spec fn feedback_for(outcome: Result<ExecutionResult, ExecutionError>) -> Feedback {
    match outcome {
        Ok(ExecutionResult::Action(message)) => Feedback::Success(message),
        Ok(ExecutionResult::Answer(text)) => Feedback::Say(text),
        Err(ExecutionError::UnknownIntent) => Feedback::Failure(UNKNOWN_COMMAND),
        Err(_) => Feedback::Failure(COMMAND_FAILED),
    }
}

/// The orchestrator's next state and step. A trigger starts a cycle when
/// none is in flight and waits in the queue when one is. Each stage hands
/// on to the next when it succeeds; when it fails the failure is reported
/// and the cycle ends. The closing of the queue of triggers ends the
/// pipeline. An event that does not belong to the stage changes nothing.
pub open spec fn pipeline_next(p: Pipeline, event: Event) -> (Pipeline, Step) {
    match (p.stage, event) {
        (Stage::Stopped, _) => (p, Step { feedback: Feedback::Silent, action: Action::Nothing }),
        (_, Event::HotkeyClosed) => (
            Pipeline { stage: Stage::Stopped, ..p },
            Step { feedback: Feedback::Silent, action: Action::Stop },
        ),
        (Stage::Idle, Event::Trigger) => (
            Pipeline { stage: Stage::Capturing, ..p },
            Step {
                feedback: Feedback::Silent,
                action: Action::Capture(capture_length(p.capture_secs)),
            },
        ),
        (_, Event::Trigger) => (
            Pipeline { queued: (p.queued + 1) as u64, ..p },
            Step { feedback: Feedback::Silent, action: Action::Nothing },
        ),
        (Stage::Capturing, Event::Captured(ok)) => if ok {
            (
                Pipeline { stage: Stage::Transcribing, ..p },
                Step { feedback: Feedback::Silent, action: Action::Transcribe },
            )
        } else {
            closing(p, Feedback::Failure(CAPTURE_FAILED))
        },
        (Stage::Transcribing, Event::Transcribed(text)) => match text {
            None => closing(p, Feedback::Failure(TRANSCRIPTION_FAILED)),
            Some(text) => if is_blank(text@) {
                closing(p, Feedback::Failure(NOTHING_HEARD))
            } else if asks_for_help(text@) {
                closing(p, Feedback::Help)
            } else {
                (
                    Pipeline { stage: Stage::Classifying, ..p },
                    Step { feedback: Feedback::Silent, action: Action::Classify(text) },
                )
            },
        },
        (Stage::Classifying, Event::Classified(intent)) => match intent {
            None => closing(p, Feedback::Failure(INTENT_FAILED)),
            Some(intent) => (
                Pipeline { stage: Stage::Executing, ..p },
                Step { feedback: Feedback::Silent, action: Action::Execute(intent) },
            ),
        },
        (Stage::Executing, Event::Executed(outcome)) => closing(p, feedback_for(outcome)),
        _ => (p, Step { feedback: Feedback::Silent, action: Action::Nothing }),
    }
}


/// Whether a transcript asks for help.
pub fn is_help_request(transcript: &str) -> (r: bool)
    ensures
        r == asks_for_help(transcript@),
{
    let chars = chars_of(transcript);
    let (from, to) = trim_bounds(&chars);
    let ghost core = trimmed(transcript@);
    let mut end: usize = to;
    proof {
        assert(core.subrange(0, core.len() as int) =~= core);
    }
    while end > from && (chars[end - 1] == '.' || chars[end - 1] == '!' || chars[end - 1] == '?')
        invariant
            chars@ == transcript@,
            from <= end <= to <= chars@.len(),
            core == chars@.subrange(from as int, to as int),
            trailing_marks(core) == (to - end) + trailing_marks(core.subrange(0, end - from)),
        decreases end,
    {
        proof {
            let part = core.subrange(0, end - from);
            assert(part.last() == chars@[end - 1]);
            assert(part.drop_last() =~= core.subrange(0, end - from - 1));
        }
        end = end - 1;
    }
    proof {
        let part = core.subrange(0, end - from);
        if end > from {
            assert(part.last() == chars@[end - 1]);
        }
        assert(trailing_marks(part) == 0);
        assert(without_end_marks(core) =~= chars@.subrange(from as int, end as int));
    }
    let word = chars_of("help");
    chars_eq_ignore_ascii_case(&chars, from, end, &word)
}

impl Pipeline {
    /// An orchestrator that waits for its first trigger.
    pub fn new(capture_secs: u64) -> (p: Self)
        ensures
            p == (Pipeline { stage: Stage::Idle, queued: 0, capture_secs }),
    {
        Pipeline { stage: Stage::Idle, queued: 0, capture_secs }
    }

    /// How long a capture lasts.
    pub fn max_duration(&self) -> (length: Option<u64>)
        ensures
            length == capture_length(self.capture_secs),
    {
        if self.capture_secs == 0 {
            None
        } else {
            Some(self.capture_secs)
        }
    }

    /// Ends a cycle with a report.
    fn close(self, feedback: Feedback) -> (next: (Pipeline, Step))
        ensures
            next == closing(self, feedback),
    {
        if self.queued > 0 {
            (
                Pipeline {
                    stage: Stage::Capturing,
                    queued: self.queued - 1,
                    capture_secs: self.capture_secs,
                },
                Step { feedback, action: Action::Capture(self.max_duration()) },
            )
        } else {
            (
                Pipeline {
                    stage: Stage::Idle,
                    queued: self.queued,
                    capture_secs: self.capture_secs,
                },
                Step { feedback, action: Action::WaitHotkey },
            )
        }
    }

    /// Keeps the state and asks for nothing.
    fn stay(self) -> (next: (Pipeline, Step))
        ensures
            next == (self, Step { feedback: Feedback::Silent, action: Action::Nothing }),
    {
        (self, Step { feedback: Feedback::Silent, action: Action::Nothing })
    }

    /// Moves to `stage` and asks for `action`.
    fn advance(self, stage: Stage, action: Action) -> (next: (Pipeline, Step))
        ensures
            next == (Pipeline { stage, ..self }, Step { feedback: Feedback::Silent, action }),
    {
        (
            Pipeline { stage, queued: self.queued, capture_secs: self.capture_secs },
            Step { feedback: Feedback::Silent, action },
        )
    }

    /// Advances the orchestrator by one event.
    pub fn step(self, event: Event) -> (next: (Pipeline, Step))
        requires
            self.queued < u64::MAX,
        ensures
            next == pipeline_next(self, event),
    {
        match self.stage {
            Stage::Stopped => {
                return self.stay();
            },
            _ => {},
        }
        match event {
            Event::HotkeyClosed => self.advance(Stage::Stopped, Action::Stop),
            Event::Trigger => match self.stage {
                Stage::Idle => {
                    let length = self.max_duration();
                    self.advance(Stage::Capturing, Action::Capture(length))
                },
                _ => (
                    Pipeline {
                        stage: self.stage,
                        queued: self.queued + 1,
                        capture_secs: self.capture_secs,
                    },
                    Step { feedback: Feedback::Silent, action: Action::Nothing },
                ),
            },
            Event::Captured(ok) => match self.stage {
                Stage::Capturing => if ok {
                    self.advance(Stage::Transcribing, Action::Transcribe)
                } else {
                    self.close(Feedback::Failure(CAPTURE_FAILED))
                },
                _ => self.stay(),
            },
            Event::Transcribed(text) => match self.stage {
                Stage::Transcribing => match text {
                    None => self.close(Feedback::Failure(TRANSCRIPTION_FAILED)),
                    Some(text) => if is_blank_str(text.as_str()) {
                        self.close(Feedback::Failure(NOTHING_HEARD))
                    } else if is_help_request(text.as_str()) {
                        self.close(Feedback::Help)
                    } else {
                        self.advance(Stage::Classifying, Action::Classify(text))
                    },
                },
                _ => self.stay(),
            },
            Event::Classified(intent) => match self.stage {
                Stage::Classifying => match intent {
                    None => self.close(Feedback::Failure(INTENT_FAILED)),
                    Some(intent) => self.advance(Stage::Executing, Action::Execute(intent)),
                },
                _ => self.stay(),
            },
            Event::Executed(outcome) => match self.stage {
                Stage::Executing => {
                    let feedback = handle_intent(outcome);
                    self.close(feedback)
                },
                _ => self.stay(),
            },
        }
    }
}

/// Chooses the report for the outcome of an execution: the cue for a
/// success, the answer to speak, or the cue for a failure with a message
/// that tells an unknown intent from a failed command.
pub fn handle_intent(outcome: Result<ExecutionResult, ExecutionError>) -> (feedback: Feedback)
    ensures
        feedback == feedback_for(outcome),
{
    match outcome {
        Ok(ExecutionResult::Action(message)) => Feedback::Success(message),
        Ok(ExecutionResult::Answer(text)) => Feedback::Say(text),
        Err(ExecutionError::UnknownIntent) => Feedback::Failure(UNKNOWN_COMMAND),
        Err(_) => Feedback::Failure(COMMAND_FAILED),
    }
}


/// Whether a cycle is in flight at this stage.
pub open spec fn in_flight(stage: Stage) -> bool {
    stage == Stage::Capturing || stage == Stage::Transcribing || stage == Stage::Classifying
        || stage == Stage::Executing
}

/// The number of triggers among the events.
pub open spec fn triggers(events: Seq<Event>) -> nat
    decreases events.len(),
{
    if events.len() == 0 {
        0
    } else if events[0] is Trigger {
        1 + triggers(events.drop_first())
    } else {
        triggers(events.drop_first())
    }
}

/// The state after the events, taken in order.
pub open spec fn after(p: Pipeline, events: Seq<Event>) -> Pipeline
    decreases events.len(),
{
    if events.len() == 0 {
        p
    } else {
        after(pipeline_next(p, events[0]).0, events.drop_first())
    }
}

/// The number of captures that the orchestrator asks for during the
/// events: the number of cycles that start.
pub open spec fn cycles_started(p: Pipeline, events: Seq<Event>) -> nat
    decreases events.len(),
{
    if events.len() == 0 {
        0
    } else {
        let next = pipeline_next(p, events[0]);
        if next.1.action is Capture {
            1 + cycles_started(next.0, events.drop_first())
        } else {
            cycles_started(next.0, events.drop_first())
        }
    }
}

/// Whether the queue of triggers stays open during the events.
pub open spec fn never_closed(events: Seq<Event>) -> bool {
    forall|i: int| 0 <= i < events.len() ==> !(#[trigger] events[i] is HotkeyClosed)
}

/// Cycles do not overlap. A capture is asked for only when no cycle is in
/// flight and a trigger arrives, or when a cycle ends and a trigger waits
/// in the queue; a trigger that arrives while a cycle is in flight changes
/// nothing but the queue; and the orchestrator waits for a trigger only
/// when no cycle is in flight.
pub proof fn lemma_one_cycle_at_a_time(p: Pipeline, event: Event)
    ensures
        pipeline_next(p, event).1.action is Capture ==> pipeline_next(p, event).0.stage
            == Stage::Capturing && (p.stage == Stage::Idle && event is Trigger || in_flight(p.stage)
            && p.queued > 0 && pipeline_next(p, event).0.queued == p.queued - 1),
        in_flight(p.stage) && event is Trigger ==> pipeline_next(p, event).0.stage == p.stage
            && pipeline_next(p, event).1.action is Nothing,
        pipeline_next(p, event).1.action is WaitHotkey ==> pipeline_next(p, event).0.stage
            == Stage::Idle,
{
}

/// No trigger is dropped. While the queue of triggers stays open, every
/// trigger either has started a cycle or waits in the queue: the cycles
/// started and the triggers still queued are together as many as the
/// triggers that arrived and those queued before.
pub proof fn lemma_every_trigger_gets_its_cycle(p: Pipeline, events: Seq<Event>)
    requires
        p.stage != Stage::Stopped,
        never_closed(events),
        p.queued + triggers(events) <= u64::MAX,
    ensures
        cycles_started(p, events) + after(p, events).queued == triggers(events) + p.queued,
        after(p, events).stage != Stage::Stopped,
    decreases events.len(),
{
    if events.len() > 0 {
        let next = pipeline_next(p, events[0]).0;
        let rest = events.drop_first();
        assert(!(events[0] is HotkeyClosed));
        assert forall|i: int| 0 <= i < rest.len() implies !(#[trigger] rest[i] is HotkeyClosed) by {
            assert(rest[i] == events[i + 1]);
        }
        lemma_every_trigger_gets_its_cycle(next, rest);
    }
}

/// Once the last cycle has ended and the queue is empty, the cycles that
/// were started are as many as the triggers that arrived.
pub proof fn lemma_cycles_match_triggers(events: Seq<Event>, capture_secs: u64)
    requires
        never_closed(events),
        triggers(events) <= u64::MAX,
        after(
            Pipeline { stage: Stage::Idle, queued: 0, capture_secs },
            events,
        ).queued == 0,
    ensures
        cycles_started(Pipeline { stage: Stage::Idle, queued: 0, capture_secs }, events)
            == triggers(events),
{
    lemma_every_trigger_gets_its_cycle(
        Pipeline { stage: Stage::Idle, queued: 0, capture_secs },
        events,
    );
}

} // verus!
