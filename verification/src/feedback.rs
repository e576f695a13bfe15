//! How an outcome is reported: which sound is played and what is spoken.

use vstd::prelude::*;
use vstd::string::StringExecFns;
use crate::config::{FeedbackConfig, FeedbackMode};
use crate::text::{eq_ignore_ascii_case, eq_ignoring_ascii_case};

verus! {

/// The means of reporting and the sounds that go with them.
#[derive(Debug, Clone)]
pub struct FeedbackPlayer {
    /// The means of reporting.
    pub mode: FeedbackMode,
    /// The sound played after a success.
    pub success_sound: Option<String>,
    /// The sound played after a failure.
    pub error_sound: Option<String>,
}

/// One report: a sound to play, then a text to speak. Either may be
/// absent.
#[derive(Debug, Clone)]
pub struct FeedbackPlan {
    /// The path of the sound to play first.
    pub sound: Option<String>,
    /// The text to speak then.
    pub speech: Option<String>,
}

/// What is spoken after a success.
pub const SUCCESS_WORD: &'static str = "Ok";

/// The name that stands for the system's own voice.
pub const DEFAULT_VOICE: &'static str = "default";

/// The characters of a string that may be absent.
pub open spec fn text_of(s: Option<String>) -> Option<Seq<char>> {
    match s {
        Some(text) => Some(text@),
        None => None,
    }
}

/// The report that a mode makes of a sound and a text: the sound where the
/// mode plays sounds, the text where it speaks.
pub open spec fn planned(
    plan: FeedbackPlan,
    mode: FeedbackMode,
    sound: Option<Seq<char>>,
    speech: Seq<char>,
) -> bool {
    &&& text_of(plan.sound) == if mode == FeedbackMode::Tts {
        None
    } else {
        sound
    }
    &&& text_of(plan.speech) == if mode == FeedbackMode::Sound {
        None
    } else {
        Some(speech)
    }
}

/// Whether `at` is the first voice whose name is `preferred` in any letter
/// case, or nothing where no voice has that name.
pub open spec fn is_first_voice(names: Seq<String>, preferred: Seq<char>, at: Option<usize>)
    -> bool {
    match at {
        Some(i) => i < names.len() && eq_ignoring_ascii_case(names[i as int]@, preferred)
            && forall|k: int| 0 <= k < i ==> !eq_ignoring_ascii_case(names[k]@, preferred),
        None => forall|k: int| 0 <= k < names.len() ==> !eq_ignoring_ascii_case(
            names[k]@,
            preferred,
        ),
    }
}

/// Copies a string that may be absent.
fn copy_of(s: &Option<String>) -> (copy: Option<String>)
    ensures
        text_of(copy) == text_of(*s),
{
    match s {
        Some(text) => Some(text.clone()),
        None => None,
    }
}

impl FeedbackPlayer {
    /// The player for a configuration.
    pub fn new(cfg: &FeedbackConfig) -> (player: Self)
        ensures
            player.mode == cfg.mode,
            text_of(player.success_sound) == text_of(cfg.success_sound),
            text_of(player.error_sound) == text_of(cfg.error_sound),
    {
        FeedbackPlayer {
            mode: cfg.mode,
            success_sound: copy_of(&cfg.success_sound),
            error_sound: copy_of(&cfg.error_sound),
        }
    }

    /// Makes the report of a sound and a text.
    fn plan(&self, sound: &Option<String>, speech: &str) -> (plan: FeedbackPlan)
        ensures
            planned(plan, self.mode, text_of(*sound), speech@),
    {
        match self.mode {
            FeedbackMode::Sound => FeedbackPlan { sound: copy_of(sound), speech: None },
            FeedbackMode::Tts => FeedbackPlan {
                sound: None,
                speech: Some(String::from_str(speech)),
            },
            FeedbackMode::Both => FeedbackPlan {
                sound: copy_of(sound),
                speech: Some(String::from_str(speech)),
            },
        }
    }

    /// The report of a success.
    pub fn success(&self) -> (plan: FeedbackPlan)
        ensures
            planned(plan, self.mode, text_of(self.success_sound), SUCCESS_WORD@),
    {
        self.plan(&self.success_sound, SUCCESS_WORD)
    }

    /// The report of a failure, with the message to speak.
    pub fn error(&self, message: &str) -> (plan: FeedbackPlan)
        ensures
            planned(plan, self.mode, text_of(self.error_sound), message@),
    {
        self.plan(&self.error_sound, message)
    }

    /// The report that speaks a text, whatever the mode.
    pub fn say(&self, text: &str) -> (plan: FeedbackPlan)
        ensures
            plan.sound is None,
            text_of(plan.speech) == Some(text@),
    {
        FeedbackPlan { sound: None, speech: Some(String::from_str(text)) }
    }
}

/// Picks the voice to speak with: none for the system's own, and else the
/// first whose name is the preferred one in any letter case.
pub fn select_voice(preferred: &str, names: &Vec<String>) -> (at: Option<usize>)
    ensures
        eq_ignoring_ascii_case(preferred@, DEFAULT_VOICE@) ==> at is None,
        !eq_ignoring_ascii_case(preferred@, DEFAULT_VOICE@) ==> is_first_voice(
            names@,
            preferred@,
            at,
        ),
{
    if eq_ignore_ascii_case(preferred, DEFAULT_VOICE) {
        return None;
    }
    let mut i: usize = 0;
    while i < names.len()
        invariant
            i <= names@.len(),
            !eq_ignoring_ascii_case(preferred@, DEFAULT_VOICE@),
            forall|k: int| 0 <= k < i ==> !eq_ignoring_ascii_case(names@[k]@, preferred@),
        decreases names@.len() - i,
    {
        if eq_ignore_ascii_case(names[i].as_str(), preferred) {
            return Some(i);
        }
        i = i + 1;
    }
    None
}

} // verus!
