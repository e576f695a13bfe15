//! The dispatch of a classified intent: which mapped value it reaches and
//! what is asked of the system for it.

use vstd::prelude::*;
use vstd::string::StringExecFns;
use crate::config::Config;
use crate::intent::Intent;
use crate::text::{chars_of, concat2, concat3, has_prefix, starts_with, str_eq};
use crate::windows_api::{
    LAUNCH_UNSUPPORTED, Platform, SYSTEM_UNSUPPORTED, SystemAction, SystemRequest,
    WindowsActionError, execute_system, launch, request_fits, spawns, start_args,
};

verus! {

/// Carries out intents against one configuration.
#[derive(Debug, Clone, Copy)]
pub struct CommandExecutor<'a> {
    config: &'a Config,
}

/// Why an intent could not be carried out.
#[derive(Debug)]
pub enum ExecutionError {
    /// No mapping holds this key.
    MissingMapping(String),
    /// The system refused or failed.
    Windows(WindowsActionError),
    /// The intent is unknown.
    UnknownIntent,
    /// No system action has this name.
    UnsupportedSystemAction(String),
    /// The working directory could not be read; the system's message.
    Io(String),
}

/// What carrying out an intent came to.
#[derive(Debug)]
pub enum ExecutionResult {
    /// Something was done; a sentence that says what.
    Action(String),
    /// An answer is to be spoken.
    Answer(String),
}

/// What is left to do for an intent once the mappings were consulted.
#[derive(Debug)]
pub enum Plan {
    /// Open the file at `path`, which may be relative to the working
    /// directory.
    Open { path: String, message: String },
    /// Put `request` to the system.
    Perform { request: SystemRequest, message: String },
    /// Speak this answer.
    Answer(String),
}

/// Whether `c` is a decimal digit.
pub open spec fn is_digit(c: char) -> bool {
    '0' <= c <= '9'
}

/// The number of decimal digits in `s`.
pub open spec fn digit_count(s: Seq<char>) -> nat
    decreases s.len(),
{
    if s.len() == 0 {
        0
    } else if is_digit(s.last()) {
        digit_count(s.drop_last()) + 1
    } else {
        digit_count(s.drop_last())
    }
}

/// The number that the decimal digits of `s` spell when every other
/// character is left out.
pub open spec fn digits_value(s: Seq<char>) -> nat
    decreases s.len(),
{
    if s.len() == 0 {
        0
    } else if is_digit(s.last()) {
        digits_value(s.drop_last()) * 10 + (s.last() as nat - '0' as nat) as nat
    } else {
        digits_value(s.drop_last())
    }
}

/// The volume level that a target asks for: the number its digits spell,
/// or 50 where it holds no digit or the number is above 255.
pub open spec fn volume_level(target: Seq<char>) -> u8 {
    if digit_count(target) > 0 && digits_value(target) <= 255 {
        digits_value(target) as u8
    } else {
        50
    }
}

/// The system action that a target names.
pub open spec fn system_action_of(target: Seq<char>) -> Option<SystemAction> {
    if target == "volume_mute"@ {
        Some(SystemAction::VolumeMute)
    } else if target == "volume_up"@ {
        Some(SystemAction::VolumeUp)
    } else if target == "volume_down"@ {
        Some(SystemAction::VolumeDown)
    } else if target == "sleep"@ {
        Some(SystemAction::Sleep)
    } else if target == "shutdown"@ {
        Some(SystemAction::Shutdown)
    } else if target == "restart"@ {
        Some(SystemAction::Restart)
    } else if target == "lock"@ {
        Some(SystemAction::Lock)
    } else if has_prefix(target, "volume_set"@) {
        Some(SystemAction::VolumeSet(volume_level(target)))
    } else {
        None
    }
}

/// Reads the volume level that a target asks for.
pub fn parse_volume_level(target: &str) -> (level: u8)
    ensures
        level == volume_level(target@),
{
    let chars = chars_of(target);
    let n: usize = chars.len();
    let mut seen: bool = false;
    let mut over: bool = false;
    let mut value: u32 = 0;
    let mut i: usize = 0;
    proof {
        assert(target@.subrange(0, 0) =~= Seq::<char>::empty());
    }
    while i < n
        invariant
            chars@ == target@,
            n == chars@.len(),
            i <= n,
            seen == (digit_count(target@.subrange(0, i as int)) > 0),
            value <= 255,
            !over ==> value == digits_value(target@.subrange(0, i as int)),
            over ==> digits_value(target@.subrange(0, i as int)) > 255,
        decreases n - i,
    {
        let c: char = chars[i];
        proof {
            let next = target@.subrange(0, i as int + 1);
            assert(next.drop_last() =~= target@.subrange(0, i as int));
            assert(next.last() == c);
        }
        if '0' <= c && c <= '9' {
            seen = true;
            if !over {
                let digit: u32 = c as u32 - '0' as u32;
                let next: u32 = value * 10 + digit;
                if next > 255 {
                    over = true;
                } else {
                    value = next;
                }
            }
        }
        i = i + 1;
    }
    proof {
        assert(target@.subrange(0, n as int) =~= target@);
    }
    if seen && !over {
        value as u8
    } else {
        50
    }
}

/// Looks up the system action that a target names.
pub fn parse_system_action(target: &str) -> (result: Result<SystemAction, ExecutionError>)
    ensures
        match system_action_of(target@) {
            Some(action) => result == Ok::<SystemAction, ExecutionError>(action),
            None => result matches Err(ExecutionError::UnsupportedSystemAction(name)) && name@
                == target@,
        },
{
    if str_eq(target, "volume_mute") {
        Ok(SystemAction::VolumeMute)
    } else if str_eq(target, "volume_up") {
        Ok(SystemAction::VolumeUp)
    } else if str_eq(target, "volume_down") {
        Ok(SystemAction::VolumeDown)
    } else if str_eq(target, "sleep") {
        Ok(SystemAction::Sleep)
    } else if str_eq(target, "shutdown") {
        Ok(SystemAction::Shutdown)
    } else if str_eq(target, "restart") {
        Ok(SystemAction::Restart)
    } else if str_eq(target, "lock") {
        Ok(SystemAction::Lock)
    } else if starts_with(target, "volume_set") {
        Ok(SystemAction::VolumeSet(parse_volume_level(target)))
    } else {
        Err(ExecutionError::UnsupportedSystemAction(target.to_owned()))
    }
}

/// What opening the file mapped to `key` comes to: the mapped path and a
/// sentence for the report, or the complaint that nothing is mapped.
pub open spec fn open_outcome(result: Result<Plan, ExecutionError>, key: Seq<char>, config: Config)
    -> bool {
    if config.files@.dom().contains(key) {
        result matches Ok(Plan::Open { path, message }) && path@ == config.files@[key] && message@
            == "Opened "@ + key
    } else {
        result matches Err(ExecutionError::MissingMapping(name)) && name@ == key
    }
}

/// What launching the application mapped to `key` comes to.
pub open spec fn launch_outcome(
    result: Result<Plan, ExecutionError>,
    key: Seq<char>,
    config: Config,
    platform: Platform,
) -> bool {
    if !config.applications@.dom().contains(key) {
        result matches Err(ExecutionError::MissingMapping(name)) && name@ == key
    } else if platform == Platform::Windows {
        result matches Ok(Plan::Perform { request, message }) && spawns(
            request,
            "cmd"@,
            start_args(config.applications@[key]),
        ) && message@ == "Launched "@ + key
    } else {
        result matches Err(ExecutionError::Windows(WindowsActionError::Unsupported(reason)))
            && reason@ == LAUNCH_UNSUPPORTED@
    }
}

/// What performing the system action named `target` comes to.
pub open spec fn system_outcome(
    result: Result<Plan, ExecutionError>,
    target: Seq<char>,
    platform: Platform,
) -> bool {
    match system_action_of(target) {
        None => result matches Err(ExecutionError::UnsupportedSystemAction(name)) && name@
            == target,
        Some(action) => if platform == Platform::Windows {
            result matches Ok(Plan::Perform { request, message }) && request_fits(request, action)
                && message@ == "Executed "@ + target
        } else {
            result matches Err(ExecutionError::Windows(WindowsActionError::Unsupported(reason)))
                && reason@ == SYSTEM_UNSUPPORTED@
        },
    }
}

impl<'a> CommandExecutor<'a> {
    /// The configuration that intents are carried out against.
    pub closed spec fn config(&self) -> Config {
        *self.config
    }

    /// An executor for `config`.
    pub fn new(config: &'a Config) -> (executor: Self)
        ensures
            executor.config() == *config,
    {
        CommandExecutor { config }
    }

    /// Plans what an intent asks for. Opening and launching go by the
    /// mappings; a system action goes by its name; an answer is handed on;
    /// an unknown intent is refused.
    pub fn execute(&self, intent: &Intent, platform: Platform) -> (result: Result<
        Plan,
        ExecutionError,
    >)
        ensures
            match *intent {
                Intent::OpenFile { target, .. } => open_outcome(result, target@, self.config()),
                Intent::OpenApp { target, .. } => launch_outcome(
                    result,
                    target@,
                    self.config(),
                    platform,
                ),
                Intent::System { target, .. } => system_outcome(result, target@, platform),
                Intent::Answer { response, .. } => result matches Ok(Plan::Answer(text)) && text@
                    == response@,
                Intent::Unknown { .. } => result matches Err(ExecutionError::UnknownIntent),
            },
    {
        match intent {
            Intent::OpenFile { target, .. } => self.open_target(target.as_str()),
            Intent::OpenApp { target, .. } => self.launch_target(target.as_str(), platform),
            Intent::System { target, .. } => self.run_system(target.as_str(), platform),
            Intent::Answer { response, .. } => Ok(Plan::Answer(response.clone())),
            Intent::Unknown { .. } => Err(ExecutionError::UnknownIntent),
        }
    }

    /// Plans the opening of the file mapped to `key`.
    pub fn open_target(&self, key: &str) -> (result: Result<Plan, ExecutionError>)
        ensures
            open_outcome(result, key@, self.config()),
    {
        match self.config.files.get(key) {
            Some(path) => {
                let mut message = String::from_str("Opened ");
                message.append(key);
                Ok(Plan::Open { path: path.clone(), message })
            },
            None => Err(ExecutionError::MissingMapping(key.to_owned())),
        }
    }

    /// Plans the launch of the application mapped to `key`.
    pub fn launch_target(&self, key: &str, platform: Platform) -> (result: Result<
        Plan,
        ExecutionError,
    >)
        ensures
            launch_outcome(result, key@, self.config(), platform),
    {
        let command = match self.config.applications.get(key) {
            Some(command) => command,
            None => {
                return Err(ExecutionError::MissingMapping(key.to_owned()));
            },
        };
        match launch(command.as_str(), platform) {
            Ok(request) => {
                let mut message = String::from_str("Launched ");
                message.append(key);
                Ok(Plan::Perform { request, message })
            },
            Err(error) => Err(ExecutionError::Windows(error)),
        }
    }

    /// Plans the system action named `target`.
    pub fn run_system(&self, target: &str, platform: Platform) -> (result: Result<
        Plan,
        ExecutionError,
    >)
        ensures
            system_outcome(result, target@, platform),
    {
        let action = match parse_system_action(target) {
            Ok(action) => action,
            Err(error) => {
                return Err(error);
            },
        };
        match execute_system(action, platform) {
            Ok(request) => {
                let mut message = String::from_str("Executed ");
                message.append(target);
                Ok(Plan::Perform { request, message })
            },
            Err(error) => Err(ExecutionError::Windows(error)),
        }
    }
}

/// Turns the system's verdict on a request into the result of the
/// execution: the report's sentence, or the system's complaint.
pub fn complete(message: String, outcome: Result<(), WindowsActionError>) -> (result: Result<
    ExecutionResult,
    ExecutionError,
>)
    ensures
        match outcome {
            Ok(()) => result == Ok::<ExecutionResult, ExecutionError>(
                ExecutionResult::Action(message),
            ),
            Err(error) => result == Err::<ExecutionResult, ExecutionError>(
                ExecutionError::Windows(error),
            ),
        },
{
    match outcome {
        Ok(()) => Ok(ExecutionResult::Action(message)),
        Err(error) => Err(ExecutionError::Windows(error)),
    }
}


impl ExecutionError {
    /// The sentence that describes the error.
    pub open spec fn message_text(&self) -> Seq<char> {
        match *self {
            ExecutionError::MissingMapping(key) => "no mapping for key '"@ + key@ + "'"@,
            ExecutionError::Windows(err) => "windows action failed: "@ + err.message_text(),
            ExecutionError::UnknownIntent => "intent classified as unknown"@,
            ExecutionError::UnsupportedSystemAction(action) => "unsupported system action '"@
                + action@ + "'"@,
            ExecutionError::Io(err) => "io error: "@ + err@,
        }
    }

    /// Describes the error in one sentence.
    pub fn message(&self) -> (text: String)
        ensures
            text@ == self.message_text(),
    {
        match self {
            ExecutionError::MissingMapping(key) => concat3("no mapping for key '", key.as_str(), "'"),
            ExecutionError::Windows(err) => concat2("windows action failed: ", err.message().as_str()),
            ExecutionError::UnknownIntent => String::from_str("intent classified as unknown"),
            ExecutionError::UnsupportedSystemAction(action) => concat3(
                "unsupported system action '",
                action.as_str(),
                "'",
            ),
            ExecutionError::Io(err) => concat2("io error: ", err.as_str()),
        }
    }
}

} // verus!
