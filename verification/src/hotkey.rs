//! Global key chords: their textual form, and the life cycle of the worker
//! that holds a chord's registration.

use vstd::prelude::*;
use vstd::string::StringExecFns;
use crate::config::HotkeyConfig;
use crate::text::{
    chars_of, concat2, concat3, lowercase_of, split_on, split_on_char, str_eq, to_lowercase, trim,
    trimmed,
};

verus! {

/// Modifier flag: Alt.
pub const MOD_ALT: u32 = 0x0001;

/// Modifier flag: Control.
pub const MOD_CONTROL: u32 = 0x0002;

/// Modifier flag: Shift.
pub const MOD_SHIFT: u32 = 0x0004;

/// Modifier flag: the Windows key.
pub const MOD_WIN: u32 = 0x0008;

/// Registration flag: holding the chord down does not trigger it again.
pub const MOD_NOREPEAT: u32 = 0x4000;

/// A modifier set together with the virtual-key code of one key.
#[derive(Clone, Copy, Debug, PartialEq, Eq, Structural)]
pub struct Chord {
    /// The modifier flags, or-ed together.
    pub modifiers: u32,
    /// The virtual-key code.
    pub key: u16,
}

/// Why a hotkey could not be set up or waited for.
#[derive(Debug)]
pub enum HotkeyError {
    /// The chord's text holds this token, which names neither a modifier
    /// nor a key; or it names no key at all.
    Parse(String),
    /// The system refused the registration; its message.
    Register(String),
    /// The queue of trigger events was closed.
    Channel,
    /// The worker ended before it reported whether it was ready.
    ThreadInit,
    /// Reading the manual trigger failed; the system's message.
    Interrupt(String),
}

/// The number that follows `f` in the name of a function key: 1 to 24,
/// written without a leading zero.
pub open spec fn function_key_number(s: Seq<char>) -> Option<int> {
    if s.len() == 1 && '1' <= s[0] <= '9' {
        Some(s[0] as int - '0' as int)
    } else if s.len() == 2 && (s[0] == '1' && '0' <= s[1] <= '9' || s[0] == '2' && '0' <= s[1]
        <= '4') {
        Some(10 * (s[0] as int - '0' as int) + (s[1] as int - '0' as int))
    } else {
        None
    }
}

/// The virtual-key code that a key's name stands for: a letter `a` to `z`,
/// a digit, `space`, `enter`, or `f1` to `f24`.
pub open spec fn key_code(key: Seq<char>) -> Option<u16> {
    if key.len() == 1 && 'a' <= key[0] <= 'z' {
        Some((0x41 + (key[0] as int - 'a' as int)) as u16)
    } else if key.len() == 1 && '0' <= key[0] <= '9' {
        Some((0x30 + (key[0] as int - '0' as int)) as u16)
    } else if key == "space"@ {
        Some(0x20u16)
    } else if key == "enter"@ {
        Some(0x0du16)
    } else if key.len() >= 2 && key[0] == 'f' {
        match function_key_number(key.subrange(1, key.len() as int)) {
            Some(n) => Some((0x70 + n - 1) as u16),
            None => None,
        }
    } else {
        None
    }
}

/// The flag that a modifier's name stands for.
pub open spec fn modifier_of(token: Seq<char>) -> Option<u32> {
    if token == "ctrl"@ || token == "control"@ {
        Some(MOD_CONTROL)
    } else if token == "alt"@ {
        Some(MOD_ALT)
    } else if token == "shift"@ {
        Some(MOD_SHIFT)
    } else if token == "win"@ || token == "windows"@ {
        Some(MOD_WIN)
    } else {
        None
    }
}

/// Reads the tokens of a chord from left to right, starting from the
/// modifiers and the key found so far. A modifier's flag is added to the
/// set; a key's code replaces the key. The first token that is neither
/// ends the reading and is handed back.
pub open spec fn fold_tokens(tokens: Seq<Seq<char>>, modifiers: u32, key: Option<u16>) -> Result<
    (u32, Option<u16>),
    Seq<char>,
>
    decreases tokens.len(),
{
    if tokens.len() == 0 {
        Ok((modifiers, key))
    } else {
        let token = tokens[0];
        match modifier_of(token) {
            Some(flag) => fold_tokens(tokens.drop_first(), modifiers | flag, key),
            None => match key_code(token) {
                Some(code) => fold_tokens(tokens.drop_first(), modifiers, Some(code)),
                None => Err(token),
            },
        }
    }
}

/// The chord that a sequence of tokens spells, or the text of the parse
/// error: the offending token, or `missing key` where no token names a key.
pub open spec fn chord_of(tokens: Seq<Seq<char>>) -> Result<Chord, Seq<char>> {
    match fold_tokens(tokens, 0, None) {
        Ok((modifiers, Some(key))) => Ok(Chord { modifiers, key }),
        Ok((_, None)) => Err("missing key"@),
        Err(token) => Err(token),
    }
}

/// The tokens of a chord's text: its pieces between `+` signs, trimmed and
/// lower-cased.
pub open spec fn tokens_of(hotkey: Seq<char>) -> Seq<Seq<char>> {
    split_on(hotkey, '+').map_values(|piece: Seq<char>| lowercase_of(trimmed(piece)))
}

/// The character sequences of a list of strings.
pub open spec fn views_of(strings: Seq<String>) -> Seq<Seq<char>> {
    strings.map_values(|s: String| s@)
}

/// Whether `result` is what parsing a chord yields for `expected`.
pub open spec fn parse_result_is(result: Result<Chord, HotkeyError>, expected: Result<
    Chord,
    Seq<char>,
>) -> bool {
    match expected {
        Ok(chord) => result == Ok::<Chord, HotkeyError>(chord),
        Err(text) => result matches Err(HotkeyError::Parse(message)) && message@ == text,
    }
}

/// Looks up the virtual-key code of a key's name.
pub fn parse_key(key: &str) -> (code: Option<u16>)
    ensures
        code == key_code(key@),
{
    let chars = chars_of(key);
    let n: usize = chars.len();
    if n == 1 && 'a' <= chars[0] && chars[0] <= 'z' {
        let offset: u32 = chars[0] as u32 - 'a' as u32;
        return Some((0x41 + offset) as u16);
    }
    if n == 1 && '0' <= chars[0] && chars[0] <= '9' {
        let offset: u32 = chars[0] as u32 - '0' as u32;
        return Some((0x30 + offset) as u16);
    }
    if str_eq(key, "space") {
        return Some(0x20);
    }
    if str_eq(key, "enter") {
        return Some(0x0d);
    }
    if n >= 2 && chars[0] == 'f' {
        let ghost tail = key@.subrange(1, n as int);
        if n == 2 && '1' <= chars[1] && chars[1] <= '9' {
            let number: u32 = chars[1] as u32 - '0' as u32;
            assert(tail.len() == 1 && tail[0] == chars@[1]);
            return Some((0x70 + number - 1) as u16);
        }
        if n == 3 && (chars[1] == '1' && '0' <= chars[2] && chars[2] <= '9' || chars[1] == '2'
            && '0' <= chars[2] && chars[2] <= '4') {
            let tens: u32 = chars[1] as u32 - '0' as u32;
            let ones: u32 = chars[2] as u32 - '0' as u32;
            assert(tail.len() == 2 && tail[0] == chars@[1] && tail[1] == chars@[2]);
            return Some((0x70 + 10 * tens + ones - 1) as u16);
        }
        assert(tail.len() == n - 1);
        assert(n >= 2 ==> tail[0] == chars@[1]);
        assert(n >= 3 ==> tail[1] == chars@[2]);
        return None;
    }
    None
}

/// Looks up the flag of a modifier's name.
pub fn parse_modifier(token: &str) -> (flag: Option<u32>)
    ensures
        flag == modifier_of(token@),
{
    if str_eq(token, "ctrl") || str_eq(token, "control") {
        Some(MOD_CONTROL)
    } else if str_eq(token, "alt") {
        Some(MOD_ALT)
    } else if str_eq(token, "shift") {
        Some(MOD_SHIFT)
    } else if str_eq(token, "win") || str_eq(token, "windows") {
        Some(MOD_WIN)
    } else {
        None
    }
}

/// Builds a chord from tokens that are already trimmed and lower-cased.
pub fn parse_tokens(tokens: &Vec<String>) -> (result: Result<Chord, HotkeyError>)
    ensures
        parse_result_is(result, chord_of(views_of(tokens@))),
{
    let ghost all = views_of(tokens@);
    let mut modifiers: u32 = 0;
    let mut key: Option<u16> = None;
    let mut i: usize = 0;
    proof {
        assert(all.subrange(0, all.len() as int) =~= all);
    }
    while i < tokens.len()
        invariant
            all == views_of(tokens@),
            i <= tokens@.len(),
            fold_tokens(all, 0, None) == fold_tokens(
                all.subrange(i as int, all.len() as int),
                modifiers,
                key,
            ),
        decreases tokens@.len() - i,
    {
        let ghost rest = all.subrange(i as int, all.len() as int);
        proof {
            assert(rest[0] == tokens@[i as int]@);
            assert(rest.drop_first() =~= all.subrange(i as int + 1, all.len() as int));
        }
        let token: &str = tokens[i].as_str();
        match parse_modifier(token) {
            Some(flag) => {
                modifiers = modifiers | flag;
            },
            None => match parse_key(token) {
                Some(code) => {
                    key = Some(code);
                },
                None => {
                    return Err(HotkeyError::Parse(token.to_owned()));
                },
            },
        }
        i = i + 1;
    }
    match key {
        Some(code) => Ok(Chord { modifiers, key: code }),
        None => Err(HotkeyError::Parse("missing key".to_owned())),
    }
}

/// Parses the text of a chord, such as `ctrl+alt+b`: modifier names and one
/// key name, joined by `+`, in any order and any letter case, with white
/// space allowed around each.
pub fn parse_hotkey(hotkey: &str) -> (result: Result<Chord, HotkeyError>)
    ensures
        parse_result_is(result, chord_of(tokens_of(hotkey@))),
{
    let pieces = split_on_char(hotkey, '+');
    let mut tokens: Vec<String> = Vec::new();
    let mut i: usize = 0;
    while i < pieces.len()
        invariant
            i <= pieces@.len(),
            pieces@.len() == split_on(hotkey@, '+').len(),
            forall|k: int|
                0 <= k < pieces@.len() ==> (#[trigger] pieces@[k])@ == split_on(hotkey@, '+')[k],
            tokens@.len() == i,
            forall|k: int| 0 <= k < i ==> (#[trigger] tokens@[k])@ == tokens_of(hotkey@)[k],
        decreases pieces@.len() - i,
    {
        let token = to_lowercase(trim(pieces[i].as_str()));
        tokens.push(token);
        i = i + 1;
    }
    proof {
        assert(views_of(tokens@) =~= tokens_of(hotkey@));
    }
    parse_tokens(&tokens)
}

/// The flags handed to the system when a chord is registered: the chord's
/// modifiers, and no repeat while it is held down.
pub fn registration_flags(modifiers: u32) -> (flags: u32)
    ensures
        flags == modifiers | MOD_NOREPEAT,
{
    modifiers | MOD_NOREPEAT
}


/// The message that reports a trigger of a registered chord.
pub const WM_HOTKEY: u32 = 0x0312;

/// The message that asks a message loop to end.
pub const WM_QUIT: u32 = 0x0012;

/// What the system is asked to register: an identifier, the flags and the
/// key's code.
#[derive(Clone, Copy, Debug, PartialEq, Eq, Structural)]
pub struct Registration {
    /// The identifier under which triggers are reported.
    pub id: u32,
    /// The modifier flags, with the no-repeat flag.
    pub flags: u32,
    /// The virtual-key code.
    pub key: u16,
}

/// A message as it was retrieved from the worker's queue.
#[derive(Clone, Copy, Debug, PartialEq, Eq, Structural)]
pub struct ThreadMessage {
    /// What the retrieval returned: positive for a message, zero for a
    /// request to quit, negative for a failure.
    pub status: i32,
    /// The kind of the message.
    pub message: u32,
    /// The message's first parameter.
    pub wparam: usize,
}

/// Where the worker that holds a registration stands.
#[derive(Clone, Copy, Debug, PartialEq, Eq, Structural)]
pub enum BridgeState {
    /// Nothing is registered.
    Unregistered,
    /// The registration was asked for.
    Registering,
    /// The chord is registered and the worker listens.
    Armed,
    /// A trigger was retrieved and is being forwarded.
    Triggered,
    /// The loop has ended and the registration is being released.
    Unregistering,
}

/// What happened to the worker.
#[derive(Clone, Copy, Debug, PartialEq, Eq, Structural)]
pub enum WorkerEvent {
    /// The worker was started.
    Start,
    /// The system accepted the registration.
    Registered,
    /// The system refused the registration.
    Refused,
    /// The last report or forwarding was done.
    Continue,
    /// A message was retrieved from the queue.
    Retrieved(ThreadMessage),
    /// The system released the registration.
    Released,
}

/// What the worker does next.
#[derive(Clone, Copy, Debug, PartialEq, Eq, Structural)]
pub enum WorkerAction {
    /// Ask the system for the registration.
    Register(Registration),
    /// Tell the constructor that the chord is armed.
    ReportReady,
    /// Tell the constructor that the registration was refused, and end.
    ReportFailure,
    /// Block until the queue holds a message.
    Retrieve,
    /// Put one trigger event into the queue of the orchestrator.
    Emit,
    /// Ask the system to release the registration.
    Unregister,
    /// End the worker.
    Exit,
    /// Nothing: the event does not belong to this state.
    Ignore,
}

/// Whether the system holds a registration for the worker in this state.
pub open spec fn holds_registration(state: BridgeState) -> bool {
    state == BridgeState::Armed || state == BridgeState::Triggered || state
        == BridgeState::Unregistering
}

/// Whether a retrieved message ends the loop: the retrieval failed or
/// returned a request to quit.
pub open spec fn ends_loop(msg: ThreadMessage) -> bool {
    msg.status <= 0 || msg.message == WM_QUIT
}

/// Whether a retrieved message reports a trigger of the registration `id`.
pub open spec fn is_trigger(msg: ThreadMessage, id: u32) -> bool {
    msg.status > 0 && msg.message == WM_HOTKEY && msg.wparam == id as usize
}

/// The worker's next state and action.
pub open spec fn worker_next(state: BridgeState, registration: Registration, event: WorkerEvent)
    -> (BridgeState, WorkerAction) {
    match (state, event) {
        (BridgeState::Unregistered, WorkerEvent::Start) => (
            BridgeState::Registering,
            WorkerAction::Register(registration),
        ),
        (BridgeState::Registering, WorkerEvent::Registered) => (
            BridgeState::Armed,
            WorkerAction::ReportReady,
        ),
        (BridgeState::Registering, WorkerEvent::Refused) => (
            BridgeState::Unregistered,
            WorkerAction::ReportFailure,
        ),
        (BridgeState::Armed, WorkerEvent::Continue) => (BridgeState::Armed, WorkerAction::Retrieve),
        (BridgeState::Armed, WorkerEvent::Retrieved(msg)) => if is_trigger(msg, registration.id) {
            (BridgeState::Triggered, WorkerAction::Emit)
        } else if ends_loop(msg) {
            (BridgeState::Unregistering, WorkerAction::Unregister)
        } else {
            (BridgeState::Armed, WorkerAction::Retrieve)
        },
        (BridgeState::Triggered, WorkerEvent::Continue) => (
            BridgeState::Armed,
            WorkerAction::Retrieve,
        ),
        (BridgeState::Unregistering, WorkerEvent::Released) => (
            BridgeState::Unregistered,
            WorkerAction::Exit,
        ),
        _ => (state, WorkerAction::Ignore),
    }
}

/// What is registered for a chord under the identifier `id`.
pub fn registration_for(chord: Chord, id: u32) -> (registration: Registration)
    ensures
        registration == (Registration {
            id,
            flags: chord.modifiers | MOD_NOREPEAT,
            key: chord.key,
        }),
{
    Registration { id, flags: registration_flags(chord.modifiers), key: chord.key }
}

/// Advances the worker by one event.
pub fn worker_step(state: BridgeState, registration: Registration, event: WorkerEvent) -> (next: (
    BridgeState,
    WorkerAction,
))
    ensures
        next == worker_next(state, registration, event),
{
    match (state, event) {
        (BridgeState::Unregistered, WorkerEvent::Start) => (
            BridgeState::Registering,
            WorkerAction::Register(registration),
        ),
        (BridgeState::Registering, WorkerEvent::Registered) => (
            BridgeState::Armed,
            WorkerAction::ReportReady,
        ),
        (BridgeState::Registering, WorkerEvent::Refused) => (
            BridgeState::Unregistered,
            WorkerAction::ReportFailure,
        ),
        (BridgeState::Armed, WorkerEvent::Continue) => (BridgeState::Armed, WorkerAction::Retrieve),
        (BridgeState::Armed, WorkerEvent::Retrieved(msg)) => {
            if msg.status > 0 && msg.message == WM_HOTKEY && msg.wparam == registration.id as usize {
                (BridgeState::Triggered, WorkerAction::Emit)
            } else if msg.status <= 0 || msg.message == WM_QUIT {
                (BridgeState::Unregistering, WorkerAction::Unregister)
            } else {
                (BridgeState::Armed, WorkerAction::Retrieve)
            }
        },
        (BridgeState::Triggered, WorkerEvent::Continue) => (
            BridgeState::Armed,
            WorkerAction::Retrieve,
        ),
        (BridgeState::Unregistering, WorkerEvent::Released) => (
            BridgeState::Unregistered,
            WorkerAction::Exit,
        ),
        _ => (state, WorkerAction::Ignore),
    }
}

/// The worker gives a registration up in one way only: by asking the
/// system to release it and learning that it did. And it ends only when it
/// holds none.
pub proof fn lemma_release_before_exit(
    state: BridgeState,
    registration: Registration,
    event: WorkerEvent,
)
    ensures
        holds_registration(state) && !holds_registration(
            worker_next(state, registration, event).0,
        ) ==> state == BridgeState::Unregistering && event == WorkerEvent::Released,
        worker_next(state, registration, event).1 == WorkerAction::Exit || worker_next(
            state,
            registration,
            event,
        ).1 == WorkerAction::ReportFailure ==> !holds_registration(
            worker_next(state, registration, event).0,
        ),
        worker_next(state, registration, event).1 == WorkerAction::Unregister ==> state
            == BridgeState::Armed,
{
}

/// An armed worker that retrieves a request to quit releases its
/// registration and ends, and the same chord can then be registered
/// again.
pub proof fn lemma_quit_releases(registration: Registration, msg: ThreadMessage)
    requires
        ends_loop(msg),
        !is_trigger(msg, registration.id),
    ensures
        worker_next(BridgeState::Armed, registration, WorkerEvent::Retrieved(msg)) == (
            BridgeState::Unregistering,
            WorkerAction::Unregister,
        ),
        worker_next(BridgeState::Unregistering, registration, WorkerEvent::Released) == (
            BridgeState::Unregistered,
            WorkerAction::Exit,
        ),
        worker_next(BridgeState::Unregistered, registration, WorkerEvent::Start) == (
            BridgeState::Registering,
            WorkerAction::Register(registration),
        ),
{
}

/// Each trigger that an armed worker retrieves is forwarded once, and the
/// worker then listens again.
pub proof fn lemma_trigger_forwarded_once(registration: Registration, msg: ThreadMessage)
    requires
        is_trigger(msg, registration.id),
    ensures
        worker_next(BridgeState::Armed, registration, WorkerEvent::Retrieved(msg)) == (
            BridgeState::Triggered,
            WorkerAction::Emit,
        ),
        worker_next(BridgeState::Triggered, registration, WorkerEvent::Continue) == (
            BridgeState::Armed,
            WorkerAction::Retrieve,
        ),
{
}

/// One step of taking a listener down.
#[derive(Clone, Copy, Debug, PartialEq, Eq, Structural)]
pub enum TeardownStep {
    /// Post a request to quit into the queue of the worker's thread.
    PostQuit(u32),
    /// Wait until the worker's thread has ended.
    Join,
}

/// The handle on an armed chord.
#[derive(Debug)]
pub struct HotkeyListener {
    /// The chord's text.
    pub label: String,
    /// The identifier of the worker's thread.
    pub thread_id: u32,
}

impl HotkeyListener {
    /// Reads the configured chord and says what is to be registered for it
    /// under the identifier `id`.
    pub fn new(cfg: &HotkeyConfig, id: u32) -> (result: Result<Registration, HotkeyError>)
        ensures
            match chord_of(tokens_of(cfg.key@)) {
                Ok(chord) => result == Ok::<Registration, HotkeyError>(
                    Registration { id, flags: chord.modifiers | MOD_NOREPEAT, key: chord.key },
                ),
                Err(text) => result matches Err(HotkeyError::Parse(message)) && message@ == text,
            },
    {
        match parse_hotkey(cfg.key.as_str()) {
            Ok(chord) => Ok(registration_for(chord, id)),
            Err(error) => Err(error),
        }
    }

    /// Makes the handle once the worker has reported. `ready` is the
    /// worker's report: the identifier of its thread or why it could not
    /// register, and nothing where it ended without a report.
    pub fn arm(cfg: &HotkeyConfig, ready: Option<Result<u32, HotkeyError>>) -> (result: Result<
        Self,
        HotkeyError,
    >)
        ensures
            match ready {
                Some(Ok(thread_id)) => result matches Ok(listener) && listener.thread_id
                    == thread_id && listener.label@ == cfg.key@,
                Some(Err(error)) => result matches Err(e) && e == error,
                None => result matches Err(HotkeyError::ThreadInit),
            },
    {
        match ready {
            Some(Ok(thread_id)) => Ok(HotkeyListener { label: cfg.key.clone(), thread_id }),
            Some(Err(error)) => Err(error),
            None => Err(HotkeyError::ThreadInit),
        }
    }

    /// What a wait on the queue of trigger events comes to: success for an
    /// event, and the complaint that the queue was closed for none.
    pub fn wait(&self, received: Option<()>) -> (result: Result<(), HotkeyError>)
        ensures
            received is Some ==> result is Ok,
            received is None ==> result matches Err(HotkeyError::Channel),
    {
        match received {
            Some(()) => Ok(()),
            None => Err(HotkeyError::Channel),
        }
    }

    /// The steps that take the listener down, in order: the worker is
    /// asked to quit, then waited for.
    pub fn teardown(&self) -> (steps: [TeardownStep; 2])
        ensures
            steps[0] == TeardownStep::PostQuit(self.thread_id),
            steps[1] == TeardownStep::Join,
    {
        [TeardownStep::PostQuit(self.thread_id), TeardownStep::Join]
    }
}


impl HotkeyError {
    /// The sentence that describes the error.
    pub open spec fn message_text(&self) -> Seq<char> {
        match *self {
            HotkeyError::Parse(key) => "invalid hotkey '"@ + key@ + "'"@,
            HotkeyError::Register(err) => "failed to register hotkey: "@ + err@,
            HotkeyError::Channel => "hotkey event channel closed"@,
            HotkeyError::ThreadInit => "failed to initialize hotkey listener"@,
            HotkeyError::Interrupt(err) => "input interrupted: "@ + err@,
        }
    }

    /// Describes the error in one sentence.
    pub fn message(&self) -> (text: String)
        ensures
            text@ == self.message_text(),
    {
        match self {
            HotkeyError::Parse(key) => concat3("invalid hotkey '", key.as_str(), "'"),
            HotkeyError::Register(err) => concat2("failed to register hotkey: ", err.as_str()),
            HotkeyError::Channel => String::from_str("hotkey event channel closed"),
            HotkeyError::ThreadInit => String::from_str("failed to initialize hotkey listener"),
            HotkeyError::Interrupt(err) => concat2("input interrupted: ", err.as_str()),
        }
    }
}

} // verus!
