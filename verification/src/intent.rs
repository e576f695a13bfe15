//! What the classifier makes of a transcript: the request put to it, the
//! decoding of its reply, and the check of the reply against the
//! configured mappings.

use vstd::prelude::*;
use vstd::string::StringExecFns;
use crate::config::{Config, names_of};
use crate::text::{
    concat2, concat3, ends_with, has_prefix, has_suffix, is_blank, is_blank_str, join, joined,
    lowercase_of, replace_all, replaced, str_eq, string_views, strip_prefix, strip_suffix,
    to_lowercase, trim, trimmed,
};

verus! {

/// The kind of an intent.
#[derive(Debug, Clone, Copy, PartialEq, Eq, Structural)]
pub enum IntentAction {
    /// Open a mapped file.
    OpenFile,
    /// Launch a mapped application.
    OpenApp,
    /// Perform a system action.
    System,
    /// Speak an answer.
    Answer,
    /// Nothing that can be acted on.
    Unknown,
}

/// The bit pattern of the single-precision number 0.0.
pub const CONFIDENCE_NONE: u32 = 0x0000_0000;

/// The bit pattern of the single-precision number 0.3.
pub const CONFIDENCE_LOW: u32 = 0x3e99_999a;

/// The bit pattern of the single-precision number 0.6.
pub const CONFIDENCE_MEDIUM: u32 = 0x3f19_999a;

/// The bit pattern of the single-precision number 0.9.
pub const CONFIDENCE_HIGH: u32 = 0x3f66_6666;

/// The bit pattern of the single-precision number 1.0.
pub const CONFIDENCE_FULL: u32 = 0x3f80_0000;

/// A classified intent. Each variant carries the classifier's confidence as
/// the IEEE 754 bit pattern of a single-precision number.
#[derive(Debug, Clone)]
pub enum Intent {
    /// Open the file mapped to `target`.
    OpenFile { target: String, confidence: u32 },
    /// Launch the application mapped to `target`.
    OpenApp { target: String, confidence: u32 },
    /// Perform the system action named `target`.
    System { target: String, confidence: u32 },
    /// Speak `response`.
    Answer { response: String, confidence: u32 },
    /// Nothing that can be acted on.
    Unknown { confidence: u32 },
}

/// The confidence field of a reply, as it arrived.
#[derive(Debug, Clone)]
pub enum RawConfidence {
    /// A number, as the bit pattern of the nearest single-precision number.
    Number(u32),
    /// A word.
    Text(String),
    /// A truth value.
    Flag(bool),
    /// Anything else.
    Other,
}

/// The fields of a reply, as they arrived.
#[derive(Debug, Clone)]
pub struct RawIntent {
    /// The action's name.
    pub action: Option<String>,
    /// The key or name that the action applies to.
    pub target: Option<String>,
    /// The text of an answer.
    pub response: Option<String>,
    /// The confidence.
    pub confidence: Option<RawConfidence>,
}

/// Why a transcript could not be classified.
#[derive(Debug)]
pub enum IntentError {
    /// The request could not be sent; the transport's message.
    Request(String),
    /// The classifier answered with an error status; the transport's
    /// message.
    Http(String),
    /// The reply's envelope could not be read; the transport's message.
    Response(String),
    /// The reply is not the structure asked for.
    InvalidFormat { raw: String, err: String },
    /// The reply names a target that no mapping holds.
    UnknownTarget(String),
}

/// Whether a confidence lies between 0.0 and 1.0. Among the bit patterns of
/// single-precision numbers these are the ones up to that of 1.0.
pub open spec fn in_unit_range(confidence: u32) -> bool {
    confidence <= CONFIDENCE_FULL
}

/// The action that a lower-case name stands for.
pub open spec fn action_named(name: Seq<char>) -> IntentAction {
    if name == "open_file"@ {
        IntentAction::OpenFile
    } else if name == "open_app"@ {
        IntentAction::OpenApp
    } else if name == "system"@ {
        IntentAction::System
    } else if name == "answer"@ {
        IntentAction::Answer
    } else {
        IntentAction::Unknown
    }
}

/// The confidence that a lower-case word stands for: 0.9 for `high`, 0.6
/// for `medium`, 0.3 for `low`, and 0.0 for any other.
pub open spec fn word_confidence(word: Seq<char>) -> u32 {
    if word == "high"@ {
        CONFIDENCE_HIGH
    } else if word == "medium"@ {
        CONFIDENCE_MEDIUM
    } else if word == "low"@ {
        CONFIDENCE_LOW
    } else {
        CONFIDENCE_NONE
    }
}

/// The confidence that a reply's field stands for: a number between 0.0
/// and 1.0 as it is, a word by its lower-case form, 1.0 for true and 0.0
/// for false, and 0.0 for anything else, for a number outside that range
/// and for no field.
pub open spec fn confidence_of(raw: Option<RawConfidence>) -> u32 {
    match raw {
        Some(RawConfidence::Number(bits)) => if in_unit_range(bits) {
            bits
        } else {
            CONFIDENCE_NONE
        },
        Some(RawConfidence::Text(word)) => word_confidence(lowercase_of(word@)),
        Some(RawConfidence::Flag(flag)) => if flag {
            CONFIDENCE_FULL
        } else {
            CONFIDENCE_NONE
        },
        _ => CONFIDENCE_NONE,
    }
}

/// Every decoded confidence lies between 0.0 and 1.0.
pub proof fn lemma_confidence_in_range(raw: Option<RawConfidence>)
    ensures
        in_unit_range(confidence_of(raw)),
{
}

/// Every intent made of a reply carries a confidence between 0.0 and 1.0.
pub proof fn lemma_intent_confidence_in_range(raw: RawIntent)
    ensures
        in_unit_range(intent_of(raw).spec_confidence()),
        intent_of(raw).spec_confidence() == confidence_of(raw.confidence),
{
}

/// The intent made of an action and the fields that go with it. An action
/// whose field is absent gives `Unknown`.
pub open spec fn assembled(
    action: IntentAction,
    target: Option<String>,
    response: Option<String>,
    confidence: u32,
) -> Intent {
    match action {
        IntentAction::OpenFile => match target {
            Some(target) => Intent::OpenFile { target, confidence },
            None => Intent::Unknown { confidence },
        },
        IntentAction::OpenApp => match target {
            Some(target) => Intent::OpenApp { target, confidence },
            None => Intent::Unknown { confidence },
        },
        IntentAction::System => match target {
            Some(target) => Intent::System { target, confidence },
            None => Intent::Unknown { confidence },
        },
        IntentAction::Answer => match response {
            Some(response) => Intent::Answer { response, confidence },
            None => Intent::Unknown { confidence },
        },
        IntentAction::Unknown => Intent::Unknown { confidence },
    }
}

/// The name of a reply's action: its text, or nothing where it is absent.
pub open spec fn action_text(action: Option<String>) -> Seq<char> {
    match action {
        Some(name) => name@,
        None => Seq::empty(),
    }
}

/// The intent that a reply stands for.
pub open spec fn intent_of(raw: RawIntent) -> Intent {
    assembled(
        action_named(lowercase_of(action_text(raw.action))),
        raw.target,
        raw.response,
        confidence_of(raw.confidence),
    )
}

/// Whether a confidence lies between 0.0 and 1.0.
pub fn is_unit_confidence(confidence: u32) -> (r: bool)
    ensures
        r == in_unit_range(confidence),
{
    confidence <= CONFIDENCE_FULL
}

/// Looks up the action that a lower-case name stands for.
pub fn parse_action(name: &str) -> (action: IntentAction)
    ensures
        action == action_named(name@),
{
    if str_eq(name, "open_file") {
        IntentAction::OpenFile
    } else if str_eq(name, "open_app") {
        IntentAction::OpenApp
    } else if str_eq(name, "system") {
        IntentAction::System
    } else if str_eq(name, "answer") {
        IntentAction::Answer
    } else {
        IntentAction::Unknown
    }
}

/// Looks up the confidence that a lower-case word stands for.
pub fn parse_confidence_word(word: &str) -> (confidence: u32)
    ensures
        confidence == word_confidence(word@),
        in_unit_range(confidence),
{
    if str_eq(word, "high") {
        CONFIDENCE_HIGH
    } else if str_eq(word, "medium") {
        CONFIDENCE_MEDIUM
    } else if str_eq(word, "low") {
        CONFIDENCE_LOW
    } else {
        CONFIDENCE_NONE
    }
}

/// Decodes the confidence field of a reply.
pub fn decode_confidence(raw: &Option<RawConfidence>) -> (confidence: u32)
    ensures
        confidence == confidence_of(*raw),
        in_unit_range(confidence),
{
    match raw {
        Some(RawConfidence::Number(bits)) => if is_unit_confidence(*bits) {
            *bits
        } else {
            CONFIDENCE_NONE
        },
        Some(RawConfidence::Text(word)) => {
            let lowered = to_lowercase(word.as_str());
            parse_confidence_word(lowered.as_str())
        },
        Some(RawConfidence::Flag(flag)) => if *flag {
            CONFIDENCE_FULL
        } else {
            CONFIDENCE_NONE
        },
        _ => CONFIDENCE_NONE,
    }
}

impl Intent {
    /// The classifier's confidence, as the bit pattern of a
    /// single-precision number.
    pub open spec fn spec_confidence(&self) -> u32 {
        match *self {
            Intent::OpenFile { confidence, .. } => confidence,
            Intent::OpenApp { confidence, .. } => confidence,
            Intent::System { confidence, .. } => confidence,
            Intent::Answer { confidence, .. } => confidence,
            Intent::Unknown { confidence } => confidence,
        }
    }

    /// The kind of the intent.
    pub open spec fn spec_action(&self) -> IntentAction {
        match *self {
            Intent::OpenFile { .. } => IntentAction::OpenFile,
            Intent::OpenApp { .. } => IntentAction::OpenApp,
            Intent::System { .. } => IntentAction::System,
            Intent::Answer { .. } => IntentAction::Answer,
            Intent::Unknown { .. } => IntentAction::Unknown,
        }
    }

    /// The classifier's confidence, as the bit pattern of a
    /// single-precision number.
    #[verifier::when_used_as_spec(spec_confidence)]
    pub fn confidence(&self) -> (confidence: u32)
        ensures
            confidence == self.spec_confidence(),
    {
        match self {
            Intent::OpenFile { confidence, .. } => *confidence,
            Intent::OpenApp { confidence, .. } => *confidence,
            Intent::System { confidence, .. } => *confidence,
            Intent::Answer { confidence, .. } => *confidence,
            Intent::Unknown { confidence } => *confidence,
        }
    }

    /// The kind of the intent.
    #[verifier::when_used_as_spec(spec_action)]
    pub fn action(&self) -> (action: IntentAction)
        ensures
            action == self.spec_action(),
    {
        match self {
            Intent::OpenFile { .. } => IntentAction::OpenFile,
            Intent::OpenApp { .. } => IntentAction::OpenApp,
            Intent::System { .. } => IntentAction::System,
            Intent::Answer { .. } => IntentAction::Answer,
            Intent::Unknown { .. } => IntentAction::Unknown,
        }
    }

    /// Makes an intent of an action and the fields that go with it.
    pub fn assemble(
        action: IntentAction,
        target: Option<String>,
        response: Option<String>,
        confidence: u32,
    ) -> (intent: Intent)
        ensures
            intent == assembled(action, target, response, confidence),
            intent.spec_confidence() == confidence,
    {
        match action {
            IntentAction::OpenFile => match target {
                Some(target) => Intent::OpenFile { target, confidence },
                None => Intent::Unknown { confidence },
            },
            IntentAction::OpenApp => match target {
                Some(target) => Intent::OpenApp { target, confidence },
                None => Intent::Unknown { confidence },
            },
            IntentAction::System => match target {
                Some(target) => Intent::System { target, confidence },
                None => Intent::Unknown { confidence },
            },
            IntentAction::Answer => match response {
                Some(response) => Intent::Answer { response, confidence },
                None => Intent::Unknown { confidence },
            },
            IntentAction::Unknown => Intent::Unknown { confidence },
        }
    }

    /// Makes an intent of the fields of a reply.
    pub fn from_raw(raw: RawIntent) -> (intent: Intent)
        ensures
            intent == intent_of(raw),
            in_unit_range(intent.spec_confidence()),
    {
        let action = match &raw.action {
            Some(name) => parse_action(to_lowercase(name.as_str()).as_str()),
            None => parse_action(to_lowercase("").as_str()),
        };
        proof {
            if raw.action is None {
                assert(""@ =~= Seq::<char>::empty()) by {
                    reveal_strlit("");
                }
            }
        }
        let confidence = decode_confidence(&raw.confidence);
        Intent::assemble(action, raw.target, raw.response, confidence)
    }
}


impl From<RawIntent> for Intent {
    fn from(raw: RawIntent) -> (intent: Intent) {
        Intent::from_raw(raw)
    }
}

impl vstd::std_specs::convert::FromSpecImpl<RawIntent> for Intent {
    open spec fn obeys_from_spec() -> bool {
        true
    }

    open spec fn from_spec(raw: RawIntent) -> Intent {
        intent_of(raw)
    }
}

/// The target that an intent names, where its kind has one.
pub open spec fn named_target(intent: Intent) -> Option<Seq<char>> {
    match intent {
        Intent::OpenFile { target, .. } => Some(target@),
        Intent::OpenApp { target, .. } => Some(target@),
        Intent::System { target, .. } => Some(target@),
        _ => None,
    }
}

/// Whether the configuration knows what an intent names: the file or
/// application key is mapped, or the system action is enabled. An intent
/// that names nothing passes.
pub open spec fn target_known(intent: Intent, config: Config) -> bool {
    match intent {
        Intent::OpenFile { target, .. } => config.files@.dom().contains(target@),
        Intent::OpenApp { target, .. } => config.applications@.dom().contains(target@),
        Intent::System { target, .. } => config.system.enables(target@),
        _ => true,
    }
}

/// Whether `names` holds `wanted`.
fn holds_name(names: &Vec<&'static str>, wanted: &str) -> (found: bool)
    ensures
        found == names_of(names@).contains(wanted@),
{
    let mut i: usize = 0;
    while i < names.len()
        invariant
            i <= names@.len(),
            forall|k: int| 0 <= k < i ==> names_of(names@)[k] != wanted@,
        decreases names@.len() - i,
    {
        if str_eq(names[i], wanted) {
            assert(names_of(names@)[i as int] == wanted@);
            return true;
        }
        i = i + 1;
    }
    false
}

/// Checks an intent against the configured mappings.
pub fn validate_intent_target(intent: &Intent, config: &Config) -> (result: Result<
    (),
    IntentError,
>)
    ensures
        target_known(*intent, *config) ==> result is Ok,
        !target_known(*intent, *config) ==> (result matches Err(IntentError::UnknownTarget(name))
            && Some(name@) == named_target(*intent)),
{
    match intent {
        Intent::OpenFile { target, .. } => {
            if !config.files.contains_key(target.as_str()) {
                return Err(IntentError::UnknownTarget(target.clone()));
            }
        },
        Intent::OpenApp { target, .. } => {
            if !config.applications.contains_key(target.as_str()) {
                return Err(IntentError::UnknownTarget(target.clone()));
            }
        },
        Intent::System { target, .. } => {
            let actions = config.system_actions();
            if !holds_name(&actions, target.as_str()) {
                return Err(IntentError::UnknownTarget(target.clone()));
            }
        },
        _ => {},
    }
    Ok(())
}

/// A reply without the code fence that may wrap it. The reply is trimmed;
/// an opening fence, with or without the word `json`, and a closing fence
/// are taken off; what is left is trimmed again. A reply without a closing
/// fence keeps its opening fence.
pub open spec fn fence_stripped(raw: Seq<char>) -> Seq<char> {
    let whole = trimmed(raw);
    let opened = if has_prefix(whole, "```json"@) {
        whole.subrange("```json"@.len() as int, whole.len() as int)
    } else if has_prefix(whole, "```"@) {
        whole.subrange("```"@.len() as int, whole.len() as int)
    } else {
        whole
    };
    let closed = if has_suffix(opened, "```"@) {
        opened.subrange(0, opened.len() - "```"@.len())
    } else {
        whole
    };
    trimmed(closed)
}

/// Takes off the code fence that may wrap a reply.
pub fn strip_code_fence(raw: &str) -> (cleaned: &str)
    ensures
        cleaned@ == fence_stripped(raw@),
{
    let whole = trim(raw);
    let opened = match strip_prefix(whole, "```json") {
        Some(rest) => rest,
        None => match strip_prefix(whole, "```") {
            Some(rest) => rest,
            None => whole,
        },
    };
    let closed = match strip_suffix(opened, "```") {
        Some(rest) => rest,
        None => whole,
    };
    trim(closed)
}


/// How a request to the classifier opens, up to the transcript.
pub const PROMPT_OPENING: &'static str =
    "You interpret voice commands for a desktop assistant.\nUser said: \"";

/// What introduces the file keys in a request.
pub const PROMPT_FILES: &'static str = "\"\nAvailable files: ";

/// What introduces the application keys in a request.
pub const PROMPT_APPS: &'static str = "\nAvailable apps: ";

/// What introduces the system actions in a request.
pub const PROMPT_SYSTEM: &'static str = "\nAvailable system actions: ";

/// The rules and examples that close a request.
pub const PROMPT_RULES: &'static str =
    "\nRules:\n- action must be one of: open_file, open_app, system, answer, unknown\n- use open_file/open_app/system only when the request matches an available key\n- for action=answer, provide a direct response text and set target to null\n- if unsure, use action=unknown and target=null\nExamples:\nInput: \"open my resume\" => {\"action\":\"open_file\",\"target\":\"resume\",\"response\":null,\"confidence\":0.9}\nInput: \"start chrome\" => {\"action\":\"open_app\",\"target\":\"chrome\",\"response\":null,\"confidence\":0.8}\nInput: \"turn volume down\" => {\"action\":\"system\",\"target\":\"volume_down\",\"response\":null,\"confidence\":0.8}\nInput: \"what is 2+3\" => {\"action\":\"answer\",\"target\":null,\"response\":\"5\",\"confidence\":0.9}\nReturn JSON only (no markdown, no code fences) with keys action, target, response, confidence.";

/// The text of a request: the transcript, then the file keys, the
/// application keys and the enabled system actions, each list joined by a
/// comma and a space, then the rules.
pub open spec fn prompt_text(
    transcription: Seq<char>,
    files: Seq<Seq<char>>,
    apps: Seq<Seq<char>>,
    systems: Seq<Seq<char>>,
) -> Seq<char> {
    PROMPT_OPENING@ + transcription + PROMPT_FILES@ + joined(files, ", "@) + PROMPT_APPS@ + joined(
        apps,
        ", "@,
    ) + PROMPT_SYSTEM@ + joined(systems, ", "@) + PROMPT_RULES@
}

/// Copies a list of names.
fn owned_names(names: &Vec<&'static str>) -> (owned: Vec<String>)
    ensures
        string_views(owned@) == names_of(names@),
{
    let mut owned: Vec<String> = Vec::new();
    let mut i: usize = 0;
    while i < names.len()
        invariant
            i <= names@.len(),
            owned@.len() == i,
            forall|k: int| 0 <= k < i ==> (#[trigger] owned@[k])@ == names@[k]@,
        decreases names@.len() - i,
    {
        owned.push(names[i].to_owned());
        i = i + 1;
    }
    assert(string_views(owned@) =~= names_of(names@));
    owned
}

/// Writes the request that asks the classifier about a transcript.
pub fn build_prompt(transcription: &str, config: &Config) -> (prompt: String)
    ensures
        prompt@ == prompt_text(
            transcription@,
            config.files.key_order(),
            config.applications.key_order(),
            config.system.enabled_names(),
        ),
{
    let file_keys = config.file_keys();
    let app_keys = config.app_keys();
    let system_names = owned_names(&config.system_actions());
    proof {
        assert(string_views(file_keys@) =~= config.files.key_order());
        assert(string_views(app_keys@) =~= config.applications.key_order());
    }
    let files = join(&file_keys, ", ");
    let apps = join(&app_keys, ", ");
    let systems = join(&system_names, ", ");
    let mut prompt = String::from_str(PROMPT_OPENING);
    prompt.append(transcription);
    prompt.append(PROMPT_FILES);
    prompt.append(files.as_str());
    prompt.append(PROMPT_APPS);
    prompt.append(apps.as_str());
    prompt.append(PROMPT_SYSTEM);
    prompt.append(systems.as_str());
    prompt.append(PROMPT_RULES);
    prompt
}


/// One message of a chat request.
#[derive(Debug, Clone)]
pub struct ChatMessage {
    /// Who speaks.
    pub role: String,
    /// What is said.
    pub content: String,
}

/// The body of a request to the classifier.
#[derive(Debug, Clone)]
pub struct ChatRequest {
    /// The model that is to answer.
    pub model: String,
    /// The conversation so far.
    pub messages: Vec<ChatMessage>,
    /// Whether the answer may arrive in pieces.
    pub stream: bool,
}

/// What is to be done for a transcript.
#[derive(Debug)]
pub enum Inquiry {
    /// Nothing needs to be asked: the intent is known.
    Settled(Intent),
    /// This request is to be posted to the classifier.
    Ask(ChatRequest),
}

/// What to do after the classifier was probed for readiness.
#[derive(Debug, Clone, Copy, PartialEq, Eq, Structural)]
pub enum ProbeDecision {
    /// The classifier answered: go on.
    Ready,
    /// Probe again after this many seconds.
    RetryAfter(u64),
    /// Give up and report the last failure.
    GiveUp,
}

/// How often the classifier is probed before the pipeline gives up.
pub const READY_ATTEMPTS: u32 = 240;

/// The pause between two probes, in seconds.
pub const READY_DELAY_SECS: u64 = 1;

/// The part of an address that marks the chat endpoint.
pub const CHAT_PATH: &'static str = "/api/chat";

/// The part of an address that marks the endpoint probed for readiness.
pub const TAGS_PATH: &'static str = "/api/tags";

/// The settings with which the classifier is reached.
#[derive(Debug, Clone)]
pub struct IntentClient {
    /// The address that chat requests are posted to.
    pub endpoint: String,
    /// The model's name.
    pub model: String,
    /// The longest a request may take, in seconds.
    pub timeout_secs: u64,
}

/// Whether `request` asks `model` about `prompt`: one message from the
/// user, answered in one piece.
pub open spec fn asks(request: ChatRequest, model: Seq<char>, prompt: Seq<char>) -> bool {
    &&& request.model@ == model
    &&& request.messages@.len() == 1
    &&& request.messages@[0].role@ == "user"@
    &&& request.messages@[0].content@ == prompt
    &&& !request.stream
}

/// The address that is probed for readiness: the chat address with every
/// chat path replaced where it ends with one, and the address itself where
/// it does not.
pub open spec fn readiness_address(endpoint: Seq<char>) -> Seq<char> {
    if has_suffix(endpoint, CHAT_PATH@) {
        replaced(endpoint, CHAT_PATH@, TAGS_PATH@)
    } else {
        endpoint
    }
}

/// The text of a reply's message: trimmed, or empty where the reply holds
/// no message.
pub open spec fn payload_text(content: Option<Seq<char>>) -> Seq<char> {
    match content {
        Some(text) => trimmed(text),
        None => Seq::empty(),
    }
}

/// Decides what follows a probe of the classifier. `attempt` counts the
/// probes made so far, this one included.
pub fn after_probe(attempt: u32, succeeded: bool) -> (decision: ProbeDecision)
    ensures
        decision == if succeeded {
            ProbeDecision::Ready
        } else if attempt >= READY_ATTEMPTS {
            ProbeDecision::GiveUp
        } else {
            ProbeDecision::RetryAfter(READY_DELAY_SECS)
        },
{
    if succeeded {
        ProbeDecision::Ready
    } else if attempt >= READY_ATTEMPTS {
        ProbeDecision::GiveUp
    } else {
        ProbeDecision::RetryAfter(READY_DELAY_SECS)
    }
}

/// The trimmed text of a reply's message.
pub fn reply_payload<'a>(content: Option<&'a str>) -> (payload: &'a str)
    ensures
        payload@ == payload_text(
            match content {
                Some(text) => Some(text@),
                None => None,
            },
        ),
{
    match content {
        Some(text) => trim(text),
        None => {
            proof {
                reveal_strlit("");
                assert(""@ =~= Seq::<char>::empty());
            }
            ""
        },
    }
}

/// Turns the decoder's verdict on a reply into an intent. `raw` is the
/// reply as it was handed to the decoder's caller, `decoded` the fields
/// that the decoder read from it or its complaint.
pub fn parse_intent(raw: &str, decoded: Result<RawIntent, String>) -> (result: Result<
    Intent,
    IntentError,
>)
    ensures
        match decoded {
            Ok(fields) => result matches Ok(intent) && intent == intent_of(fields)
                && in_unit_range(intent.spec_confidence()),
            Err(complaint) => result matches Err(IntentError::InvalidFormat { raw: text, err })
                && text@ == raw@ && err == complaint,
        },
{
    match decoded {
        Ok(fields) => Ok(Intent::from_raw(fields)),
        Err(complaint) => Err(IntentError::InvalidFormat { raw: raw.to_owned(), err: complaint }),
    }
}

impl IntentClient {
    /// The client for a configuration.
    pub fn new(config: &Config) -> (client: Self)
        ensures
            client.endpoint@ == config.deepseek.endpoint@,
            client.model@ == config.deepseek.model@,
            client.timeout_secs == config.deepseek.timeout_secs,
    {
        IntentClient {
            endpoint: config.deepseek.endpoint.clone(),
            model: config.deepseek.model.clone(),
            timeout_secs: config.deepseek_timeout(),
        }
    }

    /// Decides what is to be done for a transcript. A blank transcript is
    /// settled at once as unknown, with no confidence; for any other the
    /// classifier is to be asked.
    pub fn begin(&self, transcription: &str, config: &Config) -> (inquiry: Inquiry)
        ensures
            is_blank(transcription@) ==> inquiry == Inquiry::Settled(
                Intent::Unknown { confidence: CONFIDENCE_NONE },
            ),
            !is_blank(transcription@) ==> (inquiry matches Inquiry::Ask(request) && asks(
                request,
                self.model@,
                prompt_text(
                    transcription@,
                    config.files.key_order(),
                    config.applications.key_order(),
                    config.system.enabled_names(),
                ),
            )),
    {
        if is_blank_str(transcription) {
            return Inquiry::Settled(Intent::Unknown { confidence: CONFIDENCE_NONE });
        }
        let prompt = build_prompt(transcription, config);
        let message = ChatMessage { role: "user".to_owned(), content: prompt };
        let mut messages: Vec<ChatMessage> = Vec::new();
        messages.push(message);
        Inquiry::Ask(ChatRequest { model: self.model.clone(), messages, stream: false })
    }

    /// Turns the decoder's verdict on a reply into a checked intent: the
    /// intent that the fields stand for, if the configuration knows its
    /// target.
    pub fn conclude(raw: &str, decoded: Result<RawIntent, String>, config: &Config) -> (result:
        Result<Intent, IntentError>)
        ensures
            match decoded {
                Ok(fields) => if target_known(intent_of(fields), *config) {
                    result matches Ok(intent) && intent == intent_of(fields) && in_unit_range(
                        intent.spec_confidence(),
                    )
                } else {
                    result matches Err(IntentError::UnknownTarget(name)) && Some(name@)
                        == named_target(intent_of(fields))
                },
                Err(complaint) => result matches Err(
                    IntentError::InvalidFormat { raw: text, err },
                ) && text@ == raw@ && err == complaint,
            },
    {
        let intent = match parse_intent(raw, decoded) {
            Ok(intent) => intent,
            Err(error) => {
                return Err(error);
            },
        };
        match validate_intent_target(&intent, config) {
            Ok(()) => Ok(intent),
            Err(error) => Err(error),
        }
    }

    /// The address that is probed to learn whether the classifier is up.
    pub fn readiness_endpoint(&self) -> (address: String)
        ensures
            address@ == readiness_address(self.endpoint@),
    {
        if ends_with(self.endpoint.as_str(), CHAT_PATH) {
            replace_all(self.endpoint.as_str(), CHAT_PATH, TAGS_PATH)
        } else {
            self.endpoint.clone()
        }
    }
}


impl IntentError {
    /// The sentence that describes the error.
    pub open spec fn message_text(&self) -> Seq<char> {
        match *self {
            IntentError::Request(err) => "request failed: "@ + err@,
            IntentError::Http(err) => "HTTP error: "@ + err@,
            IntentError::Response(err) => "failed parsing response: "@ + err@,
            IntentError::InvalidFormat { raw, err } => "invalid intent payload '"@ + raw@ + "': "@
                + err@,
            IntentError::UnknownTarget(target) => "unknown target '"@ + target@ + "'"@,
        }
    }

    /// Describes the error in one sentence.
    pub fn message(&self) -> (text: String)
        ensures
            text@ == self.message_text(),
    {
        match self {
            IntentError::Request(err) => concat2("request failed: ", err.as_str()),
            IntentError::Http(err) => concat2("HTTP error: ", err.as_str()),
            IntentError::Response(err) => concat2("failed parsing response: ", err.as_str()),
            IntentError::InvalidFormat { raw, err } => {
                let mut text = concat3("invalid intent payload '", raw.as_str(), "': ");
                text.append(err.as_str());
                text
            },
            IntentError::UnknownTarget(target) => concat3("unknown target '", target.as_str(), "'"),
        }
    }
}

} // verus!
