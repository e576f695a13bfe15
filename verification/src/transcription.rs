//! Speech to text: the phrases given to a model as a hint of what it is
//! likely to hear, and the settings and verdicts of a recogniser that
//! listens by itself.

use vstd::prelude::*;
use vstd::string::StringExecFns;
use crate::config::{Config, SystemConfig, named_if};
use crate::text::{
    split_words, trim, trimmed, words_of,
    join, joined, lemma_lex_lt_asymmetric, lemma_lex_lt_between, lex_lt, precedes, string_views,
};

verus! {

/// Where `key` goes into an ordered list: behind the last entry that does
/// not come after it.
pub open spec fn insert_position(sorted: Seq<Seq<char>>, key: Seq<char>) -> int
    decreases sorted.len(),
{
    if sorted.len() > 0 && lex_lt(key, sorted.last()) {
        insert_position(sorted.drop_last(), key)
    } else {
        sorted.len() as int
    }
}

/// The keys in ascending order, character by character. Equal keys keep
/// the order in which they came.
pub open spec fn sorted_keys(keys: Seq<Seq<char>>) -> Seq<Seq<char>>
    decreases keys.len(),
{
    if keys.len() == 0 {
        Seq::empty()
    } else {
        let front = sorted_keys(keys.drop_last());
        front.insert(insert_position(front, keys.last()), keys.last())
    }
}

/// One phrase for each key: the key between `before` and a full stop.
pub open spec fn framed(keys: Seq<Seq<char>>, before: Seq<char>) -> Seq<Seq<char>> {
    keys.map_values(|key: Seq<char>| before + key + "."@)
}

/// The phrases for the enabled system actions.
pub open spec fn system_phrases(system: SystemConfig) -> Seq<Seq<char>> {
    named_if(system.volume_mute, "Mute volume."@) + named_if(system.volume_up, "Volume up."@)
        + named_if(system.volume_down, "Volume down."@) + named_if(
        system.volume_set,
        "Set volume to 50."@,
    ) + named_if(system.sleep, "Go to sleep."@) + named_if(system.restart, "Restart computer."@)
        + named_if(system.shutdown, "Shut down computer."@) + named_if(
        system.lock,
        "Lock computer."@,
    )
}

/// All phrases of the hint: one for each file key and one for each
/// application key, each kind in ascending order, then those for the
/// enabled system actions.
pub open spec fn hint_phrases(config: Config) -> Seq<Seq<char>> {
    framed(sorted_keys(config.files.key_order()), "Open "@) + framed(
        sorted_keys(config.applications.key_order()),
        "Launch "@,
    ) + system_phrases(config.system)
}

/// The hint: the phrases with a space between each two, or nothing where
/// there is no phrase.
pub open spec fn hint_text(config: Config) -> Option<Seq<char>> {
    if hint_phrases(config).len() == 0 {
        None
    } else {
        Some(joined(hint_phrases(config), " "@))
    }
}

/// The insert position lies inside the list or at its end.
pub proof fn lemma_insert_position(sorted: Seq<Seq<char>>, key: Seq<char>)
    ensures
        0 <= insert_position(sorted, key) <= sorted.len(),
    decreases sorted.len(),
{
    if sorted.len() > 0 && lex_lt(key, sorted.last()) {
        lemma_insert_position(sorted.drop_last(), key);
    }
}

/// Whether no entry of the list comes before an earlier one.
pub open spec fn ascending(keys: Seq<Seq<char>>) -> bool {
    forall|i: int, j: int| 0 <= i < j < keys.len() ==> !lex_lt(keys[j], keys[i])
}

/// Every entry from the insert position on comes after the key, and none
/// before it does.
pub proof fn lemma_insert_position_splits(sorted: Seq<Seq<char>>, key: Seq<char>)
    requires
        ascending(sorted),
    ensures
        forall|i: int|
            insert_position(sorted, key) <= i < sorted.len() ==> lex_lt(key, #[trigger] sorted[i]),
        forall|i: int|
            0 <= i < insert_position(sorted, key) ==> !lex_lt(key, #[trigger] sorted[i]),
    decreases sorted.len(),
{
    lemma_insert_position(sorted, key);
    if sorted.len() > 0 {
        let front = sorted.drop_last();
        assert(ascending(front)) by {
            assert forall|i: int, j: int| 0 <= i < j < front.len() implies !lex_lt(
                front[j],
                front[i],
            ) by {
                assert(front[i] == sorted[i] && front[j] == sorted[j]);
            }
        }
        if lex_lt(key, sorted.last()) {
            lemma_insert_position(front, key);
            lemma_insert_position_splits(front, key);
            assert forall|i: int| insert_position(sorted, key) <= i < sorted.len() implies lex_lt(
                key,
                #[trigger] sorted[i],
            ) by {
                if i < sorted.len() - 1 {
                    assert(sorted[i] == front[i]);
                }
            }
            assert forall|i: int| 0 <= i < insert_position(sorted, key) implies !lex_lt(
                key,
                #[trigger] sorted[i],
            ) by {
                assert(sorted[i] == front[i]);
            }
        } else {
            assert forall|i: int| 0 <= i < sorted.len() implies !lex_lt(
                key,
                #[trigger] sorted[i],
            ) by {
                if i < sorted.len() - 1 {
                    lemma_lex_lt_between(key, sorted.last(), sorted[i]);
                }
            }
        }
    }
}

/// The sorted keys are in ascending order, and they are the keys that were
/// given, each as often as it was given.
pub proof fn lemma_sorted_keys(keys: Seq<Seq<char>>)
    ensures
        ascending(sorted_keys(keys)),
        sorted_keys(keys).to_multiset() == keys.to_multiset(),
    decreases keys.len(),
{
    broadcast use vstd::seq_lib::group_to_multiset_ensures;

    if keys.len() == 0 {
        assert(sorted_keys(keys).to_multiset() =~= keys.to_multiset());
    } else {
        let front = sorted_keys(keys.drop_last());
        let key = keys.last();
        let at = insert_position(front, key);
        let out = front.insert(at, key);
        lemma_sorted_keys(keys.drop_last());
        lemma_insert_position(front, key);
        lemma_insert_position_splits(front, key);
        assert forall|i: int, j: int| 0 <= i < j < out.len() implies !lex_lt(out[j], out[i]) by {
            if j < at {
                assert(out[i] == front[i] && out[j] == front[j]);
            } else if j == at {
                assert(out[i] == front[i]);
            } else if i < at {
                assert(out[i] == front[i] && out[j] == front[j - 1]);
            } else if i == at {
                assert(out[j] == front[j - 1]);
                lemma_lex_lt_asymmetric(key, front[j - 1]);
            } else {
                assert(out[i] == front[i - 1] && out[j] == front[j - 1]);
            }
        }
        assert(out.remove(at) =~= front);
        assert(out[at] == key);
        assert(out.to_multiset() =~= front.to_multiset().insert(key)) by {
            assert(out.remove(at).to_multiset() =~= out.to_multiset().remove(key));
            assert(out.contains(key));
        }
        assert(keys.drop_last().push(key) =~= keys);
        assert(keys.to_multiset() =~= keys.drop_last().to_multiset().insert(key));
    }
}

/// Puts the keys in ascending order.
pub fn sort_keys(keys: &Vec<String>) -> (sorted: Vec<String>)
    ensures
        string_views(sorted@) == sorted_keys(string_views(keys@)),
{
    let ghost all = string_views(keys@);
    let mut sorted: Vec<String> = Vec::new();
    let mut i: usize = 0;
    proof {
        assert(all.subrange(0, 0) =~= Seq::<Seq<char>>::empty());
        assert(string_views(sorted@) =~= Seq::<Seq<char>>::empty());
    }
    while i < keys.len()
        invariant
            all == string_views(keys@),
            i <= keys@.len(),
            string_views(sorted@) == sorted_keys(all.subrange(0, i as int)),
        decreases keys@.len() - i,
    {
        let key: String = keys[i].clone();
        let ghost before = string_views(sorted@);
        let mut at: usize = sorted.len();
        proof {
            assert(before.subrange(0, at as int) =~= before);
        }
        while at > 0 && precedes(key.as_str(), sorted[at - 1].as_str())
            invariant
                before == string_views(sorted@),
                at <= sorted@.len(),
                insert_position(before, key@) == insert_position(
                    before.subrange(0, at as int),
                    key@,
                ),
            decreases at,
        {
            proof {
                let part = before.subrange(0, at as int);
                assert(part.last() == sorted@[at - 1]@);
                assert(part.drop_last() =~= before.subrange(0, at as int - 1));
            }
            at = at - 1;
        }
        proof {
            let part = before.subrange(0, at as int);
            if at > 0 {
                assert(part.last() == sorted@[at - 1]@);
            }
            assert(insert_position(before, key@) == at);
            let next = all.subrange(0, i as int + 1);
            assert(next.drop_last() =~= all.subrange(0, i as int));
            assert(next.last() == key@);
            assert(string_views(sorted@.insert(at as int, key)) =~= before.insert(
                at as int,
                key@,
            ));
        }
        sorted.insert(at, key);
        i = i + 1;
    }
    proof {
        assert(all.subrange(0, keys@.len() as int) =~= all);
    }
    sorted
}

/// Appends one phrase for each key: the key between `before` and a full
/// stop.
fn push_framed(phrases: &mut Vec<String>, keys: &Vec<String>, before: &str)
    ensures
        string_views(final(phrases)@) == string_views(old(phrases)@) + framed(
            string_views(keys@),
            before@,
        ),
{
    let ghost start = string_views(phrases@);
    let ghost all = framed(string_views(keys@), before@);
    let mut i: usize = 0;
    proof {
        assert(start + all.subrange(0, 0) =~= start);
    }
    while i < keys.len()
        invariant
            i <= keys@.len(),
            all == framed(string_views(keys@), before@),
            string_views(phrases@) == start + all.subrange(0, i as int),
        decreases keys@.len() - i,
    {
        let mut phrase = String::from_str(before);
        phrase.append(keys[i].as_str());
        phrase.append(".");
        proof {
            assert(phrase@ == all[i as int]);
            assert(string_views(phrases@.push(phrase)) =~= string_views(phrases@).push(phrase@));
            assert(all.subrange(0, i as int + 1) =~= all.subrange(0, i as int).push(
                all[i as int],
            ));
            assert((start + all.subrange(0, i as int)).push(phrase@) =~= start + all.subrange(
                0,
                i as int + 1,
            ));
        }
        phrases.push(phrase);
        i = i + 1;
    }
    proof {
        assert(all.subrange(0, keys@.len() as int) =~= all);
    }
}

/// Appends `phrase` if `enabled` holds.
fn push_phrase_if(phrases: &mut Vec<String>, enabled: bool, phrase: &str)
    ensures
        string_views(final(phrases)@) == string_views(old(phrases)@) + named_if(enabled, phrase@),
{
    if enabled {
        phrases.push(String::from_str(phrase));
    }
    assert(string_views(phrases@) =~= string_views(old(phrases)@) + named_if(enabled, phrase@));
}

/// Lists the phrases for the enabled system actions.
fn system_hint(system: SystemConfig) -> (phrases: Vec<String>)
    ensures
        string_views(phrases@) == system_phrases(system),
{
    let mut phrases: Vec<String> = Vec::new();
    assert(string_views(phrases@) =~= Seq::<Seq<char>>::empty());
    push_phrase_if(&mut phrases, system.volume_mute, "Mute volume.");
    push_phrase_if(&mut phrases, system.volume_up, "Volume up.");
    push_phrase_if(&mut phrases, system.volume_down, "Volume down.");
    push_phrase_if(&mut phrases, system.volume_set, "Set volume to 50.");
    push_phrase_if(&mut phrases, system.sleep, "Go to sleep.");
    push_phrase_if(&mut phrases, system.restart, "Restart computer.");
    push_phrase_if(&mut phrases, system.shutdown, "Shut down computer.");
    push_phrase_if(&mut phrases, system.lock, "Lock computer.");
    assert(string_views(phrases@) =~= system_phrases(system));
    phrases
}

/// Writes the hint for the speech-to-text model, or nothing where the
/// configuration maps no file and no application and enables no system
/// action.
pub fn build_transcription_prompt(config: &Config) -> (prompt: Option<String>)
    ensures
        match hint_text(*config) {
            Some(text) => prompt matches Some(p) && p@ == text,
            None => prompt is None,
        },
{
    let mut phrases: Vec<String> = Vec::new();
    assert(string_views(phrases@) =~= Seq::<Seq<char>>::empty());
    let file_keys = config.file_keys();
    let app_keys = config.app_keys();
    proof {
        assert(string_views(file_keys@) =~= config.files.key_order());
        assert(string_views(app_keys@) =~= config.applications.key_order());
    }
    let files = sort_keys(&file_keys);
    push_framed(&mut phrases, &files, "Open ");
    let apps = sort_keys(&app_keys);
    push_framed(&mut phrases, &apps, "Launch ");
    let mut system = system_hint(config.system);
    let ghost head = string_views(phrases@);
    proof {
        assert(head =~= framed(sorted_keys(config.files.key_order()), "Open "@) + framed(
            sorted_keys(config.applications.key_order()),
            "Launch "@,
        ));
        assert(string_views(phrases@ + system@) =~= head + string_views(system@));
    }
    phrases.append(&mut system);
    if phrases.len() == 0 {
        None
    } else {
        Some(join(&phrases, " "))
    }
}


/// The number of 100-nanosecond ticks in a second.
pub const TICKS_PER_SECOND: i64 = 10_000_000;

/// The topic given to a recogniser where none is configured.
pub const DEFAULT_TOPIC: &'static str = "dictation";

/// How long a recogniser waits for the end of speech where nothing is
/// configured, in milliseconds.
pub const DEFAULT_END_SILENCE_MS: u64 = 1200;

/// The status with which a recogniser reports success.
pub const STATUS_SUCCESS: i32 = 0;

/// The status with which a recogniser reports that nobody spoke in time.
pub const STATUS_TIMEOUT_EXCEEDED: i32 = 7;

/// The status with which a recogniser reports that the speaker paused for
/// too long.
pub const STATUS_PAUSE_LIMIT_EXCEEDED: i32 = 8;

/// What is reported where the system has no recogniser.
pub const RECOGNITION_UNSUPPORTED: &'static str =
    "Windows speech recognition is only available on Windows";

/// A length of time: whole seconds and the nanoseconds beyond them.
#[derive(Clone, Copy, Debug, PartialEq, Eq, Structural)]
pub struct Span {
    /// The whole seconds.
    pub secs: u64,
    /// The nanoseconds beyond the whole seconds.
    pub subsec_nanos: u32,
}

/// Why speech could not be turned into text.
#[derive(Debug)]
pub enum TranscriptionError {
    /// A system call failed; the system's message.
    Windows(String),
    /// The recogniser could not prepare its constraints; its status.
    CompilationStatus(i32),
    /// The recogniser failed; its status.
    RecognitionStatus(i32),
    /// The system has no recogniser.
    Unsupported(&'static str),
}

/// A number bounded to what 64 signed bits hold.
pub open spec fn saturated(x: int) -> int {
    if x > i64::MAX {
        i64::MAX as int
    } else if x < i64::MIN {
        i64::MIN as int
    } else {
        x
    }
}

/// An unsigned 64-bit number read as a signed one of the same bits.
pub open spec fn reinterpreted(x: u64) -> int {
    if x <= i64::MAX as u64 {
        x as int
    } else {
        x as int - 0x1_0000_0000_0000_0000
    }
}

/// The number of 100-nanosecond ticks in a length of time. The seconds are
/// read as a signed number; the product and the sum are bounded to 64
/// signed bits.
pub open spec fn ticks_of(span: Span) -> int {
    saturated(
        saturated(reinterpreted(span.secs) * TICKS_PER_SECOND as int) + span.subsec_nanos as int
            / 100,
    )
}

/// A number of milliseconds as a length of time.
pub open spec fn span_of_millis(ms: u64) -> Span {
    Span { secs: ms / 1000, subsec_nanos: ((ms % 1000) * 1_000_000) as u32 }
}

/// How long a recogniser waits for speech to start: the configured
/// milliseconds, or the length of a capture where none are configured, and
/// at least a second then.
pub open spec fn initial_silence(initial_ms: Option<u64>, capture_secs: u64) -> Span {
    match initial_ms {
        Some(ms) => span_of_millis(ms),
        None => Span {
            secs: if capture_secs < 1 {
                1
            } else {
                capture_secs
            },
            subsec_nanos: 0,
        },
    }
}

/// How long a recogniser waits for speech to end: the configured
/// milliseconds, or 1200 where none are configured.
pub open spec fn end_silence(end_ms: Option<u64>) -> Span {
    match end_ms {
        Some(ms) => span_of_millis(ms),
        None => span_of_millis(DEFAULT_END_SILENCE_MS),
    }
}

/// The topic that a hint spells: its words with one space between each
/// two, or the default topic where it holds no word.
pub open spec fn topic_text(hint: Seq<char>) -> Seq<char> {
    if words_of(hint).len() == 0 {
        DEFAULT_TOPIC@
    } else {
        joined(words_of(hint), " "@)
    }
}

/// The language tag to ask for: the configured one, trimmed, unless it is
/// absent or blank.
pub open spec fn language_text(tag: Option<Seq<char>>) -> Option<Seq<char>> {
    match tag {
        Some(text) => if trimmed(text).len() == 0 {
            None
        } else {
            Some(trimmed(text))
        },
        None => None,
    }
}

/// Converts a length of time into 100-nanosecond ticks.
pub fn duration_to_timespan(span: Span) -> (ticks: i64)
    ensures
        ticks as int == ticks_of(span),
{
    let whole: i64 = if span.secs <= 0x7fff_ffff_ffff_ffff {
        let secs: i64 = span.secs as i64;
        if secs > i64::MAX / TICKS_PER_SECOND {
            assert(secs as int * 10_000_000 > i64::MAX) by (nonlinear_arith)
                requires
                    secs as int > i64::MAX as int / 10_000_000,
            ;
            i64::MAX
        } else {
            assert(0 <= secs as int * 10_000_000 <= i64::MAX) by (nonlinear_arith)
                requires
                    0 <= secs as int <= i64::MAX as int / 10_000_000,
            ;
            secs * TICKS_PER_SECOND
        }
    } else {
        let above: u64 = u64::MAX - span.secs;
        let secs: i64 = -(above as i64) - 1;
        assert(secs as int == reinterpreted(span.secs));
        if secs < i64::MIN / TICKS_PER_SECOND {
            assert(secs as int * 10_000_000 < i64::MIN) by (nonlinear_arith)
                requires
                    (secs as int) < -922_337_203_685,
            ;
            i64::MIN
        } else {
            assert(i64::MIN <= secs as int * 10_000_000 <= 0) by (nonlinear_arith)
                requires
                    -922_337_203_685 <= secs as int <= 0,
            ;
            secs * TICKS_PER_SECOND
        }
    };
    let part: i64 = (span.subsec_nanos / 100) as i64;
    if whole > i64::MAX - part {
        i64::MAX
    } else {
        whole + part
    }
}

/// A number of milliseconds as a length of time.
pub fn span_from_millis(ms: u64) -> (span: Span)
    ensures
        span == span_of_millis(ms),
{
    let rest: u64 = ms % 1000;
    Span { secs: ms / 1000, subsec_nanos: (rest * 1_000_000) as u32 }
}

/// Settles how long a recogniser waits for speech to start and to end.
pub fn configure_timeouts(initial_ms: Option<u64>, end_ms: Option<u64>, capture_secs: u64) -> (spans:
    (Span, Span))
    ensures
        spans.0 == initial_silence(initial_ms, capture_secs),
        spans.1 == end_silence(end_ms),
{
    let initial = match initial_ms {
        Some(ms) => span_from_millis(ms),
        None => Span {
            secs: if capture_secs < 1 {
                1
            } else {
                capture_secs
            },
            subsec_nanos: 0,
        },
    };
    let end = match end_ms {
        Some(ms) => span_from_millis(ms),
        None => span_from_millis(DEFAULT_END_SILENCE_MS),
    };
    (initial, end)
}

/// Writes the topic that a hint spells.
pub fn configure_topic(hint: &str) -> (topic: String)
    ensures
        topic@ == topic_text(hint@),
{
    let words = split_words(hint);
    if words.len() == 0 {
        String::from_str(DEFAULT_TOPIC)
    } else {
        join(&words, " ")
    }
}

/// Picks the language tag to ask for.
pub fn language_tag<'a>(tag: Option<&'a str>) -> (picked: Option<&'a str>)
    ensures
        match language_text(
            match tag {
                Some(text) => Some(text@),
                None => None,
            },
        ) {
            Some(text) => picked matches Some(p) && p@ == text,
            None => picked is None,
        },
{
    match tag {
        Some(text) => {
            let cut = trim(text);
            if cut.unicode_len() == 0 {
                None
            } else {
                Some(cut)
            }
        },
        None => None,
    }
}

/// Turns a recogniser's verdict into a transcript: the text for a success,
/// no text where nobody spoke in time or the speaker paused for too long,
/// and the status as an error for anything else.
pub fn transcript_for(status: i32, text: String) -> (result: Result<String, TranscriptionError>)
    ensures
        status == STATUS_SUCCESS ==> result == Ok::<String, TranscriptionError>(text),
        status == STATUS_TIMEOUT_EXCEEDED || status == STATUS_PAUSE_LIMIT_EXCEEDED ==> (
        result matches Ok(empty) && empty@.len() == 0),
        status != STATUS_SUCCESS && status != STATUS_TIMEOUT_EXCEEDED && status
            != STATUS_PAUSE_LIMIT_EXCEEDED ==> result == Err::<String, TranscriptionError>(
            TranscriptionError::RecognitionStatus(status),
        ),
{
    if status == STATUS_SUCCESS {
        Ok(text)
    } else if status == STATUS_TIMEOUT_EXCEEDED || status == STATUS_PAUSE_LIMIT_EXCEEDED {
        Ok(String::new())
    } else {
        Err(TranscriptionError::RecognitionStatus(status))
    }
}

/// Turns the verdict on a recogniser's constraints into success or the
/// status as an error.
pub fn compile_constraints(status: i32) -> (result: Result<(), TranscriptionError>)
    ensures
        status == STATUS_SUCCESS ==> result is Ok,
        status != STATUS_SUCCESS ==> result == Err::<(), TranscriptionError>(
            TranscriptionError::CompilationStatus(status),
        ),
{
    if status == STATUS_SUCCESS {
        Ok(())
    } else {
        Err(TranscriptionError::CompilationStatus(status))
    }
}

} // verus!
