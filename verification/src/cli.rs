//! The command line: which flags it holds and what they ask for.

use vstd::prelude::*;
use vstd::string::StringExecFns;
use crate::text::{has_prefix, starts_with, str_eq, string_views};

verus! {

/// What a command line that asks for a run holds.
#[derive(Debug)]
pub struct RunOptions {
    /// The path of the configuration file.
    pub config_path: String,
    /// Whether diagnostics are forced on or off.
    pub debug_override: Option<bool>,
    /// Whether the speech-to-text model's own log is forced on or off.
    pub whisper_log_override: Option<bool>,
    /// The phrases to classify in place of a run of the pipeline.
    pub test_phrases: Vec<String>,
}

/// What a command line asks for.
#[derive(Debug)]
pub enum Invocation {
    /// List the input devices and end.
    ListAudio,
    /// End: the flag for a test phrase came last, without its phrase.
    MissingValue,
    /// Run with these options.
    Run(RunOptions),
}

/// What was read from the arguments so far.
pub struct Flags {
    /// The path of the configuration file, once one was given.
    pub config_path: Option<Seq<char>>,
    /// Whether diagnostics are forced on or off.
    pub debug: Option<bool>,
    /// Whether the model's own log is forced on or off.
    pub whisper_log: Option<bool>,
    /// The phrases to classify.
    pub phrases: Seq<Seq<char>>,
}

/// What reading the arguments comes to.
pub enum Reading {
    /// The flag for a test phrase came last, without its phrase.
    MissingValue,
    /// All arguments were read.
    Complete(Flags),
}

/// The path of the configuration file where the command line names none.
pub const DEFAULT_CONFIG_PATH: &'static str = "config.toml";

/// Reads the arguments from position `i` on. The flags `--debug`,
/// `--no-debug`, `--whisper-log` and `--no-whisper-log` set their
/// override; `--test-intent` takes the argument after it as a phrase; the
/// first argument that does not start with two hyphens, where no path was
/// given before, is the path of the configuration file; anything else is
/// passed over.
pub open spec fn scan(args: Seq<Seq<char>>, i: int, flags: Flags) -> Reading
    decreases args.len() - i,
{
    if i < 0 || i >= args.len() {
        Reading::Complete(flags)
    } else {
        let arg = args[i];
        if arg == "--debug"@ {
            scan(args, i + 1, Flags { debug: Some(true), ..flags })
        } else if arg == "--no-debug"@ {
            scan(args, i + 1, Flags { debug: Some(false), ..flags })
        } else if arg == "--whisper-log"@ {
            scan(args, i + 1, Flags { whisper_log: Some(true), ..flags })
        } else if arg == "--no-whisper-log"@ {
            scan(args, i + 1, Flags { whisper_log: Some(false), ..flags })
        } else if arg == "--test-intent"@ {
            if i + 1 < args.len() {
                scan(args, i + 2, Flags { phrases: flags.phrases.push(args[i + 1]), ..flags })
            } else {
                Reading::MissingValue
            }
        } else if flags.config_path is None && !has_prefix(arg, "--"@) {
            scan(args, i + 1, Flags { config_path: Some(arg), ..flags })
        } else {
            scan(args, i + 1, flags)
        }
    }
}

/// Nothing read yet.
pub open spec fn no_flags() -> Flags {
    Flags { config_path: None, debug: None, whisper_log: None, phrases: Seq::empty() }
}

/// Whether the options are those that were read.
pub open spec fn options_hold(options: RunOptions, flags: Flags) -> bool {
    &&& options.config_path@ == match flags.config_path {
        Some(path) => path,
        None => DEFAULT_CONFIG_PATH@,
    }
    &&& options.debug_override == flags.debug
    &&& options.whisper_log_override == flags.whisper_log
    &&& string_views(options.test_phrases@) == flags.phrases
}

/// Whether `invocation` is what the arguments ask for. The flag
/// `--list-audio`, wherever it stands, comes before everything else.
pub open spec fn invoked(invocation: Invocation, args: Seq<Seq<char>>) -> bool {
    if args.contains("--list-audio"@) {
        invocation is ListAudio
    } else {
        match scan(args, 0, no_flags()) {
            Reading::MissingValue => invocation is MissingValue,
            Reading::Complete(flags) => invocation matches Invocation::Run(options)
                && options_hold(options, flags),
        }
    }
}

/// Whether one of the strings is `wanted`.
fn holds(args: &Vec<String>, wanted: &str) -> (found: bool)
    ensures
        found == string_views(args@).contains(wanted@),
{
    let mut i: usize = 0;
    while i < args.len()
        invariant
            i <= args@.len(),
            forall|k: int| 0 <= k < i ==> string_views(args@)[k] != wanted@,
        decreases args@.len() - i,
    {
        if str_eq(args[i].as_str(), wanted) {
            assert(string_views(args@)[i as int] == wanted@);
            return true;
        }
        i = i + 1;
    }
    false
}

/// Reads the command line, without the program's name.
pub fn parse_args(args: &Vec<String>) -> (invocation: Invocation)
    ensures
        invoked(invocation, string_views(args@)),
{
    if holds(args, "--list-audio") {
        return Invocation::ListAudio;
    }
    let ghost all = string_views(args@);
    let mut config_path: Option<String> = None;
    let mut debug_override: Option<bool> = None;
    let mut whisper_log_override: Option<bool> = None;
    let mut test_phrases: Vec<String> = Vec::new();
    let ghost mut flags = no_flags();
    let mut i: usize = 0;
    proof {
        assert(string_views(test_phrases@) =~= flags.phrases);
    }
    while i < args.len()
        invariant
            all == string_views(args@),
            !all.contains("--list-audio"@),
            i <= args@.len(),
            scan(all, 0, no_flags()) == scan(all, i as int, flags),
            match config_path {
                Some(path) => flags.config_path == Some(path@),
                None => flags.config_path is None,
            },
            debug_override == flags.debug,
            whisper_log_override == flags.whisper_log,
            string_views(test_phrases@) == flags.phrases,
        decreases args@.len() - i,
    {
        let arg: &str = args[i].as_str();
        proof {
            assert(all[i as int] == arg@);
        }
        if str_eq(arg, "--debug") {
            debug_override = Some(true);
            proof {
                flags = Flags { debug: Some(true), ..flags };
            }
        } else if str_eq(arg, "--no-debug") {
            debug_override = Some(false);
            proof {
                flags = Flags { debug: Some(false), ..flags };
            }
        } else if str_eq(arg, "--whisper-log") {
            whisper_log_override = Some(true);
            proof {
                flags = Flags { whisper_log: Some(true), ..flags };
            }
        } else if str_eq(arg, "--no-whisper-log") {
            whisper_log_override = Some(false);
            proof {
                flags = Flags { whisper_log: Some(false), ..flags };
            }
        } else if str_eq(arg, "--test-intent") {
            if i + 1 < args.len() {
                let phrase = args[i + 1].clone();
                proof {
                    assert(all[i as int + 1] == phrase@);
                    assert(string_views(test_phrases@.push(phrase)) =~= flags.phrases.push(
                        phrase@,
                    ));
                    flags = Flags { phrases: flags.phrases.push(phrase@), ..flags };
                }
                test_phrases.push(phrase);
                i = i + 1;
            } else {
                return Invocation::MissingValue;
            }
        } else if config_path.is_none() && !starts_with(arg, "--") {
            config_path = Some(args[i].clone());
            proof {
                flags = Flags { config_path: Some(arg@), ..flags };
            }
        }
        i = i + 1;
    }
    let config_path = match config_path {
        Some(path) => path,
        None => String::from_str(DEFAULT_CONFIG_PATH),
    };
    Invocation::Run(RunOptions { config_path, debug_override, whisper_log_override, test_phrases })
}

/// The setting that holds: the command line's where it forces one, and the
/// configured one where it does not.
pub fn resolve(forced: Option<bool>, configured: bool) -> (setting: bool)
    ensures
        setting == match forced {
            Some(value) => value,
            None => configured,
        },
{
    match forced {
        Some(value) => value,
        None => configured,
    }
}

/// A colour of console text.
#[derive(Clone, Copy, Debug, PartialEq, Eq, Structural)]
pub enum Color {
    /// Red.
    Red,
    /// Green.
    Green,
    /// Yellow.
    Yellow,
    /// Cyan.
    Cyan,
}

/// The number by which a terminal knows a colour.
pub open spec fn color_code(color: Color) -> Seq<char> {
    match color {
        Color::Red => "31"@,
        Color::Green => "32"@,
        Color::Yellow => "33"@,
        Color::Cyan => "36"@,
    }
}

/// The text wrapped in the escape sequences that colour it.
pub open spec fn colored(text: Seq<char>, color: Color) -> Seq<char> {
    "\x1b["@ + color_code(color) + "m"@ + text + "\x1b[0m"@
}

/// Colours a text for the console, or hands it back as it is where colours
/// are switched off.
pub fn colorize(text: &str, color: Color, plain: bool) -> (out: String)
    ensures
        out@ == if plain {
            text@
        } else {
            colored(text@, color)
        },
{
    if plain {
        return String::from_str(text);
    }
    let code: &str = match color {
        Color::Red => "31",
        Color::Green => "32",
        Color::Yellow => "33",
        Color::Cyan => "36",
    };
    let mut out = String::from_str("\x1b[");
    out.append(code);
    out.append("m");
    out.append(text);
    out.append("\x1b[0m");
    out
}

} // verus!
