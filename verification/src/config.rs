//! The settings of the pipeline, with their defaults.

use vstd::prelude::*;
use crate::mapping::Mapping;

verus! {

/// How the capture device is chosen and driven.
#[derive(Debug, Clone)]
pub struct AudioConfig {
    /// The input device's name; the system's default device where absent.
    pub device_name: Option<String>,
    /// How long one capture lasts, in seconds; zero for a capture that is
    /// stopped from outside.
    pub capture_duration_secs: u64,
    /// The sample rate asked of the device, in hertz.
    pub sample_rate: u32,
}

/// The chord that triggers a capture.
#[derive(Debug, Clone)]
pub struct HotkeyConfig {
    /// The chord's text, such as `ctrl+alt+b`.
    pub key: String,
}

/// By which means the outcome of a command is reported.
#[derive(Debug, Clone, Copy, PartialEq, Eq, Structural)]
pub enum FeedbackMode {
    /// Sound files only.
    Sound,
    /// Speech only.
    Tts,
    /// A sound file, then speech.
    Both,
}

/// How the outcome of a command is reported.
#[derive(Debug, Clone)]
pub struct FeedbackConfig {
    /// The means of reporting.
    pub mode: FeedbackMode,
    /// The sound played after a success.
    pub success_sound: Option<String>,
    /// The sound played after a failure.
    pub error_sound: Option<String>,
    /// The name of the voice that speaks, or `default`.
    pub tts_voice: String,
}

/// Where and how the classifier is asked.
#[derive(Debug, Clone)]
pub struct DeepSeekConfig {
    /// The address that chat requests are posted to.
    pub endpoint: String,
    /// The model's name.
    pub model: String,
    /// The longest a request may take, in seconds.
    pub timeout_secs: u64,
}

/// The settings of the speech-to-text model.
#[derive(Debug, Clone)]
pub struct TranscriptionConfig {
    /// The path of the model file.
    pub model_path: String,
    /// The language to expect, where one is fixed.
    pub language: Option<String>,
    /// The number of threads to use, where one is fixed.
    pub threads: Option<usize>,
}

/// Which system actions may be asked for.
#[derive(Debug, Clone, Copy, PartialEq, Eq, Structural)]
pub struct SystemConfig {
    /// Muting the volume.
    pub volume_mute: bool,
    /// Raising the volume.
    pub volume_up: bool,
    /// Lowering the volume.
    pub volume_down: bool,
    /// Setting the volume to a level.
    pub volume_set: bool,
    /// Suspending the machine.
    pub sleep: bool,
    /// Shutting the machine down.
    pub shutdown: bool,
    /// Restarting the machine.
    pub restart: bool,
    /// Locking the session.
    pub lock: bool,
}

/// What is written to the console.
#[derive(Debug, Clone, Copy, PartialEq, Eq, Structural)]
pub struct LoggingConfig {
    /// Whether diagnostics are printed.
    pub debug: bool,
    /// Whether the speech-to-text model may write its own log.
    pub whisper_log: bool,
}

/// All settings.
#[derive(Debug, Clone)]
pub struct Config {
    /// The capture device.
    pub audio: AudioConfig,
    /// The trigger.
    pub hotkey: HotkeyConfig,
    /// The reporting of outcomes.
    pub feedback: FeedbackConfig,
    /// The classifier.
    pub deepseek: DeepSeekConfig,
    /// The speech-to-text model.
    pub transcription: TranscriptionConfig,
    /// The files that can be opened, by key.
    pub files: Mapping,
    /// The applications that can be launched, by key.
    pub applications: Mapping,
    /// The system actions that are enabled.
    pub system: SystemConfig,
    /// The console output.
    pub logging: LoggingConfig,
}

/// The names of one system action if it is enabled, and nothing if not.
pub open spec fn named_if(enabled: bool, name: Seq<char>) -> Seq<Seq<char>> {
    if enabled {
        seq![name]
    } else {
        Seq::empty()
    }
}

/// The character sequences of a list of string slices.
pub open spec fn names_of(names: Seq<&'static str>) -> Seq<Seq<char>> {
    names.map_values(|name: &'static str| name@)
}

/// Appends `name` to `names` if `enabled` holds.
fn push_if(names: &mut Vec<&'static str>, enabled: bool, name: &'static str)
    ensures
        names_of(final(names)@) == names_of(old(names)@) + named_if(enabled, name@),
{
    if enabled {
        names.push(name);
    }
    assert(names_of(names@) =~= names_of(old(names)@) + named_if(enabled, name@));
}

impl FeedbackMode {
    /// The means of reporting used where none is configured: speech.
    pub fn default() -> (mode: Self)
        ensures
            mode == FeedbackMode::Tts,
    {
        FeedbackMode::Tts
    }
}

impl AudioConfig {
    /// The capture length used where none is configured.
    pub fn default_capture_duration_secs() -> (secs: u64)
        ensures
            secs == 3,
    {
        3
    }

    /// The sample rate used where none is configured.
    pub fn default_sample_rate() -> (rate: u32)
        ensures
            rate == 16_000,
    {
        16_000
    }
}

impl Default for AudioConfig {
    fn default() -> (cfg: Self)
        ensures
            cfg.device_name is None,
            cfg.capture_duration_secs == 3,
            cfg.sample_rate == 16_000,
    {
        AudioConfig {
            device_name: None,
            capture_duration_secs: Self::default_capture_duration_secs(),
            sample_rate: Self::default_sample_rate(),
        }
    }
}

impl HotkeyConfig {
    /// The chord used where none is configured.
    pub fn default_key() -> (key: String)
        ensures
            key@ == "ctrl+alt+b"@,
    {
        "ctrl+alt+b".to_owned()
    }
}

impl Default for HotkeyConfig {
    fn default() -> (cfg: Self)
        ensures
            cfg.key@ == "ctrl+alt+b"@,
    {
        HotkeyConfig { key: Self::default_key() }
    }
}

impl FeedbackConfig {
    /// The voice used where none is configured.
    pub fn default_voice() -> (voice: String)
        ensures
            voice@ == "default"@,
    {
        "default".to_owned()
    }
}

impl Default for FeedbackConfig {
    fn default() -> (cfg: Self)
        ensures
            cfg.mode == FeedbackMode::Tts,
            cfg.success_sound is None,
            cfg.error_sound is None,
            cfg.tts_voice@ == "default"@,
    {
        FeedbackConfig {
            mode: FeedbackMode::default(),
            success_sound: None,
            error_sound: None,
            tts_voice: Self::default_voice(),
        }
    }
}

impl DeepSeekConfig {
    /// The address used where none is configured.
    pub fn default_endpoint() -> (endpoint: String)
        ensures
            endpoint@ == "http://localhost:11434/api/chat"@,
    {
        "http://localhost:11434/api/chat".to_owned()
    }

    /// The model used where none is configured.
    pub fn default_model() -> (model: String)
        ensures
            model@ == "deepseek-r1:latest"@,
    {
        "deepseek-r1:latest".to_owned()
    }

    /// The request timeout used where none is configured.
    pub fn default_timeout_secs() -> (secs: u64)
        ensures
            secs == 5,
    {
        5
    }
}

impl Default for DeepSeekConfig {
    fn default() -> (cfg: Self)
        ensures
            cfg.endpoint@ == "http://localhost:11434/api/chat"@,
            cfg.model@ == "deepseek-r1:latest"@,
            cfg.timeout_secs == 5,
    {
        DeepSeekConfig {
            endpoint: Self::default_endpoint(),
            model: Self::default_model(),
            timeout_secs: Self::default_timeout_secs(),
        }
    }
}

impl TranscriptionConfig {
    /// The model file used where none is configured.
    pub fn default_model_path() -> (path: String)
        ensures
            path@ == "buddy/models/ggml-base.en.bin"@,
    {
        "buddy/models/ggml-base.en.bin".to_owned()
    }
}

impl Default for TranscriptionConfig {
    fn default() -> (cfg: Self)
        ensures
            cfg.model_path@ == "buddy/models/ggml-base.en.bin"@,
            cfg.language is None,
            cfg.threads is None,
    {
        TranscriptionConfig {
            model_path: Self::default_model_path(),
            language: None,
            threads: None,
        }
    }
}

impl SystemConfig {
    /// The names of the enabled actions, in a fixed order: the volume
    /// actions first, then sleep, shutdown, restart and lock.
    pub open spec fn enabled_names(&self) -> Seq<Seq<char>> {
        named_if(self.volume_mute, "volume_mute"@) + named_if(self.volume_up, "volume_up"@)
            + named_if(self.volume_down, "volume_down"@) + named_if(
            self.volume_set,
            "volume_set"@,
        ) + named_if(self.sleep, "sleep"@) + named_if(self.shutdown, "shutdown"@) + named_if(
            self.restart,
            "restart"@,
        ) + named_if(self.lock, "lock"@)
    }

    /// Lists the names of the enabled actions.
    pub fn enabled_actions(&self) -> (actions: Vec<&'static str>)
        ensures
            names_of(actions@) == self.enabled_names(),
    {
        let mut actions: Vec<&'static str> = Vec::new();
        assert(names_of(actions@) =~= Seq::<Seq<char>>::empty());
        push_if(&mut actions, self.volume_mute, "volume_mute");
        push_if(&mut actions, self.volume_up, "volume_up");
        push_if(&mut actions, self.volume_down, "volume_down");
        push_if(&mut actions, self.volume_set, "volume_set");
        push_if(&mut actions, self.sleep, "sleep");
        push_if(&mut actions, self.shutdown, "shutdown");
        push_if(&mut actions, self.restart, "restart");
        push_if(&mut actions, self.lock, "lock");
        assert(names_of(actions@) =~= self.enabled_names());
        actions
    }

    /// The settings in which every action is enabled.
    pub open spec fn all_enabled() -> SystemConfig {
        SystemConfig {
            volume_mute: true,
            volume_up: true,
            volume_down: true,
            volume_set: true,
            sleep: true,
            shutdown: true,
            restart: true,
            lock: true,
        }
    }

    /// Whether `name` is the name of an enabled action.
    pub open spec fn enables(&self, name: Seq<char>) -> bool {
        self.enabled_names().contains(name)
    }
}

impl Default for SystemConfig {
    fn default() -> (cfg: Self)
        ensures
            cfg == SystemConfig::all_enabled(),
    {
        SystemConfig {
            volume_mute: true,
            volume_up: true,
            volume_down: true,
            volume_set: true,
            sleep: true,
            shutdown: true,
            restart: true,
            lock: true,
        }
    }
}

impl Default for LoggingConfig {
    fn default() -> (cfg: Self)
        ensures
            cfg == (LoggingConfig { debug: false, whisper_log: false }),
    {
        LoggingConfig { debug: false, whisper_log: false }
    }
}

impl Config {
    /// The longest a request to the classifier may take, in seconds.
    pub fn deepseek_timeout(&self) -> (secs: u64)
        ensures
            secs == self.deepseek.timeout_secs,
    {
        self.deepseek.timeout_secs
    }

    /// The keys of the files that can be opened.
    pub fn file_keys(&self) -> (keys: Vec<String>)
        ensures
            keys@.len() == self.files.key_order().len(),
            forall|i: int|
                0 <= i < keys@.len() ==> (#[trigger] keys@[i])@ == self.files.key_order()[i],
            forall|k: Seq<char>| #[trigger]
                self.files.key_order().contains(k) <==> self.files@.dom().contains(k),
    {
        self.files.keys()
    }

    /// The keys of the applications that can be launched.
    pub fn app_keys(&self) -> (keys: Vec<String>)
        ensures
            keys@.len() == self.applications.key_order().len(),
            forall|i: int|
                0 <= i < keys@.len() ==> (#[trigger] keys@[i])@
                    == self.applications.key_order()[i],
            forall|k: Seq<char>| #[trigger]
                self.applications.key_order().contains(k) <==> self.applications@.dom().contains(
                    k,
                ),
    {
        self.applications.keys()
    }

    /// The names of the enabled system actions.
    pub fn system_actions(&self) -> (actions: Vec<&'static str>)
        ensures
            names_of(actions@) == self.system.enabled_names(),
    {
        self.system.enabled_actions()
    }
}

impl Default for Config {
    fn default() -> (cfg: Self)
        ensures
            cfg.audio.device_name is None,
            cfg.audio.capture_duration_secs == 3,
            cfg.audio.sample_rate == 16_000,
            cfg.hotkey.key@ == "ctrl+alt+b"@,
            cfg.feedback.mode == FeedbackMode::Tts,
            cfg.feedback.success_sound is None,
            cfg.feedback.error_sound is None,
            cfg.feedback.tts_voice@ == "default"@,
            cfg.deepseek.endpoint@ == "http://localhost:11434/api/chat"@,
            cfg.deepseek.model@ == "deepseek-r1:latest"@,
            cfg.deepseek.timeout_secs == 5,
            cfg.transcription.model_path@ == "buddy/models/ggml-base.en.bin"@,
            cfg.transcription.language is None,
            cfg.transcription.threads is None,
            cfg.files@ == Map::<Seq<char>, Seq<char>>::empty(),
            cfg.applications@ == Map::<Seq<char>, Seq<char>>::empty(),
            cfg.system == SystemConfig::all_enabled(),
            cfg.logging == (LoggingConfig { debug: false, whisper_log: false }),
    {
        Config {
            audio: AudioConfig::default(),
            hotkey: HotkeyConfig::default(),
            feedback: FeedbackConfig::default(),
            deepseek: DeepSeekConfig::default(),
            transcription: TranscriptionConfig::default(),
            files: Mapping::new(),
            applications: Mapping::new(),
            system: SystemConfig::default(),
            logging: LoggingConfig::default(),
        }
    }
}

} // verus!
