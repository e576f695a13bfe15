//! The capturer: which device and rate it settles on, how incoming
//! buffers are normalised and gathered, and what it hands on.

use vstd::prelude::*;
use vstd::arithmetic::div_mod::{
    lemma_div_is_ordered, lemma_fundamental_div_mod, lemma_fundamental_div_mod_converse,
};
use vstd::arithmetic::power2::{
    lemma2_to64, lemma2_to64_rest, lemma_pow2_strictly_increases, pow2,
};
use vstd::bits::lemma_u64_shr_is_div;
use vstd::string::StringExecFns;
use crate::audio::{TARGET_RATE, block_average, block_averaged, resample_linear, resampled};
use crate::config::AudioConfig;
use crate::level::{
    exceeds_target_peak, is_floor_sqrt, lemma_levelled_peak, level_to_target, levelled, mean_square,
    peak_of, peak_rms, Level, TARGET_PEAK,
};
use vstd::slice::slice_to_vec;
use crate::text::{concat2, concat3, str_eq};

verus! {

/// The encoding in which a device delivers its samples.
#[derive(Debug, Clone, Copy, PartialEq, Eq, Structural)]
pub enum SampleFormat {
    /// Signed 16-bit integers.
    I16,
    /// Unsigned 16-bit integers.
    U16,
    /// 32-bit floating point.
    F32,
    /// Any other encoding.
    Other,
}

/// The shape of a stream: encoding, channel count and sample rate.
#[derive(Debug, Clone, Copy, PartialEq, Eq, Structural)]
pub struct StreamShape {
    /// The encoding.
    pub format: SampleFormat,
    /// The number of channels.
    pub channels: u16,
    /// The sample rate in hertz.
    pub sample_rate: u32,
}

/// A range of sample rates that a device supports at one encoding and
/// channel count.
#[derive(Debug, Clone, Copy, PartialEq, Eq, Structural)]
pub struct SupportedRange {
    /// The encoding.
    pub format: SampleFormat,
    /// The number of channels.
    pub channels: u16,
    /// The lowest supported rate in hertz.
    pub min_rate: u32,
    /// The highest supported rate in hertz.
    pub max_rate: u32,
}

/// What is known of one input device.
#[derive(Debug)]
pub struct DeviceInfo {
    /// The device's name, where it could be read.
    pub name: Option<String>,
    /// The device's default stream shape, or why it could not be read.
    pub default_shape: Result<StreamShape, String>,
    /// The ranges that the device supports; empty where they could not be
    /// read.
    pub ranges: Vec<SupportedRange>,
}

/// What is known of the input devices of the machine.
#[derive(Debug)]
pub struct DeviceSurvey {
    /// The devices in the order in which the system lists them, or why
    /// they could not be listed.
    pub listed: Result<Vec<DeviceInfo>, String>,
    /// The system's default input device, where there is one.
    pub default_device: Option<DeviceInfo>,
}

/// The device that a capturer records from.
#[derive(Debug, Clone, Copy, PartialEq, Eq, Structural)]
pub enum DeviceChoice {
    /// The listed device at this position.
    Listed(usize),
    /// The system's default input device.
    SystemDefault,
}

/// Why audio could not be captured.
#[derive(Debug)]
pub enum AudioError {
    /// The devices could not be listed; the system's message.
    Devices(String),
    /// No listed device has the configured name.
    DeviceNotFound(String),
    /// The system has no default input device.
    NoDefaultDevice,
    /// The device's default stream shape could not be read; the system's
    /// message.
    DefaultConfig(String),
    /// The device delivers samples in an encoding that is not handled.
    UnsupportedFormat(SampleFormat),
    /// The stream could not be built; the system's message.
    BuildStream(String),
    /// The stream could not be started; the system's message.
    PlayStream(String),
    /// The gathered samples could not be reached.
    BufferAccess,
}

/// A device, the shape negotiated with it, and whether diagnostics are on.
#[derive(Debug, Clone, Copy, PartialEq, Eq, Structural)]
pub struct AudioCapturer {
    /// The device recorded from.
    pub device: DeviceChoice,
    /// The encoding in which the device delivers.
    pub sample_format: SampleFormat,
    /// The number of channels in which the device delivers.
    pub channels: usize,
    /// The sample rate of the stream, in hertz.
    pub sample_rate: u32,
    /// The sample rate that was asked for, in hertz.
    pub requested_rate: u32,
    /// Whether diagnostics are on.
    pub debug: bool,
}

/// What the diagnostics say of the level of a capture.
#[derive(Debug, Clone, Copy, PartialEq, Eq, Structural)]
pub struct LevelReport {
    /// The level of the capture as it is handed on, before any change of
    /// rate.
    pub level: Level,
    /// Whether the capture was scaled down to the target level.
    pub scaled: bool,
}

/// The samples gathered by one capture, mixed down to one channel.
#[derive(Debug)]
pub struct CaptureSession {
    buffer: Vec<i16>,
    channels: usize,
}

/// The value a signed sample takes for an unsigned 16-bit sample: the
/// unsigned midpoint is moved to zero.
pub open spec fn recentred(sample: u16) -> i16 {
    (sample as int - 32768) as i16
}

/// A buffer of unsigned samples, each recentred.
pub open spec fn recentred_all(samples: Seq<u16>) -> Seq<i16> {
    samples.map_values(|sample: u16| recentred(sample))
}

/// The product of a single-precision number between 0 and 1 and 32767, as
/// single-precision arithmetic gives it, without its fractional part. The
/// number is `(0x80_0000 + frac) * 2^(exp - 150)`. Its product with 32767
/// is rounded to 24 significant bits, to the nearest such number and to
/// the even one of two that are equally near.
pub open spec fn scaled_fraction(frac: int, exp: int) -> int {
    let product = (0x80_0000 + frac) * 32767;
    let unit: int = if product >= 0x40_0000_0000 {
        32768
    } else {
        16384
    };
    let kept = product / unit;
    let dropped = product % unit;
    let nearest = if 2 * dropped > unit || (2 * dropped == unit && kept % 2 == 1) {
        kept + 1
    } else {
        kept
    };
    (nearest * unit) / (pow2((150 - exp) as nat) as int)
}

/// The signed 16-bit sample for a single-precision sample given by its
/// bits: the sample is clamped to the range from -1 to 1, multiplied by
/// 32767 in single precision, and rounded toward zero. What is not a number
/// counts as -1.
pub open spec fn scaled_float(bits: u32) -> int {
    let exp = (bits as int / 0x80_0000) % 256;
    let frac = bits as int % 0x80_0000;
    if exp == 255 && frac != 0 {
        -32767
    } else {
        let magnitude = if exp >= 127 {
            32767
        } else if exp == 0 {
            0
        } else {
            scaled_fraction(frac, exp)
        };
        if bits >= 0x8000_0000 {
            -magnitude
        } else {
            magnitude
        }
    }
}

/// A buffer of single-precision samples, each scaled.
pub open spec fn scaled_all(samples: Seq<u32>) -> Seq<i16> {
    samples.map_values(|bits: u32| scaled_float(bits) as i16)
}

/// Whether the device at position `i` has the name `name`.
pub open spec fn is_named(listed: Seq<DeviceInfo>, i: int, name: Seq<char>) -> bool {
    listed[i].name matches Some(n) && n@ == name
}

/// Whether `at` is the first listed device with the name `name`, or
/// nothing where no listed device has it.
pub open spec fn is_first_named(listed: Seq<DeviceInfo>, name: Seq<char>, at: Option<usize>)
    -> bool {
    match at {
        Some(i) => i < listed.len() && is_named(listed, i as int, name) && forall|k: int|
            0 <= k < i ==> !is_named(listed, k, name),
        None => forall|k: int| 0 <= k < listed.len() ==> !is_named(listed, k, name),
    }
}

/// Whether one of the ranges offers `requested` hertz at this encoding and
/// channel count.
pub open spec fn rate_offered(
    ranges: Seq<SupportedRange>,
    format: SampleFormat,
    channels: u16,
    requested: u32,
) -> bool {
    exists|i: int|
        0 <= i < ranges.len() && range_offers(#[trigger] ranges[i], format, channels, requested)
}

/// Whether `range` offers `requested` hertz at this encoding and channel
/// count.
pub open spec fn range_offers(
    range: SupportedRange,
    format: SampleFormat,
    channels: u16,
    requested: u32,
) -> bool {
    range.format == format && range.channels == channels && range.min_rate <= requested
        <= range.max_rate
}

/// The capturer for a device with default shape `shape`: the requested
/// rate where the device offers it at the default encoding and channel
/// count, and the default rate where it does not.
pub open spec fn negotiated(
    device: DeviceChoice,
    shape: StreamShape,
    ranges: Seq<SupportedRange>,
    requested: u32,
    debug: bool,
) -> AudioCapturer {
    AudioCapturer {
        device,
        sample_format: shape.format,
        channels: shape.channels as usize,
        sample_rate: if rate_offered(ranges, shape.format, shape.channels, requested) {
            requested
        } else {
            shape.sample_rate
        },
        requested_rate: requested,
        debug,
    }
}

/// Whether `result` is what opening `info` as `device` comes to: the
/// negotiated capturer, or the complaint that the default shape could not
/// be read.
pub open spec fn opens(
    result: Result<AudioCapturer, AudioError>,
    device: DeviceChoice,
    info: DeviceInfo,
    requested: u32,
    debug: bool,
) -> bool {
    match info.default_shape {
        Ok(shape) => result == Ok::<AudioCapturer, AudioError>(
            negotiated(device, shape, info.ranges@, requested, debug),
        ),
        Err(message) => result == Err::<AudioCapturer, AudioError>(
            AudioError::DefaultConfig(message),
        ),
    }
}

/// Whether `result` is what opening a capturer comes to. With a configured
/// name the first listed device of that name is opened; without one the
/// system's default device is.
pub open spec fn opened(
    result: Result<AudioCapturer, AudioError>,
    cfg: AudioConfig,
    debug: bool,
    survey: DeviceSurvey,
) -> bool {
    match cfg.device_name {
        Some(name) => match survey.listed {
            Err(message) => result == Err::<AudioCapturer, AudioError>(
                AudioError::Devices(message),
            ),
            Ok(listed) => exists|at: Option<usize>|
                is_first_named(listed@, name@, at) && match at {
                    Some(i) => opens(
                        result,
                        DeviceChoice::Listed(i),
                        listed@[i as int],
                        cfg.sample_rate,
                        debug,
                    ),
                    None => result matches Err(AudioError::DeviceNotFound(wanted)) && wanted@
                        == name@,
                },
        },
        None => match survey.default_device {
            Some(info) => opens(result, DeviceChoice::SystemDefault, info, cfg.sample_rate, debug),
            None => result matches Err(AudioError::NoDefaultDevice),
        },
    }
}

/// Recentres one unsigned 16-bit sample around zero.
pub fn normalize_u16(sample: u16) -> (out: i16)
    ensures
        out == recentred(sample),
{
    if sample >= 32768 {
        (sample - 32768) as i16
    } else {
        let below: u16 = 32768 - sample;
        if below == 32768 {
            i16::MIN
        } else {
            -(below as i16)
        }
    }
}

/// The scaled product of a number below 1 lies below 32767.
pub proof fn lemma_scaled_fraction_range(frac: int, exp: int)
    requires
        0 <= frac < 0x80_0000,
        1 <= exp <= 126,
    ensures
        0 <= scaled_fraction(frac, exp) <= 32767,
{
    let product = (0x80_0000 + frac) * 32767;
    assert(0x80_0000 * 32767 <= product < 0x100_0000 * 32767) by (nonlinear_arith)
        requires
            product == (0x80_0000 + frac) * 32767,
            0 <= frac < 0x80_0000,
    ;
    let unit: int = if product >= 0x40_0000_0000 {
        32768
    } else {
        16384
    };
    let kept = product / unit;
    let dropped = product % unit;
    lemma_fundamental_div_mod(product, unit);
    let nearest = if 2 * dropped > unit || (2 * dropped == unit && kept % 2 == 1) {
        kept + 1
    } else {
        kept
    };
    assert(0 <= nearest * unit <= product + unit) by (nonlinear_arith)
        requires
            product == unit * kept + dropped,
            0 <= dropped < unit,
            kept <= nearest <= kept + 1,
            product >= 0,
            unit > 0,
            2 * dropped < unit ==> nearest == kept,
    ;
    let shift = (150 - exp) as nat;
    lemma_pow2_strictly_increases(23, shift);
    lemma2_to64();
    let scale = pow2(shift) as int;
    assert(scale >= 0x100_0000) by {
        if shift > 24 {
            lemma_pow2_strictly_increases(24, shift);
        }
    }
    assert(nearest * unit <= 32767 * scale + (scale - 1)) by (nonlinear_arith)
        requires
            nearest * unit <= product + unit,
            product < 0x100_0000 * 32767,
            unit <= 32768,
            scale >= 0x100_0000,
    ;
    lemma_div_is_ordered(0, nearest * unit, scale);
    lemma_div_is_ordered(nearest * unit, 32767 * scale + (scale - 1), scale);
    lemma_fundamental_div_mod_converse(32767 * scale + (scale - 1), scale, 32767, scale - 1);
}

/// Scales one single-precision sample, given by its bits, to a signed
/// 16-bit sample.
pub fn normalize_f32(bits: u32) -> (out: i16)
    ensures
        out as int == scaled_float(bits),
{
    let exp: u32 = (bits / 0x80_0000) % 256;
    let frac: u32 = bits % 0x80_0000;
    if exp == 255 && frac != 0 {
        return -32767;
    }
    let magnitude: i16 = if exp >= 127 {
        32767
    } else if exp == 0 {
        0
    } else {
        let product: u64 = (0x80_0000 + frac as u64) * 32767;
        let unit: u64 = if product >= 0x40_0000_0000 {
            32768
        } else {
            16384
        };
        let kept: u64 = product / unit;
        let dropped: u64 = product % unit;
        let nearest: u64 = if 2 * dropped > unit || (2 * dropped == unit && kept % 2 == 1) {
            kept + 1
        } else {
            kept
        };
        let shift: u32 = 150 - exp;
        proof {
            lemma_scaled_fraction_range(frac as int, exp as int);
            lemma_fundamental_div_mod(product as int, unit as int);
            assert(nearest * unit <= product + unit) by (nonlinear_arith)
                requires
                    product == unit * kept + dropped,
                    0 <= dropped < unit,
                    kept <= nearest <= kept + 1,
            ;
        }
        let rounded: u64 = nearest * unit;
        if shift >= 41 {
            proof {
                lemma2_to64_rest();
                lemma_pow2_strictly_increases(40, shift as nat);
                assert(product < 0x100_0000 * 32767) by (nonlinear_arith)
                    requires
                        product == (0x80_0000 + frac as u64) * 32767,
                        frac < 0x80_0000,
                ;
                assert(rounded < 0x100_0000_0000);
                vstd::arithmetic::div_mod::lemma_basic_div(
                    rounded as int,
                    pow2(shift as nat) as int,
                );
            }
            0
        } else {
            proof {
                lemma_u64_shr_is_div(rounded, shift as u64);
            }
            (rounded >> shift) as i16
        }
    };
    if bits >= 0x8000_0000 {
        -magnitude
    } else {
        magnitude
    }
}

/// Finds the first listed device with the name `name`.
pub fn find_device(listed: &Vec<DeviceInfo>, name: &str) -> (at: Option<usize>)
    ensures
        is_first_named(listed@, name@, at),
{
    let mut i: usize = 0;
    while i < listed.len()
        invariant
            i <= listed@.len(),
            forall|k: int| 0 <= k < i ==> !is_named(listed@, k, name@),
        decreases listed@.len() - i,
    {
        let found = match &listed[i].name {
            Some(n) => str_eq(n.as_str(), name),
            None => false,
        };
        if found {
            return Some(i);
        }
        i = i + 1;
    }
    None
}

/// Picks the requested rate if the device offers it at this encoding and
/// channel count.
pub fn select_sample_rate(
    ranges: &Vec<SupportedRange>,
    format: SampleFormat,
    channels: u16,
    requested: u32,
) -> (rate: Option<u32>)
    ensures
        rate == if rate_offered(ranges@, format, channels, requested) {
            Some(requested)
        } else {
            None
        },
{
    let mut i: usize = 0;
    while i < ranges.len()
        invariant
            i <= ranges@.len(),
            forall|k: int|
                0 <= k < i ==> !range_offers(#[trigger] ranges@[k], format, channels, requested),
        decreases ranges@.len() - i,
    {
        let range = ranges[i];
        if range.format == format && range.channels == channels && range.min_rate <= requested
            && requested <= range.max_rate {
            return Some(requested);
        }
        i = i + 1;
    }
    None
}

/// Negotiates the stream of a device.
fn open_device(device: DeviceChoice, info: &DeviceInfo, requested: u32, debug: bool) -> (result:
    Result<AudioCapturer, AudioError>)
    ensures
        opens(result, device, *info, requested, debug),
{
    let shape = match &info.default_shape {
        Ok(shape) => *shape,
        Err(message) => {
            return Err(AudioError::DefaultConfig(message.clone()));
        },
    };
    let sample_rate = match select_sample_rate(
        &info.ranges,
        shape.format,
        shape.channels,
        requested,
    ) {
        Some(rate) => rate,
        None => shape.sample_rate,
    };
    Ok(
        AudioCapturer {
            device,
            sample_format: shape.format,
            channels: shape.channels as usize,
            sample_rate,
            requested_rate: requested,
            debug,
        },
    )
}

impl AudioCapturer {
    /// Opens a capturer on the configured device, or on the system's
    /// default device where none is configured, and negotiates its stream.
    pub fn new(cfg: &AudioConfig, debug: bool, survey: &DeviceSurvey) -> (result: Result<
        Self,
        AudioError,
    >)
        ensures
            opened(result, *cfg, debug, *survey),
    {
        match &cfg.device_name {
            Some(name) => {
                let listed = match &survey.listed {
                    Ok(listed) => listed,
                    Err(message) => {
                        return Err(AudioError::Devices(message.clone()));
                    },
                };
                let at = find_device(listed, name.as_str());
                match at {
                    Some(i) => open_device(
                        DeviceChoice::Listed(i),
                        &listed[i],
                        cfg.sample_rate,
                        debug,
                    ),
                    None => Err(AudioError::DeviceNotFound(name.clone())),
                }
            },
            None => match &survey.default_device {
                Some(info) => open_device(DeviceChoice::SystemDefault, info, cfg.sample_rate, debug),
                None => Err(AudioError::NoDefaultDevice),
            },
        }
    }

    /// Whether the device did not offer the requested rate, so that the
    /// stream runs at the device's default rate.
    pub fn rate_fell_back(&self) -> (fell_back: bool)
        ensures
            fell_back == (self.sample_rate != self.requested_rate),
    {
        self.sample_rate != self.requested_rate
    }

    /// Starts a capture. A device whose encoding is not handled is
    /// refused.
    pub fn begin_capture(&self) -> (result: Result<CaptureSession, AudioError>)
        ensures
            self.sample_format == SampleFormat::Other ==> result == Err::<
                CaptureSession,
                AudioError,
            >(AudioError::UnsupportedFormat(SampleFormat::Other)),
            self.sample_format != SampleFormat::Other ==> (result matches Ok(session)
                && session@ == Seq::<i16>::empty() && session.channels() == self.channels),
    {
        match self.sample_format {
            SampleFormat::Other => Err(AudioError::UnsupportedFormat(self.sample_format)),
            _ => Ok(CaptureSession { buffer: Vec::new(), channels: self.channels }),
        }
    }

    /// What the diagnostics say of the level of a capture: nothing where
    /// they are off or the capture is empty, and else the level after
    /// levelling and whether levelling scaled the capture down.
    pub fn level_report(&self, samples: &[i16]) -> (report: Option<LevelReport>)
        ensures
            !self.debug || samples@.len() == 0 ==> report is None,
            self.debug && samples@.len() > 0 ==> (report matches Some(r) && r.level.peak as int
                == peak_of(levelled(samples@)) && is_floor_sqrt(
                r.level.rms as int,
                mean_square(levelled(samples@)),
            ) && r.scaled == (peak_of(samples@) > TARGET_PEAK)),
    {
        if !self.debug || samples.len() == 0 {
            return None;
        }
        let before = peak_rms(samples);
        let shown = level_to_target(slice_to_vec(samples));
        let level = peak_rms(shown.as_slice());
        Some(LevelReport { level, scaled: exceeds_target_peak(before.peak) })
    }

    /// What a capture hands on: the gathered samples, brought to the target
    /// level where diagnostics are on, and converted to the target rate
    /// where the stream ran at another rate.
    pub fn finish_capture(&self, samples: Vec<i16>) -> (out: Vec<i16>)
        requires
            self.sample_rate > 0 || samples@.len() <= 1,
        ensures
            out@ == resampled(
                if self.debug {
                    levelled(samples@)
                } else {
                    samples@
                },
                self.sample_rate as int,
                TARGET_RATE as int,
            ),
    {
        let data = if self.debug {
            proof {
                lemma_levelled_peak(samples@);
            }
            level_to_target(samples)
        } else {
            samples
        };
        if self.sample_rate != TARGET_RATE && data.len() > 1 {
            resample_linear(data.as_slice(), self.sample_rate, TARGET_RATE)
        } else {
            data
        }
    }
}

/// The width of a frame: the channel count, and one where that is zero.
pub open spec fn frame_width(channels: usize) -> int {
    if channels == 0 {
        1
    } else {
        channels as int
    }
}

impl CaptureSession {
    /// The samples gathered so far.
    pub closed spec fn view(&self) -> Seq<i16> {
        self.buffer@
    }

    /// The number of channels of the incoming buffers.
    pub closed spec fn channels(&self) -> usize {
        self.channels
    }

    /// Gathers one buffer of signed 16-bit samples: each complete frame is
    /// mixed down to the mean of its channels and appended.
    pub fn append_i16(&mut self, data: &[i16])
        ensures
            final(self)@ == old(self)@ + block_averaged(data@, frame_width(old(self).channels())),
            final(self).channels() == old(self).channels(),
    {
        let width: usize = if self.channels == 0 {
            1
        } else {
            self.channels
        };
        let mut mixed = block_average(data, width);
        self.buffer.append(&mut mixed);
    }

    /// Gathers one buffer of unsigned 16-bit samples: each sample is
    /// recentred, then each complete frame is mixed down to the mean of its
    /// channels and appended.
    pub fn append_u16(&mut self, data: &[u16])
        ensures
            final(self)@ == old(self)@ + block_averaged(
                recentred_all(data@),
                frame_width(old(self).channels()),
            ),
            final(self).channels() == old(self).channels(),
    {
        let mut signed: Vec<i16> = Vec::new();
        let mut i: usize = 0;
        while i < data.len()
            invariant
                i <= data@.len(),
                signed@.len() == i,
                forall|k: int| 0 <= k < i ==> signed@[k] == recentred(data@[k]),
            decreases data@.len() - i,
        {
            signed.push(normalize_u16(data[i]));
            i = i + 1;
        }
        assert(signed@ =~= recentred_all(data@));
        self.append_i16(signed.as_slice());
    }

    /// Gathers one buffer of single-precision samples, each given by its
    /// bits: each sample is scaled, then each complete frame is mixed down
    /// to the mean of its channels and appended.
    pub fn append_f32(&mut self, data: &[u32])
        ensures
            final(self)@ == old(self)@ + block_averaged(
                scaled_all(data@),
                frame_width(old(self).channels()),
            ),
            final(self).channels() == old(self).channels(),
    {
        let mut signed: Vec<i16> = Vec::new();
        let mut i: usize = 0;
        while i < data.len()
            invariant
                i <= data@.len(),
                signed@.len() == i,
                forall|k: int| 0 <= k < i ==> signed@[k] as int == scaled_float(data@[k]),
            decreases data@.len() - i,
        {
            signed.push(normalize_f32(data[i]));
            i = i + 1;
        }
        assert(signed@ =~= scaled_all(data@));
        self.append_i16(signed.as_slice());
    }

    /// Ends the capture and hands out what was gathered.
    pub fn finish(self) -> (samples: Vec<i16>)
        ensures
            samples@ == self@,
    {
        self.buffer
    }
}


impl SampleFormat {
    /// The name of the encoding.
    pub open spec fn name_text(&self) -> Seq<char> {
        match *self {
            SampleFormat::I16 => "I16"@,
            SampleFormat::U16 => "U16"@,
            SampleFormat::F32 => "F32"@,
            SampleFormat::Other => "Other"@,
        }
    }

    /// The name of the encoding.
    pub fn name(&self) -> (name: &'static str)
        ensures
            name@ == self.name_text(),
    {
        match self {
            SampleFormat::I16 => "I16",
            SampleFormat::U16 => "U16",
            SampleFormat::F32 => "F32",
            SampleFormat::Other => "Other",
        }
    }
}

impl AudioError {
    /// The sentence that describes the error.
    pub open spec fn message_text(&self) -> Seq<char> {
        match *self {
            AudioError::Devices(err) => "device query error: "@ + err@,
            AudioError::DeviceNotFound(name) => "input device '"@ + name@ + "' not found"@,
            AudioError::NoDefaultDevice => "no default input device available"@,
            AudioError::DefaultConfig(err) => "failed to read default config: "@ + err@,
            AudioError::UnsupportedFormat(format) => "unsupported sample format: "@
                + format.name_text(),
            AudioError::BuildStream(err) => "failed building stream: "@ + err@,
            AudioError::PlayStream(err) => "failed starting stream: "@ + err@,
            AudioError::BufferAccess => "failed accessing buffer"@,
        }
    }

    /// Describes the error in one sentence.
    pub fn message(&self) -> (text: String)
        ensures
            text@ == self.message_text(),
    {
        match self {
            AudioError::Devices(err) => concat2("device query error: ", err.as_str()),
            AudioError::DeviceNotFound(name) => concat3(
                "input device '",
                name.as_str(),
                "' not found",
            ),
            AudioError::NoDefaultDevice => String::from_str("no default input device available"),
            AudioError::DefaultConfig(err) => concat2("failed to read default config: ", err.as_str()),
            AudioError::UnsupportedFormat(format) => concat2("unsupported sample format: ", format.name()),
            AudioError::BuildStream(err) => concat2("failed building stream: ", err.as_str()),
            AudioError::PlayStream(err) => concat2("failed starting stream: ", err.as_str()),
            AudioError::BufferAccess => String::from_str("failed accessing buffer"),
        }
    }
}

} // verus!
