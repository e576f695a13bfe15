use buddy::capture::{
    find_device, normalize_f32, normalize_u16, select_sample_rate, AudioCapturer, AudioError, DeviceChoice,
    DeviceInfo, DeviceSurvey, LevelReport, SampleFormat, StreamShape, SupportedRange,
};
use buddy::config::AudioConfig;

fn shape(format: SampleFormat, channels: u16, sample_rate: u32) -> StreamShape {
    StreamShape { format, channels, sample_rate }
}

fn range(format: SampleFormat, channels: u16, min_rate: u32, max_rate: u32) -> SupportedRange {
    SupportedRange { format, channels, min_rate, max_rate }
}

fn device(name: Option<&str>, shape: StreamShape, ranges: Vec<SupportedRange>) -> DeviceInfo {
    DeviceInfo { name: name.map(|n| n.to_string()), default_shape: Ok(shape), ranges }
}

fn config(name: Option<&str>, sample_rate: u32) -> AudioConfig {
    AudioConfig { device_name: name.map(|n| n.to_string()), capture_duration_secs: 3, sample_rate }
}

fn stereo_capturer(format: SampleFormat, channels: usize, sample_rate: u32) -> AudioCapturer {
    AudioCapturer {
        device: DeviceChoice::SystemDefault,
        sample_format: format,
        channels,
        sample_rate,
        requested_rate: 16_000,
        debug: false,
    }
}

#[test]
fn unsigned_midpoint_maps_to_zero() {
    assert_eq!(normalize_u16(32768), 0);
    assert_eq!(normalize_u16(0), i16::MIN);
    assert_eq!(normalize_u16(65535), i16::MAX);
    assert_eq!(normalize_u16(32767), -1);
    assert_eq!(normalize_u16(32769), 1);
}

#[test]
fn named_device_is_the_first_exact_match() {
    let listed = vec![
        device(Some("Mic"), shape(SampleFormat::I16, 1, 48_000), vec![]),
        device(None, shape(SampleFormat::I16, 1, 48_000), vec![]),
        device(Some("USB Mic"), shape(SampleFormat::F32, 2, 44_100), vec![]),
        device(Some("USB Mic"), shape(SampleFormat::I16, 1, 8_000), vec![]),
    ];
    assert_eq!(find_device(&listed, "USB Mic"), Some(2));
    assert_eq!(find_device(&listed, "Mic"), Some(0));
    assert_eq!(find_device(&listed, "usb mic"), None);
    assert_eq!(find_device(&listed, ""), None);
}

#[test]
fn requested_rate_is_taken_when_a_range_offers_it() {
    let ranges = vec![
        range(SampleFormat::F32, 2, 8_000, 48_000),
        range(SampleFormat::I16, 1, 8_000, 48_000),
        range(SampleFormat::I16, 2, 44_100, 48_000),
    ];
    assert_eq!(select_sample_rate(&ranges, SampleFormat::I16, 2, 44_100), Some(44_100));
    assert_eq!(select_sample_rate(&ranges, SampleFormat::I16, 2, 48_000), Some(48_000));
    assert_eq!(select_sample_rate(&ranges, SampleFormat::I16, 2, 16_000), None);
    assert_eq!(select_sample_rate(&ranges, SampleFormat::I16, 1, 16_000), Some(16_000));
    assert_eq!(select_sample_rate(&ranges, SampleFormat::U16, 1, 16_000), None);
    assert_eq!(select_sample_rate(&Vec::new(), SampleFormat::I16, 1, 16_000), None);
}

#[test]
fn capturer_opens_the_named_device_at_the_requested_rate() {
    let survey = DeviceSurvey {
        listed: Ok(vec![
            device(Some("Built-in"), shape(SampleFormat::I16, 1, 44_100), vec![]),
            device(
                Some("USB Mic"),
                shape(SampleFormat::F32, 2, 48_000),
                vec![range(SampleFormat::F32, 2, 8_000, 96_000)],
            ),
        ]),
        default_device: None,
    };
    let capturer = AudioCapturer::new(&config(Some("USB Mic"), 16_000), true, &survey).unwrap();
    assert_eq!(capturer.device, DeviceChoice::Listed(1));
    assert_eq!(capturer.sample_format, SampleFormat::F32);
    assert_eq!(capturer.channels, 2);
    assert_eq!(capturer.sample_rate, 16_000);
    assert_eq!(capturer.requested_rate, 16_000);
    assert!(capturer.debug);
    assert!(!capturer.rate_fell_back());
}

#[test]
fn capturer_falls_back_to_the_default_rate() {
    let survey = DeviceSurvey {
        listed: Ok(Vec::new()),
        default_device: Some(device(
            Some("Built-in"),
            shape(SampleFormat::I16, 2, 44_100),
            vec![
                range(SampleFormat::I16, 1, 8_000, 48_000),
                range(SampleFormat::I16, 2, 44_100, 48_000),
            ],
        )),
    };
    let capturer = AudioCapturer::new(&config(None, 16_000), false, &survey).unwrap();
    assert_eq!(capturer.device, DeviceChoice::SystemDefault);
    assert_eq!(capturer.sample_rate, 44_100);
    assert_eq!(capturer.channels, 2);
    assert!(capturer.rate_fell_back());
}

#[test]
fn missing_named_device_is_reported_by_name() {
    let survey = DeviceSurvey {
        listed: Ok(vec![device(Some("Built-in"), shape(SampleFormat::I16, 1, 44_100), vec![])]),
        default_device: Some(device(None, shape(SampleFormat::I16, 1, 44_100), vec![])),
    };
    match AudioCapturer::new(&config(Some("Ghost"), 16_000), false, &survey) {
        Err(AudioError::DeviceNotFound(name)) => assert_eq!(name, "Ghost"),
        other => panic!("unexpected: {:?}", other),
    }
}

#[test]
fn missing_default_device_is_reported() {
    let survey = DeviceSurvey { listed: Ok(Vec::new()), default_device: None };
    assert!(matches!(
        AudioCapturer::new(&config(None, 16_000), false, &survey),
        Err(AudioError::NoDefaultDevice)
    ));
}

#[test]
fn failed_listing_is_reported_only_when_a_name_is_configured() {
    let survey = DeviceSurvey {
        listed: Err("backend down".to_string()),
        default_device: Some(device(None, shape(SampleFormat::U16, 1, 16_000), vec![])),
    };
    match AudioCapturer::new(&config(Some("Mic"), 16_000), false, &survey) {
        Err(AudioError::Devices(message)) => assert_eq!(message, "backend down"),
        other => panic!("unexpected: {:?}", other),
    }
    assert!(AudioCapturer::new(&config(None, 16_000), false, &survey).is_ok());
}

#[test]
fn unreadable_default_shape_is_reported() {
    let survey = DeviceSurvey {
        listed: Ok(Vec::new()),
        default_device: Some(DeviceInfo {
            name: Some("Mic".to_string()),
            default_shape: Err("busy".to_string()),
            ranges: Vec::new(),
        }),
    };
    match AudioCapturer::new(&config(None, 16_000), false, &survey) {
        Err(AudioError::DefaultConfig(message)) => assert_eq!(message, "busy"),
        other => panic!("unexpected: {:?}", other),
    }
}

#[test]
fn unsupported_encoding_is_a_hard_error() {
    let capturer = stereo_capturer(SampleFormat::Other, 1, 16_000);
    assert!(matches!(
        capturer.begin_capture(),
        Err(AudioError::UnsupportedFormat(SampleFormat::Other))
    ));
    assert!(stereo_capturer(SampleFormat::I16, 1, 16_000).begin_capture().is_ok());
    assert!(stereo_capturer(SampleFormat::U16, 1, 16_000).begin_capture().is_ok());
    assert!(stereo_capturer(SampleFormat::F32, 1, 16_000).begin_capture().is_ok());
}

#[test]
fn stereo_frames_are_mixed_down_in_order() {
    let capturer = stereo_capturer(SampleFormat::I16, 2, 16_000);
    let mut session = capturer.begin_capture().unwrap();
    session.append_i16(&[100, 200, -3, -4, 9]);
    session.append_i16(&[7, 8]);
    assert_eq!(session.finish(), vec![150, -3, 7]);
}

#[test]
fn mono_buffers_are_appended_as_they_are() {
    let capturer = stereo_capturer(SampleFormat::I16, 1, 16_000);
    let mut session = capturer.begin_capture().unwrap();
    session.append_i16(&[1, 2, 3]);
    session.append_i16(&[]);
    session.append_i16(&[-4]);
    assert_eq!(session.finish(), vec![1, 2, 3, -4]);
}

#[test]
fn zero_channels_count_as_one() {
    let capturer = stereo_capturer(SampleFormat::I16, 0, 16_000);
    let mut session = capturer.begin_capture().unwrap();
    session.append_i16(&[5, 6]);
    assert_eq!(session.finish(), vec![5, 6]);
}

#[test]
fn unsigned_buffers_are_recentred_before_mixing() {
    let capturer = stereo_capturer(SampleFormat::U16, 2, 16_000);
    let mut session = capturer.begin_capture().unwrap();
    session.append_u16(&[32768, 32770, 0, 65535]);
    assert_eq!(session.finish(), vec![1, 0]);
}

#[test]
fn capture_at_another_rate_is_brought_to_the_target_rate() {
    let capturer = stereo_capturer(SampleFormat::I16, 1, 32_000);
    assert_eq!(capturer.finish_capture(vec![0, 100, 200, 300, 400, 600]), vec![50, 250, 500]);
    let at_target = stereo_capturer(SampleFormat::I16, 1, 16_000);
    assert_eq!(at_target.finish_capture(vec![1, 2, 3]), vec![1, 2, 3]);
    assert_eq!(capturer.finish_capture(vec![9]), vec![9]);
}

#[test]
fn audio_errors_describe_themselves() {
    assert_eq!(
        AudioError::DeviceNotFound("Ghost".to_string()).message(),
        "input device 'Ghost' not found"
    );
    assert_eq!(AudioError::NoDefaultDevice.message(), "no default input device available");
    assert_eq!(AudioError::Devices("x".to_string()).message(), "device query error: x");
    assert_eq!(
        AudioError::DefaultConfig("y".to_string()).message(),
        "failed to read default config: y"
    );
    assert_eq!(
        AudioError::UnsupportedFormat(SampleFormat::Other).message(),
        "unsupported sample format: Other"
    );
    assert_eq!(AudioError::BuildStream("b".to_string()).message(), "failed building stream: b");
    assert_eq!(AudioError::PlayStream("p".to_string()).message(), "failed starting stream: p");
    assert_eq!(AudioError::BufferAccess.message(), "failed accessing buffer");
}

fn by_float(bits: u32) -> i16 {
    let sample = f32::from_bits(bits);
    let clamped = sample.max(-1.0).min(1.0);
    (clamped * i16::MAX as f32) as i16
}

#[test]
fn float_above_full_scale_clamps_to_the_largest_sample() {
    assert_eq!(normalize_f32(1.5f32.to_bits()), i16::MAX);
    assert_eq!(normalize_f32(1.0f32.to_bits()), i16::MAX);
    assert_eq!(normalize_f32((-1.5f32).to_bits()), -32767);
    assert_eq!(normalize_f32((-1.0f32).to_bits()), -32767);
    assert_eq!(normalize_f32(f32::INFINITY.to_bits()), i16::MAX);
    assert_eq!(normalize_f32(f32::NEG_INFINITY.to_bits()), -32767);
    assert_eq!(normalize_f32(f32::MAX.to_bits()), i16::MAX);
}

#[test]
fn float_samples_scale_and_round_toward_zero() {
    assert_eq!(normalize_f32(0.0f32.to_bits()), 0);
    assert_eq!(normalize_f32((-0.0f32).to_bits()), 0);
    assert_eq!(normalize_f32(0.5f32.to_bits()), 16383);
    assert_eq!(normalize_f32((-0.5f32).to_bits()), -16383);
    assert_eq!(normalize_f32(0.25f32.to_bits()), 8191);
    assert_eq!(normalize_f32(0.00003f32.to_bits()), 0);
    assert_eq!(normalize_f32(0.0001f32.to_bits()), 3);
    assert_eq!(normalize_f32(f32::MIN_POSITIVE.to_bits()), 0);
    assert_eq!(normalize_f32(1u32), 0);
    assert_eq!(normalize_f32(f32::NAN.to_bits()), by_float(f32::NAN.to_bits()));
}

#[test]
fn float_scaling_agrees_with_single_precision_arithmetic() {
    let mut bits: u32 = 0;
    loop {
        assert_eq!(normalize_f32(bits), by_float(bits), "{:#010x}", bits);
        match bits.checked_add(4099) {
            Some(next) => bits = next,
            None => break,
        }
    }
}

#[test]
fn float_scaling_agrees_just_below_full_scale() {
    for exp in [126u32, 125, 120, 112, 111, 110, 1] {
        for frac in (0u32..0x80_0000).step_by(13) {
            for sign in [0u32, 0x8000_0000] {
                let bits = sign | (exp << 23) | frac;
                assert_eq!(normalize_f32(bits), by_float(bits), "{:#010x}", bits);
            }
        }
    }
    for frac in 0x7f_0000u32..0x80_0000 {
        let bits = (126 << 23) | frac;
        assert_eq!(normalize_f32(bits), by_float(bits), "{:#010x}", bits);
    }
    for bits in [0x7f80_0001u32, 0x7fc0_0000, 0xffc0_0000, 0xff80_0001, 0x7fff_ffff, 0xffff_ffff] {
        assert_eq!(normalize_f32(bits), -32767, "{:#010x}", bits);
        assert_eq!(normalize_f32(bits), by_float(bits), "{:#010x}", bits);
    }
}

#[test]
fn float_buffers_are_scaled_before_mixing() {
    let capturer = stereo_capturer(SampleFormat::F32, 2, 16_000);
    let mut session = capturer.begin_capture().unwrap();
    let data: Vec<u32> = [1.0f32, 0.5, -1.5, 0.0, 0.25].iter().map(|s| s.to_bits()).collect();
    session.append_f32(&data);
    assert_eq!(session.finish(), vec![24575, -16383]);
}

#[test]
fn short_capture_is_handed_on_at_any_stream_rate() {
    let silent = stereo_capturer(SampleFormat::I16, 1, 0);
    assert_eq!(silent.finish_capture(vec![9]), vec![9]);
    assert_eq!(silent.finish_capture(Vec::new()), Vec::<i16>::new());
}

#[test]
fn capture_is_levelled_only_when_diagnostics_are_on() {
    let mut capturer = stereo_capturer(SampleFormat::I16, 1, 16_000);
    assert_eq!(capturer.finish_capture(vec![32767, -16384, 100]), vec![32767, -16384, 100]);
    capturer.debug = true;
    assert_eq!(capturer.finish_capture(vec![32767, -16384, 100]), vec![26213, -13106, 79]);
    assert_eq!(capturer.finish_capture(vec![26213, -5, 7]), vec![26213, -5, 7]);
    assert_eq!(capturer.finish_capture(Vec::new()), Vec::<i16>::new());
}

#[test]
fn levelling_comes_before_the_change_of_rate() {
    let mut capturer = stereo_capturer(SampleFormat::I16, 1, 32_000);
    capturer.debug = true;
    assert_eq!(capturer.finish_capture(vec![32767, 32767, -16384, -16384, 100, 100]), vec![
        26213, -13106, 79
    ]);
    assert_eq!(capturer.finish_capture(vec![32767]), vec![26213]);
}

#[test]
fn level_is_reported_only_when_diagnostics_are_on() {
    let mut capturer = stereo_capturer(SampleFormat::I16, 1, 16_000);
    assert_eq!(capturer.level_report(&[32767, 5]), None);
    capturer.debug = true;
    assert_eq!(capturer.level_report(&[]), None);
    let loud = capturer.level_report(&[32767, -32767]).unwrap();
    assert!(loud.scaled);
    assert_eq!(loud.level.peak, 26213);
    assert_eq!(loud.level.rms, 26213);
    let quiet: LevelReport = capturer.level_report(&[3, -4]).unwrap();
    assert!(!quiet.scaled);
    assert_eq!(quiet.level.peak, 4);
    assert_eq!(quiet.level.rms, 3);
}
