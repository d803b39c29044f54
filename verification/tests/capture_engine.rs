use meet_scribe::adapters::audio::capture::{
    capture_step, CaptureAction, CaptureEvent, CaptureState,
};
use meet_scribe::adapters::audio::device::{resolve_device_index, CaptureDevice, DeviceKind};
use meet_scribe::adapters::audio::negotiate::{
    chunk_size, negotiate_format, FormatSource, MixFormat,
};
use meet_scribe::adapters::audio::session::{ActiveFlag, CaptureSession, SampleBuffer};
use meet_scribe::error::{AppError, CaptureError};
use meet_scribe::ports::audio::{AudioFormat, SampleEncoding};
use meet_scribe::ports::sample::Sample;

fn stereo16() -> AudioFormat {
    AudioFormat { sample_rate: 44100, channels: 2, bits_per_sample: 16 }
}

#[test]
fn selector_names_an_index() {
    assert_eq!(resolve_device_index(&None), 0);
    assert_eq!(resolve_device_index(&Some("0: Default Monitor (Default Speaker)".to_string())), 0);
    assert_eq!(resolve_device_index(&Some("1: Built-in Audio (Speaker)".to_string())), 1);
    assert_eq!(resolve_device_index(&Some("  12 : x".to_string())), 12);
    assert_eq!(resolve_device_index(&Some("7".to_string())), 7);
    assert_eq!(resolve_device_index(&Some("+7: plus".to_string())), 7);
    assert_eq!(resolve_device_index(&Some("007: zeros".to_string())), 7);
    assert_eq!(resolve_device_index(&Some("\u{a0}3\u{2003}: wide spaces".to_string())), 3);
}

#[test]
fn selector_without_a_number_names_the_default() {
    for text in [
        "", ":", "abc: x", "-1: x", "1 2: x", "1.5: x", "+: x", " : x", "x1: y", "1x: y",
        "99999999999999999999999999: too large", "１: wide digit",
    ] {
        assert_eq!(resolve_device_index(&Some(text.to_string())), 0, "selector {:?}", text);
        let expected = text.split(':').next().unwrap().trim().parse::<usize>().unwrap_or(0);
        assert_eq!(expected, 0);
    }
    let largest = format!("{}: last", usize::MAX);
    assert_eq!(resolve_device_index(&Some(largest)), usize::MAX);
}

#[test]
fn entries_show_index_label_and_role() {
    let device =
        CaptureDevice { index: 0, label: "Default".to_string(), kind: DeviceKind::OutputLoopback };
    assert_eq!(device.entry(), "0: Default (Default Speaker)");
    let device =
        CaptureDevice { index: 10, label: "HDMI".to_string(), kind: DeviceKind::OutputLoopback };
    assert_eq!(device.entry(), "10: HDMI (Speaker)");
    assert_eq!(device.short_entry(), "10: HDMI");
    let device = CaptureDevice { index: 305, label: "Mic".to_string(), kind: DeviceKind::Input };
    assert_eq!(device.entry(), "305: Mic (Microphone)");
    assert_eq!(resolve_device_index(&Some(device.entry())), 305);
}

#[test]
fn negotiation_keeps_what_the_device_reports() {
    let mix =
        MixFormat { samples_per_sec: 48000, channels: 2, bits_per_sample: 32, block_align: 8 };
    let format = negotiate_format(FormatSource::Queried(Some(mix))).unwrap();
    assert_eq!((format.sample_rate, format.channels, format.bits_per_sample), (48000, 2, 32));
    let odd = MixFormat { samples_per_sec: 22050, channels: 6, bits_per_sample: 20, block_align: 18 };
    let format = negotiate_format(FormatSource::Queried(Some(odd))).unwrap();
    assert_eq!((format.sample_rate, format.channels, format.bits_per_sample), (22050, 6, 20));
    assert_eq!(negotiate_format(FormatSource::Fixed(stereo16())).unwrap(), stereo16());
}

#[test]
fn negotiation_fails_on_an_unusable_descriptor() {
    let r = negotiate_format(FormatSource::Queried(None));
    assert!(matches!(r, Err(CaptureError::FormatNegotiationFailed(_))));
    for mix in [
        MixFormat { samples_per_sec: 0, channels: 2, bits_per_sample: 16, block_align: 4 },
        MixFormat { samples_per_sec: 48000, channels: 0, bits_per_sample: 16, block_align: 4 },
        MixFormat { samples_per_sec: 48000, channels: 2, bits_per_sample: 16, block_align: 0 },
    ] {
        let r = negotiate_format(FormatSource::Queried(Some(mix)));
        assert!(matches!(r, Err(CaptureError::FormatNegotiationFailed(_))));
    }
    assert_eq!(chunk_size(480, 8), Some(3840));
    assert_eq!(chunk_size(0, 8), Some(0));
}

#[test]
fn formats_and_encodings() {
    assert_eq!(stereo16().encoding(), Some(SampleEncoding::Pcm16Le));
    let f = AudioFormat::with_encoding(48000, 2, SampleEncoding::Float32Le);
    assert_eq!(f.bits_per_sample, 32);
    assert_eq!(f.encoding(), Some(SampleEncoding::Float32Le));
    assert_eq!(AudioFormat::with_encoding(8000, 1, SampleEncoding::Pcm24Le).bits_per_sample, 24);
    assert_eq!(SampleEncoding::Pcm24Le.bytes_per_sample(), 3);
    assert!(f.is_well_formed());
    assert!(!AudioFormat { sample_rate: 0, channels: 2, bits_per_sample: 16 }.is_well_formed());
    assert!(!AudioFormat { sample_rate: 8000, channels: 0, bits_per_sample: 16 }.is_well_formed());
    assert!(!AudioFormat { sample_rate: 8000, channels: 1, bits_per_sample: 8 }.is_well_formed());
    assert_eq!(AudioFormat { sample_rate: 8000, channels: 1, bits_per_sample: 8 }.encoding(), None);
    let d = AudioFormat::default();
    assert_eq!((d.sample_rate, d.channels, d.bits_per_sample), (16000, 1, 16));
}

#[test]
fn loop_runs_from_idle_to_idle() {
    let format = stereo16();
    let step = capture_step(CaptureState::Idle, CaptureEvent::Acquired, &format);
    assert_eq!((step.state, step.action), (CaptureState::Running, CaptureAction::Poll));
    assert!(step.samples.is_empty());

    let chunk = vec![0x00, 0x40, 0x00, 0xC0, 0x7F];
    let step = capture_step(step.state, CaptureEvent::Chunk(chunk), &format);
    assert_eq!((step.state, step.action), (CaptureState::Running, CaptureAction::Poll));
    let bits: Vec<u32> = step.samples.iter().map(|s| s.to_bits()).collect();
    assert_eq!(bits, vec![0.5f32.to_bits(), (-0.5f32).to_bits()]);

    let step = capture_step(step.state, CaptureEvent::Silence, &format);
    assert_eq!((step.state, step.action), (CaptureState::Running, CaptureAction::Poll));
    assert!(step.samples.is_empty());
    assert!(step.failure.is_none());

    let step = capture_step(step.state, CaptureEvent::FlagCleared, &format);
    assert_eq!((step.state, step.action), (CaptureState::Stopping, CaptureAction::Drain));

    let step = capture_step(step.state, CaptureEvent::Drained(vec![0x00, 0x40]), &format);
    assert_eq!((step.state, step.action), (CaptureState::Stopping, CaptureAction::Release));
    assert_eq!(step.samples.len(), 1);

    let step = capture_step(step.state, CaptureEvent::Released, &format);
    assert_eq!((step.state, step.action), (CaptureState::Idle, CaptureAction::End));
}

#[test]
fn loop_failures() {
    let format = stereo16();
    let gone = CaptureError::DeviceUnavailable("unplugged".to_string());
    let step = capture_step(CaptureState::Idle, CaptureEvent::AcquireFailed(gone), &format);
    assert_eq!((step.state, step.action), (CaptureState::Idle, CaptureAction::ClearFlagAndEnd));
    assert!(step.samples.is_empty());
    assert!(matches!(step.failure, Some(CaptureError::DeviceUnavailable(_))));

    let step =
        capture_step(CaptureState::Running, CaptureEvent::ReadFailed("timeout".to_string()), &format);
    assert_eq!((step.state, step.action), (CaptureState::Stopping, CaptureAction::ClearFlagAndDrain));
    match step.failure {
        Some(CaptureError::IoFailure(reason)) => assert_eq!(reason, "timeout"),
        _ => panic!("a failed read is an input/output failure"),
    }

    let step =
        capture_step(CaptureState::Stopping, CaptureEvent::DrainFailed("busy".to_string()), &format);
    assert_eq!((step.state, step.action), (CaptureState::Stopping, CaptureAction::Release));
    assert!(matches!(step.failure, Some(CaptureError::IoFailure(_))));

    let step =
        capture_step(CaptureState::Idle, CaptureEvent::ReadFailed("late".to_string()), &format);
    assert_eq!((step.state, step.action), (CaptureState::Idle, CaptureAction::End));
    assert!(step.failure.is_none());

    let step = capture_step(CaptureState::Idle, CaptureEvent::Chunk(vec![1, 2, 3, 4]), &format);
    assert_eq!((step.state, step.action), (CaptureState::Idle, CaptureAction::End));
    assert!(step.samples.is_empty());

    let step = capture_step(CaptureState::Stopping, CaptureEvent::Chunk(vec![1, 2]), &format);
    assert_eq!((step.state, step.action), (CaptureState::Stopping, CaptureAction::Release));
    assert!(step.samples.is_empty());

    let unknown = AudioFormat { sample_rate: 48000, channels: 2, bits_per_sample: 8 };
    let step = capture_step(CaptureState::Running, CaptureEvent::Chunk(vec![1, 2, 3, 4]), &unknown);
    assert_eq!((step.state, step.action), (CaptureState::Running, CaptureAction::Poll));
    assert!(step.samples.is_empty());
}

#[test]
fn flag_is_tested_and_set_in_one_step() {
    let mut flag = ActiveFlag::new();
    assert!(!flag.is_active());
    assert!(flag.try_activate().is_ok());
    assert!(flag.is_active());
    assert!(matches!(flag.try_activate(), Err(CaptureError::AlreadyCapturing)));
    assert!(flag.is_active());
    assert!(flag.deactivate());
    assert!(!flag.deactivate());
    assert!(flag.try_activate().is_ok());
}

#[test]
fn buffer_hands_out_in_order() {
    let mut buffer = SampleBuffer::new();
    assert!(buffer.is_empty());
    assert!(buffer.drain().is_none());
    buffer.append(vec![Sample::from_bits(1), Sample::from_bits(2)]);
    buffer.append(vec![Sample::from_bits(3)]);
    assert_eq!(buffer.len(), 3);
    let taken = buffer.drain().unwrap();
    assert_eq!(taken, vec![Sample::from_bits(1), Sample::from_bits(2), Sample::from_bits(3)]);
    assert!(buffer.drain().is_none());
    buffer.append(vec![Sample::from_bits(4)]);
    assert_eq!(buffer.drain().unwrap(), vec![Sample::from_bits(4)]);
    assert!(buffer.is_empty());
}

#[test]
fn session_start_stop_and_drain() {
    let mut session = CaptureSession::new();
    assert!(!session.is_capturing());
    assert!(!session.has_worker());
    assert!(session.get_audio_buffer().is_none());
    assert_eq!(session.begin_start(&Some("4: x".to_string())).unwrap(), 4);
    assert!(session.is_capturing());
    assert!(session.has_worker());
    assert!(matches!(session.begin_start(&None), Err(CaptureError::AlreadyCapturing)));
    assert!(session.complete_start(Ok(stereo16())).is_ok());
    assert_eq!(session.get_format(), stereo16());
    session.append_samples(vec![Sample::from_bits(7)]);
    let taken = session.get_audio_buffer().unwrap();
    assert_eq!(taken.samples, vec![Sample::from_bits(7)]);
    assert_eq!(taken.format, stereo16());
    assert!(session.get_audio_buffer().is_none());
    assert!(session.stop_capture());
    assert!(!session.is_capturing());
    assert!(!session.stop_capture());
    assert_eq!(session.get_format(), stereo16());
}

#[test]
fn session_after_a_failed_read() {
    let mut session = CaptureSession::new();
    assert!(session.begin_start(&None).is_ok());
    assert!(session.complete_start(Ok(stereo16())).is_ok());
    session.append_samples(vec![Sample::from_bits(9)]);
    session.worker_stopped();
    assert!(!session.is_capturing());
    assert!(!session.stop_capture());
    assert_eq!(session.get_audio_buffer().unwrap().samples.len(), 1);
    assert!(session.begin_start(&None).is_ok());
}

#[test]
fn errors_have_words() {
    assert_eq!(CaptureError::AlreadyCapturing.message(), "Capture already in progress");
    assert_eq!(
        CaptureError::DeviceUnavailable("gone".to_string()).message(),
        "Device unavailable: gone"
    );
    assert_eq!(
        CaptureError::FormatNegotiationFailed("x".to_string()).message(),
        "Format negotiation failed: x"
    );
    assert_eq!(CaptureError::IoFailure("y".to_string()).message(), "Audio read failed: y");
    assert_eq!(
        CaptureError::SubsystemInitFailure("z".to_string()).message(),
        "Audio subsystem failed to start: z"
    );
    let app = AppError::from_capture(&CaptureError::AlreadyCapturing);
    assert_eq!(app.to_string(), "Audio capture error: Capture already in progress");
    assert_eq!(AppError::Other("plain".to_string()).to_string(), "plain");
    assert_eq!(AppError::NotFound("it".to_string()).to_string(), "Not found: it");
    assert_eq!(AppError::KeychainError("k".to_string()).to_string(), "Keychain error: k");
    assert_eq!(AppError::Config("c".to_string()).to_string(), "Configuration error: c");
}

#[test]
fn controller_steps_on_the_cells() {
    let mut flag = ActiveFlag::new();
    assert_eq!(flag.begin_start(&Some("2: Headphones (Speaker)".to_string())).unwrap(), 2);
    assert!(flag.is_active());
    assert!(matches!(flag.begin_start(&None), Err(CaptureError::AlreadyCapturing)));
    assert!(flag.is_active());
    assert_eq!(flag.complete_start(Ok(stereo16())).unwrap(), stereo16());
    assert!(flag.is_active());
    assert!(!flag.stop(false));
    assert!(!flag.is_active());
    assert!(!flag.stop(true));
    assert_eq!(flag.begin_start(&None).unwrap(), 0);
    assert!(flag.stop(true));
    assert!(flag.begin_start(&None).is_ok());
    let failed = flag.complete_start(Err(CaptureError::DeviceUnavailable("gone".to_string())));
    assert!(matches!(failed, Err(CaptureError::DeviceUnavailable(_))));
    assert!(!flag.is_active());
    assert!(flag.complete_start(Ok(stereo16())).is_ok());
    assert!(!flag.is_active());

    let mut buffer = SampleBuffer::new();
    assert!(buffer.take(stereo16()).is_none());
    buffer.append(vec![Sample::from_bits(5), Sample::from_bits(6)]);
    let taken = buffer.take(stereo16()).unwrap();
    assert_eq!(taken.samples, vec![Sample::from_bits(5), Sample::from_bits(6)]);
    assert_eq!(taken.format, stereo16());
    assert!(buffer.take(stereo16()).is_none());
}
