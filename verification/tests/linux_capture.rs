use meet_scribe::adapters::audio::device::{EndpointInfo, Enumeration};
use meet_scribe::adapters::audio::linux::PulseAudioCapture;
use meet_scribe::error::CaptureError;
use meet_scribe::ports::sample::Sample;

fn as_float(s: &Sample) -> f32 {
    f32::from_bits(s.to_bits())
}

fn endpoint(description: Option<&str>, name: Option<&str>, is_monitor: bool) -> EndpointInfo {
    EndpointInfo {
        description: description.map(|d| d.to_string()),
        name: name.map(|n| n.to_string()),
        is_monitor,
        unavailable: false,
    }
}

#[test]
fn test_new_pulseaudio_capture() {
    let capture = PulseAudioCapture::new();
    assert!(!capture.is_capturing());
}

#[test]
fn linux_test_default_format() {
    let capture = PulseAudioCapture::new();
    let format = capture.get_format();
    assert_eq!(format.sample_rate, 16000);
    assert_eq!(format.channels, 1);
    assert_eq!(format.bits_per_sample, 16);
}

#[test]
fn linux_test_list_devices() {
    let capture = PulseAudioCapture::new();
    let found = Enumeration { sinks: Vec::new(), sources: Vec::new() };
    let devices = capture.list_devices(Ok(found));
    assert!(!devices.is_empty());
}

#[test]
fn test_convert_samples() {
    let samples = vec![0i16, 16384, -16384, 32767, -32768];
    let converted = PulseAudioCapture::convert_samples(&samples);
    assert_eq!(converted.len(), 5);
    assert!((as_float(&converted[0]) - 0.0).abs() < 0.001);
    assert!((as_float(&converted[1]) - 0.5).abs() < 0.001);
    assert!((as_float(&converted[2]) + 0.5).abs() < 0.001);
}

#[test]
fn convert_samples_is_exact_at_the_extremes() {
    let samples = vec![32767i16, -32768, 1, -1];
    let converted = PulseAudioCapture::convert_samples(&samples);
    assert_eq!(as_float(&converted[0]), 32767.0 / 32768.0);
    assert_eq!(as_float(&converted[1]), -1.0);
    assert_eq!(as_float(&converted[2]), 1.0 / 32768.0);
    assert_eq!(as_float(&converted[3]), -1.0 / 32768.0);
}

#[test]
fn list_devices_survives_a_failed_enumeration() {
    let capture = PulseAudioCapture::new();
    let devices = capture
        .list_devices(Err(CaptureError::SubsystemInitFailure("no server".to_string())));
    assert_eq!(devices, vec!["0: Default Monitor (Default Speaker)".to_string()]);
}

#[test]
fn list_devices_numbers_outputs_then_microphones() {
    let capture = PulseAudioCapture::new();
    let found = Enumeration {
        sinks: vec![
            endpoint(Some("Built-in Audio"), Some("alsa_output.pci"), false),
            endpoint(None, Some("alsa_output.usb"), false),
            endpoint(None, None, false),
        ],
        sources: vec![
            endpoint(Some("Monitor of Built-in Audio"), Some("alsa_output.pci.monitor"), true),
            endpoint(Some("Webcam Mic"), None, false),
            endpoint(None, None, false),
        ],
    };
    let devices = capture.list_devices(Ok(found));
    assert_eq!(
        devices,
        vec![
            "0: Default Monitor (Default Speaker)".to_string(),
            "1: Built-in Audio (Speaker)".to_string(),
            "2: alsa_output.usb (Speaker)".to_string(),
            "3: Speaker 3 (Speaker)".to_string(),
            "4: Webcam Mic (Microphone)".to_string(),
            "5: Microphone 5 (Microphone)".to_string(),
        ]
    );
}

#[test]
fn speaker_and_microphone_lists() {
    let capture = PulseAudioCapture::new();
    let sinks = vec![endpoint(Some("Built-in Audio"), None, false), endpoint(None, None, false)];
    let sources = vec![
        endpoint(Some("Monitor"), None, true),
        endpoint(Some("Webcam Mic"), None, false),
        endpoint(None, Some("mic.usb"), false),
        endpoint(None, None, false),
    ];
    let speakers = capture
        .list_speaker_devices(Ok(Enumeration { sinks: sinks.clone(), sources: sources.clone() }))
        .unwrap();
    assert_eq!(
        speakers,
        vec![
            "0: Default Monitor (Default)".to_string(),
            "1: Built-in Audio".to_string(),
            "2: Speaker 2".to_string(),
        ]
    );
    let microphones =
        capture.list_microphone_devices(Ok(Enumeration { sinks, sources })).unwrap();
    assert_eq!(
        microphones,
        vec!["0: Webcam Mic".to_string(), "1: mic.usb".to_string(), "2: Microphone 2".to_string()]
    );
    let failed = capture
        .list_microphone_devices(Err(CaptureError::SubsystemInitFailure("down".to_string())));
    assert!(matches!(failed, Err(CaptureError::SubsystemInitFailure(_))));
    let failed =
        capture.list_speaker_devices(Err(CaptureError::DeviceUnavailable("gone".to_string())));
    assert!(matches!(failed, Err(CaptureError::DeviceUnavailable(_))));
}

#[test]
fn source_names() {
    assert_eq!(PulseAudioCapture::get_device_name_by_index(0), "@DEFAULT_MONITOR@");
    assert_eq!(PulseAudioCapture::get_device_name_by_index(1), "device_1");
    assert_eq!(PulseAudioCapture::get_device_name_by_index(1234567), "device_1234567");
    assert_eq!(PulseAudioCapture::read_buffer_size(), 4096);
}

#[test]
fn start_fixes_the_format_and_names_the_source() {
    let mut capture = PulseAudioCapture::new();
    let source = capture.start_capture(Some("2: USB Audio (Speaker)".to_string())).unwrap();
    assert_eq!(source, "device_2");
    assert!(capture.is_capturing());
    let format = capture.get_format();
    assert_eq!((format.sample_rate, format.channels, format.bits_per_sample), (44100, 2, 16));
    assert_eq!(format, PulseAudioCapture::format());
}

#[test]
fn second_start_is_refused() {
    let mut capture = PulseAudioCapture::new();
    assert!(capture.start_capture(None).is_ok());
    assert!(matches!(capture.start_capture(None), Err(CaptureError::AlreadyCapturing)));
    assert!(capture.is_capturing());
    assert!(capture.stop_capture());
    assert_eq!(capture.start_capture(None).unwrap(), "@DEFAULT_MONITOR@");
}

#[test]
fn stop_twice_is_harmless() {
    let mut capture = PulseAudioCapture::new();
    assert!(!capture.stop_capture());
    assert!(capture.start_capture(None).is_ok());
    assert!(capture.stop_capture());
    assert!(!capture.is_capturing());
    assert!(!capture.stop_capture());
    assert!(!capture.is_capturing());
    let format = capture.get_format();
    assert_eq!((format.sample_rate, format.channels, format.bits_per_sample), (44100, 2, 16));
}

#[test]
fn failed_worker_leaves_no_session() {
    let mut capture = PulseAudioCapture::new();
    assert!(capture.start_capture(None).is_ok());
    let r = capture.capture_failed(CaptureError::DeviceUnavailable("no such source".to_string()));
    assert!(matches!(r, Err(CaptureError::DeviceUnavailable(_))));
    assert!(!capture.is_capturing());
    assert!(capture.get_audio_buffer().is_none());
    assert!(capture.start_capture(None).is_ok());
}

#[test]
fn drain_gives_each_sample_once() {
    let mut capture = PulseAudioCapture::new();
    assert!(capture.get_audio_buffer().is_none());
    assert!(capture.start_capture(None).is_ok());
    capture.append_samples(PulseAudioCapture::convert_samples(&[1i16, 2, 3]));
    capture.append_samples(PulseAudioCapture::convert_samples(&[4i16]));
    let taken = capture.get_audio_buffer().unwrap();
    assert_eq!(taken.samples.len(), 4);
    assert_eq!(taken.samples, PulseAudioCapture::convert_samples(&[1i16, 2, 3, 4]));
    assert_eq!(taken.format, PulseAudioCapture::format());
    assert!(capture.get_audio_buffer().is_none());
    capture.append_samples(Vec::new());
    assert!(capture.get_audio_buffer().is_none());
    capture.append_samples(PulseAudioCapture::convert_samples(&[5i16]));
    capture.stop_capture();
    assert_eq!(capture.get_audio_buffer().unwrap().samples.len(), 1);
    assert!(capture.get_audio_buffer().is_none());
}

#[test]
fn monitors_among_the_sources_take_no_number() {
    let capture = PulseAudioCapture::new();
    let found = Enumeration {
        sinks: vec![endpoint(Some("Out"), None, true)],
        sources: vec![
            endpoint(Some("Monitor A"), None, true),
            endpoint(Some("Mic A"), None, false),
            endpoint(Some("Monitor B"), None, true),
            endpoint(Some("Mic B"), None, false),
        ],
    };
    assert_eq!(
        capture.list_devices(Ok(found.clone())),
        vec![
            "0: Default Monitor (Default Speaker)".to_string(),
            "1: Out (Speaker)".to_string(),
            "2: Mic A (Microphone)".to_string(),
            "3: Mic B (Microphone)".to_string(),
        ]
    );
    assert_eq!(
        capture.list_microphone_devices(Ok(found)).unwrap(),
        vec!["0: Mic A".to_string(), "1: Mic B".to_string()]
    );
}
