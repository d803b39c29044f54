use meet_scribe::adapters::audio::device::{DeviceKind, EndpointInfo, Enumeration};
use meet_scribe::adapters::audio::negotiate::MixFormat;
use meet_scribe::adapters::audio::windows::{DeviceSlot, StartStage, WasapiAudioCapture};
use meet_scribe::error::CaptureError;
use meet_scribe::ports::sample::Sample;

fn as_float(s: &Sample) -> f32 {
    f32::from_bits(s.to_bits())
}

#[test]
fn test_new_wasapi_capture() {
    let capture = WasapiAudioCapture::new();
    assert!(!capture.is_capturing());
}

#[test]
fn windows_test_default_format() {
    let capture = WasapiAudioCapture::new();
    let format = capture.get_format();
    assert_eq!(format.sample_rate, 16000);
    assert_eq!(format.channels, 1);
    assert_eq!(format.bits_per_sample, 16);
}

#[test]
fn windows_test_list_devices() {
    let capture = WasapiAudioCapture::new();
    let found = Enumeration { sinks: Vec::new(), sources: Vec::new() };
    let devices = capture.list_devices(None, Ok(found));
    assert!(!devices.is_empty(), "Should have at least one audio device");
}

#[test]
fn test_convert_samples_16bit() {
    let data: Vec<u8> = vec![0x00, 0x00, 0x00, 0x40, 0x00, 0xC0];
    let mut format = MixFormat::default();
    format.bits_per_sample = 16;
    format.block_align = 2;

    let samples = WasapiAudioCapture::convert_samples_to_f32(&data, &format);
    assert_eq!(samples.len(), 3);
    assert!((as_float(&samples[0]) - 0.0).abs() < 0.001);
}

#[test]
fn test_convert_samples_32bit_float() {
    let data: Vec<u8> = vec![0x00, 0x00, 0x00, 0x00, 0x00, 0x00, 0x80, 0x3F];
    let mut format = MixFormat::default();
    format.bits_per_sample = 32;
    format.block_align = 4;

    let samples = WasapiAudioCapture::convert_samples_to_f32(&data, &format);
    assert_eq!(samples.len(), 2);
    assert!((as_float(&samples[0]) - 0.0).abs() < 0.001);
    assert!((as_float(&samples[1]) - 1.0).abs() < 0.001);
}

#[test]
fn convert_samples_24bit_and_unknown_depth() {
    let data: Vec<u8> = vec![0x00, 0x00, 0x40, 0x00, 0x00, 0xC0, 0x7F];
    let mut format = MixFormat::default();
    format.bits_per_sample = 24;
    let samples = WasapiAudioCapture::convert_samples_to_f32(&data, &format);
    assert_eq!(samples.len(), 2);
    assert_eq!(as_float(&samples[0]), 0.5);
    assert_eq!(as_float(&samples[1]), -0.5);
    let data: Vec<u8> =
        vec![0x00, 0x00, 0x40, 0x00, 0x00, 0xC0, 0x00, 0x00, 0x80, 0xFF, 0xFF, 0x7F];
    format.block_align = 3;
    let samples = WasapiAudioCapture::convert_samples_to_f32(&data, &format);
    let values: Vec<f32> = samples.iter().map(as_float).collect();
    assert_eq!(values, vec![0.5, -0.5, -1.0, 8388607.0 / 8388608.0]);
    format.bits_per_sample = 8;
    assert!(WasapiAudioCapture::convert_samples_to_f32(&data, &format).is_empty());
    format.bits_per_sample = 0;
    assert!(WasapiAudioCapture::convert_samples_to_f32(&data, &format).is_empty());
}

#[test]
fn device_slots() {
    assert_eq!(WasapiAudioCapture::get_device_by_index(0, 3), DeviceSlot::Default);
    assert_eq!(WasapiAudioCapture::get_device_by_index(1, 3), DeviceSlot::Endpoint(0));
    assert_eq!(WasapiAudioCapture::get_device_by_index(3, 3), DeviceSlot::Endpoint(2));
    assert_eq!(WasapiAudioCapture::get_device_by_index(4, 3), DeviceSlot::Default);
    assert_eq!(WasapiAudioCapture::get_device_by_index(1, 0), DeviceSlot::Default);
    assert_eq!(WasapiAudioCapture::get_device_by_index(usize::MAX, 3), DeviceSlot::Default);
}

#[test]
fn fallback_names_count_from_one() {
    assert_eq!(
        WasapiAudioCapture::get_device_fallback_name(Some(DeviceKind::OutputLoopback), 0),
        "Speaker 1"
    );
    assert_eq!(
        WasapiAudioCapture::get_device_fallback_name(Some(DeviceKind::Input), 9),
        "Microphone 10"
    );
    assert_eq!(
        WasapiAudioCapture::get_device_fallback_name(None, u32::MAX),
        "Audio Device 4294967296"
    );
}

#[test]
fn silent_packets_are_skipped() {
    assert!(WasapiAudioCapture::packet_is_audible(0, 480));
    assert!(!WasapiAudioCapture::packet_is_audible(2, 480));
    assert!(!WasapiAudioCapture::packet_is_audible(3, 480));
    assert!(WasapiAudioCapture::packet_is_audible(1, 480));
    assert!(!WasapiAudioCapture::packet_is_audible(0, 0));
}

#[test]
fn start_reports_what_the_device_mixes_in() {
    let mut capture = WasapiAudioCapture::new();
    assert_eq!(capture.start_capture(Some("3: Headphones (Speaker)".to_string())).unwrap(), 3);
    assert!(capture.is_capturing());
    let mix =
        MixFormat { samples_per_sec: 48000, channels: 2, bits_per_sample: 32, block_align: 8 };
    assert!(capture.complete_start(Ok(Some(mix))).is_ok());
    let format = capture.get_format();
    assert_eq!((format.sample_rate, format.channels, format.bits_per_sample), (48000, 2, 32));
    assert!(matches!(capture.start_capture(None), Err(CaptureError::AlreadyCapturing)));
}

#[test]
fn unusable_descriptor_ends_the_start() {
    let mut capture = WasapiAudioCapture::new();
    assert!(capture.start_capture(None).is_ok());
    let r = capture.complete_start(Ok(None));
    assert!(matches!(r, Err(CaptureError::FormatNegotiationFailed(_))));
    assert!(!capture.is_capturing());
    assert_eq!(capture.get_format().sample_rate, 16000);

    assert!(capture.start_capture(None).is_ok());
    let mix = MixFormat { samples_per_sec: 0, channels: 2, bits_per_sample: 32, block_align: 8 };
    assert!(matches!(
        capture.complete_start(Ok(Some(mix))),
        Err(CaptureError::FormatNegotiationFailed(_))
    ));
    assert!(!capture.is_capturing());

    assert!(capture.start_capture(None).is_ok());
    let r = capture.complete_start(Err(CaptureError::SubsystemInitFailure("COM".to_string())));
    assert!(matches!(r, Err(CaptureError::SubsystemInitFailure(_))));
    assert!(!capture.is_capturing());
    assert!(capture.get_audio_buffer().is_none());
    assert!(!capture.stop_capture());
}

#[test]
fn names_of_devices() {
    let speaker = Some(DeviceKind::OutputLoopback);
    assert_eq!(
        WasapiAudioCapture::get_device_friendly_name(
            Some("Speakers (High Definition Audio)".to_string()),
            Some("{0.0.0.00000000}.USB".to_string()),
            speaker,
            0
        ),
        "Speakers (High Definition Audio)"
    );
    assert_eq!(
        WasapiAudioCapture::get_device_friendly_name(
            Some(String::new()),
            Some("{0.0.0.00000000}.HDAUDIO#REALTEK".to_string()),
            speaker,
            0
        ),
        "Realtek Audio"
    );
    assert_eq!(
        WasapiAudioCapture::get_device_friendly_name(
            None,
            Some("BTHENUM\\BT_Headset".to_string()),
            Some(DeviceKind::Input),
            4
        ),
        "Bluetooth Audio"
    );
    assert_eq!(
        WasapiAudioCapture::get_device_friendly_name(
            None,
            Some("{0.0.0.00000000}.{6f2c}".to_string()),
            speaker,
            2
        ),
        "Speaker 3"
    );
    assert_eq!(
        WasapiAudioCapture::get_device_friendly_name(None, None, Some(DeviceKind::Input), 0),
        "Microphone 1"
    );
    assert_eq!(WasapiAudioCapture::get_device_friendly_name(None, None, None, 6), "Audio Device 7");
}

#[test]
fn vendors_go_by_the_first_rule_that_fits() {
    assert_eq!(WasapiAudioCapture::vendor_name("hdaudio#realtek"), Some("Realtek Audio"));
    assert_eq!(WasapiAudioCapture::vendor_name("rtkusb"), Some("Realtek Audio"));
    assert_eq!(WasapiAudioCapture::vendor_name("nvidia hdmi"), Some("NVIDIA Audio"));
    assert_eq!(WasapiAudioCapture::vendor_name("amd hdmi"), Some("AMD Audio"));
    assert_eq!(WasapiAudioCapture::vendor_name("ati"), Some("AMD Audio"));
    assert_eq!(WasapiAudioCapture::vendor_name("usb-hdmi"), Some("HDMI Audio"));
    assert_eq!(WasapiAudioCapture::vendor_name("bt_usb"), Some("USB Audio Device"));
    assert_eq!(WasapiAudioCapture::vendor_name("bluetooth"), Some("Bluetooth Audio"));
    assert_eq!(WasapiAudioCapture::vendor_name("bt_headset"), Some("Bluetooth Audio"));
    assert_eq!(WasapiAudioCapture::vendor_name("REALTEK"), None);
    assert_eq!(WasapiAudioCapture::vendor_name(""), None);
}

#[test]
fn windows_lists() {
    let capture = WasapiAudioCapture::new();
    let found = || Enumeration {
        sinks: vec![EndpointInfo {
            description: Some("Headphones".to_string()),
            name: None,
            is_monitor: false,
            unavailable: false,
        }],
        sources: vec![EndpointInfo {
            description: Some("Array Mic".to_string()),
            name: None,
            is_monitor: false,
            unavailable: false,
        }],
    };
    assert_eq!(
        capture.list_devices(Some("Speakers".to_string()), Ok(found())),
        vec![
            "0: Speakers (Default Speaker)".to_string(),
            "1: Headphones (Speaker)".to_string(),
            "2: Array Mic (Microphone)".to_string(),
        ]
    );
    assert_eq!(
        capture.list_devices(None, Err(CaptureError::SubsystemInitFailure("COM".to_string()))),
        vec!["0: Default Communication Device (Speaker)".to_string()]
    );
    assert_eq!(
        capture.list_devices(None, Ok(found())),
        vec![
            "0: Default Communication Device (Speaker)".to_string(),
            "1: Headphones (Speaker)".to_string(),
            "2: Array Mic (Microphone)".to_string(),
        ]
    );
    assert_eq!(
        capture.list_devices(
            Some("Speakers".to_string()),
            Err(CaptureError::SubsystemInitFailure("COM".to_string()))
        ),
        vec!["0: Speakers (Default Speaker)".to_string()]
    );
    assert_eq!(
        capture.list_speaker_devices(Some("Speakers".to_string()), Ok(found())).unwrap(),
        vec!["0: Speakers (Default Speaker)".to_string(), "1: Headphones".to_string()]
    );
    assert_eq!(
        capture.list_speaker_devices(None, Ok(found())).unwrap(),
        vec!["0: Default Communication Device".to_string(), "1: Headphones".to_string()]
    );
    assert_eq!(
        capture.list_microphone_devices(Ok(found())).unwrap(),
        vec!["0: Array Mic".to_string()]
    );
}

#[test]
fn failed_steps_of_a_start() {
    let failure = WasapiAudioCapture::start_failure(StartStage::SubsystemInit, "a".to_string());
    assert!(!failure.release_subsystem);
    assert!(matches!(failure.error, CaptureError::SubsystemInitFailure(_)));
    for (stage, device) in [
        (StartStage::DeviceLookup, true),
        (StartStage::ClientActivation, true),
        (StartStage::FormatNegotiation, false),
        (StartStage::CaptureClient, true),
    ] {
        let failure = WasapiAudioCapture::start_failure(stage, "why".to_string());
        assert!(failure.release_subsystem);
        assert_eq!(matches!(failure.error, CaptureError::DeviceUnavailable(_)), device);
        assert_eq!(matches!(failure.error, CaptureError::FormatNegotiationFailed(_)), !device);
        assert!(failure.error.message().ends_with(": why"));
    }
}

#[test]
fn endpoints_that_could_not_be_retrieved_keep_their_numbers() {
    let capture = WasapiAudioCapture::new();
    let endpoint = |name: &str, unavailable: bool| EndpointInfo {
        description: Some(name.to_string()),
        name: None,
        is_monitor: false,
        unavailable,
    };
    let found = || Enumeration {
        sinks: vec![endpoint("A", false), endpoint("B", true), endpoint("C", false)],
        sources: vec![endpoint("M", true), endpoint("N", false)],
    };
    assert_eq!(
        capture.list_devices(Some("Speakers".to_string()), Ok(found())),
        vec![
            "0: Speakers (Default Speaker)".to_string(),
            "1: A (Speaker)".to_string(),
            "3: C (Speaker)".to_string(),
            "5: N (Microphone)".to_string(),
        ]
    );
    assert_eq!(
        capture.list_speaker_devices(Some("Speakers".to_string()), Ok(found())).unwrap(),
        vec![
            "0: Speakers (Default Speaker)".to_string(),
            "1: A".to_string(),
            "3: C".to_string(),
        ]
    );
    assert_eq!(capture.list_microphone_devices(Ok(found())).unwrap(), vec!["1: N".to_string()]);
    assert_eq!(WasapiAudioCapture::get_device_by_index(3, 3), DeviceSlot::Endpoint(2));
}
