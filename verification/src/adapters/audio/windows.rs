//! Capture through WASAPI loopback: the rules of this platform, and the
//! controller of a session.
//!
//! The device is asked for the format it mixes in, and the session reports
//! what the device answered. A device is chosen by its place among the active
//! outputs; number 0 is the default output.

use vstd::prelude::*;
use vstd::string::StringExecFns;
use crate::adapters::audio::convert::{convert_samples, is_conversion};
use crate::adapters::audio::device::{
    device_entries, full_entry, microphone_entries, selected_index, speaker_entries, texts_of,
    word_of, CaptureDevice, DeviceKind, Enumeration,
};
use crate::adapters::audio::negotiate::{negotiate_format, negotiated, FormatSource, MixFormat};
use crate::adapters::audio::session::{CaptureSession, SessionState};
use crate::error::CaptureError;
use crate::ports::audio::{encoding_of_bits, AudioBuffer, AudioFormat};
use crate::ports::sample::Sample;
use crate::utils::text::{contains, decimal, decimal_string, has_substring};

verus! {

/// The label of the default device where the system gives no name for it.
pub const DEFAULT_LABEL: &'static str = "Default Communication Device";

/// The flag by which the system marks a packet as silent.
pub const BUFFER_FLAG_SILENT: u32 = 0x2;

/// The length of the capture buffer asked for: one second, in units of 100
/// nanoseconds.
pub const BUFFER_DURATION: i64 = 10_000_000;

/// The milliseconds that the loop waits between two polls.
pub const POLL_INTERVAL_MS: u64 = 10;

/// The device to open for an index.
#[derive(Clone, Copy, Debug, PartialEq, Eq, Structural)]
pub enum DeviceSlot {
    /// The default output.
    Default,
    /// The output at the given place among the active outputs.
    Endpoint(u32),
}

/// The device for an index among `count` active outputs: the default
/// output for index 0 and for an index past the last output, and the output
/// at place `index - 1` otherwise.
pub open spec fn slot_of(index: usize, count: u32) -> DeviceSlot {
    if index == 0 || index - 1 >= count {
        DeviceSlot::Default
    } else {
        DeviceSlot::Endpoint((index - 1) as u32)
    }
}

/// The name of a device that the system gives no name for: the word of its
/// kind, or "Audio Device" where the kind is not known, and its place counted
/// from one.
pub open spec fn fallback_name(kind: Option<DeviceKind>, place: u32) -> Seq<char> {
    (match kind {
        Some(k) => word_of(k),
        None => "Audio Device"@,
    }) + " "@ + decimal((place + 1) as nat)
}

/// A step of the start of a session, in the order in which they are taken.
#[derive(Clone, Copy, Debug, PartialEq, Eq, Structural)]
pub enum StartStage {
    /// The subsystem is set up for the worker.
    SubsystemInit,
    /// The device is looked up.
    DeviceLookup,
    /// The audio client of the device is activated.
    ClientActivation,
    /// The device is asked for its format, and the client is set to it.
    FormatNegotiation,
    /// The capture client is taken from the audio client.
    CaptureClient,
}

/// What a worker does when a step of the start fails.
#[derive(Debug)]
pub struct StartFailure {
    /// The error to report to the caller of the start.
    pub error: CaptureError,
    /// Whether the subsystem was set up before and has to be released
    /// before the error is reported.
    pub release_subsystem: bool,
}

/// The subsystem has to be released after a failure of every step but the
/// first, which is the one that sets it up.
pub open spec fn releases_subsystem(stage: StartStage) -> bool {
    stage != StartStage::SubsystemInit
}

/// The label of the default device: its name, or `DEFAULT_LABEL` where the
/// system gives none.
pub open spec fn default_label(default_name: Option<String>) -> Seq<char> {
    match default_name {
        Some(name) => name@,
        None => DEFAULT_LABEL@,
    }
}

/// The entry of the default device in the list of all devices: its name
/// with the role of the default speaker where the system gives its name, and
/// the placeholder with the role of a speaker where it gives none.
pub open spec fn default_device_entry(default_name: Option<String>) -> Seq<char> {
    match default_name {
        Some(name) => full_entry(0, name@, "Default Speaker"@),
        None => "0: Default Communication Device (Speaker)"@,
    }
}

/// The entries of all devices: those that the enumeration gives, with the
/// entry of the default device in the first place; that entry alone where
/// the enumeration failed.
pub open spec fn wasapi_device_entries(
    default_name: Option<String>,
    enumeration: Result<Enumeration, CaptureError>,
) -> Seq<Seq<char>> {
    device_entries(default_label(default_name), enumeration).update(
        0,
        default_device_entry(default_name),
    )
}

/// The entry of the default device in the list of speakers: with its role
/// where the system gives its name, the bare label otherwise.
pub open spec fn default_speaker_entry(default_name: Option<String>) -> Seq<char> {
    match default_name {
        Some(name) => full_entry(0, name@, "Default Speaker"@),
        None => "0: Default Communication Device"@,
    }
}

/// The text in lower case, as `str::to_lowercase` gives it.
pub uninterp spec fn lowercase_of(text: Seq<char>) -> Seq<char>;

/// The text in lower case: `str::to_lowercase`, which goes by the Unicode
/// tables of the standard library and by nothing else.
#[verifier::external_body]
fn to_lowercase(text: &str) -> (lower: String)
    ensures
        lower@ == lowercase_of(text@),
{
    text.to_lowercase()
}

/// The name that stands for the maker or the bus that the identifier of a
/// device, in lower case, gives away; the first rule that fits decides.
pub open spec fn vendor_in(lowered_id: Seq<char>) -> Option<Seq<char>> {
    if has_substring(lowered_id, "realtek"@) || has_substring(lowered_id, "rtk"@) {
        Some("Realtek Audio"@)
    } else if has_substring(lowered_id, "nvidia"@) {
        Some("NVIDIA Audio"@)
    } else if has_substring(lowered_id, "amd"@) || has_substring(lowered_id, "ati"@) {
        Some("AMD Audio"@)
    } else if has_substring(lowered_id, "hdmi"@) {
        Some("HDMI Audio"@)
    } else if has_substring(lowered_id, "usb"@) {
        Some("USB Audio Device"@)
    } else if has_substring(lowered_id, "bluetooth"@) || has_substring(lowered_id, "bt_"@) {
        Some("Bluetooth Audio"@)
    } else {
        None
    }
}

/// The name to show for a device: the name that the system gives where it
/// gives one that is not empty; else what the identifier of the device gives
/// away; else the word of its kind and its place.
pub open spec fn friendly_name(
    system_name: Option<String>,
    device_id: Option<String>,
    kind: Option<DeviceKind>,
    place: u32,
) -> Seq<char> {
    if system_name is Some && system_name->0@.len() > 0 {
        system_name->0@
    } else if device_id is Some && vendor_in(lowercase_of(device_id->0@)) is Some {
        vendor_in(lowercase_of(device_id->0@))->0
    } else {
        fallback_name(kind, place)
    }
}

/// The controller of capture sessions through WASAPI.
#[derive(Debug)]
pub struct WasapiAudioCapture {
    session: CaptureSession,
}

impl WasapiAudioCapture {
    /// The state of the controller's session.
    pub closed spec fn view(&self) -> SessionState {
        self.session@
    }

    /// A controller without a session: inactive, with the placeholder
    /// format and nothing captured.
    pub fn new() -> (capture: WasapiAudioCapture)
        ensures
            capture@ == SessionState::idle(),
    {
        WasapiAudioCapture { session: CaptureSession::new() }
    }

    /// The entry of every device, the default output first; `default_name`
    /// is the name of the default output, where the system gives one. The list
    /// is never empty: where the enumeration failed it holds the default
    /// output alone.
    pub fn list_devices(
        &self,
        default_name: Option<String>,
        enumeration: Result<Enumeration, CaptureError>,
    ) -> (entries: Vec<String>)
        ensures
            texts_of(entries@) == wasapi_device_entries(default_name, enumeration),
            entries.len() >= 1,
            entries[0]@ == default_device_entry(default_name),
    {
        match default_name {
            Some(name) => {
                let entries = crate::adapters::audio::device::list_devices(
                    name.as_str(),
                    enumeration,
                );
                proof {
                    assert(texts_of(entries@) =~= wasapi_device_entries(default_name, enumeration));
                }
                entries
            },
            None => {
                let mut entries = crate::adapters::audio::device::list_devices(
                    DEFAULT_LABEL,
                    enumeration,
                );
                let ghost listed = texts_of(entries@);
                entries.set(0, "0: Default Communication Device (Speaker)".to_owned());
                proof {
                    assert(texts_of(entries@) =~= listed.update(
                        0,
                        default_device_entry(default_name),
                    ));
                }
                entries
            },
        }
    }

    /// The entries of the outputs, the default output first.
    pub fn list_speaker_devices(
        &self,
        default_name: Option<String>,
        enumeration: Result<Enumeration, CaptureError>,
    ) -> (r: Result<Vec<String>, CaptureError>)
        ensures
            match enumeration {
                Ok(found) => r is Ok && texts_of(r->Ok_0@) == speaker_entries(
                    default_speaker_entry(default_name),
                    found.sinks@,
                ),
                Err(e) => r == Err::<Vec<String>, CaptureError>(e),
            },
    {
        let first = match default_name {
            Some(name) => {
                let device = CaptureDevice {
                    index: 0,
                    label: name,
                    kind: DeviceKind::OutputLoopback,
                };
                device.entry()
            },
            None => "0: Default Communication Device".to_owned(),
        };
        crate::adapters::audio::device::list_speaker_devices(first.as_str(), enumeration)
    }

    /// The entries of the microphones.
    pub fn list_microphone_devices(&self, enumeration: Result<Enumeration, CaptureError>) -> (r:
        Result<Vec<String>, CaptureError>)
        ensures
            match enumeration {
                Ok(found) => r is Ok && texts_of(r->Ok_0@) == microphone_entries(found.sources@),
                Err(e) => r == Err::<Vec<String>, CaptureError>(e),
            },
    {
        crate::adapters::audio::device::list_microphone_devices(enumeration)
    }

    /// The device to open for an index among `count` active outputs.
    pub fn get_device_by_index(device_index: usize, count: u32) -> (slot: DeviceSlot)
        ensures
            slot == slot_of(device_index, count),
    {
        if device_index == 0 {
            DeviceSlot::Default
        } else {
            let place = device_index - 1;
            if place >= count as usize {
                DeviceSlot::Default
            } else {
                DeviceSlot::Endpoint(place as u32)
            }
        }
    }

    /// The name that the identifier of a device, in lower case, gives
    /// away.
    pub fn vendor_name(lowered_id: &str) -> (vendor: Option<&'static str>)
        ensures
            match vendor {
                Some(name) => vendor_in(lowered_id@) == Some(name@),
                None => vendor_in(lowered_id@) is None,
            },
    {
        if contains(lowered_id, "realtek") || contains(lowered_id, "rtk") {
            Some("Realtek Audio")
        } else if contains(lowered_id, "nvidia") {
            Some("NVIDIA Audio")
        } else if contains(lowered_id, "amd") || contains(lowered_id, "ati") {
            Some("AMD Audio")
        } else if contains(lowered_id, "hdmi") {
            Some("HDMI Audio")
        } else if contains(lowered_id, "usb") {
            Some("USB Audio Device")
        } else if contains(lowered_id, "bluetooth") || contains(lowered_id, "bt_") {
            Some("Bluetooth Audio")
        } else {
            None
        }
    }

    /// The name to show for a device, from what the system reports of it:
    /// its name, its identifier, its kind, and its place among the devices of
    /// its kind.
    pub fn get_device_friendly_name(
        system_name: Option<String>,
        device_id: Option<String>,
        kind: Option<DeviceKind>,
        place: u32,
    ) -> (name: String)
        ensures
            name@ == friendly_name(system_name, device_id, kind, place),
    {
        match system_name {
            Some(given) => {
                if !given.as_str().is_empty() {
                    return given;
                }
            },
            None => {},
        }
        match device_id {
            Some(id) => {
                let lowered = to_lowercase(id.as_str());
                match Self::vendor_name(lowered.as_str()) {
                    Some(vendor) => {
                        return vendor.to_owned();
                    },
                    None => {},
                }
            },
            None => {},
        }
        Self::get_device_fallback_name(kind, place)
    }

    /// The name of a device that the system gives no name for.
    pub fn get_device_fallback_name(kind: Option<DeviceKind>, place: u32) -> (name: String)
        ensures
            name@ == fallback_name(kind, place),
    {
        let word = match kind {
            Some(DeviceKind::OutputLoopback) => "Speaker",
            Some(DeviceKind::Input) => "Microphone",
            None => "Audio Device",
        };
        word.to_owned().concat(" ").concat(decimal_string(place as u64 + 1).as_str())
    }

    /// What follows a failure of a step of the start: the error of the
    /// kind that belongs to the step, with `detail` as its words, and whether
    /// the subsystem has to be released first. No set-up is left behind by a
    /// start that fails.
    pub fn start_failure(stage: StartStage, detail: String) -> (failure: StartFailure)
        ensures
            failure.release_subsystem == releases_subsystem(stage),
            failure.error == (match stage {
                StartStage::SubsystemInit => CaptureError::SubsystemInitFailure(detail),
                StartStage::DeviceLookup => CaptureError::DeviceUnavailable(detail),
                StartStage::ClientActivation => CaptureError::DeviceUnavailable(detail),
                StartStage::FormatNegotiation => CaptureError::FormatNegotiationFailed(detail),
                StartStage::CaptureClient => CaptureError::DeviceUnavailable(detail),
            }),
    {
        match stage {
            StartStage::SubsystemInit => StartFailure {
                error: CaptureError::SubsystemInitFailure(detail),
                release_subsystem: false,
            },
            StartStage::DeviceLookup => StartFailure {
                error: CaptureError::DeviceUnavailable(detail),
                release_subsystem: true,
            },
            StartStage::ClientActivation => StartFailure {
                error: CaptureError::DeviceUnavailable(detail),
                release_subsystem: true,
            },
            StartStage::FormatNegotiation => StartFailure {
                error: CaptureError::FormatNegotiationFailed(detail),
                release_subsystem: true,
            },
            StartStage::CaptureClient => StartFailure {
                error: CaptureError::DeviceUnavailable(detail),
                release_subsystem: true,
            },
        }
    }

    /// Tells whether a packet holds sound: it is not marked silent and has
    /// at least one frame.
    pub fn packet_is_audible(flags: u32, frames: u32) -> (b: bool)
        ensures
            b == (flags & BUFFER_FLAG_SILENT == 0 && frames > 0),
    {
        (flags & BUFFER_FLAG_SILENT) == 0 && frames > 0
    }

    /// Normalises a run of bytes in the format that the device mixes in. A
    /// bit depth without a known encoding gives no samples.
    pub fn convert_samples_to_f32(data: &[u8], format: &MixFormat) -> (out: Vec<Sample>)
        ensures
            match encoding_of_bits(format.bits_per_sample) {
                Some(encoding) => is_conversion(out@, data@, encoding),
                None => out@.len() == 0,
            },
    {
        let described = AudioFormat {
            sample_rate: format.samples_per_sec,
            channels: format.channels,
            bits_per_sample: format.bits_per_sample,
        };
        convert_samples(data, &described)
    }

    /// The first half of a start: fails with `AlreadyCapturing`, and
    /// changes nothing, where a session is active. Otherwise the session is
    /// active, and the index that `device_name` selects is returned; the
    /// caller starts the worker for it and hands what the worker reports to
    /// `complete_start`.
    pub fn start_capture(&mut self, device_name: Option<String>) -> (r: Result<usize, CaptureError>)
        ensures
            final(self)@ == old(self)@.started(),
            old(self)@.can_start() ==> r == Ok::<usize, CaptureError>(selected_index(device_name)),
            !old(self)@.can_start() ==> r == Err::<usize, CaptureError>(
                CaptureError::AlreadyCapturing,
            ),
    {
        self.session.begin_start(&device_name)
    }

    /// The second half of a start: takes the report of the worker, which
    /// is either the descriptor that the device gave or the error that kept
    /// the worker from asking. The session gets the values that the device
    /// reported. Where the worker failed, or the descriptor cannot be used,
    /// the session is inactive again, nothing was captured, and the error is
    /// returned.
    pub fn complete_start(&mut self, report: Result<Option<MixFormat>, CaptureError>) -> (r: Result<
        (),
        CaptureError,
    >)
        ensures
            match report {
                Ok(mix) => match negotiated(FormatSource::Queried(mix)) {
                    Some(format) => r is Ok && final(self)@ == old(self)@.settled(
                        Ok::<AudioFormat, CaptureError>(format),
                    ),
                    None => r matches Err(CaptureError::FormatNegotiationFailed(_)) && final(self)@
                        == old(self)@.start_failed(),
                },
                Err(e) => r == Err::<(), CaptureError>(e) && final(self)@ == old(
                    self,
                )@.start_failed(),
            },
    {
        let outcome = match report {
            Ok(mix) => negotiate_format(FormatSource::Queried(mix)),
            Err(e) => Err(e),
        };
        self.session.complete_start(outcome)
    }

    /// Stops the session and tells whether a worker is to be joined. On an
    /// inactive controller nothing changes.
    pub fn stop_capture(&mut self) -> (join_worker: bool)
        ensures
            final(self)@ == old(self)@.stopped(),
            join_worker == (old(self)@.active && old(self)@.worker),
    {
        self.session.stop_capture()
    }

    /// Puts the samples of a chunk behind those that wait.
    pub fn append_samples(&mut self, chunk: Vec<Sample>)
        ensures
            final(self)@ == old(self)@.appended(chunk@),
    {
        self.session.append_samples(chunk)
    }

    /// Takes out everything captured since the last call: `None` where
    /// nothing is new.
    pub fn get_audio_buffer(&mut self) -> (taken: Option<AudioBuffer>)
        ensures
            final(self)@ == old(self)@.drained(),
            old(self)@.pending.len() == 0 ==> taken is None,
            old(self)@.pending.len() > 0 ==> taken is Some && taken->0.samples@ == old(
                self,
            )@.pending && taken->0.format == old(self)@.format,
    {
        self.session.get_audio_buffer()
    }

    /// Tells whether a session is active.
    pub fn is_capturing(&self) -> (b: bool)
        ensures
            b == self@.active,
    {
        self.session.is_capturing()
    }

    /// The format of the session: the placeholder until a start has
    /// negotiated one.
    pub fn get_format(&self) -> (format: AudioFormat)
        ensures
            format == self@.format,
    {
        self.session.get_format()
    }
}

impl Default for WasapiAudioCapture {
    fn default() -> (capture: WasapiAudioCapture)
        ensures
            capture@ == SessionState::idle(),
    {
        WasapiAudioCapture::new()
    }
}

} // verus!
