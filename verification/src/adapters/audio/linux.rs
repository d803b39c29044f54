//! Capture through PulseAudio: what is fixed on this platform, and the
//! controller of a session.
//!
//! PulseAudio captures in the format that the capture call names, so the
//! format of every session is the same: 44.1 kHz, two channels, signed
//! 16-bit samples. The default device is the monitor of the default output.

use vstd::prelude::*;
use vstd::string::StringExecFns;
use crate::adapters::audio::device::{
    device_entries, full_entry, microphone_entries, selected_index, speaker_entries, texts_of,
    Enumeration,
};
use crate::adapters::audio::negotiate::{negotiate_format, FormatSource};
use crate::adapters::audio::session::{CaptureSession, SessionState};
use crate::error::CaptureError;
use crate::ports::audio::{AudioBuffer, AudioFormat};
use crate::ports::sample::{is_quotient, lemma_q15_is_quotient, Sample};
use crate::utils::text::{decimal, decimal_string};

verus! {

/// The label of the default device.
pub const DEFAULT_LABEL: &'static str = "Default Monitor";

/// The entry of the default device in the list of speakers.
pub const DEFAULT_SPEAKER_ENTRY: &'static str = "0: Default Monitor (Default)";

/// The name by which PulseAudio knows the monitor of the default output.
pub const DEFAULT_MONITOR: &'static str = "@DEFAULT_MONITOR@";

/// The milliseconds that the loop rests after a read, so that it never
/// spins without a wait.
pub const POLL_INTERVAL_MS: u64 = 1;

/// The number of frames that one read asks for.
pub const FRAMES_PER_READ: usize = 1024;

/// The format of every session on this platform.
pub open spec fn fixed_format() -> AudioFormat {
    AudioFormat { sample_rate: 44100, channels: 2, bits_per_sample: 16 }
}

/// The name of the PulseAudio source for a device index: the monitor of the
/// default output for index 0, and `device_<index>` for any other.
pub open spec fn source_name(index: nat) -> Seq<char> {
    if index == 0 {
        DEFAULT_MONITOR@
    } else {
        "device_"@ + decimal(index)
    }
}

/// The controller of capture sessions through PulseAudio.
#[derive(Debug)]
pub struct PulseAudioCapture {
    session: CaptureSession,
}

impl PulseAudioCapture {
    /// The state of the controller's session.
    pub closed spec fn view(&self) -> SessionState {
        self.session@
    }

    /// A controller without a session: inactive, with the placeholder
    /// format and nothing captured.
    pub fn new() -> (capture: PulseAudioCapture)
        ensures
            capture@ == SessionState::idle(),
    {
        PulseAudioCapture { session: CaptureSession::new() }
    }

    /// The format of every session on this platform.
    pub fn format() -> (format: AudioFormat)
        ensures
            format == fixed_format(),
    {
        AudioFormat { sample_rate: 44100, channels: 2, bits_per_sample: 16 }
    }

    /// The number of bytes that one read asks for: 1024 frames of the fixed
    /// format.
    pub fn read_buffer_size() -> (size: usize)
        ensures
            size == 1024 * 2 * 2,
    {
        FRAMES_PER_READ * 2 * 2
    }

    /// Normalises signed 16-bit samples: each becomes its value divided by
    /// 32768.
    pub fn convert_samples(samples: &[i16]) -> (out: Vec<Sample>)
        ensures
            out.len() == samples.len(),
            forall|i: int|
                0 <= i < out.len() ==> is_quotient((#[trigger] out[i]).bits, samples[i] as int, 15),
    {
        let mut out: Vec<Sample> = Vec::new();
        let mut i: usize = 0;
        while i < samples.len()
            invariant
                i <= samples.len(),
                out.len() == i,
                forall|j: int|
                    0 <= j < i ==> is_quotient((#[trigger] out[j]).bits, samples[j] as int, 15),
            decreases samples.len() - i,
        {
            let s = Sample::from_q15(samples[i] as i32);
            proof {
                lemma_q15_is_quotient(s.bits, samples[i as int] as int);
            }
            out.push(s);
            i = i + 1;
        }
        out
    }

    /// The name of the PulseAudio source for a device index.
    pub fn get_device_name_by_index(device_index: usize) -> (name: String)
        ensures
            name@ == source_name(device_index as nat),
    {
        if device_index == 0 {
            DEFAULT_MONITOR.to_owned()
        } else {
            "device_".to_owned().concat(decimal_string(device_index as u64).as_str())
        }
    }

    /// The entry of every device, the default monitor first. The list is
    /// never empty: where the enumeration failed it holds the default
    /// monitor alone.
    pub fn list_devices(&self, enumeration: Result<Enumeration, CaptureError>) -> (entries: Vec<
        String,
    >)
        ensures
            texts_of(entries@) == device_entries(DEFAULT_LABEL@, enumeration),
            entries.len() >= 1,
            entries[0]@ == full_entry(0, DEFAULT_LABEL@, "Default Speaker"@),
    {
        crate::adapters::audio::device::list_devices(DEFAULT_LABEL, enumeration)
    }

    /// The entries of the outputs, the default monitor first.
    pub fn list_speaker_devices(&self, enumeration: Result<Enumeration, CaptureError>) -> (r:
        Result<Vec<String>, CaptureError>)
        ensures
            match enumeration {
                Ok(found) => r is Ok && texts_of(r->Ok_0@) == speaker_entries(
                    DEFAULT_SPEAKER_ENTRY@,
                    found.sinks@,
                ),
                Err(e) => r == Err::<Vec<String>, CaptureError>(e),
            },
    {
        crate::adapters::audio::device::list_speaker_devices(DEFAULT_SPEAKER_ENTRY, enumeration)
    }

    /// The entries of the microphones; monitors of outputs are left out.
    pub fn list_microphone_devices(&self, enumeration: Result<Enumeration, CaptureError>) -> (r:
        Result<Vec<String>, CaptureError>)
        ensures
            match enumeration {
                Ok(found) => r is Ok && texts_of(r->Ok_0@) == microphone_entries(found.sources@),
                Err(e) => r == Err::<Vec<String>, CaptureError>(e),
            },
    {
        crate::adapters::audio::device::list_microphone_devices(enumeration)
    }

    /// Starts a session on the device that `device_name` selects. Fails
    /// with `AlreadyCapturing`, and changes nothing, where a session is
    /// active. Otherwise the session is active in the fixed format, and the
    /// name of the PulseAudio source to record from is returned: the caller
    /// starts the worker on it and reports with `capture_failed` if the
    /// worker cannot open it.
    pub fn start_capture(&mut self, device_name: Option<String>) -> (r: Result<String, CaptureError>)
        ensures
            match r {
                Ok(source) => old(self)@.can_start() && source@ == source_name(
                    selected_index(device_name) as nat,
                ) && final(self)@ == old(self)@.started().settled(
                    Ok::<AudioFormat, CaptureError>(fixed_format()),
                ),
                Err(e) => !old(self)@.can_start() && e == CaptureError::AlreadyCapturing
                    && final(self)@ == old(self)@,
            },
    {
        match self.session.begin_start(&device_name) {
            Ok(index) => {
                let negotiated = negotiate_format(FormatSource::Fixed(Self::format()));
                let _ = self.session.complete_start(negotiated);
                Ok(Self::get_device_name_by_index(index))
            },
            Err(e) => Err(e),
        }
    }

    /// Takes the report of a worker that could not open its source: the
    /// session is inactive again, nothing was captured, and the error is
    /// returned for the caller of the start.
    pub fn capture_failed(&mut self, error: CaptureError) -> (r: Result<(), CaptureError>)
        ensures
            r == Err::<(), CaptureError>(error),
            final(self)@ == old(self)@.start_failed(),
    {
        self.session.complete_start(Err(error))
    }

    /// Stops the session and tells whether a worker is to be joined. On an
    /// inactive controller nothing changes.
    pub fn stop_capture(&mut self) -> (join_worker: bool)
        ensures
            final(self)@ == old(self)@.stopped(),
            join_worker == (old(self)@.active && old(self)@.worker),
    {
        self.session.stop_capture()
    }

    /// Puts the samples of a chunk behind those that wait.
    pub fn append_samples(&mut self, chunk: Vec<Sample>)
        ensures
            final(self)@ == old(self)@.appended(chunk@),
    {
        self.session.append_samples(chunk)
    }

    /// Takes out everything captured since the last call: `None` where
    /// nothing is new.
    pub fn get_audio_buffer(&mut self) -> (taken: Option<AudioBuffer>)
        ensures
            final(self)@ == old(self)@.drained(),
            old(self)@.pending.len() == 0 ==> taken is None,
            old(self)@.pending.len() > 0 ==> taken is Some && taken->0.samples@ == old(
                self,
            )@.pending && taken->0.format == old(self)@.format,
    {
        self.session.get_audio_buffer()
    }

    /// Tells whether a session is active.
    pub fn is_capturing(&self) -> (b: bool)
        ensures
            b == self@.active,
    {
        self.session.is_capturing()
    }

    /// The format of the session: the placeholder until a session has
    /// started.
    pub fn get_format(&self) -> (format: AudioFormat)
        ensures
            format == self@.format,
    {
        self.session.get_format()
    }
}

impl Default for PulseAudioCapture {
    fn default() -> (capture: PulseAudioCapture)
        ensures
            capture@ == SessionState::idle(),
    {
        PulseAudioCapture::new()
    }
}

} // verus!
