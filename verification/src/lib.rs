//! Capture engine for system audio.
//!
//! The engine captures what the operating system plays, so that speech in a
//! conferencing application can be transcribed. This library holds what the
//! engine decides and computes, verified with Verus:
//!
//! - `ports`: the sample format of a session, buffers of samples, and the
//!   samples themselves, kept as bit patterns of binary32 numbers so that every
//!   conversion is integer arithmetic with an exact contract;
//! - `adapters::audio`: the conversion of raw byte runs, the entries of the
//!   devices and the device that a selector names, the negotiation of the
//!   format, the decisions of the capture loop, the state of a session, and
//!   what PulseAudio and WASAPI add;
//! - `utils`: the WAV container of a recording, the store of API keys, and
//!   operations on text;
//! - `domain`, `commands`, `adapters::services`: the records of a meeting and
//!   the rules that fill what is shown of them.
//!
//! Reading from a device, threads, locks and files are left to the program
//! that uses the library: it reports what happened and is told what to do
//! next.
//!
//! What is believed without proof are the contracts of the functions that
//! call outside code: `utils::audio_file::write_wav` and `wav_error_text`
//! (hound), `ports::transcription::json_text_member_of` (serde_json),
//! `domain::models::unix_time_now` (chrono), and, from the standard library,
//! `utils::text::string_of` and `adapters::audio::windows::to_lowercase`.

pub mod adapters;
pub mod commands;
pub mod domain;
pub mod error;
pub mod ports;
pub mod utils;
