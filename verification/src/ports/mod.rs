//! Interfaces between the capture engine and the code around it.

pub mod audio;
pub mod llm;
pub mod sample;
pub mod transcription;

pub use audio::{AudioBuffer, AudioFormat, SampleEncoding};
pub use llm::{InsightRequest, ModelInfo};
pub use sample::Sample;
pub use transcription::TranscriptionConfig;
