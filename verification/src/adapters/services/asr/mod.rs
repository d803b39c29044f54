//! Speech-recognition services: AssemblyAI and Deepgram.

pub mod assemblyai;
pub mod deepgram;
pub mod provider;

pub use assemblyai::AssemblyAIService;
pub use deepgram::DeepgramService;
pub use provider::{get_active_asr_service, AsrProvider};
