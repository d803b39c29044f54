//! What the engine knows of the services that consume its recordings.

pub mod asr;
pub mod llm;
