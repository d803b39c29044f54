//! Helpers shared by the engine and the records around it.

pub mod audio_file;
pub mod keychain;
pub mod text;
