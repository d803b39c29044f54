//! The values that cross the command surface, and the rules that fill them.

pub mod config;
pub mod llm;
pub mod meeting;
pub mod participant;
pub mod streaming;
