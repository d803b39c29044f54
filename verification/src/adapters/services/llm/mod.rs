//! Language-model services: Anthropic, Google, Groq and OpenAI.

pub mod anthropic;
pub mod google;
pub mod groq;
pub mod openai;

pub use anthropic::AnthropicService;
pub use google::GoogleService;
pub use groq::GroqService;
pub use openai::OpenAIService;
