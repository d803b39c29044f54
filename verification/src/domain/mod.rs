//! The records of a meeting and the default prompts for its insights.

pub mod models;
pub mod prompts;

pub use models::{
    Confidence, Insight, InsightType, Meeting, ModelOverride, Participant, Platform,
    ServiceConfig, ServiceType, Transcript,
};
pub use prompts::PromptTemplates;
