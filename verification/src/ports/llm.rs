//! What is asked of a language-model service, and what it reports of its
//! models.

use vstd::prelude::*;
use crate::domain::models::InsightType;

verus! {

/// A request for insights from a transcript.
#[derive(Debug, Clone)]
pub struct InsightRequest {
    /// The full text of the transcript.
    pub transcript: String,
    /// What is known of the meeting: title, participants and the like.
    pub context: Option<String>,
    /// The kinds of insight asked for.
    pub insight_types: Vec<InsightType>,
}

/// A model that a provider offers.
#[derive(Debug, Clone)]
pub struct ModelInfo {
    pub id: String,
    pub name: String,
    pub provider: String,
    pub context_window: usize,
    /// `Some(true)` where the context window is an estimate.
    pub is_fallback_context_window: Option<bool>,
}

} // verus!
