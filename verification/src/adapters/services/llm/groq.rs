//! What is known of the models of Groq.

use vstd::prelude::*;
use crate::utils::text::{contains, has_substring};

verus! {

/// The context window of a Groq model by its name, in tokens.
pub open spec fn groq_context_window(model_id: Seq<char>) -> usize {
    if has_substring(model_id, "llama-3.1-70b"@) || has_substring(model_id, "llama-3.1-8b"@) {
        131072
    } else if has_substring(model_id, "llama-3-70b"@) || has_substring(model_id, "llama-3-8b"@) {
        8192
    } else if has_substring(model_id, "mixtral-8x7b"@) {
        32768
    } else if has_substring(model_id, "gemma-7b"@) {
        8192
    } else {
        8192
    }
}

/// The service of Groq, by its API key.
pub struct GroqService {
    api_key: String,
}

impl GroqService {
    /// The API key that the service was made with.
    pub closed spec fn key(&self) -> Seq<char> {
        self.api_key@
    }

    /// The service with the given API key.
    pub fn new(api_key: String) -> (service: GroqService)
        ensures
            service.key() == api_key@,
    {
        GroqService { api_key }
    }

    /// The name of the provider.
    pub fn provider_name(&self) -> (name: &'static str)
        ensures
            name@ == "groq"@,
    {
        "groq"
    }

    /// Tells whether the service has an API key.
    pub fn is_configured(&self) -> (b: bool)
        ensures
            b == (self.key().len() > 0),
    {
        !self.api_key.as_str().is_empty()
    }

    /// The context window of a model, in tokens: what the provider reports
    /// where it reports a context window, otherwise what `groq_context_window`
    /// gives for the name.
    pub fn get_context_window(model_id: &str, api_context_window: Option<u32>) -> (window: usize)
        ensures
            window == match api_context_window {
                Some(reported) => reported as usize,
                None => groq_context_window(model_id@),
            },
    {
        match api_context_window {
            Some(reported) => reported as usize,
            None => {
                if contains(model_id, "llama-3.1-70b") || contains(model_id, "llama-3.1-8b") {
                    131072
                } else if contains(model_id, "llama-3-70b") || contains(model_id, "llama-3-8b") {
                    8192
                } else if contains(model_id, "mixtral-8x7b") {
                    32768
                } else if contains(model_id, "gemma-7b") {
                    8192
                } else {
                    8192
                }
            },
        }
    }
}

} // verus!
