//! What is known of the models of OpenAI.

use vstd::prelude::*;
use crate::utils::text::{contains, has_substring};

verus! {

/// The context window of an OpenAI model by its name, in tokens, and whether it
/// is the estimate for a model that is not known.
pub open spec fn openai_context_window(model_id: Seq<char>) -> (usize, bool) {
    if has_substring(model_id, "gpt-4-turbo"@) || has_substring(model_id, "gpt-4-1106"@) {
        (128000, false)
    } else if has_substring(model_id, "gpt-4-32k"@) {
        (32768, false)
    } else if has_substring(model_id, "gpt-4"@) {
        (8192, false)
    } else if has_substring(model_id, "gpt-3.5-turbo-16k"@) {
        (16384, false)
    } else if has_substring(model_id, "gpt-3.5-turbo"@) {
        (4096, false)
    } else {
        (4096, true)
    }
}

/// The service of OpenAI, by its API key.
pub struct OpenAIService {
    api_key: String,
}

impl OpenAIService {
    /// The API key that the service was made with.
    pub closed spec fn key(&self) -> Seq<char> {
        self.api_key@
    }

    /// The service with the given API key.
    pub fn new(api_key: String) -> (service: OpenAIService)
        ensures
            service.key() == api_key@,
    {
        OpenAIService { api_key }
    }

    /// The name of the provider.
    pub fn provider_name(&self) -> (name: &'static str)
        ensures
            name@ == "openai"@,
    {
        "openai"
    }

    /// Tells whether the service has an API key.
    pub fn is_configured(&self) -> (b: bool)
        ensures
            b == (self.key().len() > 0),
    {
        !self.api_key.as_str().is_empty()
    }

    /// The context window of a model, in tokens, and whether it is the
    /// estimate for a model that is not known: the first rule of
    /// `openai_context_window` whose name stands in `model_id` decides.
    pub fn get_context_window(model_id: &str) -> (r: (usize, bool))
        ensures
            r == openai_context_window(model_id@),
    {
        if contains(model_id, "gpt-4-turbo") || contains(model_id, "gpt-4-1106") {
            (128000, false)
        } else if contains(model_id, "gpt-4-32k") {
            (32768, false)
        } else if contains(model_id, "gpt-4") {
            (8192, false)
        } else if contains(model_id, "gpt-3.5-turbo-16k") {
            (16384, false)
        } else if contains(model_id, "gpt-3.5-turbo") {
            (4096, false)
        } else {
            (4096, true)
        }
    }
}

} // verus!
