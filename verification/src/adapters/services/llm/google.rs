//! What is known of the models of Google.

use vstd::prelude::*;
use crate::utils::text::{contains, has_substring};

verus! {

/// The context window of a Google model by its name, in tokens.
pub open spec fn google_context_window(model_id: Seq<char>) -> usize {
    if has_substring(model_id, "gemini-1.5-pro"@) {
        2097152
    } else if has_substring(model_id, "gemini-1.5-flash"@) {
        1048576
    } else if has_substring(model_id, "gemini-pro"@) {
        32768
    } else {
        32768
    }
}

/// The service of Google, by its API key.
pub struct GoogleService {
    api_key: String,
}

impl GoogleService {
    /// The API key that the service was made with.
    pub closed spec fn key(&self) -> Seq<char> {
        self.api_key@
    }

    /// The service with the given API key.
    pub fn new(api_key: String) -> (service: GoogleService)
        ensures
            service.key() == api_key@,
    {
        GoogleService { api_key }
    }

    /// The name of the provider.
    pub fn provider_name(&self) -> (name: &'static str)
        ensures
            name@ == "google"@,
    {
        "google"
    }

    /// Tells whether the service has an API key.
    pub fn is_configured(&self) -> (b: bool)
        ensures
            b == (self.key().len() > 0),
    {
        !self.api_key.as_str().is_empty()
    }

    /// The context window of a model, in tokens: what the provider reports
    /// where it reports an input limit, otherwise what `google_context_window`
    /// gives for the name.
    pub fn get_context_window(model_id: &str, input_limit: Option<u32>) -> (window: usize)
        ensures
            window == match input_limit {
                Some(reported) => reported as usize,
                None => google_context_window(model_id@),
            },
    {
        match input_limit {
            Some(reported) => reported as usize,
            None => {
                if contains(model_id, "gemini-1.5-pro") {
                    2097152
                } else if contains(model_id, "gemini-1.5-flash") {
                    1048576
                } else if contains(model_id, "gemini-pro") {
                    32768
                } else {
                    32768
                }
            },
        }
    }
}

} // verus!
