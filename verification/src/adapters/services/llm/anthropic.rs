//! The service of Anthropic.

use vstd::prelude::*;

verus! {

/// The service of Anthropic, by its API key.
pub struct AnthropicService {
    api_key: String,
}

impl AnthropicService {
    /// The API key that the service was made with.
    pub closed spec fn key(&self) -> Seq<char> {
        self.api_key@
    }

    /// The service with the given API key.
    pub fn new(api_key: String) -> (service: AnthropicService)
        ensures
            service.key() == api_key@,
    {
        AnthropicService { api_key }
    }

    /// The name of the provider.
    pub fn provider_name(&self) -> (name: &'static str)
        ensures
            name@ == "anthropic"@,
    {
        "anthropic"
    }

    /// Tells whether the service has an API key.
    pub fn is_configured(&self) -> (b: bool)
        ensures
            b == (self.key().len() > 0),
    {
        !self.api_key.as_str().is_empty()
    }
}

} // verus!
