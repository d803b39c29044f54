//! What is known of the speech recognition of AssemblyAI.

use vstd::prelude::*;

verus! {

/// The service of AssemblyAI, by its API key.
pub struct AssemblyAIService {
    api_key: String,
}

impl AssemblyAIService {
    /// The API key that the service was made with.
    pub closed spec fn key(&self) -> Seq<char> {
        self.api_key@
    }

    /// The service with the given API key.
    pub fn new(api_key: String) -> (service: AssemblyAIService)
        ensures
            service.key() == api_key@,
    {
        AssemblyAIService { api_key }
    }

    /// The name of the provider.
    pub fn provider_name(&self) -> (name: &'static str)
        ensures
            name@ == "AssemblyAI"@,
    {
        "AssemblyAI"
    }

    /// Tells whether the service has an API key.
    pub fn is_configured(&self) -> (b: bool)
        ensures
            b == (self.key().len() > 0),
    {
        !self.api_key.as_str().is_empty()
    }

    /// Tells whether the service can transcribe a live stream.
    pub fn supports_streaming(&self) -> (b: bool)
        ensures
            !b,
    {
        false
    }
}

} // verus!
