//! What is known of the speech recognition of Deepgram.

use vstd::prelude::*;

verus! {

/// A speech-to-text model of Deepgram.
#[derive(Debug, Clone)]
pub struct DeepgramModel {
    pub name: String,
    pub canonical_name: String,
    pub architecture: String,
    pub languages: Vec<String>,
    pub version: String,
    pub uuid: String,
    pub batch: bool,
    pub streaming: bool,
    pub formatted_output: bool,
}

/// The service of Deepgram, by its API key.
pub struct DeepgramService {
    api_key: String,
}

impl DeepgramService {
    /// The API key that the service was made with.
    pub closed spec fn key(&self) -> Seq<char> {
        self.api_key@
    }

    /// The service with the given API key.
    pub fn new(api_key: String) -> (service: DeepgramService)
        ensures
            service.key() == api_key@,
    {
        DeepgramService { api_key }
    }

    /// The name of the provider.
    pub fn provider_name(&self) -> (name: &'static str)
        ensures
            name@ == "Deepgram"@,
    {
        "Deepgram"
    }

    /// Tells whether the service has an API key.
    pub fn is_configured(&self) -> (b: bool)
        ensures
            b == (self.key().len() > 0),
    {
        !self.api_key.as_str().is_empty()
    }

    /// Tells whether the service can transcribe a live stream.
    pub fn supports_streaming(&self) -> (b: bool)
        ensures
            b,
    {
        true
    }
}

} // verus!
