//! What is asked of a speech-recognition service.

use vstd::prelude::*;

verus! {

/// The text of the member `member` of the JSON object that `json` holds;
/// `None` where `json` is no JSON text, holds no object, the object has no
/// such member, or the member is no string.
pub uninterp spec fn json_text_member(json: Seq<char>, member: Seq<char>) -> Option<Seq<char>>;

/// Reads `json` with `serde_json::from_str` as a `Value`, looks the member
/// up with `Value::get` and takes its text with `Value::as_str`. The outcome
/// depends on the two texts alone.
#[verifier::external_body]
fn json_text_member_of(json: &str, member: &str) -> (text: Option<String>)
    ensures
        match text {
            Some(found) => json_text_member(json@, member@) == Some(found@),
            None => json_text_member(json@, member@) is None,
        },
{
    let parsed: serde_json::Value = serde_json::from_str(json).ok()?;
    Some(parsed.get(member)?.as_str()?.to_string())
}

/// How a recording is to be transcribed.
#[derive(Debug, Clone)]
pub struct TranscriptionConfig {
    /// Whether the speakers are to be told apart.
    pub enable_diarization: bool,
    /// The number of speakers, where it is known.
    pub num_speakers: Option<u32>,
    /// The language code, such as "en".
    pub language: Option<String>,
    /// The model of the provider.
    pub model: Option<String>,
    /// Settings of the provider, as JSON text.
    pub additional_settings: Option<String>,
}

impl Default for TranscriptionConfig {
    /// Speakers told apart, English, the provider's own model.
    fn default() -> (config: TranscriptionConfig)
        ensures
            config.enable_diarization,
            config.num_speakers is None,
            config.language is Some && config.language->0@ == "en"@,
            config.model is None,
            config.additional_settings is None,
    {
        TranscriptionConfig {
            enable_diarization: true,
            num_speakers: None,
            language: Some("en".to_owned()),
            model: None,
            additional_settings: None,
        }
    }
}

/// The model that the settings of a service name: the text of the member
/// `model` of the settings, which are JSON text.
pub open spec fn model_in(settings: Option<String>) -> Option<Seq<char>> {
    match settings {
        Some(text) => json_text_member(text@, "model"@),
        None => None,
    }
}

impl TranscriptionConfig {
    /// The configuration to use where the caller gives none: the default,
    /// with the model that the settings of the active service name, if they
    /// name one.
    pub fn from_service_settings(settings: &Option<String>) -> (config: TranscriptionConfig)
        ensures
            config.enable_diarization,
            config.num_speakers is None,
            config.language is Some && config.language->0@ == "en"@,
            config.additional_settings is None,
            match model_in(*settings) {
                Some(name) => config.model is Some && config.model->0@ == name,
                None => config.model is None,
            },
    {
        let model = match settings {
            Some(text) => json_text_member_of(text.as_str(), "model"),
            None => None,
        };
        TranscriptionConfig::default().with_model(model)
    }

    /// The configuration with its model replaced by `model`, where one is
    /// given, and unchanged otherwise.
    pub fn with_model(self, model: Option<String>) -> (config: TranscriptionConfig)
        ensures
            config == (match model {
                Some(name) => TranscriptionConfig { model: Some(name), ..self },
                None => self,
            }),
    {
        match model {
            Some(name) => {
                let mut config = self;
                config.model = Some(name);
                config
            },
            None => self,
        }
    }
}

} // verus!
