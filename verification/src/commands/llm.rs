//! Requests and answers on language models, prompts and insights.

use vstd::prelude::*;
use vstd::string::StringExecFns;
use crate::domain::models::InsightType;
use crate::domain::prompts::{PromptTemplates, default_prompt, insight_type_at};
use crate::ports::llm::ModelInfo;
use crate::utils::text::str_equal;

verus! {

/// A request for the models of a provider.
#[derive(Debug, Clone)]
pub struct FetchModelsRequest {
    /// "openai", "anthropic", "google" or "groq".
    pub provider: String,
}

/// The models of a provider.
#[derive(Debug, Clone)]
pub struct FetchModelsResponse {
    pub models: Vec<ModelInfo>,
}

/// A request to keep the API key of a provider.
#[derive(Debug, Clone)]
pub struct SaveApiKeyRequest {
    pub provider: String,
    pub api_key: String,
}

/// The insights that were generated.
#[derive(Debug, Clone)]
pub struct GenerateInsightsResponse {
    pub insights: Vec<InsightResponse>,
}

/// One generated insight.
#[derive(Debug, Clone)]
pub struct InsightResponse {
    pub insight_type: InsightType,
    pub content: String,
}

/// A request for the default prompt of one insight type, or of all.
#[derive(Debug, Clone)]
pub struct GetDefaultPromptsRequest {
    pub insight_type: Option<InsightType>,
}

/// The default prompts asked for.
#[derive(Debug, Clone)]
pub struct GetDefaultPromptsResponse {
    pub prompts: Vec<PromptInfo>,
}

/// The prompt of one insight type.
#[derive(Debug, Clone)]
pub struct PromptInfo {
    pub insight_type: InsightType,
    pub prompt: String,
}

/// The stored insights of a meeting.
#[derive(Debug, Clone)]
pub struct MeetingInsightsResponse {
    pub insights: Vec<StoredInsight>,
}

/// One stored insight.
#[derive(Debug, Clone)]
pub struct StoredInsight {
    pub id: i64,
    pub meeting_id: i64,
    pub insight_type: InsightType,
    pub content: String,
    pub created_at: i64,
}

/// The default prompts for a request: that of the insight type asked for,
/// or, where none is named, those of all four types in their usual order.
pub fn get_default_prompts(request: &GetDefaultPromptsRequest) -> (response: GetDefaultPromptsResponse)
    ensures
        match request.insight_type {
            Some(t) => response.prompts.len() == 1 && response.prompts[0].insight_type == t
                && response.prompts[0].prompt@ == default_prompt(t)@,
            None => response.prompts.len() == 4 && forall|i: int|
                0 <= i < 4 ==> (#[trigger] response.prompts[i]).insight_type == insight_type_at(i)
                    && response.prompts[i].prompt@ == default_prompt(insight_type_at(i))@,
        },
{
    let mut prompts: Vec<PromptInfo> = Vec::new();
    match request.insight_type {
        Some(t) => {
            prompts.push(PromptInfo { insight_type: t, prompt: PromptTemplates::for_type(&t).to_owned() });
        },
        None => {
            let all = PromptTemplates::all();
            let mut i: usize = 0;
            while i < 4
                invariant
                    i <= 4,
                    all.len() == 4,
                    forall|j: int|
                        0 <= j < 4 ==> (#[trigger] all[j]).0 == insight_type_at(j) && all[j].1
                            == default_prompt(insight_type_at(j)),
                    prompts.len() == i,
                    forall|j: int|
                        0 <= j < i ==> (#[trigger] prompts[j]).insight_type == insight_type_at(j)
                            && prompts[j].prompt@ == default_prompt(insight_type_at(j))@,
                decreases 4 - i,
            {
                prompts.push(PromptInfo { insight_type: all[i].0, prompt: all[i].1.to_owned() });
                i = i + 1;
            }
        },
    }
    GetDefaultPromptsResponse { prompts }
}

/// The providers of language models that are supported: "openai",
/// "anthropic", "google", "groq".
pub fn list_llm_providers() -> (providers: Vec<String>)
    ensures
        providers.len() == 4,
        providers[0]@ == "openai"@,
        providers[1]@ == "anthropic"@,
        providers[2]@ == "google"@,
        providers[3]@ == "groq"@,
{
    let mut providers: Vec<String> = Vec::new();
    providers.push("openai".to_owned());
    providers.push("anthropic".to_owned());
    providers.push("google".to_owned());
    providers.push("groq".to_owned());
    providers
}

/// A provider of language models.
#[derive(Debug, Clone, Copy, PartialEq, Eq, Structural)]
pub enum LlmProvider {
    OpenAi,
    Anthropic,
    Google,
    Groq,
}

impl LlmProvider {
    /// The name of the provider.
    pub open spec fn name(self) -> Seq<char> {
        match self {
            LlmProvider::OpenAi => "openai"@,
            LlmProvider::Anthropic => "anthropic"@,
            LlmProvider::Google => "google"@,
            LlmProvider::Groq => "groq"@,
        }
    }

    /// The provider with the given name, if there is one.
    pub fn parse(name: &str) -> (p: Option<LlmProvider>)
        ensures
            match p {
                Some(provider) => name@ == provider.name(),
                None => name@ != "openai"@ && name@ != "anthropic"@ && name@ != "google"@ && name@
                    != "groq"@,
            },
    {
        if str_equal(name, "openai") {
            Some(LlmProvider::OpenAi)
        } else if str_equal(name, "anthropic") {
            Some(LlmProvider::Anthropic)
        } else if str_equal(name, "google") {
            Some(LlmProvider::Google)
        } else if str_equal(name, "groq") {
            Some(LlmProvider::Groq)
        } else {
            None
        }
    }
}

/// One piece of a transcript with what is known of who said it.
#[derive(Debug, Clone)]
pub struct TranscriptLine {
    pub participant_name: Option<String>,
    pub speaker_label: Option<String>,
    pub text: String,
}

/// A piece of a transcript as it is handed to a language model: the text,
/// after the name of the participant in square brackets where it is known,
/// else after the speaker label, else alone.
pub open spec fn line_text(line: TranscriptLine) -> Seq<char> {
    match line.participant_name {
        Some(name) => "["@ + name@ + "]: "@ + line.text@,
        None => match line.speaker_label {
            Some(label) => "["@ + label@ + "]: "@ + line.text@,
            None => line.text@,
        },
    }
}

/// The pieces of a transcript, one to a line.
pub open spec fn transcript_text(lines: Seq<TranscriptLine>) -> Seq<char>
    decreases lines.len(),
{
    if lines.len() == 0 {
        Seq::empty()
    } else if lines.len() == 1 {
        line_text(lines[0])
    } else {
        transcript_text(lines.drop_last()) + "\n"@ + line_text(lines.last())
    }
}

/// A piece of a transcript as it is handed to a language model.
pub fn transcript_line(line: &TranscriptLine) -> (text: String)
    ensures
        text@ == line_text(*line),
{
    match &line.participant_name {
        Some(name) => "[".to_owned().concat(name.as_str()).concat("]: ").concat(
            line.text.as_str(),
        ),
        None => match &line.speaker_label {
            Some(label) => "[".to_owned().concat(label.as_str()).concat("]: ").concat(
                line.text.as_str(),
            ),
            None => line.text.clone(),
        },
    }
}

/// The whole transcript as it is handed to a language model: its pieces,
/// one to a line.
pub fn full_transcript(lines: &Vec<TranscriptLine>) -> (text: String)
    ensures
        text@ == transcript_text(lines@),
{
    let mut text = String::new();
    let mut i: usize = 0;
    proof {
        assert(lines@.take(0).len() == 0);
    }
    while i < lines.len()
        invariant
            i <= lines.len(),
            text@ == transcript_text(lines@.take(i as int)),
        decreases lines.len() - i,
    {
        let ghost done = lines@.take(i as int);
        proof {
            let next = lines@.take(i + 1);
            assert(next.drop_last() =~= done);
            assert(next.last() == lines@[i as int]);
            if i == 0 {
                assert(next[0] == lines@[0]);
                assert(Seq::<char>::empty() + line_text(lines@[0]) =~= line_text(lines@[0]));
            }
        }
        if i > 0 {
            text = text.concat("\n");
        }
        text = text.concat(transcript_line(&lines[i]).as_str());
        i = i + 1;
    }
    proof {
        assert(lines@.take(lines.len() as int) =~= lines@);
    }
    text
}

} // verus!
