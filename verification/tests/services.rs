use meet_scribe::adapters::services::asr::{AssemblyAIService, DeepgramService};
use meet_scribe::adapters::services::llm::{
    AnthropicService, GoogleService, GroqService, OpenAIService,
};
use meet_scribe::ports::transcription::TranscriptionConfig;

#[test]
fn test_assemblyai_service_creation() {
    let service = AssemblyAIService::new("test_api_key".to_string());
    assert_eq!(service.provider_name(), "AssemblyAI");
    assert!(service.is_configured());
}

#[test]
fn test_assemblyai_service_not_configured() {
    let service = AssemblyAIService::new("".to_string());
    assert!(!service.is_configured());
}

#[test]
fn test_deepgram_service_creation() {
    let service = DeepgramService::new("test_api_key".to_string());
    assert_eq!(service.provider_name(), "Deepgram");
    assert!(service.is_configured());
}

#[test]
fn test_deepgram_service_not_configured() {
    let service = DeepgramService::new("".to_string());
    assert!(!service.is_configured());
}

#[test]
fn test_anthropic_service_creation() {
    let service = AnthropicService::new("test_api_key".to_string());
    assert_eq!(service.provider_name(), "anthropic");
    assert!(service.is_configured());
}

#[test]
fn test_anthropic_service_not_configured() {
    let service = AnthropicService::new("".to_string());
    assert!(!service.is_configured());
}

#[test]
fn test_google_service_creation() {
    let service = GoogleService::new("test_api_key".to_string());
    assert_eq!(service.provider_name(), "google");
    assert!(service.is_configured());
}

#[test]
fn test_google_service_not_configured() {
    let service = GoogleService::new("".to_string());
    assert!(!service.is_configured());
}

#[test]
fn google_test_context_window_estimation() {
    assert_eq!(GoogleService::get_context_window("gemini-1.5-pro", None), 2097152);
    assert_eq!(GoogleService::get_context_window("gemini-1.5-flash", None), 1048576);
    assert_eq!(GoogleService::get_context_window("gemini-pro", None), 32768);

    assert_eq!(GoogleService::get_context_window("gemini-pro", Some(100000)), 100000);
}

#[test]
fn test_groq_service_creation() {
    let service = GroqService::new("test_api_key".to_string());
    assert_eq!(service.provider_name(), "groq");
    assert!(service.is_configured());
}

#[test]
fn test_groq_service_not_configured() {
    let service = GroqService::new("".to_string());
    assert!(!service.is_configured());
}

#[test]
fn groq_test_context_window_estimation() {
    assert_eq!(GroqService::get_context_window("llama-3.1-70b-versatile", None), 131072);
    assert_eq!(GroqService::get_context_window("llama-3-70b-8192", None), 8192);
    assert_eq!(GroqService::get_context_window("mixtral-8x7b-32768", None), 32768);

    assert_eq!(GroqService::get_context_window("llama-3.1-70b-versatile", Some(131072)), 131072);
}

#[test]
fn test_openai_service_creation() {
    let service = OpenAIService::new("test_api_key".to_string());
    assert_eq!(service.provider_name(), "openai");
    assert!(service.is_configured());
}

#[test]
fn test_openai_service_not_configured() {
    let service = OpenAIService::new("".to_string());
    assert!(!service.is_configured());
}

#[test]
fn openai_test_context_window_estimation() {
    assert_eq!(OpenAIService::get_context_window("gpt-4-turbo"), (128000, false));
    assert_eq!(OpenAIService::get_context_window("gpt-4"), (8192, false));
    assert_eq!(OpenAIService::get_context_window("gpt-3.5-turbo"), (4096, false));
    assert_eq!(OpenAIService::get_context_window("gpt-5-ultra"), (4096, true));
}

#[test]
fn context_windows_go_by_the_first_rule_that_fits() {
    assert_eq!(OpenAIService::get_context_window("gpt-4-1106-preview"), (128000, false));
    assert_eq!(OpenAIService::get_context_window("gpt-4-32k-0613"), (32768, false));
    assert_eq!(OpenAIService::get_context_window("gpt-3.5-turbo-16k"), (16384, false));
    assert_eq!(OpenAIService::get_context_window("ft:gpt-4:acme"), (8192, false));
    assert_eq!(OpenAIService::get_context_window(""), (4096, true));
    assert_eq!(OpenAIService::get_context_window("gpt-"), (4096, true));
    assert_eq!(GoogleService::get_context_window("models/gemini-1.5-pro-latest", None), 2097152);
    assert_eq!(GoogleService::get_context_window("palm", None), 32768);
    assert_eq!(GoogleService::get_context_window("palm", Some(0)), 0);
    assert_eq!(GroqService::get_context_window("llama-3.1-8b-instant", None), 131072);
    assert_eq!(GroqService::get_context_window("llama-3-8b", None), 8192);
    assert_eq!(GroqService::get_context_window("gemma-7b-it", None), 8192);
    assert_eq!(GroqService::get_context_window("whisper", None), 8192);
    assert_eq!(GroqService::get_context_window("whisper", Some(u32::MAX)), u32::MAX as usize);
}

#[test]
fn streaming_support() {
    assert!(DeepgramService::new("k".to_string()).supports_streaming());
    assert!(!AssemblyAIService::new("k".to_string()).supports_streaming());
}

#[test]
fn test_transcription_config_default() {
    let config = TranscriptionConfig::default();
    assert!(config.enable_diarization);
    assert_eq!(config.language, Some("en".to_string()));
    assert!(config.num_speakers.is_none());
}

#[test]
fn transcription_config_takes_a_model() {
    let config = TranscriptionConfig::default().with_model(Some("nova-2".to_string()));
    assert_eq!(config.model, Some("nova-2".to_string()));
    assert!(config.enable_diarization);
    let config = config.with_model(None);
    assert_eq!(config.model, Some("nova-2".to_string()));
    assert!(TranscriptionConfig::default().with_model(None).model.is_none());
}

#[test]
fn settings_of_the_service_name_the_model() {
    let named = Some("{\"model\": \"nova-2-meeting\", \"language\": \"de\"}".to_string());
    let config = TranscriptionConfig::from_service_settings(&named);
    assert_eq!(config.model, Some("nova-2-meeting".to_string()));
    assert!(config.enable_diarization);
    assert_eq!(config.language, Some("en".to_string()));
    for settings in [
        None,
        Some("".to_string()),
        Some("not json".to_string()),
        Some("{\"language\": \"de\"}".to_string()),
        Some("{\"model\": 5}".to_string()),
        Some("{\"model\": null}".to_string()),
        Some("[\"model\"]".to_string()),
        Some("\"model\"".to_string()),
    ] {
        assert_eq!(TranscriptionConfig::from_service_settings(&settings).model, None);
    }
    let escaped = Some("{\"model\": \"a\\u0062\\\"c\"}".to_string());
    assert_eq!(
        TranscriptionConfig::from_service_settings(&escaped).model,
        Some("ab\"c".to_string())
    );
}
