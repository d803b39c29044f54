use meet_scribe::commands::config::{get_api_key_status, mask_api_key, service_config_response};
use meet_scribe::commands::llm::{get_default_prompts, list_llm_providers, GetDefaultPromptsRequest};
use meet_scribe::commands::meeting::{get_audio_capture_status, get_meeting_status};
use meet_scribe::domain::models::{
    Insight, InsightType, Meeting, ModelOverride, Participant, Platform, ServiceConfig,
    ServiceType,
};
use meet_scribe::domain::prompts::PromptTemplates;
use meet_scribe::ports::audio::AudioFormat;

#[test]
fn platform_names() {
    assert_eq!(Platform::Teams.to_string(), "teams");
    assert_eq!(Platform::Zoom.to_string(), "zoom");
    assert_eq!(Platform::Meet.as_str(), "meet");
    assert_eq!(Platform::parse("teams"), Some(Platform::Teams));
    assert_eq!(Platform::parse("zoom"), Some(Platform::Zoom));
    assert_eq!(Platform::parse("meet"), Some(Platform::Meet));
    assert_eq!(Platform::parse("Meet"), None);
    assert_eq!(Platform::parse(""), None);
    assert_eq!(Platform::parse("webex"), None);
}

#[test]
fn insight_and_service_names() {
    assert_eq!(InsightType::Summary.to_string(), "summary");
    assert_eq!(InsightType::ActionItem.to_string(), "action_item");
    assert_eq!(InsightType::KeyPoint.to_string(), "key_point");
    assert_eq!(InsightType::Decision.as_str(), "decision");
    assert_eq!(InsightType::parse("summary"), Some(InsightType::Summary));
    assert_eq!(InsightType::parse("action_item"), Some(InsightType::ActionItem));
    assert_eq!(InsightType::parse("key_point"), Some(InsightType::KeyPoint));
    assert_eq!(InsightType::parse("decision"), Some(InsightType::Decision));
    assert_eq!(InsightType::parse("action item"), None);
    assert_eq!(ServiceType::Asr.to_string(), "asr");
    assert_eq!(ServiceType::Llm.to_string(), "llm");
    assert_eq!(ServiceType::parse("asr"), Some(ServiceType::Asr));
    assert_eq!(ServiceType::parse("llm"), Some(ServiceType::Llm));
    assert_eq!(ServiceType::parse("tts"), None);
}

#[test]
fn meeting_starts_and_ends() {
    let mut meeting = Meeting::started_at(Platform::Zoom, Some("Weekly".to_string()), 1000);
    assert_eq!(meeting.id, None);
    assert_eq!(meeting.platform, Platform::Zoom);
    assert_eq!(meeting.title, Some("Weekly".to_string()));
    assert_eq!((meeting.start_time, meeting.created_at), (1000, 1000));
    assert_eq!(meeting.end_time, None);
    assert_eq!(meeting.participant_count, None);
    assert_eq!(meeting.audio_file_path, None);
    assert_eq!(meeting.duration_seconds(1060), Some(60));
    meeting.end_at(4600);
    assert_eq!(meeting.end_time, Some(4600));
    assert_eq!(meeting.title, Some("Weekly".to_string()));
    assert_eq!(meeting.duration_seconds(9999), Some(3600));
    let early = Meeting::started_at(Platform::Meet, None, i64::MIN);
    assert_eq!(early.duration_seconds(1), None);
    assert_eq!(early.duration_seconds(-1), Some(i64::MAX));
}

#[test]
fn meeting_by_the_clock() {
    let mut meeting = Meeting::new(Platform::Teams, None);
    assert_eq!(meeting.start_time, meeting.created_at);
    assert!(meeting.start_time > 1_600_000_000);
    assert!(meeting.end_time.is_none());
    meeting.end();
    assert!(meeting.end_time.unwrap() >= meeting.start_time);
    assert_eq!(meeting.platform, Platform::Teams);
}

#[test]
fn participant_insight_and_config_records() {
    let p = Participant::new(7, "Ada".to_string(), Some("ada@example.org".to_string()));
    assert_eq!((p.id, p.meeting_id), (None, 7));
    assert_eq!(p.name, "Ada");
    assert_eq!(p.email, Some("ada@example.org".to_string()));
    assert_eq!(p.speaker_label, None);

    let i = Insight::created_at(7, InsightType::Decision, "Ship it".to_string(), 55);
    assert_eq!((i.id, i.meeting_id, i.created_at), (None, 7, 55));
    assert_eq!(i.insight_type, InsightType::Decision);
    assert_eq!(i.content, "Ship it");
    assert_eq!(i.metadata, None);
    let i = Insight::new(8, InsightType::Summary, "s".to_string());
    assert!(i.created_at > 1_600_000_000);

    let c = ServiceConfig::created_at(ServiceType::Asr, "deepgram".to_string(), 9);
    assert!(!c.is_active);
    assert_eq!((c.created_at, c.updated_at), (9, 9));
    let c = c.with_active(true).with_settings(Some("{\"model\":\"nova-2\"}".to_string()));
    assert!(c.is_active);
    assert_eq!(c.settings, Some("{\"model\":\"nova-2\"}".to_string()));
    assert_eq!(c.provider, "deepgram");
    assert_eq!(c.service_type, ServiceType::Asr);
    let c = c.with_active(false).with_settings(None);
    assert!(!c.is_active);
    assert_eq!(c.settings, None);
    let c = ServiceConfig::new(ServiceType::Llm, "openai".to_string());
    assert_eq!(c.created_at, c.updated_at);
    assert_eq!(c.id, None);

    let m = ModelOverride::created_at("openai".to_string(), "gpt-4".to_string(), 3);
    assert_eq!((m.context_window, m.notes.clone()), (None, None));
    let m = m.with_context_window(128000).with_notes("long".to_string());
    assert_eq!(m.context_window, Some(128000));
    assert_eq!(m.notes, Some("long".to_string()));
    assert_eq!((m.provider.as_str(), m.model_id.as_str()), ("openai", "gpt-4"));
    assert_eq!((m.created_at, m.updated_at), (3, 3));
    let m = ModelOverride::new("groq".to_string(), "x".to_string());
    assert_eq!(m.created_at, m.updated_at);
}

#[test]
fn api_keys_are_masked() {
    assert_eq!(mask_api_key("sk-1234567890"), "...7890");
    assert_eq!(mask_api_key("12345"), "...2345");
    assert_eq!(mask_api_key("1234"), "...");
    assert_eq!(mask_api_key(""), "...");
    assert_eq!(mask_api_key("clé-äöü€"), "...äöü€");
    let status = get_api_key_status(Some("sk-abcdef"));
    assert!(status.has_key);
    assert_eq!(status.masked_key, Some("...cdef".to_string()));
    let status = get_api_key_status(None);
    assert!(!status.has_key);
    assert_eq!(status.masked_key, None);
}

#[test]
fn service_config_is_shown_with_its_key_state() {
    let mut config = ServiceConfig::created_at(ServiceType::Llm, "openai".to_string(), 1)
        .with_active(true)
        .with_settings(Some("{}".to_string()));
    config.id = Some(4);
    let shown = service_config_response(config, true);
    assert_eq!(shown.id, Some(4));
    assert_eq!(shown.service_type, "llm");
    assert_eq!(shown.provider, "openai");
    assert!(shown.is_active);
    assert_eq!(shown.settings, Some("{}".to_string()));
    assert!(shown.has_api_key);
}

#[test]
fn default_prompts_for_a_request() {
    let one = get_default_prompts(&GetDefaultPromptsRequest { insight_type: Some(InsightType::KeyPoint) });
    assert_eq!(one.prompts.len(), 1);
    assert_eq!(one.prompts[0].insight_type, InsightType::KeyPoint);
    assert_eq!(one.prompts[0].prompt, PromptTemplates::key_points());
    let all = get_default_prompts(&GetDefaultPromptsRequest { insight_type: None });
    assert_eq!(all.prompts.len(), 4);
    assert_eq!(all.prompts[0].insight_type, InsightType::Summary);
    assert_eq!(all.prompts[0].prompt, PromptTemplates::summary());
    assert_eq!(all.prompts[3].insight_type, InsightType::Decision);
    assert_eq!(all.prompts[3].prompt, PromptTemplates::decisions());
    assert_eq!(list_llm_providers(), vec!["openai", "anthropic", "google", "groq"]);
}

#[test]
fn capture_status_names_the_device_only_while_capturing() {
    let format = AudioFormat { sample_rate: 48000, channels: 2, bits_per_sample: 32 };
    let status = get_audio_capture_status(true, format);
    assert!(status.is_capturing);
    assert_eq!(status.device, Some("System Audio".to_string()));
    assert_eq!(
        (status.format.sample_rate, status.format.channels, status.format.bits_per_sample),
        (48000, 2, 32)
    );
    let status = get_audio_capture_status(false, format);
    assert!(!status.is_capturing);
    assert_eq!(status.device, None);
    let idle = get_meeting_status(None, true, 5);
    assert!(!idle.is_recording);
    assert!(idle.meeting_id.is_none() && idle.platform.is_none() && idle.title.is_none());
    assert!(idle.start_time.is_none() && idle.duration_seconds.is_none());
}

#[test]
fn meeting_status_of_a_running_and_of_an_ended_meeting() {
    let mut meeting = Meeting::started_at(Platform::Teams, Some("Standup".to_string()), 100);
    let status = get_meeting_status(Some((12, meeting.clone())), true, 160);
    assert_eq!(status.meeting_id, Some(12));
    assert!(status.is_recording);
    assert_eq!(status.platform, Some("teams".to_string()));
    assert_eq!(status.title, Some("Standup".to_string()));
    assert_eq!(status.start_time, Some(100));
    assert_eq!(status.duration_seconds, Some(60));
    meeting.end_at(130);
    let status = get_meeting_status(Some((12, meeting)), false, 999);
    assert!(!status.is_recording);
    assert_eq!(status.duration_seconds, Some(30));
    let early = Meeting::started_at(Platform::Zoom, None, i64::MIN);
    assert_eq!(get_meeting_status(Some((1, early)), false, 0).duration_seconds, None);
}
