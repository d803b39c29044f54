//! The records of a meeting: the meeting itself, who took part, what was
//! drawn from it, and how the services around it are configured.

use vstd::prelude::*;
use crate::utils::text::str_equal;

verus! {

/// Seconds since the Unix epoch by the system clock: calls
/// `chrono::Utc::now` and `DateTime::timestamp`. The value depends on the
/// clock, so nothing is promised of it.
#[verifier::external_body]
fn unix_time_now() -> i64 {
    chrono::Utc::now().timestamp()
}

/// A conferencing platform.
#[derive(Debug, Clone, Copy, PartialEq, Eq, Structural)]
pub enum Platform {
    Teams,
    Zoom,
    Meet,
}

impl Platform {
    /// The lower-case name of the platform.
    pub open spec fn name(self) -> Seq<char> {
        match self {
            Platform::Teams => "teams"@,
            Platform::Zoom => "zoom"@,
            Platform::Meet => "meet"@,
        }
    }

    /// The lower-case name of the platform.
    pub fn as_str(&self) -> (s: &'static str)
        ensures
            s@ == self.name(),
    {
        match self {
            Platform::Teams => "teams",
            Platform::Zoom => "zoom",
            Platform::Meet => "meet",
        }
    }

    /// The lower-case name of the platform, as an owned string.
    pub fn to_string(&self) -> (s: String)
        ensures
            s@ == self.name(),
    {
        self.as_str().to_owned()
    }

    /// The platform with the given lower-case name, if there is one.
    pub fn parse(name: &str) -> (p: Option<Platform>)
        ensures
            match p {
                Some(platform) => name@ == platform.name(),
                None => name@ != "teams"@ && name@ != "zoom"@ && name@ != "meet"@,
            },
    {
        if str_equal(name, "teams") {
            Some(Platform::Teams)
        } else if str_equal(name, "zoom") {
            Some(Platform::Zoom)
        } else if str_equal(name, "meet") {
            Some(Platform::Meet)
        } else {
            None
        }
    }
}

/// A meeting session.
#[derive(Debug, Clone)]
pub struct Meeting {
    pub id: Option<i64>,
    pub platform: Platform,
    pub title: Option<String>,
    /// Unix timestamp of the start.
    pub start_time: i64,
    pub end_time: Option<i64>,
    pub participant_count: Option<i32>,
    /// Where the recorded audio lies, once it has been written.
    pub audio_file_path: Option<String>,
    pub created_at: i64,
}

impl Meeting {
    /// A meeting that starts at `now` and has not been stored yet.
    pub fn started_at(platform: Platform, title: Option<String>, now: i64) -> (m: Meeting)
        ensures
            m == (Meeting {
                id: None,
                platform,
                title,
                start_time: now,
                end_time: None,
                participant_count: None,
                audio_file_path: None,
                created_at: now,
            }),
    {
        Meeting {
            id: None,
            platform,
            title,
            start_time: now,
            end_time: None,
            participant_count: None,
            audio_file_path: None,
            created_at: now,
        }
    }

    /// A meeting that starts now, by the system clock.
    pub fn new(platform: Platform, title: Option<String>) -> (m: Meeting)
        ensures
            m.id is None,
            m.platform == platform,
            m.title == title,
            m.start_time == m.created_at,
            m.end_time is None,
            m.participant_count is None,
            m.audio_file_path is None,
    {
        let now = unix_time_now();
        Meeting::started_at(platform, title, now)
    }

    /// Marks the meeting as ended at `now`.
    pub fn end_at(&mut self, now: i64)
        ensures
            *final(self) == (Meeting { end_time: Some(now), ..*old(self) }),
    {
        self.end_time = Some(now);
    }

    /// Marks the meeting as ended now, by the system clock.
    pub fn end(&mut self)
        ensures
            final(self).end_time is Some,
            *final(self) == (Meeting { end_time: final(self).end_time, ..*old(self) }),
    {
        let now = unix_time_now();
        self.end_at(now);
    }

    /// How long the meeting has lasted at `now`, in seconds: up to its end if
    /// it has ended, up to `now` otherwise. `None` where the difference does
    /// not fit in 64 bits.
    pub fn duration_seconds(&self, now: i64) -> (d: Option<i64>)
        ensures
            ({
                let until: int = match self.end_time {
                    Some(end) => end as int,
                    None => now as int,
                };
                match d {
                    Some(seconds) => seconds == until - self.start_time,
                    None => until - self.start_time < i64::MIN || until - self.start_time
                        > i64::MAX,
                }
            }),
    {
        let until = match self.end_time {
            Some(end) => end,
            None => now,
        };
        until.checked_sub(self.start_time)
    }
}

/// Someone who took part in a meeting.
#[derive(Debug, Clone)]
pub struct Participant {
    pub id: Option<i64>,
    pub meeting_id: i64,
    pub name: String,
    pub email: Option<String>,
    /// The label that speaker separation gave, such as "Speaker 1".
    pub speaker_label: Option<String>,
}

impl Participant {
    /// A participant that has not been stored yet and has no speaker label.
    pub fn new(meeting_id: i64, name: String, email: Option<String>) -> (p: Participant)
        ensures
            p == (Participant { id: None, meeting_id, name, email, speaker_label: None }),
    {
        Participant { id: None, meeting_id, name, email, speaker_label: None }
    }
}

/// How sure the recogniser is of a piece of text: a number from 0.0 to 1.0,
/// held as the bit pattern of an IEEE-754 binary32 number.
#[derive(Debug, Clone, Copy, PartialEq, Eq, Structural)]
pub struct Confidence {
    pub bits: u32,
}

/// A piece of the transcript of a meeting.
#[derive(Debug, Clone)]
pub struct Transcript {
    pub id: Option<i64>,
    pub meeting_id: i64,
    pub participant_id: Option<i64>,
    /// The label that speaker separation gave, such as "Speaker 1".
    pub speaker_label: Option<String>,
    /// Milliseconds into the meeting.
    pub timestamp_ms: i64,
    pub text: String,
    pub confidence: Option<Confidence>,
    pub created_at: i64,
}

impl Transcript {
    /// A piece of transcript created at `now`, with the speaker label given,
    /// that has not been stored yet and is linked to no participant.
    pub fn created_at(
        meeting_id: i64,
        timestamp_ms: i64,
        text: String,
        confidence: Option<Confidence>,
        speaker_label: Option<String>,
        now: i64,
    ) -> (t: Transcript)
        ensures
            t == (Transcript {
                id: None,
                meeting_id,
                participant_id: None,
                speaker_label,
                timestamp_ms,
                text,
                confidence,
                created_at: now,
            }),
    {
        Transcript {
            id: None,
            meeting_id,
            participant_id: None,
            speaker_label,
            timestamp_ms,
            text,
            confidence,
            created_at: now,
        }
    }

    /// A piece of transcript without a speaker label, created now, by the
    /// system clock.
    pub fn new(meeting_id: i64, timestamp_ms: i64, text: String, confidence: Option<Confidence>) -> (t:
        Transcript)
        ensures
            t == (Transcript {
                id: None,
                meeting_id,
                participant_id: None,
                speaker_label: None,
                timestamp_ms,
                text,
                confidence,
                created_at: t.created_at,
            }),
    {
        let now = unix_time_now();
        Transcript::created_at(meeting_id, timestamp_ms, text, confidence, None, now)
    }

    /// A piece of transcript with a speaker label, created now, by the
    /// system clock.
    pub fn with_speaker(
        meeting_id: i64,
        timestamp_ms: i64,
        text: String,
        confidence: Option<Confidence>,
        speaker_label: Option<String>,
    ) -> (t: Transcript)
        ensures
            t == (Transcript {
                id: None,
                meeting_id,
                participant_id: None,
                speaker_label,
                timestamp_ms,
                text,
                confidence,
                created_at: t.created_at,
            }),
    {
        let now = unix_time_now();
        Transcript::created_at(meeting_id, timestamp_ms, text, confidence, speaker_label, now)
    }
}

/// The kind of an insight drawn from a meeting.
#[derive(Debug, Clone, Copy, PartialEq, Eq, Structural)]
pub enum InsightType {
    Summary,
    ActionItem,
    KeyPoint,
    Decision,
}

impl InsightType {
    /// The snake-case name of the kind.
    pub open spec fn name(self) -> Seq<char> {
        match self {
            InsightType::Summary => "summary"@,
            InsightType::ActionItem => "action_item"@,
            InsightType::KeyPoint => "key_point"@,
            InsightType::Decision => "decision"@,
        }
    }

    /// The snake-case name of the kind.
    pub fn as_str(&self) -> (s: &'static str)
        ensures
            s@ == self.name(),
    {
        match self {
            InsightType::Summary => "summary",
            InsightType::ActionItem => "action_item",
            InsightType::KeyPoint => "key_point",
            InsightType::Decision => "decision",
        }
    }

    /// The snake-case name of the kind, as an owned string.
    pub fn to_string(&self) -> (s: String)
        ensures
            s@ == self.name(),
    {
        self.as_str().to_owned()
    }

    /// The kind with the given snake-case name, if there is one.
    pub fn parse(name: &str) -> (t: Option<InsightType>)
        ensures
            match t {
                Some(kind) => name@ == kind.name(),
                None => name@ != "summary"@ && name@ != "action_item"@ && name@ != "key_point"@
                    && name@ != "decision"@,
            },
    {
        if str_equal(name, "summary") {
            Some(InsightType::Summary)
        } else if str_equal(name, "action_item") {
            Some(InsightType::ActionItem)
        } else if str_equal(name, "key_point") {
            Some(InsightType::KeyPoint)
        } else if str_equal(name, "decision") {
            Some(InsightType::Decision)
        } else {
            None
        }
    }
}

/// An insight drawn from a meeting.
#[derive(Debug, Clone)]
pub struct Insight {
    pub id: Option<i64>,
    pub meeting_id: i64,
    pub insight_type: InsightType,
    pub content: String,
    /// Further data, as JSON text.
    pub metadata: Option<String>,
    pub created_at: i64,
}

impl Insight {
    /// An insight created at `now` that has not been stored yet.
    pub fn created_at(meeting_id: i64, insight_type: InsightType, content: String, now: i64) -> (i:
        Insight)
        ensures
            i == (Insight {
                id: None,
                meeting_id,
                insight_type,
                content,
                metadata: None,
                created_at: now,
            }),
    {
        Insight { id: None, meeting_id, insight_type, content, metadata: None, created_at: now }
    }

    /// An insight created now, by the system clock.
    pub fn new(meeting_id: i64, insight_type: InsightType, content: String) -> (i: Insight)
        ensures
            i == (Insight {
                id: None,
                meeting_id,
                insight_type,
                content,
                metadata: None,
                created_at: i.created_at,
            }),
    {
        let now = unix_time_now();
        Insight::created_at(meeting_id, insight_type, content, now)
    }
}

/// The kind of an outside service.
#[derive(Debug, Clone, Copy, PartialEq, Eq, Structural)]
pub enum ServiceType {
    /// Speech recognition.
    Asr,
    /// Language model.
    Llm,
}

impl ServiceType {
    /// The lower-case name of the kind.
    pub open spec fn name(self) -> Seq<char> {
        match self {
            ServiceType::Asr => "asr"@,
            ServiceType::Llm => "llm"@,
        }
    }

    /// The lower-case name of the kind.
    pub fn as_str(&self) -> (s: &'static str)
        ensures
            s@ == self.name(),
    {
        match self {
            ServiceType::Asr => "asr",
            ServiceType::Llm => "llm",
        }
    }

    /// The lower-case name of the kind, as an owned string.
    pub fn to_string(&self) -> (s: String)
        ensures
            s@ == self.name(),
    {
        self.as_str().to_owned()
    }

    /// The kind with the given lower-case name, if there is one.
    pub fn parse(name: &str) -> (t: Option<ServiceType>)
        ensures
            match t {
                Some(kind) => name@ == kind.name(),
                None => name@ != "asr"@ && name@ != "llm"@,
            },
    {
        if str_equal(name, "asr") {
            Some(ServiceType::Asr)
        } else if str_equal(name, "llm") {
            Some(ServiceType::Llm)
        } else {
            None
        }
    }
}

/// The configuration of one provider of a service.
#[derive(Debug, Clone)]
pub struct ServiceConfig {
    pub id: Option<i64>,
    pub service_type: ServiceType,
    pub provider: String,
    pub is_active: bool,
    /// Settings of the provider, as JSON text.
    pub settings: Option<String>,
    pub created_at: i64,
    pub updated_at: i64,
}

impl ServiceConfig {
    /// An inactive configuration without settings, created at `now`.
    pub fn created_at(service_type: ServiceType, provider: String, now: i64) -> (c: ServiceConfig)
        ensures
            c == (ServiceConfig {
                id: None,
                service_type,
                provider,
                is_active: false,
                settings: None,
                created_at: now,
                updated_at: now,
            }),
    {
        ServiceConfig {
            id: None,
            service_type,
            provider,
            is_active: false,
            settings: None,
            created_at: now,
            updated_at: now,
        }
    }

    /// An inactive configuration without settings, created now, by the
    /// system clock.
    pub fn new(service_type: ServiceType, provider: String) -> (c: ServiceConfig)
        ensures
            c == (ServiceConfig {
                id: None,
                service_type,
                provider,
                is_active: false,
                settings: None,
                created_at: c.created_at,
                updated_at: c.created_at,
            }),
    {
        let now = unix_time_now();
        ServiceConfig::created_at(service_type, provider, now)
    }

    /// The configuration with its active flag set to `is_active`.
    pub fn with_active(self, is_active: bool) -> (c: ServiceConfig)
        ensures
            c == (ServiceConfig { is_active, ..self }),
    {
        let mut c = self;
        c.is_active = is_active;
        c
    }

    /// The configuration with its settings replaced by `settings`.
    pub fn with_settings(self, settings: Option<String>) -> (c: ServiceConfig)
        ensures
            c == (ServiceConfig { settings, ..self }),
    {
        let mut c = self;
        c.settings = settings;
        c
    }
}

/// What a user has set for one model of a provider.
#[derive(Debug, Clone)]
pub struct ModelOverride {
    pub id: Option<i64>,
    pub provider: String,
    pub model_id: String,
    /// The context window that the user has set.
    pub context_window: Option<usize>,
    pub notes: Option<String>,
    pub created_at: i64,
    pub updated_at: i64,
}

impl ModelOverride {
    /// An override that sets nothing yet, created at `now`.
    pub fn created_at(provider: String, model_id: String, now: i64) -> (m: ModelOverride)
        ensures
            m == (ModelOverride {
                id: None,
                provider,
                model_id,
                context_window: None,
                notes: None,
                created_at: now,
                updated_at: now,
            }),
    {
        ModelOverride {
            id: None,
            provider,
            model_id,
            context_window: None,
            notes: None,
            created_at: now,
            updated_at: now,
        }
    }

    /// An override that sets nothing yet, created now, by the system clock.
    pub fn new(provider: String, model_id: String) -> (m: ModelOverride)
        ensures
            m == (ModelOverride {
                id: None,
                provider,
                model_id,
                context_window: None,
                notes: None,
                created_at: m.created_at,
                updated_at: m.created_at,
            }),
    {
        let now = unix_time_now();
        ModelOverride::created_at(provider, model_id, now)
    }

    /// The override with its context window set to `context_window`.
    pub fn with_context_window(self, context_window: usize) -> (m: ModelOverride)
        ensures
            m == (ModelOverride { context_window: Some(context_window), ..self }),
    {
        let mut m = self;
        m.context_window = Some(context_window);
        m
    }

    /// The override with its notes set to `notes`.
    pub fn with_notes(self, notes: String) -> (m: ModelOverride)
        ensures
            m == (ModelOverride { notes: Some(notes), ..self }),
    {
        let mut m = self;
        m.notes = Some(notes);
        m
    }
}

} // verus!
