//! Requests and answers on meetings and on the state of the capture.

use vstd::prelude::*;
use crate::domain::models::Meeting;
use crate::ports::audio::AudioFormat;

verus! {

/// A request to start a meeting.
#[derive(Debug, Clone)]
pub struct StartMeetingRequest {
    /// "teams", "zoom" or "meet".
    pub platform: String,
    pub title: Option<String>,
}

/// The state of the current meeting.
#[derive(Debug, Clone)]
pub struct MeetingStatus {
    pub meeting_id: Option<i64>,
    pub is_recording: bool,
    pub platform: Option<String>,
    pub title: Option<String>,
    pub start_time: Option<i64>,
    pub duration_seconds: Option<i64>,
}

/// The state of the capture.
#[derive(Debug, Clone)]
pub struct AudioCaptureStatus {
    pub is_capturing: bool,
    pub device: Option<String>,
    pub format: AudioFormatInfo,
}

/// The sample format of the capture, as it is shown.
#[derive(Debug, Clone, Copy, PartialEq, Eq, Structural)]
pub struct AudioFormatInfo {
    pub sample_rate: u32,
    pub channels: u16,
    pub bits_per_sample: u16,
}

/// The state of the capture as it is shown: the device is named only while a
/// session is active.
pub fn get_audio_capture_status(is_capturing: bool, format: AudioFormat) -> (status: AudioCaptureStatus)
    ensures
        status.is_capturing == is_capturing,
        is_capturing ==> status.device is Some && status.device->0@ == "System Audio"@,
        !is_capturing ==> status.device is None,
        status.format == (AudioFormatInfo {
            sample_rate: format.sample_rate,
            channels: format.channels,
            bits_per_sample: format.bits_per_sample,
        }),
{
    let device = if is_capturing {
        Some("System Audio".to_owned())
    } else {
        None
    };
    AudioCaptureStatus {
        is_capturing,
        device,
        format: AudioFormatInfo {
            sample_rate: format.sample_rate,
            channels: format.channels,
            bits_per_sample: format.bits_per_sample,
        },
    }
}

/// How long a meeting has lasted at `now`, in seconds; `None` where the
/// difference does not fit in 64 bits.
pub open spec fn duration_of(meeting: Meeting, now: i64) -> Option<i64> {
    let until: int = match meeting.end_time {
        Some(end) => end as int,
        None => now as int,
    };
    if i64::MIN <= until - meeting.start_time <= i64::MAX {
        Some((until - meeting.start_time) as i64)
    } else {
        None
    }
}

/// The state of the current meeting as it is shown at `now`. Where no
/// meeting is going on, or the current one is not stored, nothing is shown
/// and nothing is being recorded.
pub fn get_meeting_status(current: Option<(i64, Meeting)>, is_recording: bool, now: i64) -> (status:
    MeetingStatus)
    ensures
        match current {
            Some((meeting_id, meeting)) => {
                &&& status.meeting_id == Some(meeting_id)
                &&& status.is_recording == is_recording
                &&& status.platform is Some && status.platform->0@ == meeting.platform.name()
                &&& status.title == meeting.title
                &&& status.start_time == Some(meeting.start_time)
                &&& status.duration_seconds == duration_of(meeting, now)
            },
            None => {
                &&& status.meeting_id is None
                &&& !status.is_recording
                &&& status.platform is None
                &&& status.title is None
                &&& status.start_time is None
                &&& status.duration_seconds is None
            },
        },
{
    match current {
        Some((meeting_id, meeting)) => {
            let duration_seconds = meeting.duration_seconds(now);
            MeetingStatus {
                meeting_id: Some(meeting_id),
                is_recording,
                platform: Some(meeting.platform.to_string()),
                title: meeting.title,
                start_time: Some(meeting.start_time),
                duration_seconds,
            }
        },
        None => MeetingStatus {
            meeting_id: None,
            is_recording: false,
            platform: None,
            title: None,
            start_time: None,
            duration_seconds: None,
        },
    }
}

} // verus!
