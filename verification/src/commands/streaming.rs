//! The state of the live transcription.

use vstd::prelude::*;

verus! {

/// Whether a live transcription is going on, and for which meeting.
#[derive(Debug, Clone, Copy, PartialEq, Eq, Structural)]
pub struct StreamingTranscriptionStatus {
    pub is_active: bool,
    pub meeting_id: Option<i64>,
}

} // verus!
