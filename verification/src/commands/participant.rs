//! Requests and answers on the speakers and participants of a meeting.

use vstd::prelude::*;
use crate::domain::models::Participant;

verus! {

/// What is known of one speaker of a meeting.
#[derive(Debug, Clone)]
pub struct SpeakerSummary {
    pub speaker_label: String,
    pub transcript_count: usize,
    /// Up to three lines that the speaker said.
    pub sample_transcripts: Vec<String>,
    pub participant: Option<ParticipantInfo>,
}

/// A participant, as it is shown.
#[derive(Debug, Clone)]
pub struct ParticipantInfo {
    pub id: i64,
    pub name: String,
    pub email: Option<String>,
}

/// A request to link a speaker label to a participant.
#[derive(Debug, Clone)]
pub struct LinkSpeakerRequest {
    pub meeting_id: i64,
    pub speaker_label: String,
    pub participant_name: String,
    pub participant_email: Option<String>,
}

/// The place of the first participant with the given speaker label, or
/// the number of participants where none has it.
pub open spec fn place_of_speaker(participants: Seq<Participant>, label: Seq<char>) -> nat
    decreases participants.len(),
{
    if participants.len() == 0 {
        0
    } else if participants[0].speaker_label is Some && participants[0].speaker_label->0@ == label {
        0
    } else {
        1 + place_of_speaker(participants.drop_first(), label)
    }
}

/// The first participant of a meeting that has the given speaker label.
pub fn find_speaker(participants: &Vec<Participant>, label: &str) -> (found: Option<usize>)
    ensures
        match found {
            Some(i) => i < participants.len() && i == place_of_speaker(participants@, label@),
            None => place_of_speaker(participants@, label@) == participants.len(),
        },
{
    let mut i: usize = 0;
    proof {
        assert(participants@.skip(0) =~= participants@);
    }
    while i < participants.len()
        invariant
            i <= participants.len(),
            place_of_speaker(participants@, label@) == i + place_of_speaker(
                participants@.skip(i as int),
                label@,
            ),
        decreases participants.len() - i,
    {
        let ghost rest = participants@.skip(i as int);
        proof {
            assert(rest[0] == participants@[i as int]);
            assert(rest.drop_first() =~= participants@.skip(i + 1));
        }
        let same = match &participants[i].speaker_label {
            Some(own) => crate::utils::text::str_equal(own.as_str(), label),
            None => false,
        };
        if same {
            return Some(i);
        }
        i = i + 1;
    }
    None
}

/// What linking a speaker to a participant does to the participants of a
/// meeting.
#[derive(Debug)]
pub enum LinkPlan {
    /// The participant at this place gets the name and the address of the
    /// request; the transcripts of the speaker are linked to the identifier
    /// given, which is 0 where the participant has none.
    Update(usize, Participant, i64),
    /// No participant has the speaker label yet: this one is created.
    Create(Participant),
}

/// What linking a speaker to a participant does: the first participant
/// that has the speaker label is renamed, and where none has it a
/// participant with the label is created.
pub fn link_speaker_to_participant(participants: &Vec<Participant>, request: LinkSpeakerRequest) -> (plan: LinkPlan)
    ensures
        ({
            let place = place_of_speaker(participants@, request.speaker_label@);
            if place < participants.len() {
                plan matches LinkPlan::Update(i, updated, id) && i == place && updated == (
                Participant {
                    name: request.participant_name,
                    email: request.participant_email,
                    ..participants[place as int]
                }) && id == (match participants[place as int].id {
                    Some(own) => own,
                    None => 0,
                })
            } else {
                plan matches LinkPlan::Create(created) && created == (Participant {
                    id: None,
                    meeting_id: request.meeting_id,
                    name: request.participant_name,
                    email: request.participant_email,
                    speaker_label: Some(request.speaker_label),
                })
            }
        }),
{
    match find_speaker(participants, request.speaker_label.as_str()) {
        Some(i) => {
            let existing = &participants[i];
            let id = match existing.id {
                Some(own) => own,
                None => 0,
            };
            let label = match &existing.speaker_label {
                Some(own) => Some(own.clone()),
                None => None,
            };
            LinkPlan::Update(
                i,
                Participant {
                    id: existing.id,
                    meeting_id: existing.meeting_id,
                    name: request.participant_name,
                    email: request.participant_email,
                    speaker_label: label,
                },
                id,
            )
        },
        None => LinkPlan::Create(
            Participant {
                id: None,
                meeting_id: request.meeting_id,
                name: request.participant_name,
                email: request.participant_email,
                speaker_label: Some(request.speaker_label),
            },
        ),
    }
}

/// A participant as it is shown; one that has not been stored is shown
/// with the identifier 0.
pub fn participant_info(participant: Participant) -> (info: ParticipantInfo)
    ensures
        info.id == (match participant.id {
            Some(own) => own,
            None => 0,
        }),
        info.name == participant.name,
        info.email == participant.email,
{
    let id = match participant.id {
        Some(own) => own,
        None => 0,
    };
    ParticipantInfo { id, name: participant.name, email: participant.email }
}

} // verus!
