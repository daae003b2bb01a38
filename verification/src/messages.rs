//! Signaling messages exchanged with participants over the room socket.

use vstd::prelude::*;

use crate::ids::ParticipantId;
use crate::media::{IceCandidateInit, SessionDescription};

verus! {

/// A participant's offer.
#[derive(Debug, Clone)]
pub struct OfferSignalingMessage {
    pub participant_id: ParticipantId,
    pub description: SessionDescription,
}

impl OfferSignalingMessage {
    /// An offer from `participant_id`.
    pub fn new(participant_id: ParticipantId, description: SessionDescription) -> (m: Self)
        ensures
            m.participant_id == participant_id,
            m.description == description,
    {
        OfferSignalingMessage { participant_id, description }
    }
}

/// A participant's answer.
#[derive(Debug, Clone)]
pub struct AnswerSignalingMessage {
    pub participant_id: ParticipantId,
    pub description: SessionDescription,
}

impl AnswerSignalingMessage {
    /// An answer from `participant_id`.
    pub fn new(participant_id: ParticipantId, description: SessionDescription) -> (m: Self)
        ensures
            m.participant_id == participant_id,
            m.description == description,
    {
        AnswerSignalingMessage { participant_id, description }
    }
}

/// An ICE candidate for a participant's connection.
#[derive(Debug, Clone)]
pub struct ICECandidateSignalingMessage {
    pub participant_id: ParticipantId,
    pub candidate: IceCandidateInit,
}

/// A participant switching its audio or video on or off.
#[derive(Debug, Clone)]
pub struct StreamControlSignalingMessage {
    pub participant_id: ParticipantId,
    pub stream_id: String,
    pub is_audio_enabled: bool,
    pub is_video_enabled: bool,
}

impl StreamControlSignalingMessage {
    /// A stream-control message with the given fields.
    pub fn new(
        participant_id: ParticipantId,
        stream_id: String,
        is_audio_enabled: bool,
        is_video_enabled: bool,
    ) -> (m: Self)
        ensures
            m.participant_id == participant_id,
            m.stream_id == stream_id,
            m.is_audio_enabled == is_audio_enabled,
            m.is_video_enabled == is_video_enabled,
    {
        StreamControlSignalingMessage { participant_id, stream_id, is_audio_enabled, is_video_enabled }
    }
}

/// Any signaling message, tagged by its kind.
#[derive(Debug, Clone)]
pub enum SignalingMessage {
    Offer(OfferSignalingMessage),
    Answer(AnswerSignalingMessage),
    ICECandidate(ICECandidateSignalingMessage),
    StreamControl(StreamControlSignalingMessage),
}

impl SignalingMessage {
    /// The participant the message is about.
    pub fn participant_id(&self) -> (id: ParticipantId)
        ensures
            id == match self {
                SignalingMessage::Offer(m) => m.participant_id,
                SignalingMessage::Answer(m) => m.participant_id,
                SignalingMessage::ICECandidate(m) => m.participant_id,
                SignalingMessage::StreamControl(m) => m.participant_id,
            },
    {
        match self {
            SignalingMessage::Offer(m) => m.participant_id,
            SignalingMessage::Answer(m) => m.participant_id,
            SignalingMessage::ICECandidate(m) => m.participant_id,
            SignalingMessage::StreamControl(m) => m.participant_id,
        }
    }
}

} // verus!
