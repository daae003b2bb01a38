//! Signaling messages of the user-keyed server, users identified by the
//! 128-bit value of their UUID.

use vstd::prelude::*;

use crate::media::{IceCandidateInit, SessionDescription};

verus! {

/// A user's offer.
#[derive(Debug, Clone)]
pub struct OfferSignalingMessage {
    pub user_id: u128,
    pub description: SessionDescription,
}

impl OfferSignalingMessage {
    /// An offer from `user_id`.
    pub fn new(user_id: u128, description: SessionDescription) -> (m: Self)
        ensures
            m.user_id == user_id,
            m.description == description,
    {
        OfferSignalingMessage { user_id, description }
    }
}

/// A user's answer.
#[derive(Debug, Clone)]
pub struct AnswerSignalingMessage {
    pub user_id: u128,
    pub description: SessionDescription,
}

impl AnswerSignalingMessage {
    /// An answer from `user_id`.
    pub fn new(user_id: u128, description: SessionDescription) -> (m: Self)
        ensures
            m.user_id == user_id,
            m.description == description,
    {
        AnswerSignalingMessage { user_id, description }
    }
}

/// An ICE candidate for a user's connection.
#[derive(Debug, Clone)]
pub struct ICECandidateSignalingMessage {
    pub user_id: u128,
    pub candidate: IceCandidateInit,
}

/// A user switching its audio or video on or off.
#[derive(Debug, Clone)]
pub struct StreamControlSignalingMessage {
    pub user_id: u128,
    pub stream_id: String,
    pub is_audio_enabled: bool,
    pub is_video_enabled: bool,
}

impl StreamControlSignalingMessage {
    /// A stream-control message with the given fields.
    pub fn new(user_id: u128, stream_id: String, is_audio_enabled: bool, is_video_enabled: bool) -> (m:
        Self)
        ensures
            m.user_id == user_id,
            m.stream_id == stream_id,
            m.is_audio_enabled == is_audio_enabled,
            m.is_video_enabled == is_video_enabled,
    {
        StreamControlSignalingMessage { user_id, stream_id, is_audio_enabled, is_video_enabled }
    }
}

/// A keep-alive message with no content.
#[derive(Debug, Clone, Copy, PartialEq, Eq, Structural)]
pub struct PingSignalingMessage {}

impl PingSignalingMessage {
    /// The keep-alive message.
    pub fn new() -> (m: Self)
        ensures
            m == (PingSignalingMessage {}),
    {
        PingSignalingMessage {}
    }
}

/// Any signaling message, tagged by its kind.
#[derive(Debug, Clone)]
pub enum SignalingMessage {
    Offer(OfferSignalingMessage),
    Answer(AnswerSignalingMessage),
    ICECandidate(ICECandidateSignalingMessage),
    StreamControl(StreamControlSignalingMessage),
    Ping(PingSignalingMessage),
}

} // verus!
