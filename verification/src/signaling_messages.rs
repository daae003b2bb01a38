//! The shared signaling vocabulary: offers, answers and ICE candidates of
//! users identified by the 128-bit value of their UUID.

use vstd::prelude::*;

use crate::media::{IceCandidateInit, SessionDescription};

verus! {

/// The kinds of signaling message.
#[derive(Debug, Clone, Copy, PartialEq, Eq, Structural)]
pub enum MessageType {
    Offer,
    Answer,
    ICECandidate,
}

/// A user's offer.
#[derive(Debug, Clone)]
pub struct OfferSignalingMessage {
    pub user_id: u128,
    pub description: SessionDescription,
}

impl OfferSignalingMessage {
    /// An offer from `user_id`.
    pub fn new(user_id: u128, description: SessionDescription) -> (m: Self)
        ensures
            m.user_id == user_id,
            m.description == description,
    {
        OfferSignalingMessage { user_id, description }
    }
}

/// A user's answer.
#[derive(Debug, Clone)]
pub struct AnswerSignalingMessage {
    pub user_id: u128,
    pub description: SessionDescription,
}

impl AnswerSignalingMessage {
    /// An answer from `user_id`.
    pub fn new(user_id: u128, description: SessionDescription) -> (m: Self)
        ensures
            m.user_id == user_id,
            m.description == description,
    {
        AnswerSignalingMessage { user_id, description }
    }
}

/// An ICE candidate for a user's connection.
#[derive(Debug, Clone)]
pub struct ICECandidateSignalingMessage {
    pub user_id: u128,
    pub candidate: IceCandidateInit,
}

/// Any signaling message, tagged by its kind.
#[derive(Debug, Clone)]
pub enum SignalingMessage {
    Offer(OfferSignalingMessage),
    Answer(AnswerSignalingMessage),
    ICECandidate(ICECandidateSignalingMessage),
}

impl SignalingMessage {
    /// The kind of the message.
    pub fn message_type(&self) -> (t: MessageType)
        ensures
            t == match self {
                SignalingMessage::Offer(_) => MessageType::Offer,
                SignalingMessage::Answer(_) => MessageType::Answer,
                SignalingMessage::ICECandidate(_) => MessageType::ICECandidate,
            },
    {
        match self {
            SignalingMessage::Offer(_) => MessageType::Offer,
            SignalingMessage::Answer(_) => MessageType::Answer,
            SignalingMessage::ICECandidate(_) => MessageType::ICECandidate,
        }
    }
}

} // verus!
