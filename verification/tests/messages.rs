use bubble_meet::ids::ParticipantId;
use bubble_meet::media::{SdpType, SessionDescription};
use bubble_meet::messages::{
    AnswerSignalingMessage, OfferSignalingMessage, SignalingMessage, StreamControlSignalingMessage,
};
use bubble_meet::models::messages as user_messages;
use bubble_meet::signaling_messages::{self as shared, MessageType};

fn offer_sdp() -> SessionDescription {
    SessionDescription { sdp_type: SdpType::Offer, sdp: "v=0".to_string() }
}

#[test]
fn participant_messages_keep_their_fields() {
    let id = ParticipantId::from_u128(7);
    let o = OfferSignalingMessage::new(id, offer_sdp());
    assert_eq!(o.participant_id, id);
    assert_eq!(o.description.sdp, "v=0");
    let a = AnswerSignalingMessage::new(id, SessionDescription { sdp_type: SdpType::Answer, sdp: "a".to_string() });
    assert_eq!(a.description.sdp_type, SdpType::Answer);
    let s = StreamControlSignalingMessage::new(id, "stream-x".to_string(), true, false);
    assert_eq!(s.stream_id, "stream-x");
    assert!(s.is_audio_enabled);
    assert!(!s.is_video_enabled);
    assert_eq!(SignalingMessage::StreamControl(s).participant_id(), id);
    assert_eq!(SignalingMessage::Offer(o).participant_id(), id);
}

#[test]
fn user_messages_keep_their_fields() {
    let o = user_messages::OfferSignalingMessage::new(5, offer_sdp());
    assert_eq!(o.user_id, 5);
    let a = user_messages::AnswerSignalingMessage::new(6, offer_sdp());
    assert_eq!(a.user_id, 6);
    let s = user_messages::StreamControlSignalingMessage::new(8, "s".to_string(), false, true);
    assert_eq!(s.user_id, 8);
    assert!(s.is_video_enabled);
    let p = user_messages::PingSignalingMessage::new();
    assert_eq!(p, user_messages::PingSignalingMessage {});
}

#[test]
fn shared_messages_and_their_types() {
    let o = shared::OfferSignalingMessage::new(1, offer_sdp());
    assert_eq!(shared::SignalingMessage::Offer(o).message_type(), MessageType::Offer);
    let a = shared::AnswerSignalingMessage::new(2, offer_sdp());
    assert_eq!(a.user_id, 2);
    assert_eq!(shared::SignalingMessage::Answer(a).message_type(), MessageType::Answer);
}
