use std::sync::Arc;

use bubble_meet::ids::ParticipantId;
use bubble_meet::media::{CodecKind, PeerConnectionState};
use bubble_meet::participant::Participant;
use bubble_meet::replayer::Replayer;
use bubble_meet::room::RoomInner;
use bubble_meet::sfu::{admit_participant, forget_participant, needs_picture_loss_indication, tears_down};
use bubble_meet::webrtc_factory::{codec_registrations, ice_server_urls, public_ice_server_urls, stale_receivers};

fn pid(v: u128) -> ParticipantId {
    ParticipantId::from_u128(v)
}

fn person(id: u128) -> Arc<Participant<(), ()>> {
    Arc::new(Participant::new(pid(id), Arc::new(()), Arc::new(())))
}

#[test]
fn only_disconnection_tears_down() {
    assert!(tears_down(PeerConnectionState::Disconnected));
    for s in [
        PeerConnectionState::Unspecified,
        PeerConnectionState::New,
        PeerConnectionState::Connecting,
        PeerConnectionState::Connected,
        PeerConnectionState::Failed,
        PeerConnectionState::Closed,
    ] {
        assert!(!tears_down(s));
    }
}

#[test]
fn picture_loss_only_for_video() {
    assert!(needs_picture_loss_indication(CodecKind::Video));
    assert!(!needs_picture_loss_indication(CodecKind::Audio));
    assert!(!needs_picture_loss_indication(CodecKind::Unspecified));
}

#[test]
fn newcomer_joins_room_and_every_replay() {
    let mut room: RoomInner<(), ()> = RoomInner::new();
    let mut replays: Replayer<u8, u8, u8> = Replayer::new();
    room.add_participant(person(1));
    replays.create_replay(pid(1), Arc::new(0), Arc::new(0), vec![]);
    replays.create_replay(pid(1), Arc::new(1), Arc::new(1), vec![]);
    admit_participant(&mut room, &mut replays, person(2), vec![Arc::new(20), Arc::new(21)]);
    assert!(room.get_participant(&pid(2)).is_some());
    let removed = replays.remove_source(pid(1));
    assert!(removed.iter().all(|r| r.senders.contains_key(&2)));
}

#[test]
fn departure_leaves_no_trace() {
    let mut room: RoomInner<(), ()> = RoomInner::new();
    let mut replays: Replayer<u8, u8, u8> = Replayer::new();
    room.add_participant(person(1));
    room.add_participant(person(2));
    replays.create_replay(pid(1), Arc::new(0), Arc::new(0), vec![(pid(2), Arc::new(12))]);
    replays.create_replay(pid(2), Arc::new(1), Arc::new(1), vec![(pid(1), Arc::new(21))]);
    let removed = forget_participant(&mut room, &mut replays, pid(1));
    assert_eq!(removed.len(), 1);
    assert_eq!(removed[0].source_participant, pid(1));
    assert!(room.get_participant(&pid(1)).is_none());
    assert_eq!(room.len(), 1);
    let rest = replays.remove_source(pid(2));
    assert_eq!(rest.len(), 1);
    assert!(rest[0].senders.is_empty());
}

#[test]
fn codec_configuration() {
    let codecs = codec_registrations();
    assert_eq!(codecs.len(), 2);
    assert_eq!(codecs[0].mime_type, "audio/opus");
    assert_eq!(codecs[0].payload_type, 120);
    assert_eq!(codecs[0].clock_rate, 0);
    assert_eq!(codecs[0].kind, CodecKind::Audio);
    assert_eq!(codecs[1].mime_type, "video/VP8");
    assert_eq!(codecs[1].payload_type, 96);
    assert_eq!(codecs[1].clock_rate, 90000);
    assert_eq!(codecs[1].channels, 0);
    assert_eq!(codecs[1].sdp_fmtp_line, "");
    assert_eq!(codecs[1].kind, CodecKind::Video);
}

#[test]
fn stun_servers() {
    assert_eq!(ice_server_urls(), vec!["stun:turn-server:3478".to_string()]);
    assert_eq!(public_ice_server_urls(), vec!["stun:stun.l.google.com:19302".to_string()]);
}

#[test]
fn receivers_without_tracks_are_stale() {
    assert_eq!(stale_receivers(&[1, 0, 2, 0, 0]), vec![1, 3, 4]);
    assert_eq!(stale_receivers(&[]), Vec::<usize>::new());
    assert_eq!(stale_receivers(&[3]), Vec::<usize>::new());
}
