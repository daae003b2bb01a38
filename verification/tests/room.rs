use std::sync::Arc;

use bubble_meet::ids::ParticipantId;
use bubble_meet::participant::Participant;
use bubble_meet::room::RoomInner;
use bubble_meet::sfu::others_in_room;

fn person(id: u128, tag: u32) -> Arc<Participant<u32, ()>> {
    Arc::new(Participant::new(ParticipantId::from_u128(id), Arc::new(tag), Arc::new(())))
}

#[test]
fn read_after_write() {
    let mut room: RoomInner<u32, ()> = RoomInner::new();
    assert!(room.is_empty());
    room.add_participant(person(1, 10));
    let got = room.get_participant(&ParticipantId::from_u128(1)).unwrap();
    assert_eq!(*got.peer_connection, 10);
    assert_eq!(room.len(), 1);
    assert!(room.get_participant(&ParticipantId::from_u128(2)).is_none());
}

#[test]
fn same_id_replaces() {
    let mut room: RoomInner<u32, ()> = RoomInner::new();
    room.add_participant(person(1, 10));
    room.add_participant(person(1, 11));
    assert_eq!(room.len(), 1);
    assert_eq!(*room.get_participant(&ParticipantId::from_u128(1)).unwrap().peer_connection, 11);
}

#[test]
fn remove_then_not_found() {
    let mut room: RoomInner<u32, ()> = RoomInner::new();
    room.add_participant(person(1, 10));
    room.add_participant(person(2, 20));
    room.remove_participant(&ParticipantId::from_u128(1));
    assert!(room.get_participant(&ParticipantId::from_u128(1)).is_none());
    assert_eq!(room.len(), 1);
    room.remove_participant(&ParticipantId::from_u128(7));
    assert_eq!(room.len(), 1);
}

#[test]
fn everyone_but_the_sender() {
    let mut room: RoomInner<u32, ()> = RoomInner::new();
    for id in 1..=4u128 {
        room.add_participant(person(id, id as u32 * 10));
    }
    let mut ids: Vec<u128> = room
        .participants_except(&ParticipantId::from_u128(3))
        .iter()
        .map(|p| p.id.as_u128())
        .collect();
    ids.sort();
    assert_eq!(ids, vec![1, 2, 4]);
    let mut all: Vec<u128> = others_in_room(&room, ParticipantId::from_u128(99))
        .iter()
        .map(|p| p.id.as_u128())
        .collect();
    all.sort();
    assert_eq!(all, vec![1, 2, 3, 4]);
}

#[test]
fn participants_equal_by_id() {
    let a = Participant::new(ParticipantId::from_u128(1), Arc::new(1u32), Arc::new(()));
    let b = Participant::new(ParticipantId::from_u128(1), Arc::new(2u32), Arc::new(()));
    let c = Participant::new(ParticipantId::from_u128(2), Arc::new(1u32), Arc::new(()));
    assert!(a == b);
    assert!(a != c);
}
