use std::sync::Arc;

use bubble_meet::models::room::Room;
use bubble_meet::models::user::User;

fn user(id: u128) -> User<u32, ()> {
    User::new(id, Arc::new(id as u32), Arc::new(()))
}

#[test]
fn users_by_key() {
    let mut room: Room<u32, (), Vec<u8>> = Room::new();
    room.add_user(1, user(1));
    room.add_user(2, user(2));
    assert_eq!(room.get_user(&1).unwrap().id, 1);
    assert!(room.get_user(&3).is_none());
    let mut others: Vec<u128> = room.iter_users_except(&1).iter().map(|u| u.id).collect();
    others.sort();
    assert_eq!(others, vec![2]);
}

#[test]
fn except_filters_on_the_users_own_id() {
    let mut room: Room<u32, (), Vec<u8>> = Room::new();
    room.add_user(5, user(1));
    room.add_user(6, user(2));
    let mut others: Vec<u128> = room.iter_users_except(&1).iter().map(|u| u.id).collect();
    others.sort();
    assert_eq!(others, vec![2]);
}

#[test]
fn transmitter_list_made_once() {
    let mut room: Room<u32, (), Vec<u8>> = Room::new();
    let first = room.add_track_transmitter(1, Arc::new(vec![1]));
    let again = room.add_track_transmitter(1, Arc::new(vec![2]));
    assert_eq!(*first, vec![1]);
    assert_eq!(*again, vec![1]);
    assert_eq!(**room.get_tracks_transmitters(&1).unwrap(), vec![1]);
    assert!(room.get_tracks_transmitters(&2).is_none());
}

#[test]
fn remove_user_drops_transmitters_too() {
    let mut room: Room<u32, (), Vec<u8>> = Room::new();
    room.add_user(1, user(1));
    room.add_track_transmitter(1, Arc::new(vec![1]));
    room.remove_user(&1);
    assert!(room.get_user(&1).is_none());
    assert!(room.get_tracks_transmitters(&1).is_none());
}

#[test]
fn routing_for_a_newcomer() {
    let mut room: Room<u32, (), Vec<u8>> = Room::new();
    room.add_user(1, user(1));
    room.add_user(2, user(2));
    room.add_user(3, user(3));
    room.add_track_transmitter(1, Arc::new(vec![1]));
    room.add_track_transmitter(3, Arc::new(vec![3]));
    room.add_track_transmitter(4, Arc::new(vec![4]));
    let mut plan: Vec<(u128, Vec<u8>)> = room
        .transmitters_of_others(&3)
        .into_iter()
        .map(|(k, l)| (k, (*l).clone()))
        .collect();
    plan.sort();
    assert_eq!(plan, vec![(1, vec![1])]);
}

#[test]
fn users_equal_by_id() {
    assert!(user(1) == User::new(1, Arc::new(9), Arc::new(())));
    assert!(user(1) != user(2));
}
