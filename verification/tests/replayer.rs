use std::collections::HashMap;
use std::sync::Arc;

use bubble_meet::ids::ParticipantId;
use bubble_meet::replayer::{Replay, Replayer};

fn pid(v: u128) -> ParticipantId {
    ParticipantId::from_u128(v)
}

type Table = Replayer<&'static str, &'static str, u32>;

fn table() -> Table {
    let mut t: Table = Replayer::new();
    t.create_replay(pid(1), Arc::new("a-audio"), Arc::new("out-1a"), vec![(pid(2), Arc::new(12)), (pid(3), Arc::new(13))]);
    t.create_replay(pid(2), Arc::new("b-video"), Arc::new("out-2v"), vec![(pid(1), Arc::new(21))]);
    t.create_replay(pid(1), Arc::new("a-video"), Arc::new("out-1v"), vec![(pid(3), Arc::new(31))]);
    t
}

fn senders_of(r: &Replay<&'static str, &'static str, u32>) -> Vec<(u128, u32)> {
    let mut v: Vec<(u128, u32)> = r.senders.iter().map(|(k, s)| (*k, **s)).collect();
    v.sort();
    v
}

#[test]
fn create_replay_records_senders_and_later_sender_wins() {
    let mut t: Table = Replayer::new();
    t.create_replay(pid(1), Arc::new("src"), Arc::new("out"), vec![(pid(2), Arc::new(1)), (pid(2), Arc::new(2))]);
    assert_eq!(t.len(), 1);
    assert_eq!(t.target_tracks().iter().map(|x| **x).collect::<Vec<_>>(), vec!["out"]);
    let removed = t.remove_source(pid(1));
    assert_eq!(removed.len(), 1);
    assert_eq!(senders_of(&removed[0]), vec![(2, 2)]);
}

#[test]
fn remove_source_takes_its_replays_in_order() {
    let mut t = table();
    let removed = t.remove_source(pid(1));
    assert_eq!(removed.iter().map(|r| *r.source).collect::<Vec<_>>(), vec!["a-audio", "a-video"]);
    assert_eq!(t.len(), 1);
    assert_eq!(t.target_tracks().iter().map(|x| **x).collect::<Vec<_>>(), vec!["out-2v"]);
}

#[test]
fn remove_target_drops_senders_everywhere() {
    let mut t = table();
    t.remove_target(pid(3));
    let removed = t.remove_source(pid(1));
    assert_eq!(senders_of(&removed[0]), vec![(2, 12)]);
    assert_eq!(senders_of(&removed[1]), vec![]);
}

#[test]
fn remove_replays_forgets_the_participant() {
    let mut t = table();
    let removed = t.remove_replays(pid(1));
    assert_eq!(removed.len(), 2);
    assert!(removed.iter().all(|r| r.source_participant == pid(1)));
    assert_eq!(t.len(), 1);
    let rest = t.remove_source(pid(2));
    assert_eq!(senders_of(&rest[0]), vec![]);
}

#[test]
fn add_target_attaches_to_every_replay() {
    let mut t = table();
    t.add_target_to_replays(pid(9), vec![Arc::new(91), Arc::new(92), Arc::new(93)]);
    let a = t.remove_source(pid(1));
    let b = t.remove_source(pid(2));
    assert_eq!(senders_of(&a[0]), vec![(2, 12), (3, 13), (9, 91)]);
    assert_eq!(senders_of(&b[0]), vec![(1, 21), (9, 92)]);
    assert_eq!(senders_of(&a[1]), vec![(3, 31), (9, 93)]);
}

#[test]
fn attach_then_detach_restores_senders() {
    let mut t = table();
    t.add_target_to_replays(pid(9), vec![Arc::new(1), Arc::new(2), Arc::new(3)]);
    t.remove_target(pid(9));
    let mut untouched = table();
    for id in [1u128, 2] {
        let got = t.remove_source(pid(id));
        let want = untouched.remove_source(pid(id));
        assert_eq!(got.len(), want.len());
        for (g, w) in got.iter().zip(want.iter()) {
            assert_eq!(senders_of(g), senders_of(w));
        }
    }
}

#[test]
fn replay_new_keeps_its_parts() {
    let mut senders = HashMap::new();
    senders.insert(5u128, Arc::new(50u32));
    let r: Replay<&str, &str, u32> = Replay::new(pid(4), Arc::new("s"), Arc::new("t"), senders);
    assert_eq!(r.source_participant, pid(4));
    assert_eq!(*r.source, "s");
    assert_eq!(*r.target, "t");
    assert_eq!(r.senders.len(), 1);
}
