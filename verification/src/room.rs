//! The participants of a room, keyed by participant id.

use std::collections::HashMap;
use std::sync::Arc;
use vstd::prelude::*;

use crate::ids::ParticipantId;
use crate::participant::Participant;
use crate::shared::arc_clone;
use vstd::std_specs::iter::IteratorSpec;

verus! {

broadcast use vstd::std_specs::hash::group_hash_axioms;

/// The participants of a room.
pub struct RoomInner<PC, WS> {
    participants: HashMap<u128, Arc<Participant<PC, WS>>>,
}

impl<PC, WS> RoomInner<PC, WS> {
    /// The participants, by the value of their id.
    pub closed spec fn participants(&self) -> Map<u128, Arc<Participant<PC, WS>>> {
        self.participants@
    }

    /// Each participant is filed under its own id.
    pub open spec fn wf(&self) -> bool {
        forall|k: u128| #[trigger]
            self.participants().contains_key(k) ==> self.participants()[k].id.0 == k
    }

    /// An empty room.
    pub fn new() -> (r: Self)
        ensures
            r.wf(),
            r.participants() == Map::<u128, Arc<Participant<PC, WS>>>::empty(),
    {
        RoomInner { participants: HashMap::new() }
    }

    /// Files a participant under its id, replacing one with the same id.
    pub fn add_participant(&mut self, participant: Arc<Participant<PC, WS>>)
        requires
            old(self).wf(),
        ensures
            final(self).wf(),
            final(self).participants() == old(self).participants().insert(
                participant.id.0,
                participant,
            ),
    {
        let key = participant.id.0;
        self.participants.insert(key, participant);
        assert forall|k: u128| #[trigger]
            self.participants().contains_key(k) implies self.participants()[k].id.0 == k by {
            if k != key {
                assert(old(self).participants().contains_key(k));
            }
        }
    }

    /// The participant with the given id, if it is in the room.
    pub fn get_participant(&self, participant_id: &ParticipantId) -> (r: Option<
        Arc<Participant<PC, WS>>,
    >)
        ensures
            r == if self.participants().contains_key(participant_id.0) {
                Some(self.participants()[participant_id.0])
            } else {
                None::<Arc<Participant<PC, WS>>>
            },
    {
        match self.participants.get(&participant_id.0) {
            Some(p) => Some(arc_clone(p)),
            None => None,
        }
    }

    /// Takes the participant with the given id out of the room.
    pub fn remove_participant(&mut self, participant_id: &ParticipantId)
        requires
            old(self).wf(),
        ensures
            final(self).wf(),
            final(self).participants() == old(self).participants().remove(participant_id.0),
    {
        self.participants.remove(&participant_id.0);
    }

    /// Number of participants.
    pub fn len(&self) -> (n: usize)
        ensures
            n == self.participants().len(),
    {
        self.participants.len()
    }

    /// Whether the room has no participant.
    pub fn is_empty(&self) -> (r: bool)
        ensures
            r == (self.participants().len() == 0),
    {
        self.participants.is_empty()
    }

    /// Every participant other than the one with the given id, each once.
    pub fn participants_except(&self, participant_id: &ParticipantId) -> (r: Vec<
        Arc<Participant<PC, WS>>,
    >)
        requires
            self.wf(),
        ensures
            forall|i: int|
                0 <= i < r@.len() ==> {
                    &&& (#[trigger] r@[i]).id != *participant_id
                    &&& self.participants().contains_key(r@[i].id.0)
                    &&& self.participants()[r@[i].id.0] == r@[i]
                },
            forall|i: int, j: int| 0 <= i < j < r@.len() ==> r@[i].id != r@[j].id,
            forall|k: u128|
                #[trigger] self.participants().contains_key(k) && k != participant_id.0 ==> exists|
                    i: int,
                | 0 <= i < r@.len() && r@[i].id.0 == k,
    {
        let ghost m = self.participants@;
        let keys = self.participants.keys();
        let ghost ks: Seq<u128> = keys.remaining().unref();
        assert(ks.to_set() == m.dom());
        let mut out: Vec<Arc<Participant<PC, WS>>> = Vec::new();
        for k in it: keys
            invariant
                m == self.participants@,
                self.wf(),
                it.seq().unref() == ks,
                ks.to_set() == m.dom(),
                ks.no_duplicates(),
                forall|i: int|
                    0 <= i < out@.len() ==> {
                        &&& (#[trigger] out@[i]).id != *participant_id
                        &&& m.contains_key(out@[i].id.0)
                        &&& m[out@[i].id.0] == out@[i]
                        &&& exists|j: int| 0 <= j < it.index() && ks[j] == out@[i].id.0
                    },
                forall|i: int, j: int| 0 <= i < j < out@.len() ==> out@[i].id != out@[j].id,
                forall|j: int|
                    0 <= j < it.index() && ks[j] != participant_id.0 ==> exists|i: int|
                        0 <= i < out@.len() && #[trigger] out@[i].id.0 == ks[j],
        {
            let key: u128 = *k;
            let ghost idx: int = it.index();
            assert(key == ks[idx]);
            let ghost before = out@;
            if key != participant_id.0 {
                match self.participants.get(&key) {
                    Some(p) => {
                        out.push(arc_clone(p));
                        proof {
                            assert(self.participants().contains_key(key));
                            assert(m[key].id.0 == key);
                            assert forall|i: int| 0 <= i < before.len() implies before[i].id
                                != out@[before.len() as int].id by {
                                let j = choose|j: int| 0 <= j < idx && ks[j] == before[i].id.0;
                                assert(ks[j] != ks[idx]);
                            }
                        }
                    },
                    None => {
                        assert(ks.to_set().contains(key));
                    },
                }
            }
            proof {
                assert forall|j: int|
                    0 <= j <= idx && ks[j] != participant_id.0 implies exists|i: int|
                        0 <= i < out@.len() && #[trigger] out@[i].id.0 == ks[j] by {
                    if j == idx {
                        assert(out@[out@.len() - 1].id.0 == ks[j]);
                    } else {
                        let i = choose|i: int| 0 <= i < before.len() && #[trigger] before[i].id.0 == ks[j];
                        assert(out@[i] == before[i]);
                    }
                }
            }
        }
        out
    }
}

impl<PC, WS> Default for RoomInner<PC, WS> {
    fn default() -> (r: Self)
        ensures
            r.wf(),
            r.participants() == Map::<u128, Arc<Participant<PC, WS>>>::empty(),
    {
        RoomInner::new()
    }
}

/// A participant read back after it was filed is the one filed; after it is
/// taken out it is no longer found; other participants are untouched.
pub proof fn lemma_read_after_write<PC, WS>(
    before: RoomInner<PC, WS>,
    added: RoomInner<PC, WS>,
    removed: RoomInner<PC, WS>,
    participant: Arc<Participant<PC, WS>>,
    other: u128,
)
    requires
        added.participants() == before.participants().insert(participant.id.0, participant),
        removed.participants() == added.participants().remove(participant.id.0),
        other != participant.id.0,
    ensures
        added.participants().contains_key(participant.id.0),
        added.participants()[participant.id.0] == participant,
        !removed.participants().contains_key(participant.id.0),
        removed.participants().contains_key(other) == before.participants().contains_key(other),
        before.participants().contains_key(other) ==> removed.participants()[other] == before.participants()[other],
        !before.participants().contains_key(participant.id.0) ==> removed.participants() == before.participants(),
{
    if !before.participants().contains_key(participant.id.0) {
        assert(removed.participants() =~= before.participants());
    }
}

} // verus!
