//! Bookkeeping of track replays: each source track of a participant is
//! replayed into one output track, which is attached, through one sender
//! each, to the other participants.

use std::collections::HashMap;
use std::sync::Arc;
use vstd::prelude::*;

use crate::ids::{uuid_text, ParticipantId};
use crate::shared::arc_clone;

verus! {

broadcast use vstd::std_specs::hash::group_hash_axioms;

/// The map built by inserting `pairs` in order, so that a later pair wins.
pub open spec fn pairs_to_map<X>(pairs: Seq<(ParticipantId, X)>) -> Map<u128, X>
    decreases pairs.len(),
{
    if pairs.len() == 0 {
        Map::empty()
    } else {
        pairs_to_map(pairs.drop_last()).insert(pairs.last().0.0, pairs.last().1)
    }
}

/// The stream id under which a participant's tracks are replayed.
pub open spec fn stream_id_text(source: ParticipantId) -> Seq<char> {
    "stream-"@ + uuid_text(source.0)
}

/// One replayed source track: where it comes from, the output track it is
/// written to, and the sender that attaches the output track to each target
/// participant (keyed by the target's id).
pub struct Replay<S, T, X> {
    pub source_participant: ParticipantId,
    pub source: Arc<S>,
    pub target: Arc<T>,
    pub senders: HashMap<u128, Arc<X>>,
}

impl<S, T, X> Replay<S, T, X> {
    /// A replay of `source` from `source_participant` into `target`.
    pub fn new(
        source_participant: ParticipantId,
        source: Arc<S>,
        target: Arc<T>,
        senders: HashMap<u128, Arc<X>>,
    ) -> (r: Self)
        ensures
            r.source_participant == source_participant,
            r.source == source,
            r.target == target,
            r.senders == senders,
    {
        Replay { source_participant, source, target, senders }
    }
}

/// Same replay with one target's sender taken out.
pub open spec fn without_target<S, T, X>(
    before: Replay<S, T, X>,
    after: Replay<S, T, X>,
    target: ParticipantId,
) -> bool {
    &&& after.source_participant == before.source_participant
    &&& after.source == before.source
    &&& after.target == before.target
    &&& after.senders@ == before.senders@.remove(target.0)
}

/// Same replay with one more sender for `target`.
pub open spec fn with_target<S, T, X>(
    before: Replay<S, T, X>,
    after: Replay<S, T, X>,
    target: ParticipantId,
    sender: Arc<X>,
) -> bool {
    &&& after.source_participant == before.source_participant
    &&& after.source == before.source
    &&& after.target == before.target
    &&& after.senders@ == before.senders@.insert(target.0, sender)
}

/// Attaching a participant that a replay did not send to, then detaching it,
/// gives back the replay's senders unchanged.
pub proof fn lemma_attach_detach_restores<S, T, X>(
    before: Replay<S, T, X>,
    attached: Replay<S, T, X>,
    detached: Replay<S, T, X>,
    participant: ParticipantId,
    sender: Arc<X>,
)
    requires
        !before.senders@.contains_key(participant.0),
        with_target(before, attached, participant, sender),
        without_target(attached, detached, participant),
    ensures
        detached.senders@ == before.senders@,
        detached.source_participant == before.source_participant,
        detached.source == before.source,
        detached.target == before.target,
{
    assert(before.senders@.insert(participant.0, sender).remove(participant.0) =~= before.senders@);
}

/// All replays, in the order they were created.
pub struct Replayer<S, T, X> {
    replays: Vec<Replay<S, T, X>>,
}

impl<S, T, X> Replayer<S, T, X> {
    /// The replays, oldest first.
    pub closed spec fn replays(&self) -> Seq<Replay<S, T, X>> {
        self.replays@
    }

    /// No replays.
    pub fn new() -> (r: Self)
        ensures
            r.replays() == Seq::<Replay<S, T, X>>::empty(),
    {
        Replayer { replays: Vec::new() }
    }

    /// Number of replays.
    pub fn len(&self) -> (n: usize)
        ensures
            n == self.replays().len(),
    {
        self.replays.len()
    }

    /// The stream id of a participant's replayed tracks: `stream-<uuid>`.
    pub fn build_stream_id(source_participant_id: ParticipantId) -> (s: String)
        ensures
            s@ == stream_id_text(source_participant_id),
    {
        let mut s = String::from_str("stream-");
        s.append(source_participant_id.to_string().as_str());
        proof {
            reveal_strlit("stream-");
        }
        s
    }

    /// Records a new replay of `source` from `source_participant` into
    /// `target`, with the given senders (a later sender for the same
    /// participant replaces an earlier one).
    pub fn create_replay(
        &mut self,
        source_participant: ParticipantId,
        source: Arc<S>,
        target: Arc<T>,
        senders: Vec<(ParticipantId, Arc<X>)>,
    )
        ensures
            final(self).replays().len() == old(self).replays().len() + 1,
            final(self).replays().subrange(0, old(self).replays().len() as int)
                == old(self).replays(),
            ({
                let r = final(self).replays().last();
                &&& r.source_participant == source_participant
                &&& r.source == source
                &&& r.target == target
                &&& r.senders@ == pairs_to_map(senders@)
            }),
    {
        let mut map: HashMap<u128, Arc<X>> = HashMap::new();
        let mut i: usize = 0;
        while i < senders.len()
            invariant
                i <= senders@.len(),
                map@ == pairs_to_map(senders@.subrange(0, i as int)),
            decreases senders@.len() - i,
        {
            let (id, sender) = &senders[i];
            map.insert(id.0, arc_clone(sender));
            proof {
                let sub = senders@.subrange(0, i + 1);
                assert(sub.drop_last() == senders@.subrange(0, i as int));
            }
            i = i + 1;
        }
        assert(senders@.subrange(0, senders@.len() as int) == senders@);
        self.replays.push(Replay::new(source_participant, source, target, map));
    }

    /// Replays whose source belongs to `participant` are taken out and
    /// returned, oldest first; the others keep their order.
    pub fn remove_source(&mut self, participant: ParticipantId) -> (removed: Vec<Replay<S, T, X>>)
        ensures
            removed@ == old(self).replays().filter(
                |r: Replay<S, T, X>| r.source_participant == participant,
            ),
            final(self).replays() == old(self).replays().filter(
                |r: Replay<S, T, X>| r.source_participant != participant,
            ),
    {
        let ghost start = self.replays@;
        let ghost is_source = |r: Replay<S, T, X>| r.source_participant == participant;
        let ghost not_source = |r: Replay<S, T, X>| r.source_participant != participant;
        let mut kept: Vec<Replay<S, T, X>> = Vec::new();
        let mut removed: Vec<Replay<S, T, X>> = Vec::new();
        let mut rest: Vec<Replay<S, T, X>> = Vec::new();
        std::mem::swap(&mut rest, &mut self.replays);
        let ghost n = start.len();
        while rest.len() > 0
            invariant
                n == start.len(),
                is_source == (|r: Replay<S, T, X>| r.source_participant == participant),
                not_source == (|r: Replay<S, T, X>| r.source_participant != participant),
                rest@.len() <= n,
                rest@ == start.subrange(n - rest@.len(), n as int),
                kept@ == start.subrange(0, n - rest@.len()).filter(not_source),
                removed@ == start.subrange(0, n - rest@.len()).filter(is_source),
            decreases rest@.len(),
        {
            let ghost done: int = n - rest@.len();
            let r = rest.remove(0);
            let ghost pre = start.subrange(0, done + 1);
            proof {
                assert(r == start[done]);
                assert(pre.drop_last() == start.subrange(0, done));
                assert(pre.last() == r);
                assert(rest@ == start.subrange(n - rest@.len(), n as int));
                reveal_with_fuel(Seq::filter, 1);
                assert(pre.filter(not_source) == if not_source(r) {
                    start.subrange(0, done).filter(not_source).push(r)
                } else {
                    start.subrange(0, done).filter(not_source)
                });
                assert(pre.filter(is_source) == if is_source(r) {
                    start.subrange(0, done).filter(is_source).push(r)
                } else {
                    start.subrange(0, done).filter(is_source)
                });
            }
            if r.source_participant == participant {
                removed.push(r);
            } else {
                kept.push(r);
            }
            assert(n - rest@.len() == done + 1);
            assert(kept@ == pre.filter(not_source));
            assert(removed@ == pre.filter(is_source));
        }
        assert(start.subrange(0, n as int) == start);
        self.replays = kept;
        removed
    }

    /// Every replay drops its sender for `participant`.
    pub fn remove_target(&mut self, participant: ParticipantId)
        ensures
            final(self).replays().len() == old(self).replays().len(),
            forall|i: int|
                0 <= i < old(self).replays().len() ==> without_target(
                    #[trigger] old(self).replays()[i],
                    final(self).replays()[i],
                    participant,
                ),
            forall|i: int|
                0 <= i < old(self).replays().len() ==> {
                    &&& (#[trigger] final(self).replays()[i]).source_participant == old(
                        self,
                    ).replays()[i].source_participant
                    &&& final(self).replays()[i].source == old(self).replays()[i].source
                    &&& final(self).replays()[i].target == old(self).replays()[i].target
                    &&& final(self).replays()[i].senders@ == old(self).replays()[i].senders@.remove(
                        participant.0,
                    )
                },
    {
        let ghost start = self.replays@;
        let mut i: usize = 0;
        while i < self.replays.len()
            invariant
                self.replays@.len() == start.len(),
                i <= start.len(),
                forall|j: int|
                    0 <= j < i ==> without_target(#[trigger] start[j], self.replays@[j], participant),
                forall|j: int| i <= j < start.len() ==> #[trigger] self.replays@[j] == start[j],
            decreases start.len() - i,
        {
            let mut r = self.replays.remove(i);
            r.senders.remove(&participant.0);
            self.replays.insert(i, r);
            i = i + 1;
        }
    }

    /// Takes out everything that involves `participant`: the replays of its
    /// tracks are removed and returned, and the remaining replays drop their
    /// senders to it.
    pub fn remove_replays(&mut self, participant: ParticipantId) -> (removed: Vec<Replay<S, T, X>>)
        ensures
            removed@ == old(self).replays().filter(
                |r: Replay<S, T, X>| r.source_participant == participant,
            ),
            final(self).replays().len() == old(self).replays().filter(
                |r: Replay<S, T, X>| r.source_participant != participant,
            ).len(),
            forall|i: int|
                0 <= i < final(self).replays().len() ==> without_target(
                    old(self).replays().filter(
                        |r: Replay<S, T, X>| r.source_participant != participant,
                    )[i],
                    #[trigger] final(self).replays()[i],
                    participant,
                ),
            forall|i: int|
                0 <= i < final(self).replays().len() ==> {
                    &&& (#[trigger] final(self).replays()[i]).source_participant != participant
                    &&& !final(self).replays()[i].senders@.contains_key(participant.0)
                },
            forall|i: int|
                0 <= i < removed@.len() ==> (#[trigger] removed@[i]).source_participant
                    == participant,
            forall|i: int|
                0 <= i < final(self).replays().len() ==> {
                    let kept = old(self).replays().filter(
                        |r: Replay<S, T, X>| r.source_participant != participant,
                    )[i];
                    &&& (#[trigger] final(self).replays()[i]).source_participant
                        == kept.source_participant
                    &&& final(self).replays()[i].source == kept.source
                    &&& final(self).replays()[i].target == kept.target
                    &&& final(self).replays()[i].senders@ == kept.senders@.remove(participant.0)
                },
    {
        let ghost start = self.replays@;
        let removed = self.remove_source(participant);
        let ghost kept = self.replays@;
        self.remove_target(participant);
        proof {
            let not_source = |r: Replay<S, T, X>| r.source_participant != participant;
            let is_source = |r: Replay<S, T, X>| r.source_participant == participant;
            assert forall|i: int| 0 <= i < kept.len() implies (#[trigger] kept[i]).source_participant
                != participant by {
                start.lemma_filter_pred(not_source, i);
            }
            assert forall|i: int| 0 <= i < removed@.len() implies (#[trigger] removed@[i]).source_participant
                == participant by {
                start.lemma_filter_pred(is_source, i);
            }
            assert forall|i: int| 0 <= i < self.replays@.len() implies {
                &&& (#[trigger] self.replays@[i]).source_participant != participant
                &&& !self.replays@[i].senders@.contains_key(participant.0)
            } by {
                assert(without_target(kept[i], self.replays@[i], participant));
                assert(kept[i].source_participant != participant);
            }
        }
        removed
    }

    /// The output track of every replay, in order: what a new participant
    /// must be attached to.
    pub fn target_tracks(&self) -> (tracks: Vec<Arc<T>>)
        ensures
            tracks@.len() == self.replays().len(),
            forall|i: int| 0 <= i < tracks@.len() ==> #[trigger] tracks@[i] == self.replays()[i].target,
    {
        let mut tracks: Vec<Arc<T>> = Vec::new();
        let mut i: usize = 0;
        while i < self.replays.len()
            invariant
                i <= self.replays@.len(),
                tracks@.len() == i,
                forall|j: int| 0 <= j < i ==> #[trigger] tracks@[j] == self.replays@[j].target,
            decreases self.replays@.len() - i,
        {
            tracks.push(arc_clone(&self.replays[i].target));
            i = i + 1;
        }
        tracks
    }

    /// Attaches `participant` to every replay: replay `i` gets `senders[i]`
    /// as the sender to it.
    pub fn add_target_to_replays(&mut self, participant: ParticipantId, senders: Vec<Arc<X>>)
        requires
            senders@.len() == old(self).replays().len(),
        ensures
            final(self).replays().len() == old(self).replays().len(),
            forall|i: int|
                0 <= i < old(self).replays().len() ==> with_target(
                    #[trigger] old(self).replays()[i],
                    final(self).replays()[i],
                    participant,
                    senders@[i],
                ),
    {
        let ghost start = self.replays@;
        let mut i: usize = 0;
        while i < self.replays.len()
            invariant
                self.replays@.len() == start.len(),
                senders@.len() == start.len(),
                i <= start.len(),
                forall|j: int|
                    0 <= j < i ==> with_target(
                        #[trigger] start[j],
                        self.replays@[j],
                        participant,
                        senders@[j],
                    ),
                forall|j: int| i <= j < start.len() ==> #[trigger] self.replays@[j] == start[j],
            decreases start.len() - i,
        {
            let mut r = self.replays.remove(i);
            r.senders.insert(participant.0, arc_clone(&senders[i]));
            self.replays.insert(i, r);
            i = i + 1;
        }
    }
}

impl<S, T, X> Default for Replayer<S, T, X> {
    fn default() -> (r: Self)
        ensures
            r.replays() == Seq::<Replay<S, T, X>>::empty(),
    {
        Replayer::new()
    }
}

} // verus!
