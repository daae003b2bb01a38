//! Users of a room and, per user, the transmitters of the tracks they send.

use std::collections::HashMap;
use std::sync::Arc;
use vstd::prelude::*;

use crate::models::user::User;
use crate::shared::arc_clone;
use vstd::std_specs::iter::IteratorSpec;

verus! {

broadcast use vstd::std_specs::hash::group_hash_axioms;

/// The users of a room, keyed by user id, and the track transmitters of each
/// user (a shared, lockable list supplied by the server).
pub struct Room<PC, WS, M> {
    users: HashMap<u128, User<PC, WS>>,
    tracks_transmitters: HashMap<u128, Arc<M>>,
}

impl<PC, WS, M> Room<PC, WS, M> {
    /// The users by key.
    pub closed spec fn users(&self) -> Map<u128, User<PC, WS>> {
        self.users@
    }

    /// The transmitter lists by user key.
    pub closed spec fn transmitters(&self) -> Map<u128, Arc<M>> {
        self.tracks_transmitters@
    }

    /// An empty room.
    pub fn new() -> (r: Self)
        ensures
            r.users() == Map::<u128, User<PC, WS>>::empty(),
            r.transmitters() == Map::<u128, Arc<M>>::empty(),
    {
        Room { users: HashMap::new(), tracks_transmitters: HashMap::new() }
    }

    /// Files `user` under `user_id`, replacing any user filed there.
    pub fn add_user(&mut self, user_id: u128, user: User<PC, WS>)
        ensures
            final(self).users() == old(self).users().insert(user_id, user),
            final(self).transmitters() == old(self).transmitters(),
    {
        self.users.insert(user_id, user);
    }

    /// The transmitter list of `user_id`; `fresh` is filed and returned when
    /// the user has none yet.
    pub fn add_track_transmitter(&mut self, user_id: u128, fresh: Arc<M>) -> (list: Arc<M>)
        ensures
            final(self).users() == old(self).users(),
            old(self).transmitters().contains_key(user_id) ==> {
                &&& final(self).transmitters() == old(self).transmitters()
                &&& list == old(self).transmitters()[user_id]
            },
            !old(self).transmitters().contains_key(user_id) ==> {
                &&& final(self).transmitters() == old(self).transmitters().insert(user_id, fresh)
                &&& list == fresh
            },
    {
        match self.tracks_transmitters.get(&user_id) {
            Some(existing) => arc_clone(existing),
            None => {
                let list = arc_clone(&fresh);
                self.tracks_transmitters.insert(user_id, fresh);
                list
            },
        }
    }

    /// The users whose own id differs from `user_id`, each filed user once.
    pub fn iter_users_except(&self, user_id: &u128) -> (r: Vec<&User<PC, WS>>)
        ensures
            exists|ks: Seq<u128>|
                {
                    &&& ks.len() == r@.len()
                    &&& ks.no_duplicates()
                    &&& forall|i: int|
                        0 <= i < ks.len() ==> {
                            &&& self.users().contains_key(#[trigger] ks[i])
                            &&& self.users()[ks[i]] == *r@[i]
                            &&& r@[i].id != *user_id
                        }
                    &&& forall|k: u128|
                        #[trigger] self.users().contains_key(k) && self.users()[k].id != *user_id
                            ==> ks.contains(k)
                },
    {
        let ghost m = self.users@;
        let keys = self.users.keys();
        let ghost all: Seq<u128> = keys.remaining().unref();
        let ghost mut taken: Seq<u128> = Seq::empty();
        let mut out: Vec<&User<PC, WS>> = Vec::new();
        for k in it: keys
            invariant
                m == self.users@,
                it.seq().unref() == all,
                all.to_set() == m.dom(),
                all.no_duplicates(),
                taken.len() == out@.len(),
                taken.no_duplicates(),
                forall|i: int|
                    0 <= i < taken.len() ==> {
                        &&& m.contains_key(#[trigger] taken[i])
                        &&& m[taken[i]] == *out@[i]
                        &&& out@[i].id != *user_id
                        &&& exists|j: int| 0 <= j < it.index() && all[j] == taken[i]
                    },
                forall|j: int|
                    0 <= j < it.index() && m.contains_key(all[j]) && m[all[j]].id != *user_id
                        ==> taken.contains(#[trigger] all[j]),
        {
            let key: u128 = *k;
            let ghost idx: int = it.index();
            assert(key == all[idx]);
            let ghost before = taken;
            match self.users.get(&key) {
                Some(u) => {
                    if u.id != *user_id {
                        out.push(u);
                        proof {
                            assert forall|i: int| 0 <= i < before.len() implies before[i] != key by {
                                let j = choose|j: int| 0 <= j < idx && all[j] == before[i];
                                assert(all[j] != all[idx]);
                            }
                            taken = taken.push(key);
                            assert(taken.last() == key);
                        }
                    }
                },
                None => {
                    assert(all.to_set().contains(key));
                },
            }
            proof {
                assert forall|j: int|
                    0 <= j <= idx && m.contains_key(all[j]) && m[all[j]].id != *user_id
                        implies taken.contains(#[trigger] all[j]) by {
                    if j == idx {
                        assert(taken[taken.len() - 1] == all[j]);
                    } else {
                        assert(before.contains(all[j]));
                        let i = choose|i: int| 0 <= i < before.len() && before[i] == all[j];
                        assert(taken[i] == before[i]);
                    }
                }
                assert forall|i: int| 0 <= i < taken.len() implies exists|j: int|
                    0 <= j < idx + 1 && all[j] == #[trigger] taken[i] by {
                    if i < before.len() {
                        let j = choose|j: int| 0 <= j < idx && all[j] == before[i];
                        assert(all[j] == taken[i]);
                    } else {
                        assert(all[idx] == taken[i]);
                    }
                }
            }
        }
        proof {
            assert forall|k: u128|
                #[trigger] m.contains_key(k) && m[k].id != *user_id implies taken.contains(k) by {
                assert(all.to_set().contains(k));
                let j = choose|j: int| 0 <= j < all.len() && all[j] == k;
                assert(m.contains_key(all[j]));
            }
        }
        out
    }

    /// The user filed under `user_id`.
    pub fn get_user(&self, user_id: &u128) -> (r: Option<&User<PC, WS>>)
        ensures
            match r {
                Some(u) => self.users().contains_key(*user_id) && *u == self.users()[*user_id],
                None => !self.users().contains_key(*user_id),
            },
    {
        self.users.get(user_id)
    }

    /// Takes `user_id` out, with its transmitter list.
    pub fn remove_user(&mut self, user_id: &u128)
        ensures
            final(self).users() == old(self).users().remove(*user_id),
            final(self).transmitters() == old(self).transmitters().remove(*user_id),
    {
        self.users.remove(user_id);
        self.tracks_transmitters.remove(user_id);
    }

    /// The transmitter list of `user_id`, if it has one.
    pub fn get_tracks_transmitters(&self, user_id: &u128) -> (r: Option<&Arc<M>>)
        ensures
            match r {
                Some(t) => self.transmitters().contains_key(*user_id) && *t == self.transmitters()[*user_id],
                None => !self.transmitters().contains_key(*user_id),
            },
    {
        self.tracks_transmitters.get(user_id)
    }
    /// For every other user filed in the room that has a transmitter list,
    /// its key and that list: the tracks a newly joined `user_id` is routed.
    pub fn transmitters_of_others(&self, user_id: &u128) -> (r: Vec<(u128, Arc<M>)>)
        ensures
            forall|i: int|
                0 <= i < r@.len() ==> {
                    &&& self.users().contains_key((#[trigger] r@[i]).0)
                    &&& r@[i].0 != *user_id
                    &&& self.transmitters().contains_key(r@[i].0)
                    &&& r@[i].1 == self.transmitters()[r@[i].0]
                },
            forall|i: int, j: int| 0 <= i < j < r@.len() ==> r@[i].0 != r@[j].0,
            forall|k: u128|
                #[trigger] self.users().contains_key(k) && k != *user_id
                    && self.transmitters().contains_key(k) ==> exists|i: int|
                    0 <= i < r@.len() && r@[i].0 == k,
    {
        let ghost m = self.users@;
        let keys = self.users.keys();
        let ghost all: Seq<u128> = keys.remaining().unref();
        let mut out: Vec<(u128, Arc<M>)> = Vec::new();
        for k in it: keys
            invariant
                m == self.users@,
                it.seq().unref() == all,
                all.to_set() == m.dom(),
                all.no_duplicates(),
                forall|i: int|
                    0 <= i < out@.len() ==> {
                        &&& m.contains_key((#[trigger] out@[i]).0)
                        &&& out@[i].0 != *user_id
                        &&& self.transmitters().contains_key(out@[i].0)
                        &&& out@[i].1 == self.transmitters()[out@[i].0]
                        &&& exists|j: int| 0 <= j < it.index() && all[j] == out@[i].0
                    },
                forall|i: int, j: int| 0 <= i < j < out@.len() ==> out@[i].0 != out@[j].0,
                forall|j: int|
                    0 <= j < it.index() && all[j] != *user_id && self.transmitters().contains_key(all[j])
                        ==> exists|i: int| 0 <= i < out@.len() && #[trigger] out@[i].0 == all[j],
        {
            let key: u128 = *k;
            let ghost idx: int = it.index();
            assert(key == all[idx]);
            let ghost before = out@;
            if key != *user_id {
                match self.tracks_transmitters.get(&key) {
                    Some(list) => {
                        out.push((key, arc_clone(list)));
                        proof {
                            assert(all.to_set().contains(key));
                            assert forall|i: int| 0 <= i < before.len() implies before[i].0 != key by {
                                let j = choose|j: int| 0 <= j < idx && all[j] == before[i].0;
                                assert(all[j] != all[idx]);
                            }
                        }
                    },
                    None => {},
                }
            }
            proof {
                assert forall|j: int|
                    0 <= j <= idx && all[j] != *user_id && self.transmitters().contains_key(all[j])
                        implies exists|i: int| 0 <= i < out@.len() && #[trigger] out@[i].0 == all[j] by {
                    if j == idx {
                        assert(out@[out@.len() - 1].0 == all[j]);
                    } else {
                        let i = choose|i: int| 0 <= i < before.len() && #[trigger] before[i].0 == all[j];
                        assert(out@[i] == before[i]);
                    }
                }
            }
        }
        proof {
            assert forall|k: u128|
                #[trigger] m.contains_key(k) && k != *user_id && self.transmitters().contains_key(k)
                    implies exists|i: int| 0 <= i < out@.len() && out@[i].0 == k by {
                assert(all.to_set().contains(k));
                let j = choose|j: int| 0 <= j < all.len() && all[j] == k;
                assert(m.contains_key(all[j]));
            }
        }
        out
    }
}

impl<PC, WS, M> Default for Room<PC, WS, M> {
    fn default() -> (r: Self)
        ensures
            r.users() == Map::<u128, User<PC, WS>>::empty(),
            r.transmitters() == Map::<u128, Arc<M>>::empty(),
    {
        Room::new()
    }
}

} // verus!
