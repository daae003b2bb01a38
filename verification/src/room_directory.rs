//! The rooms of the server, by room id: a room is made on first use, and a
//! removal is only allowed when the server holds no room at all.

use std::sync::Arc;
use vstd::prelude::*;

use crate::shared::arc_clone;

verus! {

/// Refusal to remove a room.
#[derive(Debug, Clone)]
pub struct NonEmptyRoomError {
    pub room_id: String,
}

/// Text of the refusal for a room id.
pub open spec fn non_empty_room_text(room_id: Seq<char>) -> Seq<char> {
    "Room with id="@ + room_id + " is not empty"@
}

impl NonEmptyRoomError {
    /// The refusal as text: `Room with id=<id> is not empty`.
    pub fn to_string(&self) -> (s: String)
        ensures
            s@ == non_empty_room_text(self.room_id@),
    {
        let mut s = String::from_str("Room with id=");
        s.append(self.room_id.as_str());
        s.append(" is not empty");
        proof {
            reveal_strlit("Room with id=");
            reveal_strlit(" is not empty");
        }
        s
    }
}

/// Room ids of a list of entries, in order.
pub open spec fn ids_of<R>(entries: Seq<(String, Arc<R>)>) -> Seq<Seq<char>> {
    entries.map_values(|e: (String, Arc<R>)| e.0@)
}

/// What looking up `room_id` does: an existing room is returned and nothing
/// changes; otherwise `fresh` is filed last under `room_id` and returned.
pub open spec fn gets_room<R>(
    before: RoomDirectory<R>,
    after: RoomDirectory<R>,
    room_id: Seq<char>,
    fresh: Arc<R>,
    room: Arc<R>,
) -> bool {
    &&& forall|i: int| 0 <= i < before.ids().len() ==> #[trigger] after.room_at(i) == before.room_at(i)
    &&& before.ids().contains(room_id) ==> {
        &&& after.ids() == before.ids()
        &&& exists|i: int| 0 <= i < before.ids().len() && before.ids()[i] == room_id && room == before.room_at(i)
        &&& forall|i: int| 0 <= i < before.ids().len() && #[trigger] before.ids()[i] == room_id ==> room == before.room_at(i)
    }
    &&& !before.ids().contains(room_id) ==> {
        &&& after.ids() == before.ids().push(room_id)
        &&& after.room_at(before.ids().len() as int) == fresh
        &&& room == fresh
    }
}

/// The rooms of the server.
pub struct RoomDirectory<R> {
    rooms: Vec<(String, Arc<R>)>,
}

impl<R> RoomDirectory<R> {
    /// The room ids, in order of creation.
    pub closed spec fn ids(&self) -> Seq<Seq<char>> {
        ids_of(self.rooms@)
    }

    /// The room filed under the `i`-th id.
    pub closed spec fn room_at(&self, i: int) -> Arc<R> {
        self.rooms@[i].1
    }

    /// No room id occurs twice.
    pub open spec fn wf(&self) -> bool {
        self.ids().no_duplicates()
    }

    /// No rooms.
    pub fn new() -> (d: Self)
        ensures
            d.wf(),
            d.ids() == Seq::<Seq<char>>::empty(),
    {
        RoomDirectory { rooms: Vec::new() }
    }

    /// Number of rooms.
    pub fn len(&self) -> (n: usize)
        ensures
            n == self.ids().len(),
    {
        self.rooms.len()
    }

    /// Position of `room_id` among the ids, if present.
    fn position(&self, room_id: &String) -> (r: Option<usize>)
        ensures
            match r {
                Some(i) => i < self.ids().len() && self.ids()[i as int] == room_id@,
                None => !self.ids().contains(room_id@),
            },
    {
        let mut i: usize = 0;
        while i < self.rooms.len()
            invariant
                i <= self.rooms@.len(),
                forall|j: int| 0 <= j < i ==> self.ids()[j] != room_id@,
            decreases self.rooms@.len() - i,
        {
            if self.rooms[i].0 == *room_id {
                return Some(i);
            }
            i = i + 1;
        }
        None
    }

    /// The room with id `room_id`; when there is none, `fresh` is filed under
    /// that id and returned.
    pub fn get_room(&mut self, room_id: &str, fresh: Arc<R>) -> (room: Arc<R>)
        requires
            old(self).wf(),
        ensures
            final(self).wf(),
            gets_room(*old(self), *final(self), room_id@, fresh, room),
            forall|i: int|
                0 <= i < old(self).ids().len() && #[trigger] old(self).ids()[i] == room_id@ ==> room
                    == old(self).room_at(i),
            !old(self).ids().contains(room_id@) ==> room == fresh,
            old(self).ids().contains(room_id@) ==> final(self).ids() == old(self).ids(),
            !old(self).ids().contains(room_id@) ==> final(self).ids() == old(self).ids().push(
                room_id@,
            ),
    {
        let key = String::from_str(room_id);
        match self.position(&key) {
            Some(i) => {
                let room = arc_clone(&self.rooms[i].1);
                assert(self.ids()[i as int] == room_id@);
                assert(room == self.room_at(i as int));
                assert forall|k: int|
                    0 <= k < self.ids().len() && #[trigger] self.ids()[k] == room_id@ implies room
                        == self.room_at(k) by {
                    if k != i {
                        assert(self.ids()[k] != self.ids()[i as int]);
                    }
                }
                room
            },
            None => {
                let room = arc_clone(&fresh);
                self.rooms.push((key, fresh));
                proof {
                    let old_ids = ids_of(old(self).rooms@);
                    assert(self.ids() =~= old_ids.push(room_id@));
                    assert forall|a: int, b: int|
                        0 <= a < b < self.ids().len() implies self.ids()[a] != self.ids()[b] by {
                        if b == old_ids.len() {
                            assert(old_ids[a] != room_id@);
                        }
                    }
                }
                room
            },
        }
    }

    /// Removal of a room: allowed, and a no-op, only when the server holds
    /// no room at all; otherwise refused with the room id. The rooms never
    /// change.
    pub fn remove_room(&mut self, room_id: &str) -> (r: Result<(), NonEmptyRoomError>)
        ensures
            final(self).ids() == old(self).ids(),
            forall|i: int| 0 <= i < old(self).ids().len() ==> #[trigger] final(self).room_at(i) == old(self).room_at(i),
            r is Ok <==> old(self).ids().len() == 0,
            r matches Err(e) ==> e.room_id@ == room_id@,
    {
        if self.rooms.len() == 0 {
            Ok(())
        } else {
            Err(NonEmptyRoomError { room_id: String::from_str(room_id) })
        }
    }
}

/// Looking up an id that is already filed returns the room filed under that
/// id, and files nothing new.
pub proof fn lemma_get_room_returns_filed_room<R>(
    before: RoomDirectory<R>,
    after: RoomDirectory<R>,
    room_id: Seq<char>,
    fresh: Arc<R>,
    room: Arc<R>,
    i: int,
)
    requires
        before.wf(),
        gets_room(before, after, room_id, fresh, room),
        0 <= i < before.ids().len(),
        before.ids()[i] == room_id,
    ensures
        room == before.room_at(i),
        after.ids() == before.ids(),
        after.room_at(i) == before.room_at(i),
{
    assert(before.ids().contains(room_id));
    let k = choose|k: int| 0 <= k < before.ids().len() && before.ids()[k] == room_id && room == before.room_at(k);
    if k != i {
        assert(before.ids()[k] != before.ids()[i]);
    }
}

/// Looking a room up twice gives the same room, and the second lookup
/// changes nothing.
pub proof fn lemma_get_room_idempotent<R>(
    d0: RoomDirectory<R>,
    d1: RoomDirectory<R>,
    d2: RoomDirectory<R>,
    room_id: Seq<char>,
    fresh1: Arc<R>,
    fresh2: Arc<R>,
    room1: Arc<R>,
    room2: Arc<R>,
)
    requires
        d0.wf(),
        d1.wf(),
        gets_room(d0, d1, room_id, fresh1, room1),
        gets_room(d1, d2, room_id, fresh2, room2),
    ensures
        room2 == room1,
        d2.ids() == d1.ids(),
        forall|i: int| 0 <= i < d1.ids().len() ==> #[trigger] d2.room_at(i) == d1.room_at(i),
{
    if d0.ids().contains(room_id) {
        let i = choose|i: int| 0 <= i < d0.ids().len() && d0.ids()[i] == room_id && room1 == d0.room_at(i);
        assert(d1.ids().contains(room_id));
        let j = choose|j: int| 0 <= j < d1.ids().len() && d1.ids()[j] == room_id && room2 == d1.room_at(j);
        assert(d1.room_at(i) == d0.room_at(i));
        assert(i == j);
    } else {
        let n = d0.ids().len() as int;
        assert(d1.ids()[n] == room_id);
        assert(d1.ids().contains(room_id));
        let j = choose|j: int| 0 <= j < d1.ids().len() && d1.ids()[j] == room_id && room2 == d1.room_at(j);
        assert(j == n);
    }
}

} // verus!
