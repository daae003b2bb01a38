//! A user of the user-keyed server.

use std::sync::Arc;
use vstd::prelude::*;

verus! {

/// A connected user, told apart from others by id alone.
pub struct User<PC, WS> {
    pub id: u128,
    pub peer_connection: Arc<PC>,
    pub ws_sender: Arc<WS>,
}

impl<PC, WS> User<PC, WS> {
    /// A user with the given parts.
    pub fn new(id: u128, peer_connection: Arc<PC>, ws_sender: Arc<WS>) -> (u: Self)
        ensures
            u.id == id,
            u.peer_connection == peer_connection,
            u.ws_sender == ws_sender,
    {
        User { id, peer_connection, ws_sender }
    }
}

impl<PC, WS> PartialEq for User<PC, WS> {
    fn eq(&self, other: &Self) -> (r: bool) {
        self.id == other.id
    }
}

impl<PC, WS> vstd::std_specs::cmp::PartialEqSpecImpl for User<PC, WS> {
    open spec fn obeys_eq_spec() -> bool {
        true
    }

    open spec fn eq_spec(&self, other: &Self) -> bool {
        self.id == other.id
    }
}

impl<PC, WS> Eq for User<PC, WS> {
}

} // verus!
