//! A participant of a call: its identity, its peer connection and the
//! sending half of its signaling socket.

use std::sync::Arc;
use vstd::prelude::*;

use crate::ids::ParticipantId;

verus! {

/// A connected participant. The connection and socket types are supplied by
/// the server; participants are told apart by id alone.
pub struct Participant<PC, WS> {
    pub id: ParticipantId,
    pub peer_connection: Arc<PC>,
    pub ws_sender: Arc<WS>,
}

impl<PC, WS> Participant<PC, WS> {
    /// A participant with the given parts.
    pub fn new(id: ParticipantId, peer_connection: Arc<PC>, ws_sender: Arc<WS>) -> (p: Self)
        ensures
            p.id == id,
            p.peer_connection == peer_connection,
            p.ws_sender == ws_sender,
    {
        Participant { id, peer_connection, ws_sender }
    }
}

impl<PC, WS> PartialEq for Participant<PC, WS> {
    fn eq(&self, other: &Self) -> (r: bool) {
        self.id.0 == other.id.0
    }
}

impl<PC, WS> vstd::std_specs::cmp::PartialEqSpecImpl for Participant<PC, WS> {
    open spec fn obeys_eq_spec() -> bool {
        true
    }

    open spec fn eq_spec(&self, other: &Self) -> bool {
        self.id == other.id
    }
}

impl<PC, WS> Eq for Participant<PC, WS> {
}

} // verus!
