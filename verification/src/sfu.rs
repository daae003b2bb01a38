//! Routing decisions of the forwarding unit: who receives what, and what a
//! participant's arrival and departure change in the room and the replays.

use std::sync::Arc;
use vstd::prelude::*;

use crate::ids::{uuid_text, ParticipantId};
use crate::media::{codec_kind_text, output_mime_type, CodecKind, PeerConnectionState};
use crate::participant::Participant;
use crate::replayer::{stream_id_text, with_target, Replay, Replayer};
use crate::room::RoomInner;

verus! {

/// Whether a new source track of this kind gets periodic picture-loss
/// indications: video tracks do.
pub fn needs_picture_loss_indication(kind: CodecKind) -> (r: bool)
    ensures
        r == (kind == CodecKind::Video),
{
    kind == CodecKind::Video
}

/// Whether a change of a participant's connection state tears the
/// participant down: a disconnection does.
pub fn tears_down(state: PeerConnectionState) -> (r: bool)
    ensures
        r == (state == PeerConnectionState::Disconnected),
{
    state == PeerConnectionState::Disconnected
}

/// The participants that a message from `sender` is relayed to, or that a
/// new track of `sender` is replayed to: everyone else in the room.
pub fn others_in_room<PC, WS>(room: &RoomInner<PC, WS>, sender: ParticipantId) -> (r: Vec<
    Arc<Participant<PC, WS>>,
>)
    requires
        room.wf(),
    ensures
        forall|i: int|
            0 <= i < r@.len() ==> {
                &&& (#[trigger] r@[i]).id != sender
                &&& room.participants().contains_key(r@[i].id.0)
                &&& room.participants()[r@[i].id.0] == r@[i]
            },
        forall|i: int, j: int| 0 <= i < j < r@.len() ==> r@[i].id != r@[j].id,
        forall|k: u128|
            #[trigger] room.participants().contains_key(k) && k != sender.0 ==> exists|i: int|
                0 <= i < r@.len() && r@[i].id.0 == k,
{
    room.participants_except(&sender)
}

/// Names of the output track that replays a source track.
pub struct TargetTrackSpec {
    pub mime_type: String,
    pub track_id: String,
    pub stream_id: String,
}

/// The output track for a track of `kind` from `source`: VP8 for video,
/// Opus otherwise; id `track-<uuid>-<kind>`; stream `stream-<uuid>`.
pub fn target_track_spec(source: ParticipantId, kind: CodecKind) -> (t: TargetTrackSpec)
    ensures
        t.mime_type@ == output_mime_type(kind),
        t.track_id@ == "track-"@ + uuid_text(source.0) + "-"@ + codec_kind_text(kind),
        t.stream_id@ == stream_id_text(source),
{
    let mime_type = if kind == CodecKind::Video {
        let m = String::from_str("video/VP8");
        proof {
            reveal_strlit("video/VP8");
        }
        m
    } else {
        let m = String::from_str("audio/opus");
        proof {
            reveal_strlit("audio/opus");
        }
        m
    };
    let mut track_id = String::from_str("track-");
    track_id.append(source.to_string().as_str());
    track_id.append("-");
    track_id.append(kind.to_string().as_str());
    proof {
        reveal_strlit("track-");
        reveal_strlit("-");
    }
    let stream_id = Replayer::<(), (), ()>::build_stream_id(source);
    TargetTrackSpec { mime_type, track_id, stream_id }
}

/// A participant joins: it is filed in the room and attached to every
/// existing replay, replay `i` through `senders[i]`.
pub fn admit_participant<PC, WS, S, T, X>(
    room: &mut RoomInner<PC, WS>,
    replayer: &mut Replayer<S, T, X>,
    participant: Arc<Participant<PC, WS>>,
    senders: Vec<Arc<X>>,
)
    requires
        old(room).wf(),
        senders@.len() == old(replayer).replays().len(),
    ensures
        final(room).wf(),
        final(room).participants() == old(room).participants().insert(participant.id.0, participant),
        final(replayer).replays().len() == old(replayer).replays().len(),
        forall|i: int|
            0 <= i < old(replayer).replays().len() ==> with_target(
                #[trigger] old(replayer).replays()[i],
                final(replayer).replays()[i],
                participant.id,
                senders@[i],
            ),
        final(room).participants().contains_key(participant.id.0),
        forall|i: int|
            0 <= i < final(replayer).replays().len() ==> (#[trigger] final(replayer).replays()[i]).senders@.contains_key(participant.id.0),
{
    let id = participant.id;
    room.add_participant(participant);
    replayer.add_target_to_replays(id, senders);
    assert forall|i: int| 0 <= i < replayer.replays().len() implies (#[trigger] replayer.replays()[i]).senders@.contains_key(id.0) by {
        assert(with_target(old(replayer).replays()[i], replayer.replays()[i], id, senders@[i]));
    }
}

/// A participant leaves: the replays of its tracks are taken out and
/// returned, no replay keeps a sender to it, and it leaves the room.
pub fn forget_participant<PC, WS, S, T, X>(
    room: &mut RoomInner<PC, WS>,
    replayer: &mut Replayer<S, T, X>,
    participant: ParticipantId,
) -> (removed: Vec<Replay<S, T, X>>)
    requires
        old(room).wf(),
    ensures
        final(room).wf(),
        final(room).participants() == old(room).participants().remove(participant.0),
        removed@ == old(replayer).replays().filter(
            |r: Replay<S, T, X>| r.source_participant == participant,
        ),
        !final(room).participants().contains_key(participant.0),
        forall|i: int|
            0 <= i < final(replayer).replays().len() ==> {
                &&& (#[trigger] final(replayer).replays()[i]).source_participant != participant
                &&& !final(replayer).replays()[i].senders@.contains_key(participant.0)
            },
        final(replayer).replays().len() == old(replayer).replays().filter(
            |r: Replay<S, T, X>| r.source_participant != participant,
        ).len(),
        forall|i: int|
            0 <= i < final(replayer).replays().len() ==> {
                let kept = old(replayer).replays().filter(
                    |r: Replay<S, T, X>| r.source_participant != participant,
                )[i];
                &&& (#[trigger] final(replayer).replays()[i]).source_participant
                    == kept.source_participant
                &&& final(replayer).replays()[i].source == kept.source
                &&& final(replayer).replays()[i].target == kept.target
                &&& final(replayer).replays()[i].senders@ == kept.senders@.remove(participant.0)
            },
{
    let removed = replayer.remove_replays(participant);
    room.remove_participant(&participant);
    removed
}

} // verus!
