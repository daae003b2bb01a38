//! What the media engine is configured with: the codecs it accepts and the
//! STUN servers it uses.

use vstd::prelude::*;

use crate::media::CodecKind;

verus! {

/// A codec registration: the capability fields and payload type a codec is
/// registered with, and the kind of track it is for.
pub struct CodecRegistration {
    pub mime_type: String,
    pub clock_rate: u32,
    pub channels: u16,
    pub sdp_fmtp_line: String,
    pub payload_type: u8,
    pub kind: CodecKind,
}

/// The registration has the given fields and no format parameters.
pub open spec fn registers(
    r: CodecRegistration,
    mime_type: Seq<char>,
    clock_rate: u32,
    payload_type: u8,
    kind: CodecKind,
) -> bool {
    &&& r.mime_type@ == mime_type
    &&& r.clock_rate == clock_rate
    &&& r.channels == 0
    &&& r.sdp_fmtp_line@.len() == 0
    &&& r.payload_type == payload_type
    &&& r.kind == kind
}

/// The codecs the server accepts, in registration order: Opus for audio
/// with payload type 120 (other fields left at their defaults), then VP8
/// for video at a 90 kHz clock with payload type 96.
pub fn codec_registrations() -> (r: Vec<CodecRegistration>)
    ensures
        r@.len() == 2,
        registers(r@[0], "audio/opus"@, 0, 120, CodecKind::Audio),
        registers(r@[1], "video/VP8"@, 90000, 96, CodecKind::Video),
{
    let mut r: Vec<CodecRegistration> = Vec::new();
    let opus = String::from_str("audio/opus");
    let vp8 = String::from_str("video/VP8");
    proof {
        reveal_strlit("audio/opus");
        reveal_strlit("video/VP8");
    }
    r.push(
        CodecRegistration {
            mime_type: opus,
            clock_rate: 0,
            channels: 0,
            sdp_fmtp_line: String::new(),
            payload_type: 120,
            kind: CodecKind::Audio,
        },
    );
    r.push(
        CodecRegistration {
            mime_type: vp8,
            clock_rate: 90000,
            channels: 0,
            sdp_fmtp_line: String::new(),
            payload_type: 96,
            kind: CodecKind::Video,
        },
    );
    r
}

/// The STUN server of the deployment: `stun:turn-server:3478`.
pub fn ice_server_urls() -> (urls: Vec<String>)
    ensures
        urls@.len() == 1,
        urls@[0]@ == "stun:turn-server:3478"@,
{
    let mut urls: Vec<String> = Vec::new();
    let url = String::from_str("stun:turn-server:3478");
    proof {
        reveal_strlit("stun:turn-server:3478");
    }
    urls.push(url);
    urls
}

/// The public STUN server used by the user-keyed server:
/// `stun:stun.l.google.com:19302`.
pub fn public_ice_server_urls() -> (urls: Vec<String>)
    ensures
        urls@.len() == 1,
        urls@[0]@ == "stun:stun.l.google.com:19302"@,
{
    let mut urls: Vec<String> = Vec::new();
    let url = String::from_str("stun:stun.l.google.com:19302");
    proof {
        reveal_strlit("stun:stun.l.google.com:19302");
    }
    urls.push(url);
    urls
}

/// Positions of the receivers to stop after renegotiation: those that
/// carry no track (given the number of tracks of each receiver).
pub fn stale_receivers(track_counts: &[usize]) -> (r: Vec<usize>)
    ensures
        forall|i: int| 0 <= i < r@.len() ==> (#[trigger] r@[i]) < track_counts@.len() && track_counts@[r@[i] as int] == 0,
        forall|i: int, j: int| 0 <= i < j < r@.len() ==> r@[i] < r@[j],
        forall|k: int| 0 <= k < track_counts@.len() && #[trigger] track_counts@[k] == 0 ==> r@.contains(k as usize),
{
    let mut r: Vec<usize> = Vec::new();
    let mut i: usize = 0;
    while i < track_counts.len()
        invariant
            i <= track_counts@.len(),
            forall|a: int| 0 <= a < r@.len() ==> (#[trigger] r@[a]) < i && track_counts@[r@[a] as int] == 0,
            forall|a: int, b: int| 0 <= a < b < r@.len() ==> r@[a] < r@[b],
            forall|k: int| 0 <= k < i && #[trigger] track_counts@[k] == 0 ==> r@.contains(k as usize),
        decreases track_counts@.len() - i,
    {
        let ghost before = r@;
        if track_counts[i] == 0 {
            r.push(i);
            assert(r@[r@.len() - 1] == i);
        }
        proof {
            assert forall|k: int| 0 <= k <= i && #[trigger] track_counts@[k] == 0 implies r@.contains(k as usize) by {
                if k < i {
                    let w = choose|w: int| 0 <= w < before.len() && before[w] == k as usize;
                    assert(r@[w] == before[w]);
                } else {
                    assert(r@[r@.len() - 1] == i);
                }
            }
        }
        i = i + 1;
    }
    r
}

} // verus!
