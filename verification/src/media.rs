//! Plain-value forms of the media-session values that signaling carries and
//! that routing decisions read.

use vstd::prelude::*;

verus! {

/// Kind of an SDP description.
#[derive(Debug, Clone, Copy, PartialEq, Eq, Structural)]
pub enum SdpType {
    Unspecified,
    Offer,
    Pranswer,
    Answer,
    Rollback,
}

/// A session description: its kind and its SDP text.
#[derive(Debug, Clone)]
pub struct SessionDescription {
    pub sdp_type: SdpType,
    pub sdp: String,
}

/// An ICE candidate as exchanged over signaling.
#[derive(Debug, Clone)]
pub struct IceCandidateInit {
    pub candidate: String,
    pub sdp_mid: Option<String>,
    pub sdp_mline_index: Option<u16>,
    pub username_fragment: Option<String>,
}

/// Kind of a media track.
#[derive(Debug, Clone, Copy, PartialEq, Eq, Structural)]
pub enum CodecKind {
    Unspecified,
    Audio,
    Video,
}

/// How a track kind is written in names: `audio`, `video` or `Unspecified`.
pub open spec fn codec_kind_text(kind: CodecKind) -> Seq<char> {
    match kind {
        CodecKind::Unspecified => "Unspecified"@,
        CodecKind::Audio => "audio"@,
        CodecKind::Video => "video"@,
    }
}

/// MIME type of the codec that a replayed track of this kind is sent with:
/// VP8 for video, Opus otherwise.
pub open spec fn output_mime_type(kind: CodecKind) -> Seq<char> {
    if kind == CodecKind::Video {
        "video/VP8"@
    } else {
        "audio/opus"@
    }
}

impl CodecKind {
    /// The kind as written in names.
    pub fn to_string(&self) -> (s: String)
        ensures
            s@ == codec_kind_text(*self),
    {
        match self {
            CodecKind::Unspecified => {
                let s = String::from_str("Unspecified");
                proof {
                    reveal_strlit("Unspecified");
                }
                s
            },
            CodecKind::Audio => {
                let s = String::from_str("audio");
                proof {
                    reveal_strlit("audio");
                }
                s
            },
            CodecKind::Video => {
                let s = String::from_str("video");
                proof {
                    reveal_strlit("video");
                }
                s
            },
        }
    }
}

/// Connection state of a peer connection.
#[derive(Debug, Clone, Copy, PartialEq, Eq, Structural)]
pub enum PeerConnectionState {
    Unspecified,
    New,
    Connecting,
    Connected,
    Disconnected,
    Failed,
    Closed,
}

} // verus!
