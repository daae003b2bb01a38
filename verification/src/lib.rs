//! Verified core of a small selective-forwarding video-call server: participant
//! identities, signaling messages, rooms, track replay bookkeeping, the audio
//! buffering that feeds speech transcription, and the transcription schedule.

pub mod ids;
pub mod audio;
pub mod interceptor;
pub mod replayer;
mod shared;
pub mod participant;
pub mod room;
pub mod media;
pub mod messages;
pub mod models;
pub mod signaling_messages;
pub mod room_directory;
pub mod triton_api;
pub mod sfu;
pub mod webrtc_factory;
pub mod mel_filters;
