//! Audio handling for transcription: stereo frames to mono, decimation to
//! 16 kHz, and the bounded sample buffer that speech segments are cut from.

pub mod decoder;
pub mod streaming_buffer;
