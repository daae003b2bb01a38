//! The user-keyed room model of the first server generation.

pub mod messages;
pub mod room;
pub mod user;
