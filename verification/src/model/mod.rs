//! The entities of a guild and the computations on a snapshot of them.

pub mod application;
pub mod channel;
pub mod guild;
pub mod id;
pub mod invite;
pub mod misc;
pub mod permissions;
pub mod user;
pub mod utils;
