//! Guild models and the permission engine that works on them: a member's
//! effective permissions in a guild or one of its channels, and the ranking of
//! members by their highest role.

pub mod internal;
pub mod model;
