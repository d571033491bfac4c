//! Interactions with an application.

pub mod modal_interaction;
