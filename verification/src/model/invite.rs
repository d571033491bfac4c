//! What an invite shows of the guild it leads to.

use crate::internal::fixed::FixedString;
use crate::model::id::GuildId;
use crate::model::misc::ImageHash;
use vstd::prelude::*;

verus! {

/// A guild as an invite shows it.
#[derive(Debug)]
pub struct InviteGuild {
    /// The guild's identifier.
    pub id: GuildId,
    /// The guild's name.
    pub name: FixedString,
    /// The hash of the guild's icon, if it has one.
    pub icon: Option<ImageHash>,
    /// The hash of the guild's splash image, if it has one.
    pub splash: Option<ImageHash>,
    /// The guild's description, if it has one.
    pub description: Option<FixedString>,
}

} // verus!
