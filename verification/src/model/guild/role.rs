//! Roles.

use crate::internal::fixed::FixedString;
use crate::model::id::GuildId;
use crate::model::id::RoleId;
use crate::model::permissions::Permissions;
use extract_map::ExtractKey;
use vstd::prelude::*;

verus! {

/// A role of a guild: a set of permissions under a name, with a rank.
#[derive(Debug, Default)]
pub struct Role {
    /// The role's identifier.
    pub id: RoleId,
    /// The guild that the role belongs to.
    pub guild_id: GuildId,
    /// The role's name.
    pub name: FixedString,
    /// The role's rank in its guild: the greater, the higher. Two roles of a
    /// guild can have the same.
    pub position: i16,
    /// What the role grants in the whole guild.
    pub permissions: Permissions,
}

/// What a role is, with the text in place of the string that holds it.
pub struct RoleView {
    pub id: RoleId,
    pub guild_id: GuildId,
    pub name: Seq<char>,
    pub position: i16,
    pub permissions: Permissions,
}

impl View for Role {
    type V = RoleView;

    open spec fn view(&self) -> RoleView {
        RoleView {
            id: self.id,
            guild_id: self.guild_id,
            name: self.name@,
            position: self.position,
            permissions: self.permissions,
        }
    }
}

impl Clone for Role {
    fn clone(&self) -> (r: Self)
        ensures
            r@ == self@,
    {
        Role {
            id: self.id,
            guild_id: self.guild_id,
            name: self.name.clone(),
            position: self.position,
            permissions: self.permissions,
        }
    }
}

impl ExtractKey<u64> for Role {
    /// The key under which a map holds the role: the number of its
    /// identifier.
    fn extract_key(&self) -> (r: &u64)
        ensures
            *r == self.id.0,
    {
        &self.id.0
    }
}

} // verus!
