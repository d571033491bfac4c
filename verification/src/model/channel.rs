//! Guild channels and the permission overwrites they carry.

use crate::internal::fixed::FixedString;
use crate::model::id::ChannelId;
use crate::model::id::GuildId;
use crate::model::id::RoleId;
use crate::model::id::UserId;
use crate::model::permissions::Permissions;
use extract_map::ExtractKey;
use vstd::prelude::*;

verus! {

/// What an overwrite is aimed at: one member, or all who hold one role.
#[derive(Clone, Copy, Debug, PartialEq, Eq, Structural, Hash)]
pub enum PermissionOverwriteType {
    /// The member with this user identifier.
    Member(UserId),
    /// The holders of this role.
    Role(RoleId),
}

/// A change to the permissions in one channel. Nothing keeps `allow` and
/// `deny` apart: a permission in both ends up allowed.
#[derive(Clone, Copy, Debug, PartialEq, Eq, Structural, Hash)]
pub struct PermissionOverwrite {
    /// The permissions given.
    pub allow: Permissions,
    /// The permissions taken away.
    pub deny: Permissions,
    /// Whom the overwrite is for.
    pub kind: PermissionOverwriteType,
}

/// The kind of a channel.
#[derive(Clone, Copy, Debug, PartialEq, Eq, Structural, Hash, Default)]
pub enum ChannelType {
    /// A text channel of a guild.
    #[default]
    Text,
    /// A conversation between two users.
    Private,
    /// A voice channel of a guild.
    Voice,
    /// A conversation between several users.
    GroupDm,
    /// A heading under which a guild files channels; nobody reads or writes
    /// in it.
    Category,
    /// A channel that other guilds can follow.
    News,
    /// A thread in a news channel.
    NewsThread,
    /// A thread open to all who see its channel.
    PublicThread,
    /// A thread for those invited to it.
    PrivateThread,
    /// A voice channel with speakers and an audience.
    Stage,
    /// A listing of guilds.
    Directory,
    /// A channel that holds threads only.
    Forum,
    /// A kind this library has no name for.
    Unknown(u8),
}

/// A channel of a guild.
#[derive(Debug, Default)]
pub struct GuildChannel {
    /// The channel's identifier.
    pub id: ChannelId,
    /// The guild that the channel belongs to.
    pub guild_id: GuildId,
    /// The channel's kind.
    pub kind: ChannelType,
    /// The channel's name.
    pub name: FixedString,
    /// The overwrites of the channel, in the order in which they are applied
    /// where two of them are for the same target.
    pub permission_overwrites: Vec<PermissionOverwrite>,
}

/// What a channel is, with texts and sequences in place of what holds them.
pub struct GuildChannelView {
    pub id: ChannelId,
    pub guild_id: GuildId,
    pub kind: ChannelType,
    pub name: Seq<char>,
    pub permission_overwrites: Seq<PermissionOverwrite>,
}

impl View for GuildChannel {
    type V = GuildChannelView;

    open spec fn view(&self) -> GuildChannelView {
        GuildChannelView {
            id: self.id,
            guild_id: self.guild_id,
            kind: self.kind,
            name: self.name@,
            permission_overwrites: self.permission_overwrites@,
        }
    }
}

impl Clone for GuildChannel {
    fn clone(&self) -> (r: Self)
        ensures
            r@ == self@,
    {
        GuildChannel {
            id: self.id,
            guild_id: self.guild_id,
            kind: self.kind,
            name: self.name.clone(),
            permission_overwrites: self.permission_overwrites.clone(),
        }
    }
}

impl ExtractKey<u64> for GuildChannel {
    /// The key under which a map holds the channel: the number of its
    /// identifier.
    fn extract_key(&self) -> (r: &u64)
        ensures
            *r == self.id.0,
    {
        &self.id.0
    }
}

} // verus!
