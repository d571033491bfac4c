//! Identifiers of users, roles, guilds and channels.

use vstd::prelude::*;

verus! {

/// Identifier of a user.
#[derive(Clone, Copy, Debug, PartialEq, Eq, Structural, Hash, Default)]
pub struct UserId(pub u64);

/// Identifier of a role. The role that every member of a guild holds has the
/// guild's own number.
#[derive(Clone, Copy, Debug, PartialEq, Eq, Structural, Hash, Default)]
pub struct RoleId(pub u64);

/// Identifier of a guild.
#[derive(Clone, Copy, Debug, PartialEq, Eq, Structural, Hash, Default)]
pub struct GuildId(pub u64);

/// Identifier of a channel.
#[derive(Clone, Copy, Debug, PartialEq, Eq, Structural, Hash, Default)]
pub struct ChannelId(pub u64);

/// Identifier of an application.
#[derive(Clone, Copy, Debug, PartialEq, Eq, Structural, Hash, Default)]
pub struct ApplicationId(pub u64);

/// Identifier of an interaction.
#[derive(Clone, Copy, Debug, PartialEq, Eq, Structural, Hash, Default)]
pub struct InteractionId(pub u64);

impl UserId {
    /// Makes the identifier with the number `id`.
    pub fn new(id: u64) -> (r: Self)
        ensures
            r.0 == id,
    {
        UserId(id)
    }

    /// The identifier's number.
    pub fn get(self) -> (r: u64)
        ensures
            r == self.0,
    {
        self.0
    }
}

impl RoleId {
    /// Makes the identifier with the number `id`.
    pub fn new(id: u64) -> (r: Self)
        ensures
            r.0 == id,
    {
        RoleId(id)
    }

    /// The identifier's number.
    pub fn get(self) -> (r: u64)
        ensures
            r == self.0,
    {
        self.0
    }
}

impl GuildId {
    /// Makes the identifier with the number `id`.
    pub fn new(id: u64) -> (r: Self)
        ensures
            r.0 == id,
    {
        GuildId(id)
    }

    /// The identifier's number.
    pub fn get(self) -> (r: u64)
        ensures
            r == self.0,
    {
        self.0
    }

    /// The shard that serves this guild among `shard_total` shards: the
    /// identifier without its lowest 22 bits, modulo the number of shards.
    pub fn shard_id(self, shard_total: u16) -> (r: u16)
        requires
            shard_total != 0,
        ensures
            r == (self.0 >> 22) % (shard_total as u64),
            r < shard_total,
    {
        ((self.0 >> 22) % (shard_total as u64)) as u16
    }

    /// The identifier of the role that every member of this guild holds: it
    /// has the guild's number.
    pub open spec fn everyone_role_spec(self) -> RoleId {
        RoleId(self.0)
    }

    /// The identifier of the role that every member of this guild holds.
    #[verifier::when_used_as_spec(everyone_role_spec)]
    pub fn everyone_role(self) -> (r: RoleId)
        ensures
            r == self.everyone_role_spec(),
    {
        RoleId(self.0)
    }
}

impl ChannelId {
    /// Makes the identifier with the number `id`.
    pub fn new(id: u64) -> (r: Self)
        ensures
            r.0 == id,
    {
        ChannelId(id)
    }

    /// The identifier's number.
    pub fn get(self) -> (r: u64)
        ensures
            r == self.0,
    {
        self.0
    }
}

impl ApplicationId {
    /// Makes the identifier with the number `id`.
    pub fn new(id: u64) -> (r: Self)
        ensures
            r.0 == id,
    {
        ApplicationId(id)
    }

    /// The identifier's number.
    pub fn get(self) -> (r: u64)
        ensures
            r == self.0,
    {
        self.0
    }
}

impl InteractionId {
    /// Makes the identifier with the number `id`.
    pub fn new(id: u64) -> (r: Self)
        ensures
            r.0 == id,
    {
        InteractionId(id)
    }

    /// The identifier's number.
    pub fn get(self) -> (r: u64)
        ensures
            r == self.0,
    {
        self.0
    }
}

} // verus!
