//! Members of a guild.

use crate::internal::fixed::FixedString;
use crate::model::id::GuildId;
use crate::model::id::RoleId;
use crate::model::user::clone_optional_text;
use crate::model::user::optional_text;
use crate::model::user::User;
use crate::model::user::UserView;
use extract_map::ExtractKey;
use vstd::prelude::*;

verus! {

/// A user as a member of one guild.
#[derive(Debug, Default)]
pub struct Member {
    /// The user who is the member.
    pub user: User,
    /// The name that the member goes by in this guild, if any.
    pub nick: Option<FixedString>,
    /// The roles that the member holds, in no order that matters. One of them
    /// may belong to a role that the guild no longer has.
    pub roles: Vec<RoleId>,
    /// The guild that the member belongs to.
    pub guild_id: GuildId,
}

/// What a member is, with texts and sequences in place of what holds them.
pub struct MemberView {
    pub user: UserView,
    pub nick: Option<Seq<char>>,
    pub roles: Seq<RoleId>,
    pub guild_id: GuildId,
}

impl View for Member {
    type V = MemberView;

    open spec fn view(&self) -> MemberView {
        MemberView {
            user: self.user@,
            nick: optional_text(self.nick),
            roles: self.roles@,
            guild_id: self.guild_id,
        }
    }
}

impl Member {
    /// The text of the name that the member is shown under: the nickname,
    /// without one the name that the user chose to be shown under, and
    /// without that the user name.
    pub open spec fn display_text(&self) -> Seq<char> {
        match self.nick {
            Some(nick) => nick@,
            None => match self.user.global_name {
                Some(global_name) => global_name@,
                None => self.user.name@,
            },
        }
    }

    /// The name that the member is shown under: see [`Member::display_text`].
    pub fn display_name(&self) -> (r: &str)
        ensures
            r@ == self.display_text(),
    {
        match &self.nick {
            Some(nick) => nick.as_str(),
            None => match &self.user.global_name {
                Some(global_name) => global_name.as_str(),
                None => self.user.name.as_str(),
            },
        }
    }
}

impl Clone for Member {
    fn clone(&self) -> (r: Self)
        ensures
            r@ == self@,
    {
        Member {
            user: self.user.clone(),
            nick: clone_optional_text(&self.nick),
            roles: self.roles.clone(),
            guild_id: self.guild_id,
        }
    }
}

impl ExtractKey<u64> for Member {
    /// The key under which a map holds the member: the number of its user's
    /// identifier.
    fn extract_key(&self) -> (r: &u64)
        ensures
            *r == self.user.id.0,
    {
        &self.user.id.0
    }
}

/// A member as an event carries one: the user may be left out.
#[derive(Debug, Default)]
pub struct PartialMember {
    /// The user who is the member, where the event names them.
    pub user: Option<User>,
    /// The name that the member goes by in the guild, if any.
    pub nick: Option<FixedString>,
    /// The roles that the member holds.
    pub roles: Vec<RoleId>,
}

} // verus!
