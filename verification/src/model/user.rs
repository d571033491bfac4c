//! Users.

use crate::internal::fixed::FixedString;
use crate::model::id::UserId;
use extract_map::ExtractKey;
use vstd::prelude::*;

verus! {

/// A user, as far as guilds read one.
#[derive(Debug, Default)]
pub struct User {
    /// The user's identifier.
    pub id: UserId,
    /// The user's account name.
    pub name: FixedString,
    /// The four digits after the name of an account that still has them;
    /// never `Some(0)`.
    pub discriminator: Option<u16>,
    /// The name the user chose to be shown under, if any.
    pub global_name: Option<FixedString>,
    /// Whether the account is a bot's.
    pub bot: bool,
}

/// What a user is, with the texts in place of the strings that hold them.
pub struct UserView {
    pub id: UserId,
    pub name: Seq<char>,
    pub discriminator: Option<u16>,
    pub global_name: Option<Seq<char>>,
    pub bot: bool,
}

/// The text of an optional string.
pub open spec fn optional_text(s: Option<FixedString>) -> Option<Seq<char>> {
    match s {
        Some(s) => Some(s@),
        None => None,
    }
}

/// A copy of an optional string.
pub fn clone_optional_text(s: &Option<FixedString>) -> (r: Option<FixedString>)
    ensures
        optional_text(r) == optional_text(*s),
{
    match s {
        Some(s) => Some(s.clone()),
        None => None,
    }
}

impl View for User {
    type V = UserView;

    open spec fn view(&self) -> UserView {
        UserView {
            id: self.id,
            name: self.name@,
            discriminator: self.discriminator,
            global_name: optional_text(self.global_name),
            bot: self.bot,
        }
    }
}

impl Clone for User {
    fn clone(&self) -> (r: Self)
        ensures
            r@ == self@,
    {
        User {
            id: self.id,
            name: self.name.clone(),
            discriminator: self.discriminator,
            global_name: clone_optional_text(&self.global_name),
            bot: self.bot,
        }
    }
}

/// Whether a user is there, and how.
#[derive(Clone, Copy, Debug, PartialEq, Eq, Structural, Hash, Default)]
pub enum OnlineStatus {
    /// Asks not to be disturbed.
    DoNotDisturb,
    /// There, but away from the keyboard.
    Idle,
    /// There, but shown to others as gone.
    Invisible,
    /// Gone.
    Offline,
    /// There.
    #[default]
    Online,
}

/// What a guild knows of a user's presence.
#[derive(Clone, Copy, Debug, Default)]
pub struct Presence {
    /// The user whose presence it is.
    pub user_id: UserId,
    /// The user's status.
    pub status: OnlineStatus,
}

impl ExtractKey<u64> for Presence {
    /// The key under which a map holds the presence: the number of its
    /// user's identifier.
    fn extract_key(&self) -> (r: &u64)
        ensures
            *r == self.user_id.0,
    {
        &self.user_id.0
    }
}

} // verus!
