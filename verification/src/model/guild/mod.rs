//! Guilds and what belongs to them.

pub mod hierarchy;
pub mod levels;
pub mod member;
pub mod partial_guild;
pub mod permissions_in;
pub mod role;
pub mod search;

use crate::internal::fixed::FixedString;
use crate::internal::store::channel_entries;
use crate::internal::store::get_channel;
use crate::internal::store::get_member;
use crate::internal::store::get_role;
use crate::internal::store::member_entries;
use crate::internal::store::presence_entries;
use crate::internal::store::role_entries;
use crate::model::channel::GuildChannel;
use crate::model::guild::levels::AfkTimeout;
use crate::model::guild::levels::DefaultMessageNotificationLevel;
use crate::model::guild::levels::ExplicitContentFilter;
use crate::model::guild::levels::MfaLevel;
use crate::model::guild::levels::NsfwLevel;
use crate::model::guild::levels::VerificationLevel;
use crate::model::guild::member::Member;
use crate::model::guild::partial_guild::PartialGuild;
use crate::model::guild::role::Role;
use crate::model::id::ChannelId;
use crate::model::id::GuildId;
use crate::model::id::RoleId;
use crate::model::id::UserId;
use crate::model::invite::InviteGuild;
use crate::model::misc::ImageHash;
use crate::model::permissions::Permissions;
use crate::model::user::Presence;
use crate::model::user::User;
use crate::model::utils::banner_url;
use crate::model::utils::banner_url_text;
use crate::model::utils::icon_url;
use crate::model::utils::icon_url_text;
use crate::model::utils::splash_url;
use crate::model::utils::splash_url_text;
use extract_map::ExtractMap;
use vstd::prelude::*;

verus! {

/// A user who was banned from a guild.
#[derive(Debug)]
pub struct Ban {
    /// Why the user was banned, if a reason was given.
    pub reason: Option<FixedString>,
    /// The user who was banned.
    pub user: User,
}

/// What came of banning several users at once.
#[derive(Clone, Debug)]
pub struct BulkBanResponse {
    /// The users who are banned now.
    pub banned_users: Vec<UserId>,
    /// The users who could not be banned.
    pub failed_users: Vec<UserId>,
}

/// Where a guild moves its idle members, and when.
#[derive(Clone, Copy, Debug)]
pub struct AfkMetadata {
    /// The voice channel that idle members are moved to.
    pub afk_channel_id: ChannelId,
    /// How long a member must have been idle.
    pub afk_timeout: AfkTimeout,
}

/// A guild with its roles, members and channels: the snapshot that the
/// computations of this library read. None of them changes it.
#[derive(Debug, Default)]
pub struct Guild {
    /// The guild's identifier. The role that every member holds has the same
    /// number.
    pub id: GuildId,
    /// The guild's name.
    pub name: FixedString,
    /// The hash of the guild's icon, if it has one.
    pub icon: Option<ImageHash>,
    /// The hash of the guild's splash image, if it has one.
    pub splash: Option<ImageHash>,
    /// The user who owns the guild.
    pub owner_id: UserId,
    /// Where idle members are moved, if anywhere.
    pub afk_metadata: Option<AfkMetadata>,
    /// Whether the guild has its widget switched on, where that is known.
    pub widget_enabled: Option<bool>,
    /// What the guild asks of a user before they may write.
    pub verification_level: VerificationLevel,
    /// What members are notified of unless they say otherwise.
    pub default_message_notifications: DefaultMessageNotificationLevel,
    /// Whose messages are scanned for explicit media.
    pub explicit_content_filter: ExplicitContentFilter,
    /// Whether moderators need a second factor.
    pub mfa_level: MfaLevel,
    /// How the guild is rated for adult content.
    pub nsfw_level: NsfwLevel,
    /// The guild's banner, if it has one.
    pub banner: Option<FixedString>,
    /// The guild's description, if it has one.
    pub description: Option<FixedString>,
    /// The channel into which the guild's widget invites, if any.
    pub widget_channel_id: Option<ChannelId>,
    /// Whether the guild counts as large.
    pub large: bool,
    /// Whether an outage keeps the guild away.
    pub unavailable: bool,
    /// The number of the guild's members, of whom `members` may hold only a
    /// part.
    pub member_count: u64,
    /// The guild's roles.
    pub roles: ExtractMap<u64, Role>,
    /// The members of the guild that are known.
    pub members: ExtractMap<u64, Member>,
    /// The guild's channels.
    pub channels: ExtractMap<u64, GuildChannel>,
    /// What is known of the presence of the guild's users.
    pub presences: ExtractMap<u64, Presence>,
    /// The features that the guild has.
    pub features: Vec<FixedString>,
}

/// What can go wrong with a model before anything is sent.
#[derive(Clone, Copy, Debug, PartialEq, Eq, Structural, Hash)]
pub enum ModelError {
    /// The current user is not the one who may do this.
    InvalidUser,
}

/// The widget of a guild.
#[derive(Clone, Copy, Debug)]
pub struct GuildWidget {
    /// Whether the widget is switched on.
    pub enabled: bool,
    /// The channel that the widget invites into, if any.
    pub channel_id: Option<ChannelId>,
}

/// How many members a prune would remove, or has removed.
#[derive(Clone, Copy, Debug)]
pub struct GuildPrune {
    /// The number of members.
    pub pruned: u64,
}

/// A guild as the list of the current user's guilds shows it.
#[derive(Debug)]
pub struct GuildInfo {
    /// The guild's identifier.
    pub id: GuildId,
    /// The guild's name.
    pub name: FixedString,
    /// The hash of the guild's icon, if it has one.
    pub icon: Option<ImageHash>,
    /// Whether the current user owns the guild.
    pub owner: bool,
    /// The permissions of the current user in the guild.
    pub permissions: Permissions,
    /// The features that the guild has.
    pub features: Vec<String>,
}

/// A guild that an outage may keep away.
#[derive(Clone, Copy, Debug)]
pub struct UnavailableGuild {
    /// The guild's identifier.
    pub id: GuildId,
    /// Whether the guild is away.
    pub unavailable: bool,
}

impl GuildInfo {
    /// The address of the guild's icon, if the guild has one: a GIF image
    /// where the icon is animated, and else a WEBP image.
    pub fn icon_url(&self) -> (r: Option<String>)
        ensures
            match self.icon {
                Some(icon) => r matches Some(url) && url@ == icon_url_text(self.id, icon),
                None => r is None,
            },
    {
        icon_url(self.id, self.icon.as_ref())
    }
}

impl InviteGuild {
    /// The address of the guild's splash image, if the guild has one.
    pub fn splash_url(&self) -> (r: Option<String>)
        ensures
            match self.splash {
                Some(splash) => r matches Some(url) && url@ == splash_url_text(self.id, splash),
                None => r is None,
            },
    {
        splash_url(self.id, self.splash.as_ref())
    }
}

impl Guild {
    /// The address of the guild's icon, if the guild has one: a GIF image
    /// where the icon is animated, and else a WEBP image.
    pub fn icon_url(&self) -> (r: Option<String>)
        ensures
            match self.icon {
                Some(icon) => r matches Some(url) && url@ == icon_url_text(self.id, icon),
                None => r is None,
            },
    {
        icon_url(self.id, self.icon.as_ref())
    }

    /// The address of the guild's splash image, if the guild has one.
    pub fn splash_url(&self) -> (r: Option<String>)
        ensures
            match self.splash {
                Some(splash) => r matches Some(url) && url@ == splash_url_text(self.id, splash),
                None => r is None,
            },
    {
        splash_url(self.id, self.splash.as_ref())
    }

    /// The address of the guild's banner, if the guild has one.
    pub fn banner_url(&self) -> (r: Option<String>)
        ensures
            match self.banner {
                Some(banner) => r matches Some(url) && url@ == banner_url_text(self.id, banner@),
                None => r is None,
            },
    {
        match &self.banner {
            Some(banner) => banner_url(self.id, Some(banner.as_str())),
            None => None,
        }
    }

    /// The role with the identifier `id`, if the guild has it.
    pub fn find_role(&self, id: RoleId) -> (r: Option<&Role>)
        ensures
            match r {
                Some(role) => self.role_map().dom().contains(id.0) && self.role_map()[id.0]
                    == *role && role.id == id,
                None => !self.role_map().dom().contains(id.0),
            },
    {
        get_role(&self.roles, id.get())
    }

    /// The member whose user has the identifier `id`, if the guild knows
    /// such a member. Only where it knows none is there anything to ask the
    /// service for.
    pub fn find_member(&self, id: UserId) -> (r: Option<&Member>)
        ensures
            match r {
                Some(member) => self.member_map().dom().contains(id.0) && self.member_map()[id.0]
                    == *member && member.user.id == id,
                None => !self.member_map().dom().contains(id.0),
            },
    {
        get_member(&self.members, id.get())
    }

    /// The channel with the identifier `id`, if the guild has it.
    pub fn find_channel(&self, id: ChannelId) -> (r: Option<&GuildChannel>)
        ensures
            match r {
                Some(channel) => self.channel_map().dom().contains(id.0)
                    && self.channel_map()[id.0] == *channel && channel.id == id,
                None => !self.channel_map().dom().contains(id.0),
            },
    {
        get_channel(&self.channels, id.get())
    }

    /// Whether the current user may delete the guild: only its owner may.
    /// Where the current user is not known the service is left to decide.
    pub fn check_delete(&self, current_user: Option<UserId>) -> (r: Result<(), ModelError>)
        ensures
            r == (match current_user {
                Some(user) => if user == self.owner_id {
                    Ok::<(), ModelError>(())
                } else {
                    Err::<(), ModelError>(ModelError::InvalidUser)
                },
                None => Ok::<(), ModelError>(()),
            }),
    {
        if let Some(user) = current_user {
            if self.owner_id != user {
                return Err(ModelError::InvalidUser);
            }
        }
        Ok(())
    }

    /// Takes over what an edit changed: the guild as the service gives it
    /// back after the edit says what these eleven settings are now. The
    /// members, channels and presences stay as they are.
    pub fn apply_edit(&mut self, edited: PartialGuild)
        ensures
            final(self).afk_metadata == edited.afk_metadata,
            final(self).default_message_notifications == edited.default_message_notifications,
            final(self).features == edited.features,
            final(self).icon == edited.icon,
            final(self).mfa_level == edited.mfa_level,
            final(self).name == edited.name,
            final(self).owner_id == edited.owner_id,
            final(self).roles == edited.roles,
            final(self).splash == edited.splash,
            final(self).verification_level == edited.verification_level,
            final(self).id == old(self).id,
            final(self).banner == old(self).banner,
            final(self).description == old(self).description,
            final(self).widget_enabled == old(self).widget_enabled,
            final(self).widget_channel_id == old(self).widget_channel_id,
            final(self).explicit_content_filter == old(self).explicit_content_filter,
            final(self).nsfw_level == old(self).nsfw_level,
            final(self).large == old(self).large,
            final(self).unavailable == old(self).unavailable,
            final(self).member_count == old(self).member_count,
            final(self).members == old(self).members,
            final(self).channels == old(self).channels,
            final(self).presences == old(self).presences,
    {
        self.afk_metadata = edited.afk_metadata;
        self.default_message_notifications = edited.default_message_notifications;
        self.features = edited.features;
        self.icon = edited.icon;
        self.mfa_level = edited.mfa_level;
        self.name = edited.name;
        self.owner_id = edited.owner_id;
        self.roles = edited.roles;
        self.splash = edited.splash;
        self.verification_level = edited.verification_level;
    }

    /// The shard that serves the guild among `shard_total` shards.
    pub fn shard_id(&self, shard_total: u16) -> (r: u16)
        requires
            shard_total != 0,
        ensures
            r == (self.id.0 >> 22) % (shard_total as u64),
            r < shard_total,
    {
        self.id.shard_id(shard_total)
    }

    /// The guild's roles, each under its identifier's number.
    pub open spec fn role_map(&self) -> Map<u64, Role> {
        role_entries(self.roles)
    }

    /// The guild's members, each under the number of its user's identifier.
    pub open spec fn member_map(&self) -> Map<u64, Member> {
        member_entries(self.members)
    }

    /// The guild's channels, each under its identifier's number.
    pub open spec fn channel_map(&self) -> Map<u64, GuildChannel> {
        channel_entries(self.channels)
    }

    /// The presences that the guild knows, each under the number of its
    /// user's identifier.
    pub open spec fn presence_map(&self) -> Map<u64, Presence> {
        presence_entries(self.presences)
    }
}

} // verus!
