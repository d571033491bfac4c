//! A guild as the service gives it back where it tells only a part.

use crate::internal::fixed::FixedString;
use crate::model::guild::levels::DefaultMessageNotificationLevel;
use crate::model::guild::levels::MfaLevel;
use crate::model::guild::levels::VerificationLevel;
use crate::model::guild::role::Role;
use crate::model::guild::AfkMetadata;
use crate::model::id::GuildId;
use crate::model::id::UserId;
use crate::model::misc::ImageHash;
use extract_map::ExtractMap;
use vstd::prelude::*;

verus! {

/// A guild without its members, channels and presences.
#[derive(Debug, Default)]
pub struct PartialGuild {
    /// The guild's identifier.
    pub id: GuildId,
    /// The guild's name.
    pub name: FixedString,
    /// The hash of the guild's icon, if it has one.
    pub icon: Option<ImageHash>,
    /// The hash of the guild's splash image, if it has one.
    pub splash: Option<ImageHash>,
    /// The user who owns the guild.
    pub owner_id: UserId,
    /// Where idle members are moved, if anywhere.
    pub afk_metadata: Option<AfkMetadata>,
    /// What the guild asks of a user before they may write.
    pub verification_level: VerificationLevel,
    /// What members are notified of unless they say otherwise.
    pub default_message_notifications: DefaultMessageNotificationLevel,
    /// Whether moderators need a second factor.
    pub mfa_level: MfaLevel,
    /// The guild's roles.
    pub roles: ExtractMap<u64, Role>,
    /// The features that the guild has.
    pub features: Vec<FixedString>,
}

} // verus!
