//! The interaction that a submitted modal sets off.

use crate::internal::fixed::FixedString;
use crate::model::guild::member::Member;
use crate::model::guild::member::MemberView;
use crate::model::id::ApplicationId;
use crate::model::id::ChannelId;
use crate::model::id::GuildId;
use crate::model::id::InteractionId;
use crate::model::permissions::Permissions;
use crate::model::user::User;
use vstd::prelude::*;

verus! {

/// An interaction set off by a user who submitted a modal.
#[derive(Debug)]
pub struct ModalInteraction {
    /// The interaction's identifier.
    pub id: InteractionId,
    /// The application that the interaction is for.
    pub application_id: ApplicationId,
    /// What was submitted.
    pub data: ModalInteractionData,
    /// The guild in which the modal was submitted, if it was in one.
    pub guild_id: Option<GuildId>,
    /// The channel in which the modal was submitted.
    pub channel_id: ChannelId,
    /// The user as a member of the guild, if the modal was submitted in one.
    pub member: Option<Member>,
    /// The user who submitted the modal.
    pub user: User,
    /// The token with which the interaction is answered.
    pub token: FixedString,
    /// The version of the interaction; always 1.
    pub version: u8,
    /// What the application may do in the channel of the interaction.
    pub app_permissions: Option<Permissions>,
    /// The language that the user chose.
    pub locale: FixedString,
    /// The language that the guild prefers.
    pub guild_locale: Option<FixedString>,
}

/// What a user submitted with a modal.
#[derive(Debug)]
pub struct ModalInteractionData {
    /// The identifier that the application gave the modal.
    pub custom_id: FixedString,
}

impl ModalInteraction {
    /// Completes an interaction as it came over the wire. An interaction from
    /// a guild comes with the member and without the user: the member learns
    /// its guild, and the user is taken from the member. An interaction from
    /// elsewhere stays as it is.
    pub fn complete(&mut self)
        ensures
            final(self).id == old(self).id,
            final(self).application_id == old(self).application_id,
            final(self).data == old(self).data,
            final(self).guild_id == old(self).guild_id,
            final(self).channel_id == old(self).channel_id,
            final(self).token == old(self).token,
            final(self).version == old(self).version,
            final(self).app_permissions == old(self).app_permissions,
            final(self).locale == old(self).locale,
            final(self).guild_locale == old(self).guild_locale,
            match (old(self).guild_id, old(self).member) {
                (Some(guild_id), Some(member)) => {
                    &&& final(self).member matches Some(completed)
                    &&& completed@ == (MemberView { guild_id, ..member@ })
                    &&& final(self).user@ == member.user@
                },
                _ => final(self).member == old(self).member && final(self).user == old(self).user,
            },
    {
        if let Some(guild_id) = self.guild_id {
            if let Some(member) = &mut self.member {
                member.guild_id = guild_id;
                self.user = member.user.clone();
            }
        }
    }
}

} // verus!
