//! Permission sets: what a role grants, and what a channel overwrite allows or
//! denies.

use vstd::prelude::*;

verus! {

/// A set of permissions, held as one bit for each flag.
///
/// The flags with a name make up [`Permissions::ALL_BITS`], the full set.
#[derive(Clone, Copy, Debug, PartialEq, Eq, Structural, Hash)]
pub struct Permissions {
    pub bits: u64,
}

impl Permissions {
    pub const CREATE_INSTANT_INVITE: u64 = 0x0000_0000_0000_0001;
    pub const KICK_MEMBERS: u64 = 0x0000_0000_0000_0002;
    pub const BAN_MEMBERS: u64 = 0x0000_0000_0000_0004;
    /// Who holds this flag in a guild holds every permission in each of its
    /// channels.
    pub const ADMINISTRATOR: u64 = 0x0000_0000_0000_0008;
    pub const MANAGE_CHANNELS: u64 = 0x0000_0000_0000_0010;
    pub const MANAGE_GUILD: u64 = 0x0000_0000_0000_0020;
    pub const ADD_REACTIONS: u64 = 0x0000_0000_0000_0040;
    pub const VIEW_AUDIT_LOG: u64 = 0x0000_0000_0000_0080;
    pub const PRIORITY_SPEAKER: u64 = 0x0000_0000_0000_0100;
    pub const STREAM: u64 = 0x0000_0000_0000_0200;
    pub const VIEW_CHANNEL: u64 = 0x0000_0000_0000_0400;
    pub const SEND_MESSAGES: u64 = 0x0000_0000_0000_0800;
    pub const SEND_TTS_MESSAGES: u64 = 0x0000_0000_0000_1000;
    pub const MANAGE_MESSAGES: u64 = 0x0000_0000_0000_2000;
    pub const EMBED_LINKS: u64 = 0x0000_0000_0000_4000;
    pub const ATTACH_FILES: u64 = 0x0000_0000_0000_8000;
    pub const READ_MESSAGE_HISTORY: u64 = 0x0000_0000_0001_0000;
    pub const MENTION_EVERYONE: u64 = 0x0000_0000_0002_0000;
    pub const USE_EXTERNAL_EMOJIS: u64 = 0x0000_0000_0004_0000;
    pub const VIEW_GUILD_INSIGHTS: u64 = 0x0000_0000_0008_0000;
    pub const CONNECT: u64 = 0x0000_0000_0010_0000;
    pub const SPEAK: u64 = 0x0000_0000_0020_0000;
    pub const MUTE_MEMBERS: u64 = 0x0000_0000_0040_0000;
    pub const DEAFEN_MEMBERS: u64 = 0x0000_0000_0080_0000;
    pub const MOVE_MEMBERS: u64 = 0x0000_0000_0100_0000;
    pub const USE_VAD: u64 = 0x0000_0000_0200_0000;
    pub const CHANGE_NICKNAME: u64 = 0x0000_0000_0400_0000;
    pub const MANAGE_NICKNAMES: u64 = 0x0000_0000_0800_0000;
    pub const MANAGE_ROLES: u64 = 0x0000_0000_1000_0000;
    pub const MANAGE_WEBHOOKS: u64 = 0x0000_0000_2000_0000;
    pub const MANAGE_GUILD_EXPRESSIONS: u64 = 0x0000_0000_4000_0000;
    pub const USE_APPLICATION_COMMANDS: u64 = 0x0000_0000_8000_0000;
    pub const REQUEST_TO_SPEAK: u64 = 0x0000_0001_0000_0000;
    pub const MANAGE_EVENTS: u64 = 0x0000_0002_0000_0000;
    pub const MANAGE_THREADS: u64 = 0x0000_0004_0000_0000;
    pub const CREATE_PUBLIC_THREADS: u64 = 0x0000_0008_0000_0000;
    pub const CREATE_PRIVATE_THREADS: u64 = 0x0000_0010_0000_0000;
    pub const USE_EXTERNAL_STICKERS: u64 = 0x0000_0020_0000_0000;
    pub const SEND_MESSAGES_IN_THREADS: u64 = 0x0000_0040_0000_0000;
    pub const USE_EMBEDDED_ACTIVITIES: u64 = 0x0000_0080_0000_0000;
    pub const MODERATE_MEMBERS: u64 = 0x0000_0100_0000_0000;
    pub const VIEW_CREATOR_MONETIZATION_ANALYTICS: u64 = 0x0000_0200_0000_0000;
    pub const USE_SOUNDBOARD: u64 = 0x0000_0400_0000_0000;
    pub const CREATE_GUILD_EXPRESSIONS: u64 = 0x0000_0800_0000_0000;
    pub const CREATE_EVENTS: u64 = 0x0000_1000_0000_0000;
    pub const USE_EXTERNAL_SOUNDS: u64 = 0x0000_2000_0000_0000;
    pub const SEND_VOICE_MESSAGES: u64 = 0x0000_4000_0000_0000;
    pub const SET_VOICE_CHANNEL_STATUS: u64 = 0x0001_0000_0000_0000;
    pub const SEND_POLLS: u64 = 0x0002_0000_0000_0000;
    pub const USE_EXTERNAL_APPS: u64 = 0x0004_0000_0000_0000;
    /// The bits of all the flags that have a name.
    pub const ALL_BITS: u64 = 0x0007_7fff_ffff_ffff;

    /// The set without any permission.
    pub open spec fn empty_spec() -> Permissions {
        Permissions { bits: 0 }
    }

    /// The set of all the permissions that have a name.
    pub open spec fn all_spec() -> Permissions {
        Permissions { bits: Permissions::ALL_BITS }
    }

    /// The set without any permission.
    #[verifier::when_used_as_spec(empty_spec)]
    pub fn empty() -> (r: Permissions)
        ensures
            r == Permissions::empty_spec(),
    {
        Permissions { bits: 0 }
    }

    /// The full set: all the permissions that have a name.
    #[verifier::when_used_as_spec(all_spec)]
    pub fn all() -> (r: Permissions)
        ensures
            r == Permissions::all_spec(),
    {
        Permissions { bits: Permissions::ALL_BITS }
    }

    /// The set with the given bits, those without a name dropped.
    pub open spec fn from_bits_truncate_spec(bits: u64) -> Permissions {
        Permissions { bits: bits & Permissions::ALL_BITS }
    }

    /// The set with the given bits, those without a name dropped.
    #[verifier::when_used_as_spec(from_bits_truncate_spec)]
    pub fn from_bits_truncate(bits: u64) -> (r: Permissions)
        ensures
            r == Permissions::from_bits_truncate_spec(bits),
    {
        Permissions { bits: bits & Permissions::ALL_BITS }
    }

    /// The set with exactly the given bits, if each of them has a name.
    pub fn from_bits(bits: u64) -> (r: Option<Permissions>)
        ensures
            r == (if bits & !Permissions::ALL_BITS == 0 {
                Some(Permissions { bits })
            } else {
                None::<Permissions>
            }),
    {
        if bits & !Permissions::ALL_BITS == 0 {
            Some(Permissions { bits })
        } else {
            None
        }
    }

    /// The bits of the set.
    pub fn bits(self) -> (r: u64)
        ensures
            r == self.bits,
    {
        self.bits
    }

    /// Whether the set holds no permission.
    pub fn is_empty(self) -> (r: bool)
        ensures
            r == (self.bits == 0),
    {
        self.bits == 0
    }

    /// Whether the set holds every permission that has a name.
    pub fn is_all(self) -> (r: bool)
        ensures
            r == Permissions::all_spec().subset_of(self),
    {
        Permissions::ALL_BITS & self.bits == Permissions::ALL_BITS
    }

    /// Whether every permission of `self` is one of `other`.
    pub open spec fn subset_of(self, other: Permissions) -> bool {
        self.bits & other.bits == self.bits
    }

    /// Whether every permission of `other` is one of `self`.
    pub open spec fn contains_spec(self, other: Permissions) -> bool {
        other.subset_of(self)
    }

    /// Superset test: whether every permission of `other` is one of `self`.
    #[verifier::when_used_as_spec(contains_spec)]
    pub fn contains(self, other: Permissions) -> (r: bool)
        ensures
            r == self.contains_spec(other),
    {
        other.bits & self.bits == other.bits
    }

    /// Whether the set holds every bit of `mask`.
    pub open spec fn has_spec(self, mask: u64) -> bool {
        self.bits & mask == mask
    }

    /// Whether the set holds every bit of `mask`, which is one of the named
    /// flags or several of them joined by `|`.
    #[verifier::when_used_as_spec(has_spec)]
    pub fn has(self, mask: u64) -> (r: bool)
        ensures
            r == self.has_spec(mask),
    {
        self.bits & mask == mask
    }

    /// Whether the two sets share a permission.
    pub fn intersects(self, other: Permissions) -> (r: bool)
        ensures
            r == (self.bits & other.bits != 0),
    {
        self.bits & other.bits != 0
    }

    /// The permissions of either set.
    pub open spec fn union_spec(self, other: Permissions) -> Permissions {
        Permissions { bits: self.bits | other.bits }
    }

    /// Union: the permissions of either set.
    #[verifier::when_used_as_spec(union_spec)]
    pub fn union(self, other: Permissions) -> (r: Permissions)
        ensures
            r == self.union_spec(other),
    {
        Permissions { bits: self.bits | other.bits }
    }

    /// The permissions of both sets.
    pub open spec fn intersection_spec(self, other: Permissions) -> Permissions {
        Permissions { bits: self.bits & other.bits }
    }

    /// Intersection: the permissions of both sets.
    #[verifier::when_used_as_spec(intersection_spec)]
    pub fn intersection(self, other: Permissions) -> (r: Permissions)
        ensures
            r == self.intersection_spec(other),
    {
        Permissions { bits: self.bits & other.bits }
    }

    /// The named permissions that are not in the set.
    pub open spec fn complement_spec(self) -> Permissions {
        Permissions { bits: !self.bits & Permissions::ALL_BITS }
    }

    /// Complement: the named permissions that are not in the set.
    #[verifier::when_used_as_spec(complement_spec)]
    pub fn complement(self) -> (r: Permissions)
        ensures
            r == self.complement_spec(),
    {
        Permissions { bits: !self.bits & Permissions::ALL_BITS }
    }

    /// The permissions of `self` that are not in `other`.
    pub open spec fn difference_spec(self, other: Permissions) -> Permissions {
        Permissions { bits: self.bits & !other.bits }
    }

    /// Difference: the permissions of `self` that are not in `other`.
    #[verifier::when_used_as_spec(difference_spec)]
    pub fn difference(self, other: Permissions) -> (r: Permissions)
        ensures
            r == self.difference_spec(other),
    {
        Permissions { bits: self.bits & !other.bits }
    }

    /// What a set becomes under an overwrite: `deny` is taken away first and
    /// `allow` is added after it, so a permission in both stays allowed.
    pub open spec fn overwritten_spec(self, allow: Permissions, deny: Permissions) -> Permissions {
        self.difference_spec(deny).union_spec(allow)
    }

    /// Applies an overwrite: takes `deny` away, then adds `allow`.
    #[verifier::when_used_as_spec(overwritten_spec)]
    pub fn overwritten(self, allow: Permissions, deny: Permissions) -> (r: Permissions)
        ensures
            r == self.overwritten_spec(allow, deny),
    {
        self.difference(deny).union(allow)
    }

    /// Adds the permissions of `other` to the set.
    pub fn insert(&mut self, other: Permissions)
        ensures
            *final(self) == old(self).union_spec(other),
    {
        self.bits = self.bits | other.bits;
    }

    /// Takes the permissions of `other` away from the set.
    pub fn remove(&mut self, other: Permissions)
        ensures
            *final(self) == old(self).difference_spec(other),
    {
        self.bits = self.bits & !other.bits;
    }
}

impl Permissions {
    /// Whether the set holds `CREATE_INSTANT_INVITE`.
    pub fn create_instant_invite(self) -> (r: bool)
        ensures
            r == self.has(Permissions::CREATE_INSTANT_INVITE),
    {
        self.has(Permissions::CREATE_INSTANT_INVITE)
    }

    /// Whether the set holds `KICK_MEMBERS`.
    pub fn kick_members(self) -> (r: bool)
        ensures
            r == self.has(Permissions::KICK_MEMBERS),
    {
        self.has(Permissions::KICK_MEMBERS)
    }

    /// Whether the set holds `BAN_MEMBERS`.
    pub fn ban_members(self) -> (r: bool)
        ensures
            r == self.has(Permissions::BAN_MEMBERS),
    {
        self.has(Permissions::BAN_MEMBERS)
    }

    /// Whether the set holds `ADMINISTRATOR`.
    pub fn administrator(self) -> (r: bool)
        ensures
            r == self.has(Permissions::ADMINISTRATOR),
    {
        self.has(Permissions::ADMINISTRATOR)
    }

    /// Whether the set holds `MANAGE_CHANNELS`.
    pub fn manage_channels(self) -> (r: bool)
        ensures
            r == self.has(Permissions::MANAGE_CHANNELS),
    {
        self.has(Permissions::MANAGE_CHANNELS)
    }

    /// Whether the set holds `MANAGE_GUILD`.
    pub fn manage_guild(self) -> (r: bool)
        ensures
            r == self.has(Permissions::MANAGE_GUILD),
    {
        self.has(Permissions::MANAGE_GUILD)
    }

    /// Whether the set holds `ADD_REACTIONS`.
    pub fn add_reactions(self) -> (r: bool)
        ensures
            r == self.has(Permissions::ADD_REACTIONS),
    {
        self.has(Permissions::ADD_REACTIONS)
    }

    /// Whether the set holds `VIEW_AUDIT_LOG`.
    pub fn view_audit_log(self) -> (r: bool)
        ensures
            r == self.has(Permissions::VIEW_AUDIT_LOG),
    {
        self.has(Permissions::VIEW_AUDIT_LOG)
    }

    /// Whether the set holds `PRIORITY_SPEAKER`.
    pub fn priority_speaker(self) -> (r: bool)
        ensures
            r == self.has(Permissions::PRIORITY_SPEAKER),
    {
        self.has(Permissions::PRIORITY_SPEAKER)
    }

    /// Whether the set holds `STREAM`.
    pub fn stream(self) -> (r: bool)
        ensures
            r == self.has(Permissions::STREAM),
    {
        self.has(Permissions::STREAM)
    }

    /// Whether the set holds `VIEW_CHANNEL`.
    pub fn view_channel(self) -> (r: bool)
        ensures
            r == self.has(Permissions::VIEW_CHANNEL),
    {
        self.has(Permissions::VIEW_CHANNEL)
    }

    /// Whether the set holds `SEND_MESSAGES`.
    pub fn send_messages(self) -> (r: bool)
        ensures
            r == self.has(Permissions::SEND_MESSAGES),
    {
        self.has(Permissions::SEND_MESSAGES)
    }

    /// Whether the set holds `SEND_TTS_MESSAGES`.
    pub fn send_tts_messages(self) -> (r: bool)
        ensures
            r == self.has(Permissions::SEND_TTS_MESSAGES),
    {
        self.has(Permissions::SEND_TTS_MESSAGES)
    }

    /// Whether the set holds `MANAGE_MESSAGES`.
    pub fn manage_messages(self) -> (r: bool)
        ensures
            r == self.has(Permissions::MANAGE_MESSAGES),
    {
        self.has(Permissions::MANAGE_MESSAGES)
    }

    /// Whether the set holds `EMBED_LINKS`.
    pub fn embed_links(self) -> (r: bool)
        ensures
            r == self.has(Permissions::EMBED_LINKS),
    {
        self.has(Permissions::EMBED_LINKS)
    }

    /// Whether the set holds `ATTACH_FILES`.
    pub fn attach_files(self) -> (r: bool)
        ensures
            r == self.has(Permissions::ATTACH_FILES),
    {
        self.has(Permissions::ATTACH_FILES)
    }

    /// Whether the set holds `READ_MESSAGE_HISTORY`.
    pub fn read_message_history(self) -> (r: bool)
        ensures
            r == self.has(Permissions::READ_MESSAGE_HISTORY),
    {
        self.has(Permissions::READ_MESSAGE_HISTORY)
    }

    /// Whether the set holds `MENTION_EVERYONE`.
    pub fn mention_everyone(self) -> (r: bool)
        ensures
            r == self.has(Permissions::MENTION_EVERYONE),
    {
        self.has(Permissions::MENTION_EVERYONE)
    }

    /// Whether the set holds `USE_EXTERNAL_EMOJIS`.
    pub fn use_external_emojis(self) -> (r: bool)
        ensures
            r == self.has(Permissions::USE_EXTERNAL_EMOJIS),
    {
        self.has(Permissions::USE_EXTERNAL_EMOJIS)
    }

    /// Whether the set holds `VIEW_GUILD_INSIGHTS`.
    pub fn view_guild_insights(self) -> (r: bool)
        ensures
            r == self.has(Permissions::VIEW_GUILD_INSIGHTS),
    {
        self.has(Permissions::VIEW_GUILD_INSIGHTS)
    }

    /// Whether the set holds `CONNECT`.
    pub fn connect(self) -> (r: bool)
        ensures
            r == self.has(Permissions::CONNECT),
    {
        self.has(Permissions::CONNECT)
    }

    /// Whether the set holds `SPEAK`.
    pub fn speak(self) -> (r: bool)
        ensures
            r == self.has(Permissions::SPEAK),
    {
        self.has(Permissions::SPEAK)
    }

    /// Whether the set holds `MUTE_MEMBERS`.
    pub fn mute_members(self) -> (r: bool)
        ensures
            r == self.has(Permissions::MUTE_MEMBERS),
    {
        self.has(Permissions::MUTE_MEMBERS)
    }

    /// Whether the set holds `DEAFEN_MEMBERS`.
    pub fn deafen_members(self) -> (r: bool)
        ensures
            r == self.has(Permissions::DEAFEN_MEMBERS),
    {
        self.has(Permissions::DEAFEN_MEMBERS)
    }

    /// Whether the set holds `MOVE_MEMBERS`.
    pub fn move_members(self) -> (r: bool)
        ensures
            r == self.has(Permissions::MOVE_MEMBERS),
    {
        self.has(Permissions::MOVE_MEMBERS)
    }

    /// Whether the set holds `USE_VAD`.
    pub fn use_vad(self) -> (r: bool)
        ensures
            r == self.has(Permissions::USE_VAD),
    {
        self.has(Permissions::USE_VAD)
    }

    /// Whether the set holds `CHANGE_NICKNAME`.
    pub fn change_nickname(self) -> (r: bool)
        ensures
            r == self.has(Permissions::CHANGE_NICKNAME),
    {
        self.has(Permissions::CHANGE_NICKNAME)
    }

    /// Whether the set holds `MANAGE_NICKNAMES`.
    pub fn manage_nicknames(self) -> (r: bool)
        ensures
            r == self.has(Permissions::MANAGE_NICKNAMES),
    {
        self.has(Permissions::MANAGE_NICKNAMES)
    }

    /// Whether the set holds `MANAGE_ROLES`.
    pub fn manage_roles(self) -> (r: bool)
        ensures
            r == self.has(Permissions::MANAGE_ROLES),
    {
        self.has(Permissions::MANAGE_ROLES)
    }

    /// Whether the set holds `MANAGE_WEBHOOKS`.
    pub fn manage_webhooks(self) -> (r: bool)
        ensures
            r == self.has(Permissions::MANAGE_WEBHOOKS),
    {
        self.has(Permissions::MANAGE_WEBHOOKS)
    }

    /// Whether the set holds `MANAGE_GUILD_EXPRESSIONS`.
    pub fn manage_guild_expressions(self) -> (r: bool)
        ensures
            r == self.has(Permissions::MANAGE_GUILD_EXPRESSIONS),
    {
        self.has(Permissions::MANAGE_GUILD_EXPRESSIONS)
    }

    /// Whether the set holds `USE_APPLICATION_COMMANDS`.
    pub fn use_application_commands(self) -> (r: bool)
        ensures
            r == self.has(Permissions::USE_APPLICATION_COMMANDS),
    {
        self.has(Permissions::USE_APPLICATION_COMMANDS)
    }

    /// Whether the set holds `REQUEST_TO_SPEAK`.
    pub fn request_to_speak(self) -> (r: bool)
        ensures
            r == self.has(Permissions::REQUEST_TO_SPEAK),
    {
        self.has(Permissions::REQUEST_TO_SPEAK)
    }

    /// Whether the set holds `MANAGE_EVENTS`.
    pub fn manage_events(self) -> (r: bool)
        ensures
            r == self.has(Permissions::MANAGE_EVENTS),
    {
        self.has(Permissions::MANAGE_EVENTS)
    }

    /// Whether the set holds `MANAGE_THREADS`.
    pub fn manage_threads(self) -> (r: bool)
        ensures
            r == self.has(Permissions::MANAGE_THREADS),
    {
        self.has(Permissions::MANAGE_THREADS)
    }

    /// Whether the set holds `CREATE_PUBLIC_THREADS`.
    pub fn create_public_threads(self) -> (r: bool)
        ensures
            r == self.has(Permissions::CREATE_PUBLIC_THREADS),
    {
        self.has(Permissions::CREATE_PUBLIC_THREADS)
    }

    /// Whether the set holds `CREATE_PRIVATE_THREADS`.
    pub fn create_private_threads(self) -> (r: bool)
        ensures
            r == self.has(Permissions::CREATE_PRIVATE_THREADS),
    {
        self.has(Permissions::CREATE_PRIVATE_THREADS)
    }

    /// Whether the set holds `USE_EXTERNAL_STICKERS`.
    pub fn use_external_stickers(self) -> (r: bool)
        ensures
            r == self.has(Permissions::USE_EXTERNAL_STICKERS),
    {
        self.has(Permissions::USE_EXTERNAL_STICKERS)
    }

    /// Whether the set holds `SEND_MESSAGES_IN_THREADS`.
    pub fn send_messages_in_threads(self) -> (r: bool)
        ensures
            r == self.has(Permissions::SEND_MESSAGES_IN_THREADS),
    {
        self.has(Permissions::SEND_MESSAGES_IN_THREADS)
    }

    /// Whether the set holds `USE_EMBEDDED_ACTIVITIES`.
    pub fn use_embedded_activities(self) -> (r: bool)
        ensures
            r == self.has(Permissions::USE_EMBEDDED_ACTIVITIES),
    {
        self.has(Permissions::USE_EMBEDDED_ACTIVITIES)
    }

    /// Whether the set holds `MODERATE_MEMBERS`.
    pub fn moderate_members(self) -> (r: bool)
        ensures
            r == self.has(Permissions::MODERATE_MEMBERS),
    {
        self.has(Permissions::MODERATE_MEMBERS)
    }

    /// Whether the set holds `VIEW_CREATOR_MONETIZATION_ANALYTICS`.
    pub fn view_creator_monetization_analytics(self) -> (r: bool)
        ensures
            r == self.has(Permissions::VIEW_CREATOR_MONETIZATION_ANALYTICS),
    {
        self.has(Permissions::VIEW_CREATOR_MONETIZATION_ANALYTICS)
    }

    /// Whether the set holds `USE_SOUNDBOARD`.
    pub fn use_soundboard(self) -> (r: bool)
        ensures
            r == self.has(Permissions::USE_SOUNDBOARD),
    {
        self.has(Permissions::USE_SOUNDBOARD)
    }

    /// Whether the set holds `CREATE_GUILD_EXPRESSIONS`.
    pub fn create_guild_expressions(self) -> (r: bool)
        ensures
            r == self.has(Permissions::CREATE_GUILD_EXPRESSIONS),
    {
        self.has(Permissions::CREATE_GUILD_EXPRESSIONS)
    }

    /// Whether the set holds `CREATE_EVENTS`.
    pub fn create_events(self) -> (r: bool)
        ensures
            r == self.has(Permissions::CREATE_EVENTS),
    {
        self.has(Permissions::CREATE_EVENTS)
    }

    /// Whether the set holds `USE_EXTERNAL_SOUNDS`.
    pub fn use_external_sounds(self) -> (r: bool)
        ensures
            r == self.has(Permissions::USE_EXTERNAL_SOUNDS),
    {
        self.has(Permissions::USE_EXTERNAL_SOUNDS)
    }

    /// Whether the set holds `SEND_VOICE_MESSAGES`.
    pub fn send_voice_messages(self) -> (r: bool)
        ensures
            r == self.has(Permissions::SEND_VOICE_MESSAGES),
    {
        self.has(Permissions::SEND_VOICE_MESSAGES)
    }

    /// Whether the set holds `SET_VOICE_CHANNEL_STATUS`.
    pub fn set_voice_channel_status(self) -> (r: bool)
        ensures
            r == self.has(Permissions::SET_VOICE_CHANNEL_STATUS),
    {
        self.has(Permissions::SET_VOICE_CHANNEL_STATUS)
    }

    /// Whether the set holds `SEND_POLLS`.
    pub fn send_polls(self) -> (r: bool)
        ensures
            r == self.has(Permissions::SEND_POLLS),
    {
        self.has(Permissions::SEND_POLLS)
    }

    /// Whether the set holds `USE_EXTERNAL_APPS`.
    pub fn use_external_apps(self) -> (r: bool)
        ensures
            r == self.has(Permissions::USE_EXTERNAL_APPS),
    {
        self.has(Permissions::USE_EXTERNAL_APPS)
    }
}

impl Default for Permissions {
    fn default() -> (r: Self)
        ensures
            r == Permissions::empty_spec(),
    {
        Permissions { bits: 0 }
    }
}

/// The union of all the sets of `sets`.
pub open spec fn union_all(sets: Seq<Permissions>) -> Permissions
    decreases sets.len(),
{
    if sets.len() == 0 {
        Permissions::empty_spec()
    } else {
        union_all(sets.drop_last()).union_spec(sets.last())
    }
}

/// What one of the sets of `sets` holds, their union holds.
pub proof fn lemma_union_all_has(sets: Seq<Permissions>, i: int, mask: u64)
    requires
        0 <= i < sets.len(),
        sets[i].has(mask),
    ensures
        union_all(sets).has(mask),
    decreases sets.len(),
{
    let a = union_all(sets.drop_last()).bits;
    let b = sets.last().bits;
    if i == sets.len() - 1 {
        assert(b & mask == mask ==> (a | b) & mask == mask) by (bit_vector);
    } else {
        lemma_union_all_has(sets.drop_last(), i, mask);
        assert(a & mask == mask ==> (a | b) & mask == mask) by (bit_vector);
    }
}

/// The full set holds every set made of named permissions, `ADMINISTRATOR`
/// among them, and is made of the flags that have a name.
pub proof fn lemma_all_is_full(bits: u64)
    ensures
        Permissions::all().contains(Permissions::from_bits_truncate(bits)),
        Permissions::all().has(Permissions::ADMINISTRATOR),
        Permissions::ALL_BITS == Permissions::CREATE_INSTANT_INVITE | Permissions::KICK_MEMBERS
            | Permissions::BAN_MEMBERS | Permissions::ADMINISTRATOR | Permissions::MANAGE_CHANNELS
            | Permissions::MANAGE_GUILD | Permissions::ADD_REACTIONS | Permissions::VIEW_AUDIT_LOG
            | Permissions::PRIORITY_SPEAKER | Permissions::STREAM | Permissions::VIEW_CHANNEL
            | Permissions::SEND_MESSAGES | Permissions::SEND_TTS_MESSAGES
            | Permissions::MANAGE_MESSAGES | Permissions::EMBED_LINKS | Permissions::ATTACH_FILES
            | Permissions::READ_MESSAGE_HISTORY | Permissions::MENTION_EVERYONE
            | Permissions::USE_EXTERNAL_EMOJIS | Permissions::VIEW_GUILD_INSIGHTS
            | Permissions::CONNECT | Permissions::SPEAK | Permissions::MUTE_MEMBERS
            | Permissions::DEAFEN_MEMBERS | Permissions::MOVE_MEMBERS | Permissions::USE_VAD
            | Permissions::CHANGE_NICKNAME | Permissions::MANAGE_NICKNAMES
            | Permissions::MANAGE_ROLES | Permissions::MANAGE_WEBHOOKS
            | Permissions::MANAGE_GUILD_EXPRESSIONS | Permissions::USE_APPLICATION_COMMANDS
            | Permissions::REQUEST_TO_SPEAK | Permissions::MANAGE_EVENTS
            | Permissions::MANAGE_THREADS | Permissions::CREATE_PUBLIC_THREADS
            | Permissions::CREATE_PRIVATE_THREADS | Permissions::USE_EXTERNAL_STICKERS
            | Permissions::SEND_MESSAGES_IN_THREADS | Permissions::USE_EMBEDDED_ACTIVITIES
            | Permissions::MODERATE_MEMBERS | Permissions::VIEW_CREATOR_MONETIZATION_ANALYTICS
            | Permissions::USE_SOUNDBOARD | Permissions::CREATE_GUILD_EXPRESSIONS
            | Permissions::CREATE_EVENTS | Permissions::USE_EXTERNAL_SOUNDS
            | Permissions::SEND_VOICE_MESSAGES | Permissions::SET_VOICE_CHANNEL_STATUS
            | Permissions::SEND_POLLS | Permissions::USE_EXTERNAL_APPS,
{
    assert((bits & 0x0007_7fff_ffff_ffffu64) & 0x0007_7fff_ffff_ffffu64 == bits
        & 0x0007_7fff_ffff_ffffu64) by (bit_vector);
    assert(0x0007_7fff_ffff_ffffu64 & 0x8u64 == 0x8u64) by (bit_vector);
    assert(0x0007_7fff_ffff_ffffu64 == 0x1u64 | 0x2u64 | 0x4u64 | 0x8u64 | 0x10u64 | 0x20u64
        | 0x40u64 | 0x80u64 | 0x100u64 | 0x200u64 | 0x400u64 | 0x800u64 | 0x1000u64 | 0x2000u64
        | 0x4000u64 | 0x8000u64 | 0x1_0000u64 | 0x2_0000u64 | 0x4_0000u64 | 0x8_0000u64
        | 0x10_0000u64 | 0x20_0000u64 | 0x40_0000u64 | 0x80_0000u64 | 0x100_0000u64
        | 0x200_0000u64 | 0x400_0000u64 | 0x800_0000u64 | 0x1000_0000u64 | 0x2000_0000u64
        | 0x4000_0000u64 | 0x8000_0000u64 | 0x1_0000_0000u64 | 0x2_0000_0000u64
        | 0x4_0000_0000u64 | 0x8_0000_0000u64 | 0x10_0000_0000u64 | 0x20_0000_0000u64
        | 0x40_0000_0000u64 | 0x80_0000_0000u64 | 0x100_0000_0000u64 | 0x200_0000_0000u64
        | 0x400_0000_0000u64 | 0x800_0000_0000u64 | 0x1000_0000_0000u64 | 0x2000_0000_0000u64
        | 0x4000_0000_0000u64 | 0x1_0000_0000_0000u64 | 0x2_0000_0000_0000u64
        | 0x4_0000_0000_0000u64) by (bit_vector);
}

/// What an overwrite allows is there after it, and what it denies and does
/// not allow is gone, whatever was there before.
pub proof fn lemma_overwritten(base: Permissions, allow: Permissions, deny: Permissions, mask: u64)
    ensures
        allow.has(mask) ==> base.overwritten(allow, deny).has(mask),
        deny.has(mask) && allow.bits & mask == 0 ==> base.overwritten(allow, deny).bits & mask
            == 0,
        deny.bits & mask == 0 && base.has(mask) ==> base.overwritten(allow, deny).has(mask),
{
    let b = base.bits;
    let a = allow.bits;
    let d = deny.bits;
    assert(a & mask == mask ==> ((b & !d) | a) & mask == mask) by (bit_vector);
    assert(d & mask == mask && a & mask == 0 ==> ((b & !d) | a) & mask == 0) by (bit_vector);
    assert(d & mask == 0 && b & mask == mask ==> ((b & !d) | a) & mask == mask) by (bit_vector);
}

} // verus!
