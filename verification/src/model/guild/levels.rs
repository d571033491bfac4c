//! The settings of a guild that go over the wire as numbers.
//!
//! Each of them has a name for the numbers that are known and keeps any
//! other number as it came, so that a number read and written again is the
//! same number.

use vstd::prelude::*;
use vstd::std_specs::convert::FromSpecImpl;

verus! {

/// How much of a guild's traffic a member is notified of unless they say otherwise.
#[derive(Clone, Copy, Debug, PartialEq, Eq, Structural, Hash, Default)]
pub enum DefaultMessageNotificationLevel {
    /// Every message.
    #[default]
    All,
    /// Mentions only.
    Mentions,
    /// A number without a name.
    Unknown(u8),
}

impl DefaultMessageNotificationLevel {
    /// The setting that the number `value` stands for.
    pub open spec fn of_number(value: u8) -> DefaultMessageNotificationLevel {
        if value == 0 {
            DefaultMessageNotificationLevel::All
        } else if value == 1 {
            DefaultMessageNotificationLevel::Mentions
        } else {
            DefaultMessageNotificationLevel::Unknown(value)
        }
    }

    /// The number that stands for the setting.
    pub open spec fn number(self) -> u8 {
        match self {
            DefaultMessageNotificationLevel::All => 0,
            DefaultMessageNotificationLevel::Mentions => 1,
            DefaultMessageNotificationLevel::Unknown(value) => value,
        }
    }

    /// A number turned into a setting and back is the same number.
    pub proof fn lemma_number_kept(value: u8)
        ensures
            DefaultMessageNotificationLevel::of_number(value).number() == value,
    {
    }
}

impl From<u8> for DefaultMessageNotificationLevel {
    fn from(value: u8) -> (r: DefaultMessageNotificationLevel) {
        if value == 0 {
            DefaultMessageNotificationLevel::All
        } else if value == 1 {
            DefaultMessageNotificationLevel::Mentions
        } else {
            DefaultMessageNotificationLevel::Unknown(value)
        }
    }
}

impl FromSpecImpl<u8> for DefaultMessageNotificationLevel {
    open spec fn obeys_from_spec() -> bool {
        true
    }

    open spec fn from_spec(value: u8) -> DefaultMessageNotificationLevel {
        DefaultMessageNotificationLevel::of_number(value)
    }
}

impl From<DefaultMessageNotificationLevel> for u8 {
    fn from(value: DefaultMessageNotificationLevel) -> (r: u8) {
        match value {
            DefaultMessageNotificationLevel::All => 0,
            DefaultMessageNotificationLevel::Mentions => 1,
            DefaultMessageNotificationLevel::Unknown(unknown) => unknown,
        }
    }
}

impl FromSpecImpl<DefaultMessageNotificationLevel> for u8 {
    open spec fn obeys_from_spec() -> bool {
        true
    }

    open spec fn from_spec(value: DefaultMessageNotificationLevel) -> u8 {
        value.number()
    }
}

/// Whose messages a guild scans for explicit media.
#[derive(Clone, Copy, Debug, PartialEq, Eq, Structural, Hash, Default)]
pub enum ExplicitContentFilter {
    /// Nobody's.
    #[default]
    Off,
    /// Those of members without a role.
    WithoutRole,
    /// Everybody's.
    All,
    /// A number without a name.
    Unknown(u8),
}

impl ExplicitContentFilter {
    /// The setting that the number `value` stands for.
    pub open spec fn of_number(value: u8) -> ExplicitContentFilter {
        if value == 0 {
            ExplicitContentFilter::Off
        } else if value == 1 {
            ExplicitContentFilter::WithoutRole
        } else if value == 2 {
            ExplicitContentFilter::All
        } else {
            ExplicitContentFilter::Unknown(value)
        }
    }

    /// The number that stands for the setting.
    pub open spec fn number(self) -> u8 {
        match self {
            ExplicitContentFilter::Off => 0,
            ExplicitContentFilter::WithoutRole => 1,
            ExplicitContentFilter::All => 2,
            ExplicitContentFilter::Unknown(value) => value,
        }
    }

    /// A number turned into a setting and back is the same number.
    pub proof fn lemma_number_kept(value: u8)
        ensures
            ExplicitContentFilter::of_number(value).number() == value,
    {
    }
}

impl From<u8> for ExplicitContentFilter {
    fn from(value: u8) -> (r: ExplicitContentFilter) {
        if value == 0 {
            ExplicitContentFilter::Off
        } else if value == 1 {
            ExplicitContentFilter::WithoutRole
        } else if value == 2 {
            ExplicitContentFilter::All
        } else {
            ExplicitContentFilter::Unknown(value)
        }
    }
}

impl FromSpecImpl<u8> for ExplicitContentFilter {
    open spec fn obeys_from_spec() -> bool {
        true
    }

    open spec fn from_spec(value: u8) -> ExplicitContentFilter {
        ExplicitContentFilter::of_number(value)
    }
}

impl From<ExplicitContentFilter> for u8 {
    fn from(value: ExplicitContentFilter) -> (r: u8) {
        match value {
            ExplicitContentFilter::Off => 0,
            ExplicitContentFilter::WithoutRole => 1,
            ExplicitContentFilter::All => 2,
            ExplicitContentFilter::Unknown(unknown) => unknown,
        }
    }
}

impl FromSpecImpl<ExplicitContentFilter> for u8 {
    open spec fn obeys_from_spec() -> bool {
        true
    }

    open spec fn from_spec(value: ExplicitContentFilter) -> u8 {
        value.number()
    }
}

/// Whether a guild asks its moderators for a second factor.
#[derive(Clone, Copy, Debug, PartialEq, Eq, Structural, Hash, Default)]
pub enum MfaLevel {
    /// It does not.
    #[default]
    Off,
    /// It does.
    Elevated,
    /// A number without a name.
    Unknown(u8),
}

impl MfaLevel {
    /// The setting that the number `value` stands for.
    pub open spec fn of_number(value: u8) -> MfaLevel {
        if value == 0 {
            MfaLevel::Off
        } else if value == 1 {
            MfaLevel::Elevated
        } else {
            MfaLevel::Unknown(value)
        }
    }

    /// The number that stands for the setting.
    pub open spec fn number(self) -> u8 {
        match self {
            MfaLevel::Off => 0,
            MfaLevel::Elevated => 1,
            MfaLevel::Unknown(value) => value,
        }
    }

    /// A number turned into a setting and back is the same number.
    pub proof fn lemma_number_kept(value: u8)
        ensures
            MfaLevel::of_number(value).number() == value,
    {
    }
}

impl From<u8> for MfaLevel {
    fn from(value: u8) -> (r: MfaLevel) {
        if value == 0 {
            MfaLevel::Off
        } else if value == 1 {
            MfaLevel::Elevated
        } else {
            MfaLevel::Unknown(value)
        }
    }
}

impl FromSpecImpl<u8> for MfaLevel {
    open spec fn obeys_from_spec() -> bool {
        true
    }

    open spec fn from_spec(value: u8) -> MfaLevel {
        MfaLevel::of_number(value)
    }
}

impl From<MfaLevel> for u8 {
    fn from(value: MfaLevel) -> (r: u8) {
        match value {
            MfaLevel::Off => 0,
            MfaLevel::Elevated => 1,
            MfaLevel::Unknown(unknown) => unknown,
        }
    }
}

impl FromSpecImpl<MfaLevel> for u8 {
    open spec fn obeys_from_spec() -> bool {
        true
    }

    open spec fn from_spec(value: MfaLevel) -> u8 {
        value.number()
    }
}

/// What a guild asks of a user before they may write in it.
#[derive(Clone, Copy, Debug, PartialEq, Eq, Structural, Hash, Default)]
pub enum VerificationLevel {
    /// Nothing.
    #[default]
    Off,
    /// A verified e-mail address.
    Low,
    /// Also an account older than five minutes.
    Medium,
    /// Also ten minutes as a member of the guild.
    High,
    /// A verified telephone number.
    Higher,
    /// A number without a name.
    Unknown(u8),
}

impl VerificationLevel {
    /// The setting that the number `value` stands for.
    pub open spec fn of_number(value: u8) -> VerificationLevel {
        if value == 0 {
            VerificationLevel::Off
        } else if value == 1 {
            VerificationLevel::Low
        } else if value == 2 {
            VerificationLevel::Medium
        } else if value == 3 {
            VerificationLevel::High
        } else if value == 4 {
            VerificationLevel::Higher
        } else {
            VerificationLevel::Unknown(value)
        }
    }

    /// The number that stands for the setting.
    pub open spec fn number(self) -> u8 {
        match self {
            VerificationLevel::Off => 0,
            VerificationLevel::Low => 1,
            VerificationLevel::Medium => 2,
            VerificationLevel::High => 3,
            VerificationLevel::Higher => 4,
            VerificationLevel::Unknown(value) => value,
        }
    }

    /// A number turned into a setting and back is the same number.
    pub proof fn lemma_number_kept(value: u8)
        ensures
            VerificationLevel::of_number(value).number() == value,
    {
    }
}

impl From<u8> for VerificationLevel {
    fn from(value: u8) -> (r: VerificationLevel) {
        if value == 0 {
            VerificationLevel::Off
        } else if value == 1 {
            VerificationLevel::Low
        } else if value == 2 {
            VerificationLevel::Medium
        } else if value == 3 {
            VerificationLevel::High
        } else if value == 4 {
            VerificationLevel::Higher
        } else {
            VerificationLevel::Unknown(value)
        }
    }
}

impl FromSpecImpl<u8> for VerificationLevel {
    open spec fn obeys_from_spec() -> bool {
        true
    }

    open spec fn from_spec(value: u8) -> VerificationLevel {
        VerificationLevel::of_number(value)
    }
}

impl From<VerificationLevel> for u8 {
    fn from(value: VerificationLevel) -> (r: u8) {
        match value {
            VerificationLevel::Off => 0,
            VerificationLevel::Low => 1,
            VerificationLevel::Medium => 2,
            VerificationLevel::High => 3,
            VerificationLevel::Higher => 4,
            VerificationLevel::Unknown(unknown) => unknown,
        }
    }
}

impl FromSpecImpl<VerificationLevel> for u8 {
    open spec fn obeys_from_spec() -> bool {
        true
    }

    open spec fn from_spec(value: VerificationLevel) -> u8 {
        value.number()
    }
}

/// How a guild is rated for adult content.
#[derive(Clone, Copy, Debug, PartialEq, Eq, Structural, Hash, Default)]
pub enum NsfwLevel {
    /// Not rated.
    #[default]
    Default,
    /// Rated explicit.
    Explicit,
    /// Rated safe.
    Safe,
    /// Restricted by age.
    AgeRestricted,
    /// A number without a name.
    Unknown(u8),
}

impl NsfwLevel {
    /// The setting that the number `value` stands for.
    pub open spec fn of_number(value: u8) -> NsfwLevel {
        if value == 0 {
            NsfwLevel::Default
        } else if value == 1 {
            NsfwLevel::Explicit
        } else if value == 2 {
            NsfwLevel::Safe
        } else if value == 3 {
            NsfwLevel::AgeRestricted
        } else {
            NsfwLevel::Unknown(value)
        }
    }

    /// The number that stands for the setting.
    pub open spec fn number(self) -> u8 {
        match self {
            NsfwLevel::Default => 0,
            NsfwLevel::Explicit => 1,
            NsfwLevel::Safe => 2,
            NsfwLevel::AgeRestricted => 3,
            NsfwLevel::Unknown(value) => value,
        }
    }

    /// A number turned into a setting and back is the same number.
    pub proof fn lemma_number_kept(value: u8)
        ensures
            NsfwLevel::of_number(value).number() == value,
    {
    }
}

impl From<u8> for NsfwLevel {
    fn from(value: u8) -> (r: NsfwLevel) {
        if value == 0 {
            NsfwLevel::Default
        } else if value == 1 {
            NsfwLevel::Explicit
        } else if value == 2 {
            NsfwLevel::Safe
        } else if value == 3 {
            NsfwLevel::AgeRestricted
        } else {
            NsfwLevel::Unknown(value)
        }
    }
}

impl FromSpecImpl<u8> for NsfwLevel {
    open spec fn obeys_from_spec() -> bool {
        true
    }

    open spec fn from_spec(value: u8) -> NsfwLevel {
        NsfwLevel::of_number(value)
    }
}

impl From<NsfwLevel> for u8 {
    fn from(value: NsfwLevel) -> (r: u8) {
        match value {
            NsfwLevel::Default => 0,
            NsfwLevel::Explicit => 1,
            NsfwLevel::Safe => 2,
            NsfwLevel::AgeRestricted => 3,
            NsfwLevel::Unknown(unknown) => unknown,
        }
    }
}

impl FromSpecImpl<NsfwLevel> for u8 {
    open spec fn obeys_from_spec() -> bool {
        true
    }

    open spec fn from_spec(value: NsfwLevel) -> u8 {
        value.number()
    }
}

/// After how many seconds without a sign of life a member is moved to the AFK channel.
#[derive(Clone, Copy, Debug, PartialEq, Eq, Structural, Hash)]
pub enum AfkTimeout {
    /// 60 seconds.
    OneMinute,
    /// 300 seconds.
    FiveMinutes,
    /// 900 seconds.
    FifteenMinutes,
    /// 1800 seconds.
    ThirtyMinutes,
    /// 3600 seconds.
    OneHour,
    /// A number without a name.
    Unknown(u16),
}

impl AfkTimeout {
    /// The setting that the number `value` stands for.
    pub open spec fn of_number(value: u16) -> AfkTimeout {
        if value == 60 {
            AfkTimeout::OneMinute
        } else if value == 300 {
            AfkTimeout::FiveMinutes
        } else if value == 900 {
            AfkTimeout::FifteenMinutes
        } else if value == 1800 {
            AfkTimeout::ThirtyMinutes
        } else if value == 3600 {
            AfkTimeout::OneHour
        } else {
            AfkTimeout::Unknown(value)
        }
    }

    /// The number that stands for the setting.
    pub open spec fn number(self) -> u16 {
        match self {
            AfkTimeout::OneMinute => 60,
            AfkTimeout::FiveMinutes => 300,
            AfkTimeout::FifteenMinutes => 900,
            AfkTimeout::ThirtyMinutes => 1800,
            AfkTimeout::OneHour => 3600,
            AfkTimeout::Unknown(value) => value,
        }
    }

    /// A number turned into a setting and back is the same number.
    pub proof fn lemma_number_kept(value: u16)
        ensures
            AfkTimeout::of_number(value).number() == value,
    {
    }
}

impl From<u16> for AfkTimeout {
    fn from(value: u16) -> (r: AfkTimeout) {
        if value == 60 {
            AfkTimeout::OneMinute
        } else if value == 300 {
            AfkTimeout::FiveMinutes
        } else if value == 900 {
            AfkTimeout::FifteenMinutes
        } else if value == 1800 {
            AfkTimeout::ThirtyMinutes
        } else if value == 3600 {
            AfkTimeout::OneHour
        } else {
            AfkTimeout::Unknown(value)
        }
    }
}

impl FromSpecImpl<u16> for AfkTimeout {
    open spec fn obeys_from_spec() -> bool {
        true
    }

    open spec fn from_spec(value: u16) -> AfkTimeout {
        AfkTimeout::of_number(value)
    }
}

impl From<AfkTimeout> for u16 {
    fn from(value: AfkTimeout) -> (r: u16) {
        match value {
            AfkTimeout::OneMinute => 60,
            AfkTimeout::FiveMinutes => 300,
            AfkTimeout::FifteenMinutes => 900,
            AfkTimeout::ThirtyMinutes => 1800,
            AfkTimeout::OneHour => 3600,
            AfkTimeout::Unknown(unknown) => unknown,
        }
    }
}

impl FromSpecImpl<AfkTimeout> for u16 {
    open spec fn obeys_from_spec() -> bool {
        true
    }

    open spec fn from_spec(value: AfkTimeout) -> u16 {
        value.number()
    }
}

} // verus!
