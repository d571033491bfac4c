use guild_model::internal::fixed::FixedString;
use guild_model::internal::text::contains_text;
use guild_model::internal::text::find;
use guild_model::internal::text::find_bytes;
use guild_model::internal::text::same_text;
use guild_model::model::application::modal_interaction::ModalInteraction;
use guild_model::model::application::modal_interaction::ModalInteractionData;
use guild_model::model::guild::levels::AfkTimeout;
use guild_model::model::guild::levels::DefaultMessageNotificationLevel;
use guild_model::model::guild::levels::ExplicitContentFilter;
use guild_model::model::guild::levels::MfaLevel;
use guild_model::model::guild::levels::NsfwLevel;
use guild_model::model::guild::levels::VerificationLevel;
use guild_model::model::guild::member::Member;
use guild_model::model::guild::search::closer;
use guild_model::model::guild::search::closest_to_origin;
use guild_model::model::guild::search::contains;
use guild_model::model::guild::search::distance_from_origin;
use guild_model::model::guild::search::starts_with;
use guild_model::model::guild::Guild;
use guild_model::model::guild::GuildInfo;
use guild_model::model::id::ApplicationId;
use guild_model::model::id::ChannelId;
use guild_model::model::id::GuildId;
use guild_model::model::id::InteractionId;
use guild_model::model::id::UserId;
use guild_model::model::invite::InviteGuild;
use guild_model::model::misc::ImageHash;
use guild_model::model::permissions::Permissions;
use guild_model::model::user::User;
use guild_model::model::utils::banner_url;
use guild_model::model::utils::icon_url;
use guild_model::model::utils::parse_u16;
use guild_model::model::utils::parse_user_tag;
use guild_model::model::utils::push_decimal;
use guild_model::model::utils::splash_url;
use std::cmp::Ordering;

fn hash(is_animated: bool) -> ImageHash {
    ImageHash {
        hash: [0x00, 0x1f, 0xa0, 0xff, 0x12, 0x34, 0x56, 0x78, 0x9a, 0xbc, 0xde, 0xf0, 0x01, 0x10, 0x0a, 0xb0],
        is_animated,
    }
}

#[test]
fn image_hash_as_text() {
    assert_eq!(hash(false).to_text(), "001fa0ff123456789abcdef001100ab0");
    assert_eq!(hash(true).to_text(), "a_001fa0ff123456789abcdef001100ab0");
    assert!(hash(true).is_animated());
    assert!(!hash(false).is_animated());
}

#[test]
fn decimal_numbers() {
    let cases: [(u64, &str); 6] =
        [(0, "0"), (7, "7"), (10, "10"), (1234567890, "1234567890"), (81384788765712384, "81384788765712384"), (u64::MAX, "18446744073709551615")];
    for (n, text) in cases {
        let mut s = String::from("id=");
        push_decimal(&mut s, n);
        assert_eq!(s, format!("id={}", text));
    }
}

#[test]
fn image_addresses() {
    let id = GuildId::new(81384788765712384);
    assert_eq!(
        icon_url(id, Some(&hash(false))).unwrap(),
        "https://cdn.discordapp.com/icons/81384788765712384/001fa0ff123456789abcdef001100ab0.webp"
    );
    assert_eq!(
        icon_url(id, Some(&hash(true))).unwrap(),
        "https://cdn.discordapp.com/icons/81384788765712384/a_001fa0ff123456789abcdef001100ab0.gif"
    );
    assert_eq!(icon_url(id, None), None);
    assert_eq!(
        splash_url(id, Some(&hash(false))).unwrap(),
        "https://cdn.discordapp.com/splashes/81384788765712384/001fa0ff123456789abcdef001100ab0.webp?size=4096"
    );
    assert_eq!(splash_url(id, None), None);
    assert_eq!(
        banner_url(id, Some("abc")).unwrap(),
        "https://cdn.discordapp.com/banners/81384788765712384/abc.webp?size=1024"
    );
    assert_eq!(banner_url(id, None), None);
}

#[test]
fn addresses_of_models() {
    let info = GuildInfo {
        id: GuildId::new(5),
        name: FixedString::from_static_trunc("g"),
        icon: Some(hash(true)),
        owner: false,
        permissions: Permissions::empty(),
        features: vec![],
    };
    assert_eq!(
        info.icon_url().unwrap(),
        "https://cdn.discordapp.com/icons/5/a_001fa0ff123456789abcdef001100ab0.gif"
    );
    let invite = InviteGuild {
        id: GuildId::new(6),
        name: FixedString::from_static_trunc("g"),
        icon: None,
        splash: Some(hash(false)),
        description: None,
    };
    assert_eq!(
        invite.splash_url().unwrap(),
        "https://cdn.discordapp.com/splashes/6/001fa0ff123456789abcdef001100ab0.webp?size=4096"
    );
    let guild = Guild {
        id: GuildId::new(7),
        icon: Some(hash(false)),
        splash: Some(hash(true)),
        banner: Some(FixedString::from_static_trunc("bannerhash")),
        ..Default::default()
    };
    assert_eq!(
        guild.icon_url().unwrap(),
        "https://cdn.discordapp.com/icons/7/001fa0ff123456789abcdef001100ab0.webp"
    );
    assert_eq!(
        guild.splash_url().unwrap(),
        "https://cdn.discordapp.com/splashes/7/a_001fa0ff123456789abcdef001100ab0.webp?size=4096"
    );
    assert_eq!(guild.banner_url().unwrap(), "https://cdn.discordapp.com/banners/7/bannerhash.webp?size=1024");
    let bare = Guild::default();
    assert_eq!(bare.icon_url(), None);
    assert_eq!(bare.splash_url(), None);
    assert_eq!(bare.banner_url(), None);
}

#[test]
fn numbers_are_read() {
    assert_eq!(parse_u16(b"0"), Some(0));
    assert_eq!(parse_u16(b"1432"), Some(1432));
    assert_eq!(parse_u16(b"+17"), Some(17));
    assert_eq!(parse_u16(b"0001432"), Some(1432));
    assert_eq!(parse_u16(b"65535"), Some(65535));
    assert_eq!(parse_u16(b"65536"), None);
    assert_eq!(parse_u16(b"99999999999999999999999"), None);
    assert_eq!(parse_u16(b""), None);
    assert_eq!(parse_u16(b"+"), None);
    assert_eq!(parse_u16(b"-1"), None);
    assert_eq!(parse_u16(b"12a"), None);
    assert_eq!(parse_u16(b" 12"), None);
    assert_eq!(parse_u16(b"1_2"), None);
    assert_eq!(parse_u16(b"++1"), None);
    for text in ["0", "1432", "+17", "0001432", "65535", "65536", "", "+", "-1", "12a", " 12", "70000x"] {
        assert_eq!(parse_u16(text.as_bytes()), text.parse::<u16>().ok());
    }
}

#[test]
fn user_tags_are_taken_apart() {
    assert_eq!(parse_user_tag("kangalioo#9108"), Some(("kangalioo", Some(9108))));
    assert_eq!(parse_user_tag("kangalioo#10108"), None);
    assert_eq!(parse_user_tag("kangalioo"), Some(("kangalioo", None)));
    assert_eq!(parse_user_tag("kangalioo#0"), Some(("kangalioo", None)));
    assert_eq!(parse_user_tag("kangalioo#0001"), Some(("kangalioo", Some(1))));
    assert_eq!(parse_user_tag("kangalioo#"), None);
    assert_eq!(parse_user_tag("kangalioo#12x"), None);
    assert_eq!(parse_user_tag("a#b#12"), None);
    assert_eq!(parse_user_tag("#12"), Some(("", Some(12))));
    assert_eq!(parse_user_tag(""), Some(("", None)));
    assert_eq!(parse_user_tag("zoë#9999"), Some(("zoë", Some(9999))));
}

#[test]
fn text_is_searched() {
    assert_eq!(find("zeyzey", "zey"), Some(0));
    assert_eq!(find("azey", "zey"), Some(1));
    assert_eq!(find("zoëzey", "zey"), Some(4));
    assert_eq!(find("aze", "zey"), None);
    assert_eq!(find("abc", ""), Some(0));
    assert_eq!(find("", ""), Some(0));
    assert_eq!(find("", "a"), None);
    assert_eq!(find_bytes(&[1, 2, 1, 2, 3], &[1, 2, 3]), Some(2));
    assert!(contains_text("meiyla", "yla"));
    assert!(!contains_text("meiyla", "ylb"));
    assert!(same_text("abc", "abc"));
    assert!(!same_text("abc", "abd"));
    assert!(!same_text("abc", "ab"));
    assert!(same_text("", ""));
    for (h, n) in [("zeyzey", "zey"), ("azey", "y"), ("zoëzey", "ëz"), ("abc", "abcd"), ("aaab", "aab")] {
        assert_eq!(find(h, n), h.find(n));
        assert_eq!(contains_text(h, n), h.contains(n));
    }
}

#[test]
fn case_counts_where_it_is_asked_to() {
    assert!(contains("zeyla", "yla", true));
    assert!(!contains("zeYLa", "yla", true));
    assert!(contains("zeYLa", "yla", false));
    assert!(contains("zeyla", "YLA", false));
    assert!(!contains("zeyla", "ylb", false));
    assert!(starts_with("zeyla", "zey", true));
    assert!(!starts_with("Zeyla", "zey", true));
    assert!(starts_with("Zeyla", "zEY", false));
    assert!(!starts_with("azey", "zey", false));
    assert!(starts_with("ÄB", "äb", false));
}

#[test]
fn closeness() {
    assert_eq!(distance_from_origin("zey", "azey"), Some(1 + 4));
    assert_eq!(distance_from_origin("zey", "zey"), Some(3));
    assert_eq!(distance_from_origin("zey", "zea"), None);
    assert_eq!(closest_to_origin("zey", "zey", "azey"), Ordering::Less);
    assert_eq!(closest_to_origin("zey", "azey", "zey"), Ordering::Greater);
    assert_eq!(closest_to_origin("zey", "azey", "zeyl"), Ordering::Greater);
    assert_eq!(closest_to_origin("zey", "azey", "zeyla"), Ordering::Equal);
    assert_eq!(closest_to_origin("zey", "zeya", "azey"), Ordering::Less);
    assert_eq!(closest_to_origin("zey", "zeya", "zeyb"), Ordering::Equal);
    assert_eq!(closest_to_origin("zey", "nope", "zey"), Ordering::Greater);
    assert_eq!(closest_to_origin("zey", "zey", "nope"), Ordering::Less);
    assert_eq!(closest_to_origin("zey", "nope", "nada"), Ordering::Greater);
    assert!(closer("zey", "zey", "azey"));
    assert!(!closer("zey", "zeya", "zeyb"));
    assert!(!closer("zey", "nope", "nada"));
    assert!(closer("zey", "zey", "nope"));
}

#[test]
fn settings_keep_their_numbers() {
    assert_eq!(VerificationLevel::from(3), VerificationLevel::High);
    assert_eq!(VerificationLevel::from(0), VerificationLevel::Off);
    assert_eq!(VerificationLevel::from(9), VerificationLevel::Unknown(9));
    assert_eq!(u8::from(VerificationLevel::Higher), 4);
    assert_eq!(MfaLevel::from(1), MfaLevel::Elevated);
    assert_eq!(u8::from(MfaLevel::Off), 0);
    assert_eq!(NsfwLevel::from(3), NsfwLevel::AgeRestricted);
    assert_eq!(u8::from(NsfwLevel::Safe), 2);
    assert_eq!(ExplicitContentFilter::from(1), ExplicitContentFilter::WithoutRole);
    assert_eq!(u8::from(ExplicitContentFilter::All), 2);
    assert_eq!(DefaultMessageNotificationLevel::from(1), DefaultMessageNotificationLevel::Mentions);
    assert_eq!(u8::from(DefaultMessageNotificationLevel::All), 0);
    assert_eq!(AfkTimeout::from(60), AfkTimeout::OneMinute);
    assert_eq!(AfkTimeout::from(300), AfkTimeout::FiveMinutes);
    assert_eq!(AfkTimeout::from(900), AfkTimeout::FifteenMinutes);
    assert_eq!(AfkTimeout::from(1800), AfkTimeout::ThirtyMinutes);
    assert_eq!(AfkTimeout::from(3600), AfkTimeout::OneHour);
    assert_eq!(AfkTimeout::from(61), AfkTimeout::Unknown(61));
    assert_eq!(u16::from(AfkTimeout::ThirtyMinutes), 1800);
    for n in 0..=255u8 {
        assert_eq!(u8::from(VerificationLevel::from(n)), n);
        assert_eq!(u8::from(NsfwLevel::from(n)), n);
        assert_eq!(u8::from(MfaLevel::from(n)), n);
        assert_eq!(u8::from(ExplicitContentFilter::from(n)), n);
        assert_eq!(u8::from(DefaultMessageNotificationLevel::from(n)), n);
    }
    for n in [0u16, 59, 60, 300, 900, 1800, 3600, 3601, u16::MAX] {
        assert_eq!(u16::from(AfkTimeout::from(n)), n);
    }
}

#[test]
fn fixed_strings_hold_their_text() {
    assert_eq!(FixedString::new().as_str(), "");
    assert_eq!(FixedString::default().as_str(), "");
    assert_eq!(FixedString::from_static_trunc("aaaa").as_str(), "aaaa");
    assert_eq!(FixedString::from_str_trunc("short").as_str(), "short");
    let long = "a text that is longer than what fits into the string itself";
    let held = FixedString::from_str_trunc(long);
    assert_eq!(held.as_str(), long);
    assert_eq!(held.clone().as_str(), long);
}

fn interaction(guild_id: Option<GuildId>, member: Option<Member>) -> ModalInteraction {
    ModalInteraction {
        id: InteractionId::new(1),
        application_id: ApplicationId::new(2),
        data: ModalInteractionData { custom_id: FixedString::from_static_trunc("modal") },
        guild_id,
        channel_id: ChannelId::new(3),
        member,
        user: User::default(),
        token: FixedString::from_static_trunc("token"),
        version: 1,
        app_permissions: None,
        locale: FixedString::from_static_trunc("en-US"),
        guild_locale: None,
    }
}

#[test]
fn interaction_from_a_guild_is_completed() {
    let member = Member {
        user: User { id: UserId::new(44), name: FixedString::from_static_trunc("someone"), ..Default::default() },
        ..Default::default()
    };
    let mut i = interaction(Some(GuildId::new(9)), Some(member.clone()));
    i.complete();
    assert_eq!(i.user.id, UserId::new(44));
    assert_eq!(i.user.name.as_str(), "someone");
    assert_eq!(i.member.as_ref().unwrap().guild_id, GuildId::new(9));
    assert_eq!(i.member.as_ref().unwrap().user.id, UserId::new(44));
    assert_eq!(i.token.as_str(), "token");

    // Without a guild nothing changes.
    let mut i = interaction(None, Some(member));
    i.user.id = UserId::new(5);
    i.complete();
    assert_eq!(i.user.id, UserId::new(5));
    assert_eq!(i.member.as_ref().unwrap().guild_id, GuildId::new(0));

    let mut i = interaction(Some(GuildId::new(9)), None);
    i.user.id = UserId::new(5);
    i.complete();
    assert_eq!(i.user.id, UserId::new(5));
    assert!(i.member.is_none());
}
