use extract_map::ExtractMap;
use guild_model::internal::fixed::FixedString;
use guild_model::model::channel::ChannelType;
use guild_model::model::channel::GuildChannel;
use guild_model::model::channel::PermissionOverwrite;
use guild_model::model::channel::PermissionOverwriteType;
use guild_model::model::guild::levels::MfaLevel;
use guild_model::model::guild::levels::VerificationLevel;
use guild_model::model::guild::member::Member;
use guild_model::model::guild::member::PartialMember;
use guild_model::model::guild::partial_guild::PartialGuild;
use guild_model::model::guild::role::Role;
use guild_model::model::guild::search::member_named_among;
use guild_model::model::guild::search::search_members;
use guild_model::model::guild::search::NameSearch;
use guild_model::model::guild::Guild;
use guild_model::model::guild::ModelError;
use guild_model::model::id::ChannelId;
use guild_model::model::id::GuildId;
use guild_model::model::id::RoleId;
use guild_model::model::id::UserId;
use guild_model::model::permissions::Permissions;
use guild_model::model::user::OnlineStatus;
use guild_model::model::user::Presence;
use guild_model::model::user::User;

fn gen_member() -> Member {
    Member {
        nick: Some(FixedString::from_static_trunc("aaaa")),
        user: User {
            name: FixedString::from_static_trunc("test"),
            discriminator: Some(1432),
            ..User::default()
        },
        ..Default::default()
    }
}

fn gen() -> Guild {
    let m = gen_member();

    Guild { members: ExtractMap::from_iter([m]), ..Default::default() }
}

#[test]
fn member_named_username() {
    let guild = gen();
    let lhs = guild.member_named("test#1432").unwrap().display_name();

    assert_eq!(lhs, gen_member().display_name());
}

#[test]
fn member_named_nickname() {
    let guild = gen();
    let lhs = guild.member_named("aaaa").unwrap().display_name();

    assert_eq!(lhs, gen_member().display_name());
}

fn person(id: u64, name: &str, discriminator: Option<u16>, nick: Option<&str>) -> Member {
    Member {
        user: User {
            id: UserId::new(id),
            name: FixedString::from_str_trunc(name),
            discriminator,
            ..Default::default()
        },
        nick: nick.map(FixedString::from_str_trunc),
        ..Default::default()
    }
}

fn ids(found: Option<&Member>) -> Option<u64> {
    found.map(|m| m.user.id.get())
}

#[test]
fn member_named_goes_by_tag_before_nickname() {
    let a = person(1, "zey", Some(5479), None);
    let b = person(2, "zey", None, None);
    let c = person(3, "other", Some(1), Some("zey"));
    let d = person(4, "more", None, Some("zey#5479"));
    let all = [&c, &d, &a, &b];
    // With a discriminator: the user with the name and the number.
    assert_eq!(ids(member_named_among(&all, "zey#5479")), Some(1));
    // Without one: the user with the name and no discriminator.
    assert_eq!(ids(member_named_among(&all, "zey")), Some(2));
    // A number that nobody has: the nickname, hash and all.
    assert_eq!(ids(member_named_among(&[&c, &d, &b], "zey#5479")), Some(4));
    // No user of that name: the first with the nickname.
    assert_eq!(ids(member_named_among(&[&c, &d], "zey")), Some(3));
    // Discriminator 0 stands for none.
    assert_eq!(ids(member_named_among(&all, "zey#0000")), Some(2));
    // No tag at all (the number is too large): any discriminator will do.
    assert_eq!(ids(member_named_among(&all, "zey#10000")), None);
    let e = person(5, "zey#10000", Some(7), None);
    assert_eq!(ids(member_named_among(&[&a, &e], "zey#10000")), Some(5));
    assert_eq!(ids(member_named_among(&all, "nobody")), None);
    assert_eq!(ids(member_named_among(&[], "zey")), None);
}

#[test]
fn display_name_prefers_nick_then_global_name() {
    let mut m = person(1, "user", None, Some("nick"));
    m.user.global_name = Some(FixedString::from_str_trunc("global"));
    assert_eq!(m.display_name(), "nick");
    m.nick = None;
    assert_eq!(m.display_name(), "global");
    m.user.global_name = None;
    assert_eq!(m.display_name(), "user");
}

fn names<'a>(found: &[(&'a Member, &'a str)]) -> Vec<(u64, &'a str)> {
    found.iter().map(|(m, n)| (m.user.id.get(), *n)).collect()
}

#[test]
fn search_by_prefix() {
    let a = person(1, "zeyla", None, None);
    let b = person(2, "Zeya", None, Some("zeyzey"));
    let c = person(3, "nope", None, Some("zeyaa"));
    let d = person(4, "nope", None, None);
    let all = [&a, &b, &c, &d];
    let found = search_members(&all, NameSearch::StartsWith, "zey", true, false);
    assert_eq!(names(&found), vec![(1, "zeyla"), (2, "zeyzey"), (3, "zeyaa")]);
    let found = search_members(&all, NameSearch::StartsWith, "zey", false, false);
    assert_eq!(names(&found), vec![(1, "zeyla"), (2, "Zeya"), (3, "zeyaa")]);
    // Sorted: the shorter name is the closer; "Zeya" does not hold "zey" as
    // it is written and goes last.
    let found = search_members(&all, NameSearch::StartsWith, "zey", false, true);
    assert_eq!(names(&found), vec![(1, "zeyla"), (3, "zeyaa"), (2, "Zeya")]);
    let found = search_members(&all, NameSearch::StartsWith, "zey", true, true);
    assert_eq!(names(&found), vec![(1, "zeyla"), (3, "zeyaa"), (2, "zeyzey")]);
}

#[test]
fn search_by_part() {
    let a = person(1, "azey", None, None);
    let b = person(2, "zeyla", None, None);
    let c = person(3, "zey", None, Some("nick"));
    let d = person(4, "zeyzeyzey", None, None);
    let e = person(5, "zeylaa", None, None);
    let f = person(6, "other", None, Some("xzey"));
    let all = [&a, &b, &c, &d, &e, &f];
    let found = search_members(&all, NameSearch::Contains, "zey", true, true);
    assert_eq!(
        names(&found),
        vec![(3, "zey"), (1, "azey"), (2, "zeyla"), (6, "xzey"), (5, "zeylaa"), (4, "zeyzeyzey")]
    );
    let found = search_members(&all, NameSearch::UsernameContains, "zey", true, false);
    assert_eq!(
        names(&found),
        vec![(1, "azey"), (2, "zeyla"), (3, "zey"), (4, "zeyzeyzey"), (5, "zeylaa")]
    );
    let found = search_members(&all, NameSearch::NickContains, "zey", true, false);
    assert_eq!(
        names(&found),
        vec![(1, "azey"), (2, "zeyla"), (4, "zeyzeyzey"), (5, "zeylaa"), (6, "xzey")]
    );
    let found = search_members(&all, NameSearch::Contains, "ZEY", true, false);
    assert!(found.is_empty());
    let found = search_members(&all, NameSearch::Contains, "ZEYL", false, false);
    assert_eq!(names(&found), vec![(2, "zeyla"), (5, "zeylaa")]);
}

fn sorted_ids(mut ids: Vec<u64>) -> Vec<u64> {
    ids.sort();
    ids
}

#[test]
fn guild_searches_its_members() {
    let guild = Guild {
        members: ExtractMap::from_iter([
            person(1, "zeyla", None, None),
            person(2, "other", None, Some("zeyzey")),
            person(3, "nope", None, None),
            person(4, "xazey", None, Some("nick")),
        ]),
        ..Default::default()
    };
    let found = guild.members_starting_with("zey", true, true);
    assert_eq!(names(&found), vec![(1, "zeyla"), (2, "zeyzey")]);
    let found = guild.members_containing("zey", true, true);
    let found: Vec<(u64, &str)> = found.iter().map(|(m, n)| (m.user.id.get(), n.as_str())).collect();
    assert_eq!(found, vec![(1, "zeyla"), (2, "zeyzey"), (4, "xazey")]);
    let found = guild.members_username_containing("zey", true, false);
    assert_eq!(sorted_ids(found.iter().map(|(m, _)| m.user.id.get()).collect()), vec![1, 4]);
    let found = guild.members_nick_containing("zey", true, false);
    assert_eq!(sorted_ids(found.iter().map(|(m, _)| m.user.id.get()).collect()), vec![1, 2]);
    let found = guild.members_nick_containing("zEY", false, true);
    let found: Vec<(u64, &str)> = found.iter().map(|(m, n)| (m.user.id.get(), n.as_str())).collect();
    assert_eq!(found.len(), 2);
    assert!(found.contains(&(1, "zeyla")) && found.contains(&(2, "zeyzey")));
}

#[test]
fn guild_finds_by_id_and_by_name() {
    let guild = Guild {
        id: GuildId::new(10),
        roles: ExtractMap::from_iter([
            Role { id: RoleId::new(10), name: FixedString::from_static_trunc("@everyone"), ..Default::default() },
            Role { id: RoleId::new(20), name: FixedString::from_static_trunc("mods"), position: 2, ..Default::default() },
        ]),
        members: ExtractMap::from_iter([person(1, "a", None, None)]),
        channels: ExtractMap::from_iter([GuildChannel { id: ChannelId::new(7), ..Default::default() }]),
        ..Default::default()
    };
    assert_eq!(guild.find_role(RoleId::new(20)).map(|r| r.position), Some(2));
    assert!(guild.find_role(RoleId::new(21)).is_none());
    assert_eq!(guild.find_member(UserId::new(1)).map(|m| m.user.name.as_str().to_owned()), Some("a".to_owned()));
    assert!(guild.find_member(UserId::new(2)).is_none());
    assert!(guild.find_channel(ChannelId::new(7)).is_some());
    assert!(guild.find_channel(ChannelId::new(8)).is_none());
    assert_eq!(guild.role_by_name("mods").map(|r| r.id), Some(RoleId::new(20)));
    assert_eq!(guild.role_by_name("@everyone").map(|r| r.id), Some(RoleId::new(10)));
    assert!(guild.role_by_name("Mods").is_none());
}

#[test]
fn members_by_status() {
    let guild = Guild {
        members: ExtractMap::from_iter([
            person(1, "a", None, None),
            person(2, "b", None, None),
            person(3, "c", None, None),
        ]),
        presences: ExtractMap::from_iter([
            Presence { user_id: UserId::new(1), status: OnlineStatus::Idle },
            Presence { user_id: UserId::new(2), status: OnlineStatus::Online },
            Presence { user_id: UserId::new(9), status: OnlineStatus::Idle },
        ]),
        ..Default::default()
    };
    let idle: Vec<u64> = guild.members_with_status(OnlineStatus::Idle).iter().map(|m| m.user.id.get()).collect();
    assert_eq!(idle, vec![1]);
    assert!(guild.members_with_status(OnlineStatus::Offline).is_empty());
}

fn overwrite(kind: PermissionOverwriteType, allow: u64, deny: u64) -> PermissionOverwrite {
    PermissionOverwrite {
        allow: Permissions::from_bits_truncate(allow),
        deny: Permissions::from_bits_truncate(deny),
        kind,
    }
}

fn channel(id: u64, kind: ChannelType, overwrites: Vec<PermissionOverwrite>) -> GuildChannel {
    GuildChannel { id: ChannelId::new(id), kind, permission_overwrites: overwrites, ..Default::default() }
}

#[test]
fn default_channels() {
    let everyone = PermissionOverwriteType::Role(RoleId::new(10));
    let guild = Guild {
        id: GuildId::new(10),
        owner_id: UserId::new(99),
        roles: ExtractMap::from_iter([Role {
            id: RoleId::new(10),
            permissions: Permissions::from_bits_truncate(Permissions::VIEW_CHANNEL),
            ..Default::default()
        }]),
        members: ExtractMap::from_iter([person(1, "a", None, None), person(2, "b", None, None)]),
        channels: ExtractMap::from_iter([
            // A category, which nobody reads in.
            channel(1, ChannelType::Category, vec![]),
            // Closed to everyone but the member 1.
            channel(
                2,
                ChannelType::Text,
                vec![
                    overwrite(everyone, 0, Permissions::VIEW_CHANNEL),
                    overwrite(PermissionOverwriteType::Member(UserId::new(1)), Permissions::VIEW_CHANNEL, 0),
                ],
            ),
            // Closed to the member 1.
            channel(
                3,
                ChannelType::Voice,
                vec![overwrite(PermissionOverwriteType::Member(UserId::new(1)), 0, Permissions::VIEW_CHANNEL)],
            ),
        ]),
        ..Default::default()
    };
    assert_eq!(guild.default_channel(UserId::new(1)).map(|c| c.id.get()), Some(2));
    assert_eq!(guild.default_channel(UserId::new(2)).map(|c| c.id.get()), Some(3));
    assert_eq!(guild.default_channel(UserId::new(3)).map(|c| c.id.get()), None);
    assert_eq!(guild.default_channel_guaranteed().map(|c| c.id.get()), None);
    let mut guild = guild;
    guild.channels.insert(channel(4, ChannelType::News, vec![]));
    assert_eq!(guild.default_channel_guaranteed().map(|c| c.id.get()), Some(4));
}

#[test]
fn partial_member_permissions() {
    let guild = Guild {
        id: GuildId::new(10),
        owner_id: UserId::new(99),
        roles: ExtractMap::from_iter([
            Role { id: RoleId::new(10), permissions: Permissions::from_bits_truncate(Permissions::VIEW_CHANNEL), ..Default::default() },
            Role { id: RoleId::new(20), permissions: Permissions::from_bits_truncate(Permissions::SPEAK), ..Default::default() },
        ]),
        ..Default::default()
    };
    let c = channel(
        5,
        ChannelType::Voice,
        vec![overwrite(PermissionOverwriteType::Role(RoleId::new(20)), Permissions::CONNECT, Permissions::SPEAK)],
    );
    let member = PartialMember { user: None, nick: None, roles: vec![RoleId::new(20), RoleId::new(404)] };
    assert_eq!(
        guild.partial_member_permissions_in(&c, UserId::new(1), &member),
        Permissions::from_bits_truncate(Permissions::VIEW_CHANNEL | Permissions::CONNECT)
    );
    let owner = PartialMember { user: Some(User { id: UserId::new(99), ..Default::default() }), nick: None, roles: vec![] };
    assert_eq!(guild.partial_member_permissions_in(&c, UserId::new(99), &owner), Permissions::all());
}

#[test]
fn everyone_overwrite_counts_again_for_who_holds_the_role() {
    // The member lists the role of everyone among its roles: the overwrite
    // for that role is applied on its own and again among the role overwrites.
    let guild = Guild {
        id: GuildId::new(10),
        owner_id: UserId::new(99),
        roles: ExtractMap::from_iter([Role { id: RoleId::new(10), ..Default::default() }, Role { id: RoleId::new(20), ..Default::default() }]),
        ..Default::default()
    };
    let c = channel(
        5,
        ChannelType::Text,
        vec![
            overwrite(PermissionOverwriteType::Role(RoleId::new(10)), Permissions::SEND_MESSAGES, 0),
            overwrite(PermissionOverwriteType::Role(RoleId::new(20)), 0, Permissions::SEND_MESSAGES),
        ],
    );
    let mut m = person(1, "a", None, None);
    m.roles = vec![RoleId::new(20)];
    assert_eq!(guild.user_permissions_in(&c, &m), Permissions::empty());
    m.roles = vec![RoleId::new(20), RoleId::new(10)];
    assert_eq!(guild.user_permissions_in(&c, &m), Permissions::from_bits_truncate(Permissions::SEND_MESSAGES));
}

#[test]
fn last_overwrite_for_a_target_counts() {
    let guild = Guild {
        id: GuildId::new(10),
        owner_id: UserId::new(99),
        roles: ExtractMap::from_iter([Role { id: RoleId::new(10), ..Default::default() }]),
        ..Default::default()
    };
    let me = PermissionOverwriteType::Member(UserId::new(1));
    let c = channel(
        5,
        ChannelType::Text,
        vec![overwrite(me, Permissions::SPEAK, 0), overwrite(me, Permissions::CONNECT, 0)],
    );
    let m = person(1, "a", None, None);
    assert_eq!(guild.user_permissions_in(&c, &m), Permissions::from_bits_truncate(Permissions::CONNECT));
}

#[test]
fn only_the_owner_may_delete() {
    let guild = Guild { owner_id: UserId::new(7), ..Default::default() };
    assert_eq!(guild.check_delete(Some(UserId::new(7))), Ok(()));
    assert_eq!(guild.check_delete(Some(UserId::new(8))), Err(ModelError::InvalidUser));
    assert_eq!(guild.check_delete(None), Ok(()));
}

#[test]
fn edit_is_taken_over() {
    let mut guild = Guild {
        id: GuildId::new(10),
        owner_id: UserId::new(7),
        name: FixedString::from_static_trunc("before"),
        member_count: 3,
        members: ExtractMap::from_iter([person(1, "a", None, None)]),
        ..Default::default()
    };
    let edited = PartialGuild {
        id: GuildId::new(10),
        owner_id: UserId::new(8),
        name: FixedString::from_static_trunc("after"),
        mfa_level: MfaLevel::Elevated,
        verification_level: VerificationLevel::High,
        roles: ExtractMap::from_iter([Role { id: RoleId::new(10), position: 0, ..Default::default() }]),
        features: vec![FixedString::from_static_trunc("COMMUNITY")],
        ..Default::default()
    };
    guild.apply_edit(edited);
    assert_eq!(guild.name.as_str(), "after");
    assert_eq!(guild.owner_id, UserId::new(8));
    assert_eq!(guild.mfa_level, MfaLevel::Elevated);
    assert_eq!(guild.verification_level, VerificationLevel::High);
    assert_eq!(guild.roles.len(), 1);
    assert_eq!(guild.features.len(), 1);
    assert_eq!(guild.member_count, 3);
    assert_eq!(guild.members.len(), 1);
    assert_eq!(guild.id, GuildId::new(10));
}

#[test]
fn shards() {
    let guild = Guild { id: GuildId::new((5 << 22) | 12345), ..Default::default() };
    assert_eq!(guild.shard_id(3), 2);
    assert_eq!(guild.shard_id(1), 0);
    assert_eq!(GuildId::new(81384788765712384).shard_id(17), ((81384788765712384u64 >> 22) % 17) as u16);
    assert_eq!(GuildId::new(7).everyone_role(), RoleId::new(7));
}
