use extract_map::ExtractMap;
use guild_model::model::channel::GuildChannel;
use guild_model::model::channel::PermissionOverwrite;
use guild_model::model::channel::PermissionOverwriteType;
use guild_model::model::guild::member::Member;
use guild_model::model::guild::permissions_in::calculate_permissions;
use guild_model::model::guild::permissions_in::resolve_permissions;
use guild_model::model::guild::permissions_in::CalculatePermissions;
use guild_model::model::guild::role::Role;
use guild_model::model::guild::Guild;
use guild_model::model::id::ChannelId;
use guild_model::model::id::GuildId;
use guild_model::model::id::RoleId;
use guild_model::model::id::UserId;
use guild_model::model::permissions::Permissions;
use guild_model::model::user::User;

const GUILD: u64 = 10;
const OWNER: u64 = 1;

fn set(bits: u64) -> Permissions {
    Permissions::from_bits_truncate(bits)
}

fn role(id: u64, position: i16, bits: u64) -> Role {
    Role { id: RoleId::new(id), position, permissions: set(bits), ..Default::default() }
}

fn member(id: u64, roles: &[u64]) -> Member {
    Member {
        user: User { id: UserId::new(id), ..Default::default() },
        roles: roles.iter().map(|r| RoleId::new(*r)).collect(),
        ..Default::default()
    }
}

fn guild(roles: Vec<Role>) -> Guild {
    Guild {
        id: GuildId::new(GUILD),
        owner_id: UserId::new(OWNER),
        roles: ExtractMap::from_iter(roles),
        ..Default::default()
    }
}

fn for_role(id: u64, allow: u64, deny: u64) -> PermissionOverwrite {
    PermissionOverwrite {
        allow: set(allow),
        deny: set(deny),
        kind: PermissionOverwriteType::Role(RoleId::new(id)),
    }
}

fn for_member(id: u64, allow: u64, deny: u64) -> PermissionOverwrite {
    PermissionOverwrite {
        allow: set(allow),
        deny: set(deny),
        kind: PermissionOverwriteType::Member(UserId::new(id)),
    }
}

fn channel(overwrites: Vec<PermissionOverwrite>) -> GuildChannel {
    GuildChannel {
        id: ChannelId::new(77),
        guild_id: GuildId::new(GUILD),
        permission_overwrites: overwrites,
        ..Default::default()
    }
}

#[test]
fn owner_has_every_permission() {
    let g = guild(vec![role(GUILD, 0, 0)]);
    let c = channel(vec![for_role(GUILD, 0, Permissions::ALL_BITS), for_member(OWNER, 0, Permissions::ALL_BITS)]);
    let owner = member(OWNER, &[]);
    assert_eq!(resolve_permissions(&owner, &g, None), Permissions::all());
    assert_eq!(resolve_permissions(&owner, &g, Some(&c)), Permissions::all());
    assert_eq!(g.member_permissions(&owner), Permissions::all());
    assert_eq!(g.user_permissions_in(&c, &owner), Permissions::all());
}

#[test]
fn administrator_passes_over_the_channel() {
    let g = guild(vec![role(GUILD, 0, Permissions::VIEW_CHANNEL), role(20, 1, Permissions::ADMINISTRATOR)]);
    let c = channel(vec![for_role(20, 0, Permissions::ALL_BITS), for_member(5, 0, Permissions::ALL_BITS)]);
    let m = member(5, &[20]);
    assert_eq!(g.member_permissions(&m), Permissions::all());
    assert_eq!(g.user_permissions_in(&c, &m), Permissions::all());
}

#[test]
fn member_overwrite_is_the_last_word() {
    // Everyone is denied SEND_MESSAGES in the guild (the role does not grant it),
    // the role R grants it, and the channel denies it to the member.
    let g = guild(vec![role(GUILD, 0, Permissions::VIEW_CHANNEL), role(20, 1, Permissions::SEND_MESSAGES)]);
    let c = channel(vec![
        for_role(GUILD, 0, Permissions::SEND_MESSAGES),
        for_role(20, Permissions::SEND_MESSAGES, 0),
        for_member(5, 0, Permissions::SEND_MESSAGES),
    ]);
    let m = member(5, &[20]);
    let got = g.user_permissions_in(&c, &m);
    assert!(!got.has(Permissions::SEND_MESSAGES));
    assert_eq!(got, set(Permissions::VIEW_CHANNEL));
    // In the whole guild the grant of the role stands.
    assert_eq!(g.member_permissions(&m), set(Permissions::VIEW_CHANNEL | Permissions::SEND_MESSAGES));
}

#[test]
fn role_overwrites_allow_after_deny() {
    let g = guild(vec![role(GUILD, 0, Permissions::VIEW_CHANNEL), role(21, 1, 0), role(22, 2, 0)]);
    let c = channel(vec![for_role(21, 0, Permissions::ATTACH_FILES), for_role(22, Permissions::ATTACH_FILES, 0)]);
    let m = member(5, &[21, 22]);
    let got = g.user_permissions_in(&c, &m);
    assert!(got.has(Permissions::ATTACH_FILES));
    assert_eq!(got, set(Permissions::VIEW_CHANNEL | Permissions::ATTACH_FILES));
    // The order of the overwrites makes no difference.
    let c = channel(vec![for_role(22, Permissions::ATTACH_FILES, 0), for_role(21, 0, Permissions::ATTACH_FILES)]);
    assert_eq!(g.user_permissions_in(&c, &m), set(Permissions::VIEW_CHANNEL | Permissions::ATTACH_FILES));
}

#[test]
fn calculation_by_hand() {
    let data = CalculatePermissions {
        everyone_permissions: set(0b0011),
        user_roles_permissions: vec![set(0b0100), set(0b1_0000)],
        everyone_deny_overwrites: set(0b0001),
        everyone_allow_overwrites: set(0b10_0000),
        roles_deny_overwrites: vec![set(0b0100), set(0b10_0000)],
        roles_allow_overwrites: vec![set(0b0100)],
        member_deny_overwrites: set(0b1_0000),
        member_allow_overwrites: set(0b100_0000),
        ..Default::default()
    };
    // 0b1_0111 -> minus 1, plus 0b10_0000 = 0b11_0110 -> minus 0b10_0100,
    // plus 0b100 = 0b1_0110 -> minus 0b1_0000, plus 0b100_0000.
    assert_eq!(calculate_permissions(data), set(0b100_0110));
}

#[test]
fn same_snapshot_same_permissions() {
    let make = || {
        (
            guild(vec![role(GUILD, 0, Permissions::VIEW_CHANNEL), role(20, 1, Permissions::SPEAK)]),
            channel(vec![for_role(20, Permissions::CONNECT, Permissions::SPEAK), for_member(5, 0, Permissions::VIEW_CHANNEL)]),
            member(5, &[20, 404]),
        )
    };
    let (g1, c1, m1) = make();
    let (g2, c2, m2) = make();
    let in_channel = resolve_permissions(&m1, &g1, Some(&c1));
    assert_eq!(in_channel, set(Permissions::CONNECT));
    assert_eq!(in_channel, resolve_permissions(&m1, &g1, Some(&c1)));
    assert_eq!(in_channel, resolve_permissions(&m2, &g2, Some(&c2)));
    let in_guild = resolve_permissions(&m1, &g1, None);
    assert_eq!(in_guild, set(Permissions::VIEW_CHANNEL | Permissions::SPEAK));
    assert_eq!(in_guild, resolve_permissions(&m2, &g2, None));
}

#[test]
fn roles_that_are_gone_grant_nothing() {
    // Neither the role of everyone nor the member's role is there.
    let g = guild(vec![]);
    let m = member(5, &[20]);
    assert_eq!(g.member_permissions(&m), Permissions::empty());
    let c = channel(vec![for_role(20, Permissions::CONNECT, 0), for_role(30, Permissions::SPEAK, 0)]);
    // The overwrite for a role counts by the member's list, not by the guild's.
    assert_eq!(g.user_permissions_in(&c, &m), set(Permissions::CONNECT));
    let missing = guild_model::model::guild::permissions_in::missing_roles(&m.roles, g.id, &g.roles);
    assert!(missing.everyone);
    assert_eq!(missing.held, vec![RoleId::new(20)]);
    let g = guild(vec![role(GUILD, 0, 0), role(20, 1, 0)]);
    let missing = guild_model::model::guild::permissions_in::missing_roles(&[RoleId::new(20), RoleId::new(7), RoleId::new(8)], g.id, &g.roles);
    assert!(!missing.everyone);
    assert_eq!(missing.held, vec![RoleId::new(7), RoleId::new(8)]);
}
