use extract_map::ExtractMap;
use guild_model::model::guild::hierarchy::compare_hierarchy;
use guild_model::model::guild::hierarchy::member_highest_role;
use guild_model::model::guild::member::Member;
use guild_model::model::guild::role::Role;
use guild_model::model::guild::Guild;
use guild_model::model::id::GuildId;
use guild_model::model::id::RoleId;
use guild_model::model::id::UserId;
use guild_model::model::user::User;

fn role(id: u64, position: i16) -> Role {
    Role { id: RoleId::new(id), position, ..Default::default() }
}

fn member(id: u64, roles: &[u64]) -> Member {
    Member {
        user: User { id: UserId::new(id), ..Default::default() },
        roles: roles.iter().map(|r| RoleId::new(*r)).collect(),
        ..Default::default()
    }
}

fn guild(roles: Vec<Role>, members: Vec<Member>) -> Guild {
    Guild {
        id: GuildId::new(10),
        owner_id: UserId::new(1),
        roles: ExtractMap::from_iter(roles),
        members: ExtractMap::from_iter(members),
        ..Default::default()
    }
}

#[test]
fn highest_role_by_position_then_by_lower_id() {
    let g = guild(vec![role(100, 3), role(200, 3), role(300, 2), role(400, -1)], vec![]);
    let m = member(5, &[300, 200, 100, 400]);
    assert_eq!(g.member_highest_role(&m).map(|r| r.id), Some(RoleId::new(100)));
    let m = member(5, &[400, 300]);
    assert_eq!(g.member_highest_role(&m).map(|r| r.id), Some(RoleId::new(300)));
    let m = member(5, &[400]);
    assert_eq!(g.member_highest_role(&m).map(|r| r.id), Some(RoleId::new(400)));
}

#[test]
fn no_highest_role_among_roles_that_are_gone() {
    let g = guild(vec![role(100, 3)], vec![]);
    assert!(g.member_highest_role(&member(5, &[7, 8, 9])).is_none());
    assert!(g.member_highest_role(&member(5, &[])).is_none());
    let m = member(5, &[7, 100, 9]);
    assert_eq!(g.member_highest_role(&m).map(|r| r.id), Some(RoleId::new(100)));
}

#[test]
fn nobody_outranks_themself() {
    let g = guild(vec![role(100, 3)], vec![member(1, &[]), member(5, &[100])]);
    assert_eq!(g.greater_member_hierarchy(UserId::new(5), UserId::new(5)), None);
    assert_eq!(g.greater_member_hierarchy(UserId::new(1), UserId::new(1)), None);
}

#[test]
fn equal_positions_go_to_the_lower_role_id() {
    let g = guild(vec![role(100, 3), role(200, 3)], vec![member(5, &[100]), member(6, &[200])]);
    assert_eq!(g.greater_member_hierarchy(UserId::new(5), UserId::new(6)), Some(UserId::new(5)));
    assert_eq!(g.greater_member_hierarchy(UserId::new(6), UserId::new(5)), Some(UserId::new(5)));
}

#[test]
fn hierarchy_cases() {
    let g = guild(
        vec![role(100, 3), role(200, 5), role(300, 0)],
        vec![member(1, &[]), member(5, &[100]), member(6, &[200]), member(7, &[]), member(8, &[300]), member(9, &[100])],
    );
    let id = UserId::new;
    // Someone who is no member.
    assert_eq!(g.greater_member_hierarchy(id(5), id(99)), None);
    assert_eq!(g.greater_member_hierarchy(id(99), id(5)), None);
    // The owner, without any role, before everyone.
    assert_eq!(g.greater_member_hierarchy(id(1), id(6)), Some(id(1)));
    assert_eq!(g.greater_member_hierarchy(id(6), id(1)), Some(id(1)));
    // The greater position.
    assert_eq!(g.greater_member_hierarchy(id(5), id(6)), Some(id(6)));
    assert_eq!(g.greater_member_hierarchy(id(6), id(5)), Some(id(6)));
    // A role against none.
    assert_eq!(g.greater_member_hierarchy(id(5), id(7)), Some(id(5)));
    // Both at position 0: no role, and a role at 0.
    assert_eq!(g.greater_member_hierarchy(id(7), id(8)), None);
    // The same highest role.
    assert_eq!(g.greater_member_hierarchy(id(5), id(9)), None);
}

#[test]
fn same_snapshot_same_answer() {
    let make = || {
        guild(
            vec![role(100, 3), role(200, 5), role(300, 5)],
            vec![member(5, &[100, 300]), member(6, &[200, 404])],
        )
    };
    let first = make();
    let second = make();
    let id = UserId::new;
    for (a, b) in [(5, 6), (6, 5), (5, 5), (5, 7)] {
        let answer = compare_hierarchy(&first, id(a), id(b));
        assert_eq!(answer, compare_hierarchy(&first, id(a), id(b)));
        assert_eq!(answer, compare_hierarchy(&second, id(a), id(b)));
        assert_eq!(answer, first.greater_member_hierarchy(id(a), id(b)));
    }
    assert_eq!(compare_hierarchy(&first, id(5), id(6)), Some(id(6)));
    let m = member(5, &[300, 100, 200]);
    let top = member_highest_role(&m, &first.roles).map(|r| r.id);
    assert_eq!(top, Some(RoleId::new(200)));
    assert_eq!(top, member_highest_role(&m, &second.roles).map(|r| r.id));
    // The order in which the member lists its roles makes no difference.
    let m = member(5, &[200, 100, 300]);
    assert_eq!(member_highest_role(&m, &first.roles).map(|r| r.id), Some(RoleId::new(200)));
}

#[test]
fn a_role_with_the_number_one_against_no_role() {
    // Who has no role stands where a role with the identifier 1 at position
    // 0 would: against such a role there is no ranking, whatever its position.
    let g = guild(vec![role(1, 4)], vec![member(5, &[1]), member(6, &[])]);
    assert_eq!(g.greater_member_hierarchy(UserId::new(5), UserId::new(6)), None);
    let g = guild(vec![role(2, -4)], vec![member(5, &[2]), member(6, &[])]);
    assert_eq!(g.greater_member_hierarchy(UserId::new(5), UserId::new(6)), Some(UserId::new(6)));
}
