//! The ranking of a guild's members by the highest role that each holds.

use crate::internal::store::get_member;
use crate::internal::store::get_role;
use crate::internal::store::role_entries;
use crate::model::guild::member::Member;
use crate::model::guild::role::Role;
use crate::model::guild::Guild;
use crate::model::id::RoleId;
use crate::model::id::UserId;
use extract_map::ExtractMap;
use vstd::prelude::*;

verus! {

/// Whether role `a` stands above role `b`: by the greater position, and among
/// roles of one position by the smaller identifier, which is the older role's.
pub open spec fn outranks(a: Role, b: Role) -> bool {
    a.position > b.position || (a.position == b.position && a.id.0 < b.id.0)
}

/// Whether `roles` holds a role under the identifier `id`.
pub open spec fn resolves(roles: Map<u64, Role>, id: RoleId) -> bool {
    roles.dom().contains(id.0)
}

/// Whether none of the identifiers of `held` belongs to a role of `roles`.
pub open spec fn holds_no_role(roles: Map<u64, Role>, held: Seq<RoleId>) -> bool {
    forall|i: int| 0 <= i < held.len() ==> !resolves(roles, #[trigger] held[i])
}

/// Whether `top` is a role of `roles` that `held` names and that no other such
/// role outranks.
pub open spec fn is_highest_role(roles: Map<u64, Role>, held: Seq<RoleId>, top: Role) -> bool {
    &&& exists|i: int| 0 <= i < held.len() && resolves(roles, #[trigger] held[i]) && roles[held[i].0] == top
    &&& forall|i: int|
        0 <= i < held.len() && resolves(roles, #[trigger] held[i]) ==> !outranks(
            roles[held[i].0],
            top,
        )
}

/// The highest of the roles of `roles` that `held` names, or `None` where it
/// names none of them. Identifiers of `held` that belong to no role of
/// `roles` count for nothing.
pub open spec fn highest_role(roles: Map<u64, Role>, held: Seq<RoleId>) -> Option<Role> {
    if exists|top: Role| is_highest_role(roles, held, top) {
        Some(choose|top: Role| is_highest_role(roles, held, top))
    } else {
        None
    }
}

/// Whether each role that `held` names stands in `roles` under the number of
/// its own identifier, as every map of roles has it.
pub open spec fn held_roles_keyed(roles: Map<u64, Role>, held: Seq<RoleId>) -> bool {
    forall|i: int|
        0 <= i < held.len() && resolves(roles, #[trigger] held[i]) ==> roles[held[i].0].id
            == held[i]
}

/// The value behind an optional reference.
pub open spec fn pointee<T>(r: Option<&T>) -> Option<T> {
    match r {
        Some(t) => Some(*t),
        None => None,
    }
}

/// Among roles that stand under their own identifiers, the highest is one
/// role and no other: two roles that both pass for it are the same.
pub proof fn lemma_highest_role_unique(
    roles: Map<u64, Role>,
    held: Seq<RoleId>,
    first: Role,
    second: Role,
)
    requires
        held_roles_keyed(roles, held),
        is_highest_role(roles, held, first),
        is_highest_role(roles, held, second),
    ensures
        first == second,
        highest_role(roles, held) == Some(first),
{
    let i = choose|i: int| 0 <= i < held.len() && resolves(roles, #[trigger] held[i]) && roles[held[i].0] == first;
    let j = choose|j: int| 0 <= j < held.len() && resolves(roles, #[trigger] held[j]) && roles[held[j].0] == second;
    assert(!outranks(roles[held[i].0], second));
    assert(!outranks(roles[held[j].0], first));
    assert(held[i] == held[j]);
    let chosen = choose|top: Role| is_highest_role(roles, held, top);
    let k = choose|k: int| 0 <= k < held.len() && resolves(roles, #[trigger] held[k]) && roles[held[k].0] == chosen;
    assert(!outranks(roles[held[i].0], chosen));
    assert(!outranks(roles[held[k].0], first));
    assert(held[i] == held[k]);
}

/// A member whose role identifiers all belong to roles that the guild does
/// not have has no highest role.
pub proof fn lemma_no_role_no_highest(roles: Map<u64, Role>, held: Seq<RoleId>)
    requires
        holds_no_role(roles, held),
    ensures
        highest_role(roles, held) is None,
{
    assert forall|top: Role| !is_highest_role(roles, held, top) by {
        if is_highest_role(roles, held, top) {
            let i = choose|i: int| 0 <= i < held.len() && resolves(roles, #[trigger] held[i]) && roles[held[i].0] == top;
            assert(!resolves(roles, held[i]));
        }
    }
}

/// Where a member stands with the role `top` as its highest: the role's
/// identifier and position, and with no role the identifier 1 at position 0.
pub open spec fn standing(top: Option<Role>) -> (RoleId, i16) {
    match top {
        Some(role) => (role.id, role.position),
        None => (RoleId(1), 0i16),
    }
}

/// Which of two members outranks the other, from each one's highest role.
///
/// Nobody outranks themself. The guild's owner outranks everyone, whatever
/// the roles. Two members who both stand at position 0, or whose highest role
/// is the same, are not ranked. Else the greater position wins, and between
/// equal positions the smaller role identifier.
pub open spec fn rank(
    lhs_top: Option<Role>,
    rhs_top: Option<Role>,
    owner_id: UserId,
    lhs: UserId,
    rhs: UserId,
) -> Option<UserId> {
    let (lhs_role, lhs_position) = standing(lhs_top);
    let (rhs_role, rhs_position) = standing(rhs_top);
    if lhs == rhs {
        None
    } else if lhs == owner_id {
        Some(lhs)
    } else if rhs == owner_id {
        Some(rhs)
    } else if (lhs_position == 0 && rhs_position == 0) || lhs_role == rhs_role {
        None
    } else if lhs_position > rhs_position {
        Some(lhs)
    } else if rhs_position > lhs_position {
        Some(rhs)
    } else if lhs_role.0 < rhs_role.0 {
        Some(lhs)
    } else {
        Some(rhs)
    }
}

/// Which of the users `lhs` and `rhs` outranks the other in a guild with the
/// given members, roles and owner: `None` unless both are members, and else
/// as `rank` has it on the highest role of each.
pub open spec fn compare_hierarchy_spec(
    members: Map<u64, Member>,
    roles: Map<u64, Role>,
    owner_id: UserId,
    lhs: UserId,
    rhs: UserId,
) -> Option<UserId> {
    if members.dom().contains(lhs.0) && members.dom().contains(rhs.0) {
        rank(
            highest_role(roles, members[lhs.0].roles@),
            highest_role(roles, members[rhs.0].roles@),
            owner_id,
            lhs,
            rhs,
        )
    } else {
        None
    }
}

/// Nobody outranks themself: a user compared with the same user comes out
/// as `None`, in every guild.
pub proof fn lemma_nobody_outranks_themself(
    members: Map<u64, Member>,
    roles: Map<u64, Role>,
    owner_id: UserId,
    user: UserId,
)
    ensures
        compare_hierarchy_spec(members, roles, owner_id, user, user) is None,
{
}

/// Who outranks whom does not depend on who is named first.
pub proof fn lemma_hierarchy_is_symmetric(
    members: Map<u64, Member>,
    roles: Map<u64, Role>,
    owner_id: UserId,
    lhs: UserId,
    rhs: UserId,
)
    ensures
        compare_hierarchy_spec(members, roles, owner_id, lhs, rhs) == compare_hierarchy_spec(
            members,
            roles,
            owner_id,
            rhs,
            lhs,
        ),
{
}

/// The guild's owner outranks every other member, whatever roles the two
/// hold.
pub proof fn lemma_owner_outranks(
    members: Map<u64, Member>,
    roles: Map<u64, Role>,
    owner_id: UserId,
    other: UserId,
)
    requires
        members.dom().contains(owner_id.0),
        members.dom().contains(other.0),
        other != owner_id,
    ensures
        compare_hierarchy_spec(members, roles, owner_id, owner_id, other) == Some(owner_id),
        compare_hierarchy_spec(members, roles, owner_id, other, owner_id) == Some(owner_id),
{
}

/// Between two members whose highest roles have the same position, other
/// than 0, and are not the same role, the member with the smaller role
/// identifier outranks the other, unless one of the two owns the guild.
pub proof fn lemma_equal_positions_lower_id_wins(
    lhs_top: Role,
    rhs_top: Role,
    owner_id: UserId,
    lhs: UserId,
    rhs: UserId,
)
    requires
        lhs != rhs,
        lhs != owner_id,
        rhs != owner_id,
        lhs_top.position == rhs_top.position,
        lhs_top.position != 0,
        lhs_top.id.0 < rhs_top.id.0,
    ensures
        rank(Some(lhs_top), Some(rhs_top), owner_id, lhs, rhs) == Some(lhs),
        rank(Some(rhs_top), Some(lhs_top), owner_id, rhs, lhs) == Some(lhs),
{
}

/// The highest role depends on nothing but the roles that the map holds and
/// the identifiers that the member holds; and who outranks whom on nothing
/// but the members, the roles and the owner of the guild.
pub proof fn lemma_same_snapshot_same_hierarchy(
    first: &Guild,
    second: &Guild,
    first_member: &Member,
    second_member: &Member,
    lhs: UserId,
    rhs: UserId,
)
    requires
        first.owner_id == second.owner_id,
        first.role_map() == second.role_map(),
        first.member_map() == second.member_map(),
        first_member.roles@ == second_member.roles@,
    ensures
        highest_role(first.role_map(), first_member.roles@) == highest_role(
            second.role_map(),
            second_member.roles@,
        ),
        compare_hierarchy_spec(first.member_map(), first.role_map(), first.owner_id, lhs, rhs)
            == compare_hierarchy_spec(
            second.member_map(),
            second.role_map(),
            second.owner_id,
            lhs,
            rhs,
        ),
{
}

impl Guild {
    /// The highest role that `member` holds in this guild: see
    /// [`Guild::_member_highest_role_in`].
    pub fn member_highest_role(&self, member: &Member) -> (r: Option<&Role>)
        ensures
            pointee(r) == highest_role(self.role_map(), member.roles@),
            r is None <==> holds_no_role(self.role_map(), member.roles@),
    {
        Guild::_member_highest_role_in(&self.roles, member)
    }

    /// The highest of the roles of `roles` that `member` holds: the one with
    /// the greatest position, and among those the one with the smallest
    /// identifier. Role identifiers of the member that `roles` does not know
    /// are passed over; `None` where it knows none of them.
    pub fn _member_highest_role_in<'a>(roles: &'a ExtractMap<u64, Role>, member: &Member) -> (r:
        Option<&'a Role>)
        ensures
            pointee(r) == highest_role(role_entries(*roles), member.roles@),
            r is None <==> holds_no_role(role_entries(*roles), member.roles@),
            r matches Some(top) ==> is_highest_role(role_entries(*roles), member.roles@, *top),
    {
        let ghost entries = role_entries(*roles);
        let ghost held = member.roles@;
        let mut highest: Option<&'a Role> = None;
        let mut i: usize = 0;
        while i < member.roles.len()
            invariant
                i <= member.roles.len(),
                entries == role_entries(*roles),
                held == member.roles@,
                held_roles_keyed(entries, held.take(i as int)),
                match highest {
                    Some(top) => is_highest_role(entries, held.take(i as int), *top),
                    None => holds_no_role(entries, held.take(i as int)),
                },
            decreases member.roles.len() - i,
        {
            let role_id = member.roles[i];
            let ghost before = held.take(i as int);
            let ghost after = held.take(i + 1);
            let ghost previous = highest;
            assert(after.drop_last() =~= before);
            assert(after.last() == role_id);
            assert(forall|j: int| 0 <= j < i ==> after[j] == before[j]);
            if let Some(role) = get_role(roles, role_id.get()) {
                let replace = match highest {
                    Some(top) => !(role.position < top.position || (role.position == top.position
                        && role.id.get() > top.id.get())),
                    None => true,
                };
                if replace {
                    highest = Some(role);
                    proof {
                        assert(resolves(entries, after[i as int]) && entries[after[i as int].0]
                            == *role);
                        assert forall|j: int|
                            0 <= j < after.len() && resolves(entries, #[trigger] after[j])
                            implies !outranks(entries[after[j].0], *role) by {
                            if j < i {
                                assert(resolves(entries, before[j]));
                                match previous {
                                    Some(top) => {
                                        assert(!outranks(entries[before[j].0], *top));
                                    },
                                    None => {},
                                }
                            }
                        }
                    }
                } else {
                    proof {
                        let top = previous->0;
                        let w = choose|w: int|
                            0 <= w < before.len() && resolves(entries, #[trigger] before[w])
                                && entries[before[w].0] == *top;
                        assert(resolves(entries, after[w]) && entries[after[w].0] == *top);
                        assert forall|j: int|
                            0 <= j < after.len() && resolves(entries, #[trigger] after[j])
                            implies !outranks(entries[after[j].0], *top) by {
                            if j < i {
                                assert(resolves(entries, before[j]));
                            }
                        }
                    }
                }
                assert(held_roles_keyed(entries, after)) by {
                    assert forall|j: int|
                        0 <= j < after.len() && resolves(entries, #[trigger] after[j])
                        implies entries[after[j].0].id == after[j] by {
                        if j < i {
                            assert(resolves(entries, before[j]));
                        }
                    }
                }
            } else {
                proof {
                    assert(!resolves(entries, after[i as int]));
                    match previous {
                        Some(top) => {
                            let w = choose|w: int|
                                0 <= w < before.len() && resolves(entries, #[trigger] before[w])
                                    && entries[before[w].0] == *top;
                            assert(resolves(entries, after[w]) && entries[after[w].0] == *top);
                            assert forall|j: int|
                                0 <= j < after.len() && resolves(entries, #[trigger] after[j])
                                implies !outranks(entries[after[j].0], *top) by {
                                if j < i {
                                    assert(resolves(entries, before[j]));
                                }
                            }
                        },
                        None => {
                            assert forall|j: int| 0 <= j < after.len() implies !resolves(
                                entries,
                                #[trigger] after[j],
                            ) by {
                                if j < i {
                                    assert(!resolves(entries, before[j]));
                                }
                            }
                        },
                    }
                    assert forall|j: int|
                        0 <= j < after.len() && resolves(entries, #[trigger] after[j])
                        implies entries[after[j].0].id == after[j] by {
                        if j < i {
                            assert(resolves(entries, before[j]));
                        }
                    }
                }
            }
            i += 1;
        }
        proof {
            assert(held.take(i as int) =~= held);
            match highest {
                Some(top) => {
                    lemma_highest_role_unique(entries, held, *top, *top);
                    let w = choose|w: int|
                        0 <= w < held.len() && resolves(entries, #[trigger] held[w])
                            && entries[held[w].0] == *top;
                    assert(resolves(entries, held[w]));
                },
                None => {
                    lemma_no_role_no_highest(entries, held);
                },
            }
        }
        highest
    }

    /// Which of two users outranks the other in this guild, by
    /// [`compare_hierarchy_spec`]: `None` where one of them is no member here,
    /// where both are the same user, and where neither outranks the other;
    /// the owner before everyone else.
    pub fn greater_member_hierarchy(&self, lhs_id: UserId, rhs_id: UserId) -> (r: Option<UserId>)
        ensures
            r == compare_hierarchy_spec(
                self.member_map(),
                self.role_map(),
                self.owner_id,
                lhs_id,
                rhs_id,
            ),
    {
        let lhs = match get_member(&self.members, lhs_id.get()) {
            Some(member) => member,
            None => {
                return None;
            },
        };
        let rhs = match get_member(&self.members, rhs_id.get()) {
            Some(member) => member,
            None => {
                return None;
            },
        };
        let lhs_highest_role = self.member_highest_role(lhs);
        let rhs_highest_role = self.member_highest_role(rhs);
        Guild::_greater_member_hierarchy_in(
            lhs_highest_role,
            rhs_highest_role,
            self.owner_id,
            lhs,
            rhs,
        )
    }

    /// Which of the members `lhs` and `rhs` outranks the other, given the
    /// highest role of each and the guild's owner: what [`rank`] says.
    pub fn _greater_member_hierarchy_in(
        lhs_highest_role: Option<&Role>,
        rhs_highest_role: Option<&Role>,
        owner_id: UserId,
        lhs: &Member,
        rhs: &Member,
    ) -> (r: Option<UserId>)
        ensures
            r == rank(
                pointee(lhs_highest_role),
                pointee(rhs_highest_role),
                owner_id,
                lhs.user.id,
                rhs.user.id,
            ),
    {
        if lhs.user.id == rhs.user.id {
            return None;
        }
        if lhs.user.id == owner_id {
            return Some(lhs.user.id);
        } else if rhs.user.id == owner_id {
            return Some(rhs.user.id);
        }
        let lhs_role: (RoleId, i16) = match lhs_highest_role {
            Some(role) => (role.id, role.position),
            None => (RoleId::new(1), 0),
        };
        let rhs_role: (RoleId, i16) = match rhs_highest_role {
            Some(role) => (role.id, role.position),
            None => (RoleId::new(1), 0),
        };
        if (lhs_role.1 == 0 && rhs_role.1 == 0) || lhs_role.0 == rhs_role.0 {
            return None;
        }
        if lhs_role.1 > rhs_role.1 {
            return Some(lhs.user.id);
        }
        if rhs_role.1 > lhs_role.1 {
            return Some(rhs.user.id);
        }
        if lhs_role.1 == rhs_role.1 && lhs_role.0.get() < rhs_role.0.get() {
            Some(lhs.user.id)
        } else {
            Some(rhs.user.id)
        }
    }
}

/// The highest role that `member` holds among `roles`, or `None` where it
/// holds none of them: see [`Guild::_member_highest_role_in`].
pub fn member_highest_role<'a>(member: &Member, roles: &'a ExtractMap<u64, Role>) -> (r: Option<
    &'a Role,
>)
    ensures
        pointee(r) == highest_role(role_entries(*roles), member.roles@),
        r is None <==> holds_no_role(role_entries(*roles), member.roles@),
        r matches Some(top) ==> is_highest_role(role_entries(*roles), member.roles@, *top),
{
    Guild::_member_highest_role_in(roles, member)
}

/// Which of the users `user_a` and `user_b` outranks the other in `guild`, or
/// `None` where neither does: see [`compare_hierarchy_spec`].
pub fn compare_hierarchy(guild: &Guild, user_a: UserId, user_b: UserId) -> (r: Option<UserId>)
    ensures
        r == compare_hierarchy_spec(
            guild.member_map(),
            guild.role_map(),
            guild.owner_id,
            user_a,
            user_b,
        ),
{
    guild.greater_member_hierarchy(user_a, user_b)
}

} // verus!
