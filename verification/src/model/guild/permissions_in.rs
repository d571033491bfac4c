//! A member's effective permissions in a guild and in one of its channels.
//!
//! The permissions are made up level by level, each level more specific than
//! the one before it and able to undo it: what the roles grant in the whole
//! guild, then the channel's overwrite for everyone, then its overwrites for
//! the roles that the member holds, then its overwrite for the member. On
//! each level what is denied is taken away before what is allowed is added.
//! Two things go before all of this: the guild's owner holds every
//! permission, and so does who has `ADMINISTRATOR` from the roles.

use crate::internal::store::get_role;
use crate::internal::store::role_entries;
use crate::model::channel::GuildChannel;
use crate::model::channel::PermissionOverwrite;
use crate::model::channel::PermissionOverwriteType;
use crate::model::guild::member::Member;
use crate::model::guild::member::PartialMember;
use crate::model::guild::role::Role;
use crate::model::guild::Guild;
use crate::model::id::GuildId;
use crate::model::id::RoleId;
use crate::model::id::UserId;
use crate::model::permissions::lemma_overwritten;
use crate::model::permissions::lemma_union_all_has;
use crate::model::permissions::union_all;
use crate::model::permissions::Permissions;
use extract_map::ExtractMap;
use vstd::prelude::*;

verus! {

/// What goes into a member's permissions, gathered from a guild and a
/// channel.
#[derive(Debug)]
pub struct CalculatePermissions {
    /// Whether the member is the guild's owner.
    pub is_guild_owner: bool,
    /// What the role of everyone grants in the guild.
    pub everyone_permissions: Permissions,
    /// What each of the member's roles grants in the guild.
    pub user_roles_permissions: Vec<Permissions>,
    /// What the channel allows everyone.
    pub everyone_allow_overwrites: Permissions,
    /// What the channel denies everyone.
    pub everyone_deny_overwrites: Permissions,
    /// What the channel allows each of the member's roles.
    pub roles_allow_overwrites: Vec<Permissions>,
    /// What the channel denies each of the member's roles.
    pub roles_deny_overwrites: Vec<Permissions>,
    /// What the channel allows the member.
    pub member_allow_overwrites: Permissions,
    /// What the channel denies the member.
    pub member_deny_overwrites: Permissions,
}

impl Default for CalculatePermissions {
    fn default() -> (r: Self)
        ensures
            !r.is_guild_owner,
            r.everyone_permissions == Permissions::empty(),
            r.user_roles_permissions@ == Seq::<Permissions>::empty(),
            r.everyone_allow_overwrites == Permissions::empty(),
            r.everyone_deny_overwrites == Permissions::empty(),
            r.roles_allow_overwrites@ == Seq::<Permissions>::empty(),
            r.roles_deny_overwrites@ == Seq::<Permissions>::empty(),
            r.member_allow_overwrites == Permissions::empty(),
            r.member_deny_overwrites == Permissions::empty(),
    {
        CalculatePermissions {
            is_guild_owner: false,
            everyone_permissions: Permissions::empty(),
            user_roles_permissions: Vec::new(),
            everyone_allow_overwrites: Permissions::empty(),
            everyone_deny_overwrites: Permissions::empty(),
            roles_allow_overwrites: Vec::new(),
            roles_deny_overwrites: Vec::new(),
            member_allow_overwrites: Permissions::empty(),
            member_deny_overwrites: Permissions::empty(),
        }
    }
}

/// The permissions that come of `data`: every permission for the owner and
/// for who has `ADMINISTRATOR` from the roles; for the others the grant of
/// the roles under the overwrites for everyone, for the roles and for the
/// member, in this order.
pub open spec fn effective_permissions(data: CalculatePermissions) -> Permissions {
    let base = data.everyone_permissions.union(union_all(data.user_roles_permissions@));
    if data.is_guild_owner || base.has(Permissions::ADMINISTRATOR) {
        Permissions::all()
    } else {
        base.overwritten(
            data.everyone_allow_overwrites,
            data.everyone_deny_overwrites,
        ).overwritten(
            union_all(data.roles_allow_overwrites@),
            union_all(data.roles_deny_overwrites@),
        ).overwritten(data.member_allow_overwrites, data.member_deny_overwrites)
    }
}

/// The union of `first` and of all the sets of `sets`.
fn union_onto(first: Permissions, sets: &Vec<Permissions>) -> (r: Permissions)
    ensures
        r == first.union(union_all(sets@)),
{
    let mut permissions = first;
    let mut i: usize = 0;
    proof {
        let a = first.bits;
        assert(a | 0 == a) by (bit_vector);
        assert(sets@.take(0) =~= Seq::<Permissions>::empty());
    }
    while i < sets.len()
        invariant
            i <= sets.len(),
            permissions == first.union(union_all(sets@.take(i as int))),
        decreases sets.len() - i,
    {
        proof {
            let a = first.bits;
            let b = union_all(sets@.take(i as int)).bits;
            let c = sets@[i as int].bits;
            assert((a | b) | c == a | (b | c)) by (bit_vector);
            assert(sets@.take(i + 1).drop_last() =~= sets@.take(i as int));
        }
        permissions = permissions.union(sets[i]);
        i += 1;
    }
    proof {
        assert(sets@.take(i as int) =~= sets@);
    }
    permissions
}

/// Computes the permissions that come of `data`: see
/// [`effective_permissions`].
pub fn calculate_permissions(data: CalculatePermissions) -> (r: Permissions)
    ensures
        r == effective_permissions(data),
{
    if data.is_guild_owner {
        return Permissions::all();
    }
    let mut permissions = union_onto(data.everyone_permissions, &data.user_roles_permissions);
    if permissions.has(Permissions::ADMINISTRATOR) {
        return Permissions::all();
    }
    permissions = permissions.overwritten(
        data.everyone_allow_overwrites,
        data.everyone_deny_overwrites,
    );
    let role_deny_permissions = union_onto(Permissions::empty(), &data.roles_deny_overwrites);
    let role_allow_permissions = union_onto(Permissions::empty(), &data.roles_allow_overwrites);
    proof {
        let d = union_all(data.roles_deny_overwrites@).bits;
        let a = union_all(data.roles_allow_overwrites@).bits;
        assert(0 | d == d) by (bit_vector);
        assert(0 | a == a) by (bit_vector);
    }
    permissions = permissions.overwritten(role_allow_permissions, role_deny_permissions);
    permissions.overwritten(data.member_allow_overwrites, data.member_deny_overwrites)
}

/// What the role `id` grants in a guild with the roles `roles`: nothing where
/// the guild has no such role.
pub open spec fn role_grant(roles: Map<u64, Role>, id: RoleId) -> Permissions {
    if roles.dom().contains(id.0) {
        roles[id.0].permissions
    } else {
        Permissions::empty()
    }
}

/// `role_grant` on the roles `roles`, as a function of the identifier.
pub open spec fn grant_in(roles: Map<u64, Role>) -> spec_fn(RoleId) -> Permissions {
    |id: RoleId| role_grant(roles, id)
}

/// What a member with the roles `held` has from the roles of the guild
/// `guild_id`: the grant of the role of everyone, and those of the roles it
/// holds.
pub open spec fn base_permissions(roles: Map<u64, Role>, guild_id: GuildId, held: Seq<RoleId>)
    -> Permissions {
    role_grant(roles, guild_id.everyone_role()).union(union_all(held.map_values(grant_in(roles))))
}

/// The overwrite of `overwrites` for the target `kind`: the last one, where
/// there are several.
pub open spec fn overwrite_for(overwrites: Seq<PermissionOverwrite>, kind: PermissionOverwriteType)
    -> Option<PermissionOverwrite>
    decreases overwrites.len(),
{
    if overwrites.len() == 0 {
        None
    } else if overwrites.last().kind == kind {
        Some(overwrites.last())
    } else {
        overwrite_for(overwrites.drop_last(), kind)
    }
}

/// Whether the overwrite is for a role that `held` names.
pub open spec fn is_for_held_role(overwrite: PermissionOverwrite, held: Seq<RoleId>) -> bool {
    overwrite.kind matches PermissionOverwriteType::Role(id) && held.contains(id)
}

/// What an overwrite allows, if it is for a role that `held` names.
pub open spec fn allow_if_held(held: Seq<RoleId>) -> spec_fn(PermissionOverwrite) -> Option<
    Permissions,
> {
    |overwrite: PermissionOverwrite|
        if is_for_held_role(overwrite, held) {
            Some(overwrite.allow)
        } else {
            None
        }
}

/// What an overwrite denies, if it is for a role that `held` names.
pub open spec fn deny_if_held(held: Seq<RoleId>) -> spec_fn(PermissionOverwrite) -> Option<
    Permissions,
> {
    |overwrite: PermissionOverwrite|
        if is_for_held_role(overwrite, held) {
            Some(overwrite.deny)
        } else {
            None
        }
}

/// All that the overwrites for the roles of `held` allow.
pub open spec fn held_roles_allow(overwrites: Seq<PermissionOverwrite>, held: Seq<RoleId>)
    -> Permissions {
    union_all(overwrites.filter_map(allow_if_held(held)))
}

/// All that the overwrites for the roles of `held` deny.
pub open spec fn held_roles_deny(overwrites: Seq<PermissionOverwrite>, held: Seq<RoleId>)
    -> Permissions {
    union_all(overwrites.filter_map(deny_if_held(held)))
}

/// The set `base` under an overwrite, if there is one.
pub open spec fn under(base: Permissions, overwrite: Option<PermissionOverwrite>) -> Permissions {
    match overwrite {
        Some(overwrite) => base.overwritten(overwrite.allow, overwrite.deny),
        None => base,
    }
}

/// The permissions of the member `member_id`, who holds the roles `held`, in
/// the guild `guild_id` with the roles `roles` and the owner `owner_id`:
/// in the whole guild where `overwrites` is `None`, and else in a channel
/// with these overwrites.
///
/// The owner has every permission. So has a member to whom the roles grant
/// `ADMINISTRATOR`, whatever the channel says. For the others the grant of
/// the roles is the result in the guild. In a channel it is put under the
/// overwrite for the role of everyone, then under all the overwrites for
/// roles that the member holds at once (what any of them denies goes, then
/// what any of them allows comes), then under the overwrite for the member.
pub open spec fn resolve_permissions_spec(
    member_id: UserId,
    held: Seq<RoleId>,
    guild_id: GuildId,
    roles: Map<u64, Role>,
    owner_id: UserId,
    overwrites: Option<Seq<PermissionOverwrite>>,
) -> Permissions {
    let base = base_permissions(roles, guild_id, held);
    if member_id == owner_id || base.has(Permissions::ADMINISTRATOR) {
        Permissions::all()
    } else {
        match overwrites {
            None => base,
            Some(overwrites) => under(
                under(
                    base,
                    overwrite_for(overwrites, PermissionOverwriteType::Role(guild_id.everyone_role())),
                ).overwritten(
                    held_roles_allow(overwrites, held),
                    held_roles_deny(overwrites, held),
                ),
                overwrite_for(overwrites, PermissionOverwriteType::Member(member_id)),
            ),
        }
    }
}

/// The overwrites of a channel, if there is a channel.
pub open spec fn overwrites_of(channel: Option<&GuildChannel>) -> Option<Seq<PermissionOverwrite>> {
    match channel {
        Some(channel) => Some(channel.permission_overwrites@),
        None => None,
    }
}

/// A set under an overwrite that allows nothing and denies nothing is the
/// set itself.
pub proof fn lemma_overwritten_by_nothing(base: Permissions)
    ensures
        base.overwritten(Permissions::empty(), Permissions::empty()) == base,
{
    let b = base.bits;
    assert((b & !0u64) | 0u64 == b) by (bit_vector);
}

/// Whether `id` is one of `held`.
pub fn holds_role(held: &[RoleId], id: RoleId) -> (r: bool)
    ensures
        r == held@.contains(id),
{
    let mut i: usize = 0;
    while i < held.len()
        invariant
            i <= held.len(),
            forall|j: int| 0 <= j < i ==> held@[j] != id,
        decreases held.len() - i,
    {
        if held[i] == id {
            return true;
        }
        i += 1;
    }
    false
}

/// What the two sets of an overwrite are, and two empty sets without one.
spec fn sets_of(overwrite: Option<PermissionOverwrite>) -> (Permissions, Permissions) {
    match overwrite {
        Some(overwrite) => (overwrite.allow, overwrite.deny),
        None => (Permissions::empty(), Permissions::empty()),
    }
}

impl Guild {
    /// The permissions of `member` in this guild: in the whole guild where
    /// `channel` is `None`, and else in that channel.
    pub open spec fn permissions_of(&self, member: &Member, channel: Option<&GuildChannel>)
        -> Permissions {
        resolve_permissions_spec(
            member.user.id,
            member.roles@,
            self.id,
            self.role_map(),
            self.owner_id,
            overwrites_of(channel),
        )
    }

    /// The permissions of `member` in the whole guild, by
    /// [`resolve_permissions_spec`].
    pub fn member_permissions(&self, member: &Member) -> (r: Permissions)
        ensures
            r == resolve_permissions_spec(
                member.user.id,
                member.roles@,
                self.id,
                self.role_map(),
                self.owner_id,
                None,
            ),
    {
        Guild::_user_permissions_in(
            None,
            member.user.id,
            member.roles.as_slice(),
            self.id,
            &self.roles,
            self.owner_id,
        )
    }

    /// The permissions of `member` in the channel `channel` of this guild, by
    /// [`resolve_permissions_spec`].
    pub fn user_permissions_in(&self, channel: &GuildChannel, member: &Member) -> (r: Permissions)
        ensures
            r == resolve_permissions_spec(
                member.user.id,
                member.roles@,
                self.id,
                self.role_map(),
                self.owner_id,
                Some(channel.permission_overwrites@),
            ),
    {
        Guild::_user_permissions_in(
            Some(channel),
            member.user.id,
            member.roles.as_slice(),
            self.id,
            &self.roles,
            self.owner_id,
        )
    }

    /// The permissions in the channel `channel` of a member of whom only a
    /// part is known. Where `member` names its user, that user is
    /// `member_id`.
    pub fn partial_member_permissions_in(
        &self,
        channel: &GuildChannel,
        member_id: UserId,
        member: &PartialMember,
    ) -> (r: Permissions)
        requires
            member.user matches Some(user) ==> user.id == member_id,
        ensures
            r == resolve_permissions_spec(
                member_id,
                member.roles@,
                self.id,
                self.role_map(),
                self.owner_id,
                Some(channel.permission_overwrites@),
            ),
    {
        Guild::_user_permissions_in(
            Some(channel),
            member_id,
            member.roles.as_slice(),
            self.id,
            &self.roles,
            self.owner_id,
        )
    }

    /// The permissions of the member `member_user_id` with the roles
    /// `member_roles`, in the guild `guild_id` with the roles `guild_roles`
    /// and the owner `guild_owner_id`: in the whole guild where `channel` is
    /// `None`, and else in that channel. See [`resolve_permissions_spec`].
    pub fn _user_permissions_in(
        channel: Option<&GuildChannel>,
        member_user_id: UserId,
        member_roles: &[RoleId],
        guild_id: GuildId,
        guild_roles: &ExtractMap<u64, Role>,
        guild_owner_id: UserId,
    ) -> (r: Permissions)
        ensures
            r == resolve_permissions_spec(
                member_user_id,
                member_roles@,
                guild_id,
                role_entries(*guild_roles),
                guild_owner_id,
                overwrites_of(channel),
            ),
    {
        let ghost held = member_roles@;
        let ghost entries = role_entries(*guild_roles);
        let ghost for_everyone = PermissionOverwriteType::Role(guild_id.everyone_role());
        let ghost for_member = PermissionOverwriteType::Member(member_user_id);
        let mut everyone_allow_overwrites = Permissions::empty();
        let mut everyone_deny_overwrites = Permissions::empty();
        let mut roles_allow_overwrites: Vec<Permissions> = Vec::new();
        let mut roles_deny_overwrites: Vec<Permissions> = Vec::new();
        let mut member_allow_overwrites = Permissions::empty();
        let mut member_deny_overwrites = Permissions::empty();

        if let Some(channel) = channel {
            let ghost overwrites = channel.permission_overwrites@;
            let mut i: usize = 0;
            proof {
                assert(overwrites.take(0) =~= Seq::<PermissionOverwrite>::empty());
            }
            while i < channel.permission_overwrites.len()
                invariant
                    i <= channel.permission_overwrites.len(),
                    overwrites == channel.permission_overwrites@,
                    held == member_roles@,
                    for_everyone == PermissionOverwriteType::Role(guild_id.everyone_role()),
                    for_member == PermissionOverwriteType::Member(member_user_id),
                    (everyone_allow_overwrites, everyone_deny_overwrites) == sets_of(
                        overwrite_for(overwrites.take(i as int), for_everyone),
                    ),
                    (member_allow_overwrites, member_deny_overwrites) == sets_of(
                        overwrite_for(overwrites.take(i as int), for_member),
                    ),
                    roles_allow_overwrites@ == overwrites.take(i as int).filter_map(
                        allow_if_held(held),
                    ),
                    roles_deny_overwrites@ == overwrites.take(i as int).filter_map(
                        deny_if_held(held),
                    ),
                decreases channel.permission_overwrites.len() - i,
            {
                let overwrite = channel.permission_overwrites[i];
                proof {
                    assert(overwrites.take(i + 1).drop_last() =~= overwrites.take(i as int));
                    assert(overwrites.take(i + 1).last() == overwrite);
                    overwrites.lemma_filter_map_take_succ(allow_if_held(held), i as int);
                    overwrites.lemma_filter_map_take_succ(deny_if_held(held), i as int);
                }
                match overwrite.kind {
                    PermissionOverwriteType::Member(user_id) => {
                        if member_user_id == user_id {
                            member_allow_overwrites = overwrite.allow;
                            member_deny_overwrites = overwrite.deny;
                        }
                    },
                    PermissionOverwriteType::Role(role_id) => {
                        if role_id == guild_id.everyone_role() {
                            everyone_allow_overwrites = overwrite.allow;
                            everyone_deny_overwrites = overwrite.deny;
                        }
                        if holds_role(member_roles, role_id) {
                            roles_allow_overwrites.push(overwrite.allow);
                            roles_deny_overwrites.push(overwrite.deny);
                        }
                    },
                }
                i += 1;
            }
            proof {
                assert(overwrites.take(i as int) =~= overwrites);
            }
        }

        let everyone_permissions = match get_role(guild_roles, guild_id.everyone_role().get()) {
            Some(role) => role.permissions,
            None => Permissions::empty(),
        };
        let mut user_roles_permissions: Vec<Permissions> = Vec::new();
        let mut j: usize = 0;
        while j < member_roles.len()
            invariant
                j <= member_roles.len(),
                held == member_roles@,
                entries == role_entries(*guild_roles),
                user_roles_permissions@ == held.take(j as int).map_values(grant_in(entries)),
            decreases member_roles.len() - j,
        {
            let granted = match get_role(guild_roles, member_roles[j].get()) {
                Some(role) => role.permissions,
                None => Permissions::empty(),
            };
            user_roles_permissions.push(granted);
            proof {
                assert(held.take(j + 1).map_values(grant_in(entries)) =~= held.take(
                    j as int,
                ).map_values(grant_in(entries)).push(granted));
            }
            j += 1;
        }
        proof {
            assert(held.take(j as int) =~= held);
            let base = base_permissions(entries, guild_id, held);
            lemma_overwritten_by_nothing(base);
            if channel is Some {
                let overwrites = channel->0.permission_overwrites@;
                lemma_overwritten_by_nothing(under(base, overwrite_for(overwrites, for_everyone)));
                lemma_overwritten_by_nothing(
                    under(base, overwrite_for(overwrites, for_everyone)).overwritten(
                        held_roles_allow(overwrites, held),
                        held_roles_deny(overwrites, held),
                    ),
                );
            } else {
                assert(roles_allow_overwrites@ =~= Seq::<Permissions>::empty());
                assert(roles_deny_overwrites@ =~= Seq::<Permissions>::empty());
            }
        }
        calculate_permissions(
            CalculatePermissions {
                is_guild_owner: member_user_id == guild_owner_id,
                everyone_permissions,
                user_roles_permissions,
                everyone_allow_overwrites,
                everyone_deny_overwrites,
                roles_allow_overwrites,
                roles_deny_overwrites,
                member_allow_overwrites,
                member_deny_overwrites,
            },
        )
    }
}

/// What a snapshot fails to hold of the roles that a computation of
/// permissions asks it for. Nothing of it keeps the computation from its
/// result: a role that is not there grants nothing.
#[derive(Debug)]
pub struct MissingRoles {
    /// Whether the guild lacks the role of everyone, which every guild
    /// should have.
    pub everyone: bool,
    /// The role identifiers of the member that belong to no role of the
    /// guild, in the member's order: what is left of roles that are gone.
    pub held: Vec<RoleId>,
}

/// Whether the identifier belongs to no role of `roles`.
pub open spec fn unknown_in(roles: Map<u64, Role>) -> spec_fn(RoleId) -> bool {
    |id: RoleId| !roles.dom().contains(id.0)
}

/// What the roles `guild_roles` of the guild `guild_id` lack for the
/// permissions of a member with the roles `member_roles`.
pub fn missing_roles(
    member_roles: &[RoleId],
    guild_id: GuildId,
    guild_roles: &ExtractMap<u64, Role>,
) -> (r: MissingRoles)
    ensures
        r.everyone == !role_entries(*guild_roles).dom().contains(guild_id.everyone_role().0),
        r.held@ == member_roles@.filter(unknown_in(role_entries(*guild_roles))),
{
    let ghost unknown = unknown_in(role_entries(*guild_roles));
    let everyone = get_role(guild_roles, guild_id.everyone_role().get()).is_none();
    let mut held: Vec<RoleId> = Vec::new();
    let mut i: usize = 0;
    proof {
        reveal(Seq::filter);
        assert(member_roles@.take(0) =~= Seq::<RoleId>::empty());
    }
    while i < member_roles.len()
        invariant
            i <= member_roles.len(),
            unknown == unknown_in(role_entries(*guild_roles)),
            held@ == member_roles@.take(i as int).filter(unknown),
        decreases member_roles.len() - i,
    {
        proof {
            reveal(Seq::filter);
            assert(member_roles@.take(i + 1).drop_last() =~= member_roles@.take(i as int));
        }
        if get_role(guild_roles, member_roles[i].get()).is_none() {
            held.push(member_roles[i]);
        }
        i += 1;
    }
    proof {
        assert(member_roles@.take(i as int) =~= member_roles@);
    }
    MissingRoles { everyone, held }
}

/// The guild's owner has every permission, in the guild and in each of its
/// channels, whatever the roles and the overwrites are.
pub proof fn lemma_owner_has_all(
    member_id: UserId,
    held: Seq<RoleId>,
    guild_id: GuildId,
    roles: Map<u64, Role>,
    owner_id: UserId,
    overwrites: Option<Seq<PermissionOverwrite>>,
)
    requires
        member_id == owner_id,
    ensures
        resolve_permissions_spec(member_id, held, guild_id, roles, owner_id, overwrites)
            == Permissions::all(),
{
}

/// A member to whom the roles grant `ADMINISTRATOR` has every permission, in
/// the guild and in each of its channels, whatever the overwrites are.
pub proof fn lemma_administrator_has_all(
    member_id: UserId,
    held: Seq<RoleId>,
    guild_id: GuildId,
    roles: Map<u64, Role>,
    owner_id: UserId,
    overwrites: Option<Seq<PermissionOverwrite>>,
)
    requires
        base_permissions(roles, guild_id, held).has(Permissions::ADMINISTRATOR),
    ensures
        resolve_permissions_spec(member_id, held, guild_id, roles, owner_id, overwrites)
            == Permissions::all(),
{
}

/// What the roles grant a member holds what each one of its roles grants
/// that the guild has, and what the role of everyone grants.
pub proof fn lemma_base_holds_each_grant(
    roles: Map<u64, Role>,
    guild_id: GuildId,
    held: Seq<RoleId>,
    i: int,
    mask: u64,
)
    requires
        0 <= i < held.len(),
    ensures
        role_grant(roles, held[i]).has(mask) ==> base_permissions(roles, guild_id, held).has(mask),
        role_grant(roles, guild_id.everyone_role()).has(mask) ==> base_permissions(
            roles,
            guild_id,
            held,
        ).has(mask),
{
    let grants = held.map_values(grant_in(roles));
    let e = role_grant(roles, guild_id.everyone_role()).bits;
    let u = union_all(grants).bits;
    if role_grant(roles, held[i]).has(mask) {
        assert(grants[i] == role_grant(roles, held[i]));
        lemma_union_all_has(grants, i, mask);
    }
    assert(u & mask == mask ==> (e | u) & mask == mask) by (bit_vector);
    assert(e & mask == mask ==> (e | u) & mask == mask) by (bit_vector);
}

/// A member who holds a role that grants `ADMINISTRATOR` has every
/// permission, whatever the channel and its overwrites.
pub proof fn lemma_administrator_role_has_all(
    member_id: UserId,
    held: Seq<RoleId>,
    guild_id: GuildId,
    roles: Map<u64, Role>,
    owner_id: UserId,
    overwrites: Option<Seq<PermissionOverwrite>>,
    i: int,
)
    requires
        0 <= i < held.len(),
        roles.dom().contains(held[i].0),
        roles[held[i].0].permissions.has(Permissions::ADMINISTRATOR),
    ensures
        resolve_permissions_spec(member_id, held, guild_id, roles, owner_id, overwrites)
            == Permissions::all(),
{
    lemma_base_holds_each_grant(roles, guild_id, held, i, Permissions::ADMINISTRATOR);
}

/// The permissions depend on nothing but what the snapshot holds and the
/// arguments say: two guilds with the same identifier, owner and roles give
/// two members with the same user and roles the same permissions under the
/// same overwrites.
pub proof fn lemma_same_snapshot_same_permissions(
    first: &Guild,
    second: &Guild,
    first_member: &Member,
    second_member: &Member,
    first_channel: Option<&GuildChannel>,
    second_channel: Option<&GuildChannel>,
)
    requires
        first.id == second.id,
        first.owner_id == second.owner_id,
        first.role_map() == second.role_map(),
        first_member.user.id == second_member.user.id,
        first_member.roles@ == second_member.roles@,
        overwrites_of(first_channel) == overwrites_of(second_channel),
    ensures
        first.permissions_of(first_member, first_channel) == second.permissions_of(
            second_member,
            second_channel,
        ),
{
}

/// The channel's overwrite for the member has the last word. For a member
/// who is neither the owner nor an administrator, what it allows the member
/// has, and what it denies and does not allow the member has not, whatever
/// the roles grant and the other overwrites say.
pub proof fn lemma_member_overwrite_prevails(
    member_id: UserId,
    held: Seq<RoleId>,
    guild_id: GuildId,
    roles: Map<u64, Role>,
    owner_id: UserId,
    overwrites: Seq<PermissionOverwrite>,
    own: PermissionOverwrite,
    mask: u64,
)
    requires
        member_id != owner_id,
        !base_permissions(roles, guild_id, held).has(Permissions::ADMINISTRATOR),
        overwrite_for(overwrites, PermissionOverwriteType::Member(member_id)) == Some(own),
    ensures
        own.allow.has(mask) ==> resolve_permissions_spec(
            member_id,
            held,
            guild_id,
            roles,
            owner_id,
            Some(overwrites),
        ).has(mask),
        own.deny.has(mask) && own.allow.bits & mask == 0 ==> resolve_permissions_spec(
            member_id,
            held,
            guild_id,
            roles,
            owner_id,
            Some(overwrites),
        ).bits & mask == 0,
{
    let before = under(
        base_permissions(roles, guild_id, held),
        overwrite_for(overwrites, PermissionOverwriteType::Role(guild_id.everyone_role())),
    ).overwritten(held_roles_allow(overwrites, held), held_roles_deny(overwrites, held));
    lemma_overwritten(before, own.allow, own.deny, mask);
}

/// What one of the overwrites for a role that the member holds allows is in
/// all that these overwrites allow.
pub proof fn lemma_held_role_allows(
    overwrites: Seq<PermissionOverwrite>,
    held: Seq<RoleId>,
    i: int,
    mask: u64,
)
    requires
        0 <= i < overwrites.len(),
        is_for_held_role(overwrites[i], held),
        overwrites[i].allow.has(mask),
    ensures
        held_roles_allow(overwrites, held).has(mask),
    decreases overwrites.len(),
{
    let f = allow_if_held(held);
    let rest = overwrites.drop_last();
    let last = overwrites.last();
    if i < overwrites.len() - 1 {
        lemma_held_role_allows(rest, held, i, mask);
    }
    match f(last) {
        Some(allowed) => {
            let joined = rest.filter_map(f) + seq![allowed];
            assert(joined.drop_last() =~= rest.filter_map(f));
            let a = union_all(rest.filter_map(f)).bits;
            let b = allowed.bits;
            assert(a & mask == mask ==> (a | b) & mask == mask) by (bit_vector);
            assert(b & mask == mask ==> (a | b) & mask == mask) by (bit_vector);
        },
        None => {},
    }
}

/// Among the overwrites for the roles that a member holds, allowing goes
/// over denying: what one of them allows the member has in the channel,
/// though another denies it, unless the overwrite for the member itself
/// denies it. (Owner and administrators have it anyway.)
pub proof fn lemma_role_allow_beats_role_deny(
    member_id: UserId,
    held: Seq<RoleId>,
    guild_id: GuildId,
    roles: Map<u64, Role>,
    owner_id: UserId,
    overwrites: Seq<PermissionOverwrite>,
    i: int,
    mask: u64,
)
    requires
        0 <= i < overwrites.len(),
        is_for_held_role(overwrites[i], held),
        overwrites[i].allow.has(mask),
        Permissions::all().has(mask),
        overwrite_for(overwrites, PermissionOverwriteType::Member(member_id)) matches Some(own)
            ==> own.deny.bits & mask == 0,
    ensures
        resolve_permissions_spec(
            member_id,
            held,
            guild_id,
            roles,
            owner_id,
            Some(overwrites),
        ).has(mask),
{
    let base = base_permissions(roles, guild_id, held);
    if member_id != owner_id && !base.has(Permissions::ADMINISTRATOR) {
        let first = under(
            base,
            overwrite_for(overwrites, PermissionOverwriteType::Role(guild_id.everyone_role())),
        );
        let second = first.overwritten(
            held_roles_allow(overwrites, held),
            held_roles_deny(overwrites, held),
        );
        lemma_held_role_allows(overwrites, held, i, mask);
        lemma_overwritten(
            first,
            held_roles_allow(overwrites, held),
            held_roles_deny(overwrites, held),
            mask,
        );
        match overwrite_for(overwrites, PermissionOverwriteType::Member(member_id)) {
            Some(own) => {
                lemma_overwritten(second, own.allow, own.deny, mask);
            },
            None => {},
        }
    }
}

/// The permissions of `member` in `guild`: in the whole guild where `channel`
/// is `None`, and else in that channel. Never fails, and changes nothing.
pub fn resolve_permissions(member: &Member, guild: &Guild, channel: Option<&GuildChannel>) -> (r:
    Permissions)
    ensures
        r == resolve_permissions_spec(
            member.user.id,
            member.roles@,
            guild.id,
            guild.role_map(),
            guild.owner_id,
            overwrites_of(channel),
        ),
{
    Guild::_user_permissions_in(
        channel,
        member.user.id,
        member.roles.as_slice(),
        guild.id,
        &guild.roles,
        guild.owner_id,
    )
}

} // verus!
