//! The maps that hold a guild's entities: the `ExtractMap` of `extract_map`,
//! a hash map whose values carry their own keys.
//!
//! What is stated here holds of a map whose values kept their keys while they
//! were in it, which is the rule that `extract_map` sets for `iter_mut`. The
//! order in which such a map is walked changes from one process to the next:
//! nothing is stated of it.

use crate::model::channel::GuildChannel;
use crate::model::guild::member::Member;
use crate::model::guild::role::Role;
use crate::model::user::Presence;
use extract_map::ExtractMap;
use vstd::prelude::*;

verus! {

/// `extract_map::ExtractMap`, taken as it is.
#[verifier::external_type_specification]
#[verifier::external_body]
#[verifier::reject_recursive_types(K)]
#[verifier::reject_recursive_types(V)]
#[verifier::reject_recursive_types(S)]
pub struct ExExtractMap<K, V, S>(ExtractMap<K, V, S>);

/// The roles that a map holds, each under its identifier's number.
pub uninterp spec fn role_entries(roles: ExtractMap<u64, Role>) -> Map<u64, Role>;

/// The members that a map holds, each under the number of its user's
/// identifier.
pub uninterp spec fn member_entries(members: ExtractMap<u64, Member>) -> Map<u64, Member>;

/// The channels that a map holds, each under its identifier's number.
pub uninterp spec fn channel_entries(channels: ExtractMap<u64, GuildChannel>) -> Map<
    u64,
    GuildChannel,
>;

/// The presences that a map holds, each under the number of its user's
/// identifier.
pub uninterp spec fn presence_entries(presences: ExtractMap<u64, Presence>) -> Map<u64, Presence>;

/// Whether `keys` and `items`, index by index, are the entries of `entries`,
/// each of them once.
pub open spec fn lists_entries<V>(keys: Seq<u64>, items: Seq<V>, entries: Map<u64, V>) -> bool {
    &&& keys.len() == items.len()
    &&& keys.no_duplicates()
    &&& keys.to_set() == entries.dom()
    &&& forall|i: int| 0 <= i < keys.len() ==> entries[#[trigger] keys[i]] == items[i]
}

/// Whether `walk` hands out the roles of `entries`, each of them once.
pub open spec fn walks_roles(walk: Seq<&Role>, entries: Map<u64, Role>) -> bool {
    lists_entries(
        walk.map_values(|role: &Role| role.id.0),
        walk.map_values(|role: &Role| *role),
        entries,
    )
}

/// Whether `walk` hands out the members of `entries`, each of them once.
pub open spec fn walks_members(walk: Seq<&Member>, entries: Map<u64, Member>) -> bool {
    lists_entries(
        walk.map_values(|member: &Member| member.user.id.0),
        walk.map_values(|member: &Member| *member),
        entries,
    )
}

/// Whether `walk` hands out the channels of `entries`, each of them once.
pub open spec fn walks_channels(walk: Seq<&GuildChannel>, entries: Map<u64, GuildChannel>) -> bool {
    lists_entries(
        walk.map_values(|channel: &GuildChannel| channel.id.0),
        walk.map_values(|channel: &GuildChannel| *channel),
        entries,
    )
}

/// What a walk hands out is in the map under its own key, and the map holds
/// nothing that the walk leaves out.
pub proof fn lemma_walk_of_members(walk: Seq<&Member>, entries: Map<u64, Member>)
    requires
        walks_members(walk, entries),
    ensures
        forall|i: int|
            0 <= i < walk.len() ==> entries.dom().contains((#[trigger] walk[i]).user.id.0)
                && entries[walk[i].user.id.0] == *walk[i],
        forall|id: u64|
            entries.dom().contains(id) ==> exists|i: int|
                0 <= i < walk.len() && *#[trigger] walk[i] == entries[id],
{
    let keys = walk.map_values(|member: &Member| member.user.id.0);
    let items = walk.map_values(|member: &Member| *member);
    assert forall|i: int| 0 <= i < walk.len() implies entries.dom().contains(
        (#[trigger] walk[i]).user.id.0,
    ) && entries[walk[i].user.id.0] == *walk[i] by {
        assert(keys[i] == walk[i].user.id.0);
        assert(keys.to_set().contains(keys[i]));
        assert(entries[keys[i]] == items[i]);
    }
    assert forall|id: u64| entries.dom().contains(id) implies exists|i: int|
        0 <= i < walk.len() && *#[trigger] walk[i] == entries[id] by {
        assert(keys.to_set().contains(id));
        let i = choose|i: int| 0 <= i < keys.len() && keys[i] == id;
        assert(entries[keys[i]] == items[i]);
        assert(*walk[i] == entries[id]);
    }
}

/// `ExtractMap::get` on roles: the role whose identifier has the number `id`,
/// or `None` where the map holds none. Believed, not proved: the map finds a
/// value by comparing `id` with the key that the value gives.
#[verifier::external_body]
pub(crate) fn get_role<'a>(roles: &'a ExtractMap<u64, Role>, id: u64) -> (r: Option<&'a Role>)
    ensures
        match r {
            Some(role) => role_entries(*roles).dom().contains(id) && role_entries(*roles)[id]
                == *role && role.id.0 == id,
            None => !role_entries(*roles).dom().contains(id),
        },
{
    roles.get(&id)
}

/// `ExtractMap::get` on members: the member whose user identifier has the
/// number `id`, or `None` where the map holds none. Believed, not proved: the
/// map finds a value by comparing `id` with the key that the value gives.
#[verifier::external_body]
pub(crate) fn get_member<'a>(members: &'a ExtractMap<u64, Member>, id: u64) -> (r: Option<
    &'a Member,
>)
    ensures
        match r {
            Some(member) => member_entries(*members).dom().contains(id) && member_entries(
                *members,
            )[id] == *member && member.user.id.0 == id,
            None => !member_entries(*members).dom().contains(id),
        },
{
    members.get(&id)
}

/// `ExtractMap::get` on channels: the channel whose identifier has the
/// number `id`, or `None` where the map holds none. Believed, not proved: the
/// map finds a value by comparing `id` with the key that the value gives.
#[verifier::external_body]
pub(crate) fn get_channel<'a>(channels: &'a ExtractMap<u64, GuildChannel>, id: u64) -> (r: Option<
    &'a GuildChannel,
>)
    ensures
        match r {
            Some(channel) => channel_entries(*channels).dom().contains(id) && channel_entries(
                *channels,
            )[id] == *channel && channel.id.0 == id,
            None => !channel_entries(*channels).dom().contains(id),
        },
{
    channels.get(&id)
}

/// `ExtractMap::get` on presences: the presence of the user whose identifier
/// has the number `id`, or `None` where the map holds none. Believed, not
/// proved: the map finds a value by comparing `id` with the key that the
/// value gives.
#[verifier::external_body]
pub(crate) fn get_presence<'a>(presences: &'a ExtractMap<u64, Presence>, id: u64) -> (r: Option<
    &'a Presence,
>)
    ensures
        match r {
            Some(presence) => presence_entries(*presences).dom().contains(id) && presence_entries(
                *presences,
            )[id] == *presence && presence.user_id.0 == id,
            None => !presence_entries(*presences).dom().contains(id),
        },
{
    presences.get(&id)
}

/// `ExtractMap::iter` on roles, gathered: the roles of the map, each once, in
/// the order in which the map hands them out. Believed, not proved.
#[verifier::external_body]
pub(crate) fn role_values<'a>(roles: &'a ExtractMap<u64, Role>) -> (r: Vec<&'a Role>)
    ensures
        walks_roles(r@, role_entries(*roles)),
{
    roles.iter().collect()
}

/// `ExtractMap::iter` on members, gathered: the members of the map, each
/// once, in the order in which the map hands them out. Believed, not proved.
#[verifier::external_body]
pub(crate) fn member_values<'a>(members: &'a ExtractMap<u64, Member>) -> (r: Vec<&'a Member>)
    ensures
        walks_members(r@, member_entries(*members)),
{
    members.iter().collect()
}

/// `ExtractMap::iter` on channels, gathered: the channels of the map, each
/// once, in the order in which the map hands them out. Believed, not proved.
#[verifier::external_body]
pub(crate) fn channel_values<'a>(channels: &'a ExtractMap<u64, GuildChannel>) -> (r: Vec<
    &'a GuildChannel,
>)
    ensures
        walks_channels(r@, channel_entries(*channels)),
{
    channels.iter().collect()
}

} // verus!
