//! Finding members of a guild by name.

use crate::internal::first::first_where;
use crate::internal::first::is_first_where;
use crate::internal::first::lemma_first_where;
use crate::internal::first::lemma_first_where_is_wanted;
use crate::internal::first::lemma_first_where_same;
use crate::internal::sort::lemma_insert_position_is;
use crate::internal::sort::lemma_stable_sort_permutes;
use crate::internal::sort::lemma_stable_sort_sorted;
use crate::internal::sort::ranks;
use crate::internal::sort::sorted_by;
use crate::internal::sort::stable_insert;
use crate::internal::sort::stable_sort;
use crate::internal::text::contains_text;
use crate::internal::text::find;
use crate::internal::text::first_occurrence;
use crate::internal::text::lowercase;
use crate::internal::text::occurs;
use crate::internal::text::occurs_at;
use crate::internal::text::same_text;
use crate::internal::text::to_lowercase;
use crate::internal::store::channel_values;
use crate::internal::store::get_member;
use crate::internal::store::get_presence;
use crate::internal::store::lemma_walk_of_members;
use crate::internal::store::member_values;
use crate::internal::store::presence_entries;
use crate::internal::store::role_values;
use crate::internal::store::walks_channels;
use crate::internal::store::walks_members;
use crate::internal::store::walks_roles;
use crate::model::channel::ChannelType;
use crate::model::channel::GuildChannel;
use crate::model::guild::role::Role;
use crate::model::guild::Guild;
use crate::model::id::UserId;
use crate::model::permissions::Permissions;
use crate::model::user::OnlineStatus;
use crate::model::user::Presence;
use crate::model::utils::parse_user_tag;
use crate::model::utils::parse_user_tag_spec;
use extract_map::ExtractMap;
use crate::model::guild::member::Member;
use std::cmp::Ordering;
use vstd::prelude::*;
use vstd::string::StringSliceAdditionalSpecFns;
use vstd::utf8::encode_utf8;

verus! {

/// Whether the text `needle` stands somewhere in the text `haystack`; with
/// `case_sensitive` off, whether it does once both are put in lower case.
pub open spec fn text_contains(haystack: Seq<char>, needle: Seq<char>, case_sensitive: bool)
    -> bool {
    if case_sensitive {
        occurs(encode_utf8(haystack), encode_utf8(needle))
    } else {
        occurs(encode_utf8(lowercase(haystack)), encode_utf8(lowercase(needle)))
    }
}

/// Whether the text `name` begins with the text `prefix`; with
/// `case_sensitive` off, whether it does once both are put in lower case.
pub open spec fn text_starts_with(name: Seq<char>, prefix: Seq<char>, case_sensitive: bool)
    -> bool {
    if case_sensitive {
        occurs_at(encode_utf8(name), encode_utf8(prefix), 0)
    } else {
        occurs_at(encode_utf8(lowercase(name)), encode_utf8(lowercase(prefix)), 0)
    }
}

/// Whether `needle` stands somewhere in `haystack`, with or without regard to
/// case.
pub fn contains(haystack: &str, needle: &str, case_sensitive: bool) -> (r: bool)
    ensures
        r == text_contains(haystack@, needle@, case_sensitive),
{
    if case_sensitive {
        contains_text(haystack, needle)
    } else {
        let haystack = to_lowercase(haystack);
        let needle = to_lowercase(needle);
        contains_text(haystack.as_str(), needle.as_str())
    }
}

/// Whether `name` begins with `prefix`, with or without regard to case.
pub fn starts_with(name: &str, prefix: &str, case_sensitive: bool) -> (r: bool)
    ensures
        r == text_starts_with(name@, prefix@, case_sensitive),
{
    if case_sensitive {
        crate::internal::text::starts_with(name, prefix)
    } else {
        let name = to_lowercase(name);
        let prefix = to_lowercase(prefix);
        crate::internal::text::starts_with(name.as_str(), prefix.as_str())
    }
}

/// How far a word is from `origin`: the byte at which `origin` first stands
/// in the word, and the word's length in bytes on top of it, so that of two
/// words with `origin` at the same place the shorter is the closer. A word
/// without `origin` in it has no distance.
pub open spec fn origin_distance(origin: Seq<u8>, word: Seq<u8>) -> Option<int> {
    match first_occurrence(word, origin) {
        Some(at) => Some(at + word.len()),
        None => None,
    }
}

/// Whether a word at the distance `a` is closer than one at the distance
/// `b`. A word without a distance is further than any word with one, and no
/// closer than another word without one.
pub open spec fn is_closer(a: Option<int>, b: Option<int>) -> bool {
    match a {
        Some(a) => match b {
            Some(b) => a < b,
            None => true,
        },
        None => false,
    }
}

/// How a word at the distance `a` compares with one at the distance `b`. A
/// first word without a distance counts as the greater, whatever the second
/// is; after that, a second word without a distance makes the first the
/// less.
pub open spec fn compare_distances(a: Option<int>, b: Option<int>) -> Ordering {
    match a {
        None => Ordering::Greater,
        Some(a) => match b {
            None => Ordering::Less,
            Some(b) => if a < b {
                Ordering::Less
            } else if a == b {
                Ordering::Equal
            } else {
                Ordering::Greater
            },
        },
    }
}

/// The distance of `word` from `origin`: see [`origin_distance`].
pub fn distance_from_origin(origin: &str, word: &str) -> (r: Option<u128>)
    ensures
        match r {
            Some(distance) => origin_distance(origin.spec_bytes(), word.spec_bytes()) == Some(
                distance as int,
            ),
            None => origin_distance(origin.spec_bytes(), word.spec_bytes()) is None,
        },
{
    match find(word, origin) {
        Some(at) => Some(at as u128 + word.as_bytes().len() as u128),
        None => None,
    }
}

/// Tells which of `word_a` and `word_b` is closer to `origin`: see
/// [`compare_distances`] and [`origin_distance`].
pub fn closest_to_origin(origin: &str, word_a: &str, word_b: &str) -> (r: Ordering)
    ensures
        r == compare_distances(
            origin_distance(origin.spec_bytes(), word_a.spec_bytes()),
            origin_distance(origin.spec_bytes(), word_b.spec_bytes()),
        ),
{
    let value_a = match distance_from_origin(origin, word_a) {
        Some(value) => value,
        None => {
            return Ordering::Greater;
        },
    };
    let value_b = match distance_from_origin(origin, word_b) {
        Some(value) => value,
        None => {
            return Ordering::Less;
        },
    };
    if value_a < value_b {
        Ordering::Less
    } else if value_a == value_b {
        Ordering::Equal
    } else {
        Ordering::Greater
    }
}

/// Whether `word_a` is closer to `origin` than `word_b`.
pub fn closer(origin: &str, word_a: &str, word_b: &str) -> (r: bool)
    ensures
        r == is_closer(
            origin_distance(origin.spec_bytes(), word_a.spec_bytes()),
            origin_distance(origin.spec_bytes(), word_b.spec_bytes()),
        ),
{
    match closest_to_origin(origin, word_a, word_b) {
        Ordering::Less => true,
        _ => false,
    }
}

/// By what a member is looked for.
#[derive(Clone, Copy, Debug, PartialEq, Eq, Structural)]
pub enum NameSearch {
    /// By the beginning of the user name, and failing that of the nickname.
    StartsWith,
    /// By a part of the user name, and failing that of the nickname.
    Contains,
    /// By a part of the user name.
    UsernameContains,
    /// By a part of the nickname, and of the user name where the member has
    /// no nickname.
    NickContains,
}

/// The name of `member` that the search for `text` finds, if it finds the
/// member.
pub open spec fn found_name(
    member: &Member,
    search: NameSearch,
    text: Seq<char>,
    case_sensitive: bool,
) -> Option<Seq<char>> {
    let username = member.user.name@;
    match search {
        NameSearch::StartsWith => if text_starts_with(username, text, case_sensitive) {
            Some(username)
        } else {
            match member.nick {
                Some(nick) => if text_starts_with(nick@, text, case_sensitive) {
                    Some(nick@)
                } else {
                    None
                },
                None => None,
            }
        },
        NameSearch::Contains => if text_contains(username, text, case_sensitive) {
            Some(username)
        } else {
            match member.nick {
                Some(nick) => if text_contains(nick@, text, case_sensitive) {
                    Some(nick@)
                } else {
                    None
                },
                None => None,
            }
        },
        NameSearch::UsernameContains => if text_contains(username, text, case_sensitive) {
            Some(username)
        } else {
            None
        },
        NameSearch::NickContains => {
            let nick = match member.nick {
                Some(nick) => nick@,
                None => username,
            };
            if text_contains(nick, text, case_sensitive) {
                Some(nick)
            } else {
                None
            }
        },
    }
}

/// The name of `member` that the search for `text` finds, if it finds the
/// member: see [`found_name`].
pub fn find_name<'a>(member: &'a Member, search: NameSearch, text: &str, case_sensitive: bool)
    -> (r: Option<&'a str>)
    ensures
        match r {
            Some(name) => found_name(member, search, text@, case_sensitive) == Some(name@),
            None => found_name(member, search, text@, case_sensitive) is None,
        },
{
    let username = member.user.name.as_str();
    match search {
        NameSearch::StartsWith => {
            if starts_with(username, text, case_sensitive) {
                Some(username)
            } else {
                match &member.nick {
                    Some(nick) => if starts_with(nick.as_str(), text, case_sensitive) {
                        Some(nick.as_str())
                    } else {
                        None
                    },
                    None => None,
                }
            }
        },
        NameSearch::Contains => {
            if contains(username, text, case_sensitive) {
                Some(username)
            } else {
                match &member.nick {
                    Some(nick) => if contains(nick.as_str(), text, case_sensitive) {
                        Some(nick.as_str())
                    } else {
                        None
                    },
                    None => None,
                }
            }
        },
        NameSearch::UsernameContains => {
            if contains(username, text, case_sensitive) {
                Some(username)
            } else {
                None
            }
        },
        NameSearch::NickContains => {
            let nick = match &member.nick {
                Some(nick) => nick.as_str(),
                None => username,
            };
            if contains(nick, text, case_sensitive) {
                Some(nick)
            } else {
                None
            }
        },
    }
}

/// A member with the name under which it was found.
pub type Found<'a> = (&'a Member, Seq<char>);

/// What a search does with one member: the member with the name that was
/// found, or nothing.
pub open spec fn pick<'a>(search: NameSearch, text: Seq<char>, case_sensitive: bool) -> spec_fn(
    &'a Member,
) -> Option<Found<'a>> {
    |member: &'a Member|
        match found_name(member, search, text, case_sensitive) {
            Some(name) => Some((member, name)),
            None => None,
        }
}

/// The order of the found by how close each one's name is to `origin`.
pub open spec fn closer_to<'a>(origin: Seq<char>) -> spec_fn(Found<'a>, Found<'a>) -> bool {
    |a: Found<'a>, b: Found<'a>|
        is_closer(
            origin_distance(encode_utf8(origin), encode_utf8(a.1)),
            origin_distance(encode_utf8(origin), encode_utf8(b.1)),
        )
}

/// The found members with the texts of their names.
pub open spec fn named<'a>(found: Seq<(&'a Member, &'a str)>) -> Seq<Found<'a>> {
    found.map_values(|pair: (&'a Member, &'a str)| (pair.0, pair.1@))
}

/// What the search for `text` finds among `members`: those whom it finds, in
/// the order of `members`, each with the name that was found; with `sorted`
/// on, the closest name first, and names that are equally close in the order
/// of `members`.
pub open spec fn searched<'a>(
    members: Seq<&'a Member>,
    search: NameSearch,
    text: Seq<char>,
    case_sensitive: bool,
    sorted: bool,
) -> Seq<Found<'a>> {
    let picked = members.filter_map(pick(search, text, case_sensitive));
    if sorted {
        stable_sort(picked, closer_to(text))
    } else {
        picked
    }
}

/// Closeness to a text is a ranking: it orders by the distance, with the
/// names that have none behind all the others.
pub proof fn lemma_closeness_ranks<'a>(origin: Seq<char>)
    ensures
        ranks(closer_to::<'a>(origin)),
{
}

/// What a sorted search finds is what the same search finds unsorted,
/// nothing lost and nothing made up, and no name in it is closer to the text
/// than one that stands before it.
pub proof fn lemma_sorted_search<'a>(
    members: Seq<&'a Member>,
    search: NameSearch,
    text: Seq<char>,
    case_sensitive: bool,
)
    ensures
        searched(members, search, text, case_sensitive, true).to_multiset() == searched(
            members,
            search,
            text,
            case_sensitive,
            false,
        ).to_multiset(),
        sorted_by(searched(members, search, text, case_sensitive, true), closer_to(text)),
{
    let picked = members.filter_map(pick(search, text, case_sensitive));
    lemma_closeness_ranks(text);
    lemma_stable_sort_permutes(picked, closer_to(text));
    lemma_stable_sort_sorted(picked, closer_to(text));
}

/// Sorts the found members by how close each one's name is to `origin`, the
/// closest first; those that are equally close stay in their order.
pub fn sort_by_closeness<'a>(origin: &str, found: Vec<(&'a Member, &'a str)>) -> (r: Vec<
    (&'a Member, &'a str),
>)
    ensures
        named(r@) == stable_sort(named(found@), closer_to(origin@)),
{
    let ghost before = closer_to::<'a>(origin@);
    let ghost all = named(found@);
    let mut out: Vec<(&'a Member, &'a str)> = Vec::new();
    let mut k: usize = 0;
    proof {
        assert(all.take(0) =~= Seq::<Found<'a>>::empty());
        assert(named(out@) =~= Seq::<Found<'a>>::empty());
    }
    while k < found.len()
        invariant
            k <= found.len(),
            all == named(found@),
            before == closer_to::<'a>(origin@),
            out.len() == k,
            named(out@) == stable_sort(all.take(k as int), before),
        decreases found.len() - k,
    {
        let item = found[k];
        let ghost item_named: Found<'a> = (item.0, item.1@);
        let ghost sorted = named(out@);
        let mut at: usize = out.len();
        while at > 0 && closer(origin, item.1, out[at - 1].1)
            invariant
                at <= out.len(),
                sorted == named(out@),
                before == closer_to::<'a>(origin@),
                item_named == (item.0, item.1@),
                forall|j: int| at <= j < sorted.len() ==> before(item_named, #[trigger] sorted[j]),
            decreases at,
        {
            at -= 1;
        }
        proof {
            if at > 0 {
                assert(!before(item_named, sorted[at - 1]));
            }
            lemma_insert_position_is(sorted, item_named, before, at as int);
            assert(all.take(k + 1).drop_last() =~= all.take(k as int));
            assert(all.take(k + 1).last() == item_named);
        }
        out.insert(at, item);
        proof {
            assert(named(out@) =~= sorted.insert(at as int, item_named));
        }
        k += 1;
    }
    proof {
        assert(all.take(k as int) =~= all);
    }
    out
}

/// Looks for `text` among `members`: see [`searched`].
pub fn search_members<'a>(
    members: &[&'a Member],
    search: NameSearch,
    text: &str,
    case_sensitive: bool,
    sorted: bool,
) -> (r: Vec<(&'a Member, &'a str)>)
    ensures
        named(r@) == searched(members@, search, text@, case_sensitive, sorted),
{
    let ghost choice = pick::<'a>(search, text@, case_sensitive);
    let mut found: Vec<(&'a Member, &'a str)> = Vec::new();
    let mut i: usize = 0;
    proof {
        assert(members@.take(0) =~= Seq::<&'a Member>::empty());
        assert(named(found@) =~= members@.take(0).filter_map(choice));
    }
    while i < members.len()
        invariant
            i <= members.len(),
            choice == pick::<'a>(search, text@, case_sensitive),
            named(found@) == members@.take(i as int).filter_map(choice),
        decreases members.len() - i,
    {
        let member = members[i];
        let ghost before = named(found@);
        proof {
            members@.lemma_filter_map_take_succ(choice, i as int);
        }
        match find_name(member, search, text, case_sensitive) {
            Some(name) => {
                found.push((member, name));
                proof {
                    assert(named(found@) =~= before + seq![(member, name@)]);
                }
            },
            None => {
                proof {
                    assert(named(found@) =~= before + Seq::<Found<'a>>::empty());
                }
            },
        }
        i += 1;
    }
    proof {
        assert(members@.take(i as int) =~= members@);
    }
    if sorted {
        sort_by_closeness(text, found)
    } else {
        found
    }
}

/// The found members with the texts of their names, where the names are
/// strings of their own.
pub open spec fn named_owned<'a>(found: Seq<(&'a Member, String)>) -> Seq<Found<'a>> {
    found.map_values(|pair: (&'a Member, String)| (pair.0, pair.1@))
}

/// The found members with a copy of each name.
pub fn with_owned_names<'a>(found: Vec<(&'a Member, &'a str)>) -> (r: Vec<(&'a Member, String)>)
    ensures
        named_owned(r@) == named(found@),
{
    let mut out: Vec<(&'a Member, String)> = Vec::new();
    let mut i: usize = 0;
    while i < found.len()
        invariant
            i <= found.len(),
            named_owned(out@) == named(found@).take(i as int),
        decreases found.len() - i,
    {
        let pair = found[i];
        let ghost before = named_owned(out@);
        out.push((pair.0, pair.1.to_owned()));
        proof {
            assert(named_owned(out@) =~= before.push((pair.0, pair.1@)));
            assert(named(found@).take(i + 1) =~= named(found@).take(i as int).push(
                (pair.0, pair.1@),
            ));
        }
        i += 1;
    }
    proof {
        assert(named(found@).take(i as int) =~= named(found@));
    }
    out
}

/// The user name and the discriminator that a name asks for: those of the
/// tag where the name is a user tag, and else the whole name with any
/// discriminator.
pub open spec fn asked_tag(name: Seq<u8>) -> (Seq<u8>, Option<Option<u16>>) {
    match parse_user_tag_spec(name) {
        Some((username, discriminator)) => (username, Some(discriminator)),
        None => (name, None),
    }
}

/// Whether a member has the user name `username` and, where one is asked
/// for, the discriminator `discriminator`.
pub open spec fn has_tag<'a>(username: Seq<u8>, discriminator: Option<Option<u16>>) -> spec_fn(
    &'a Member,
) -> bool {
    |member: &'a Member|
        encode_utf8(member.user.name@) == username && (discriminator matches Some(asked)
            ==> member.user.discriminator == asked)
}

/// Whether a member has the nickname `name`.
pub open spec fn has_nick<'a>(name: Seq<char>) -> spec_fn(&'a Member) -> bool {
    |member: &'a Member| member.nick matches Some(nick) && nick@ == name
}

/// The member of `members` that goes by `name`: the first whose user name
/// and discriminator are those of the tag that `name` is, and where there is
/// none, the first whose nickname is `name`, `#` and what follows it
/// being part of the nickname.
pub open spec fn named_among<'a>(members: Seq<&'a Member>, name: Seq<char>) -> Option<&'a Member> {
    let (username, discriminator) = asked_tag(encode_utf8(name));
    match first_where(members, has_tag(username, discriminator)) {
        Some(member) => Some(member),
        None => first_where(members, has_nick(name)),
    }
}

/// The first of `members` with the nickname `name`, where `by_nick` is on;
/// else the first with the user name `username` and, where one is asked for,
/// the discriminator `discriminator`.
fn first_member<'a>(
    members: &[&'a Member],
    name: &str,
    username: &str,
    discriminator: Option<Option<u16>>,
    by_nick: bool,
) -> (r: Option<&'a Member>)
    ensures
        r == first_where(
            members@,
            if by_nick {
                has_nick(name@)
            } else {
                has_tag(username.spec_bytes(), discriminator)
            },
        ),
{
    let ghost wanted: spec_fn(&'a Member) -> bool = if by_nick {
        has_nick(name@)
    } else {
        has_tag(username.spec_bytes(), discriminator)
    };
    let mut i: usize = 0;
    while i < members.len()
        invariant
            i <= members.len(),
            wanted == (if by_nick {
                has_nick::<'a>(name@)
            } else {
                has_tag::<'a>(username.spec_bytes(), discriminator)
            }),
            forall|j: int| 0 <= j < i ==> !wanted(#[trigger] members@[j]),
        decreases members.len() - i,
    {
        let member = members[i];
        let is_wanted = if by_nick {
            match &member.nick {
                Some(nick) => same_text(nick.as_str(), name),
                None => false,
            }
        } else {
            same_text(member.user.name.as_str(), username) && match discriminator {
                Some(asked) => member.user.discriminator == asked,
                None => true,
            }
        };
        if is_wanted {
            proof {
                assert(is_first_where(members@, wanted, i as int));
                lemma_first_where(members@, wanted, i as int);
            }
            return Some(member);
        }
        i += 1;
    }
    proof {
        lemma_first_where_is_wanted(members@, wanted);
    }
    None
}

/// The member of `members` that goes by `name`: see [`named_among`].
pub fn member_named_among<'a>(members: &[&'a Member], name: &str) -> (r: Option<&'a Member>)
    ensures
        r == named_among(members@, name@),
{
    let (username, discriminator) = match parse_user_tag(name) {
        Some((username, discriminator)) => (username, Some(discriminator)),
        None => (name, None),
    };
    match first_member(members, name, username, discriminator, false) {
        Some(member) => Some(member),
        None => first_member(members, name, username, discriminator, true),
    }
}

/// Whether a role has the name `name`.
pub open spec fn has_name<'a>(name: Seq<char>) -> spec_fn(&'a Role) -> bool {
    |role: &'a Role| role.name@ == name
}

/// The first of `roles` with the name `name`.
pub fn role_named_among<'a>(roles: &[&'a Role], name: &str) -> (r: Option<&'a Role>)
    ensures
        r == first_where(roles@, has_name(name@)),
{
    let ghost wanted = has_name::<'a>(name@);
    let mut i: usize = 0;
    while i < roles.len()
        invariant
            i <= roles.len(),
            wanted == has_name::<'a>(name@),
            forall|j: int| 0 <= j < i ==> !wanted(#[trigger] roles@[j]),
        decreases roles.len() - i,
    {
        let role = roles[i];
        if same_text(name, role.name.as_str()) {
            proof {
                assert(is_first_where(roles@, wanted, i as int));
                lemma_first_where(roles@, wanted, i as int);
            }
            return Some(role);
        }
        i += 1;
    }
    proof {
        lemma_first_where_is_wanted(roles@, wanted);
    }
    None
}

/// Whether the user of a member is known to have the status `status`.
pub open spec fn has_status<'a>(presences: Map<u64, Presence>, status: OnlineStatus) -> spec_fn(
    &'a Member,
) -> bool {
    |member: &'a Member|
        presences.dom().contains(member.user.id.0) && presences[member.user.id.0].status
            == status
}

/// Those of `members` whose users are known to have the status `status`, in
/// the order of `members`.
pub fn with_status_among<'a>(
    members: &[&'a Member],
    presences: &ExtractMap<u64, Presence>,
    status: OnlineStatus,
) -> (r: Vec<&'a Member>)
    ensures
        r@ == members@.filter(has_status(presence_entries(*presences), status)),
{
    let ghost wanted = has_status::<'a>(presence_entries(*presences), status);
    let mut out: Vec<&'a Member> = Vec::new();
    let mut i: usize = 0;
    proof {
        assert(members@.take(0) =~= Seq::<&'a Member>::empty());
        reveal(Seq::filter);
    }
    while i < members.len()
        invariant
            i <= members.len(),
            wanted == has_status::<'a>(presence_entries(*presences), status),
            out@ == members@.take(i as int).filter(wanted),
        decreases members.len() - i,
    {
        let member = members[i];
        proof {
            reveal(Seq::filter);
            assert(members@.take(i + 1).drop_last() =~= members@.take(i as int));
        }
        let is_there = match get_presence(presences, member.user.id.get()) {
            Some(presence) => presence.status == status,
            None => false,
        };
        if is_there {
            out.push(member);
        }
        i += 1;
    }
    proof {
        assert(members@.take(i as int) =~= members@);
    }
    out
}

impl Guild {
    /// Whether `member` can read in a channel: the channel is no category,
    /// and the member may view it.
    pub open spec fn readable_by<'a>(&self, member: &Member) -> spec_fn(&'a GuildChannel) -> bool {
        |channel: &'a GuildChannel|
            channel.kind != ChannelType::Category && self.permissions_of(
                member,
                Some(channel),
            ).has(Permissions::VIEW_CHANNEL)
    }

    /// Whether every member of the guild can read in a channel.
    pub open spec fn readable_by_all<'a>(&self) -> spec_fn(&'a GuildChannel) -> bool {
        |channel: &'a GuildChannel|
            channel.kind != ChannelType::Category && forall|id: u64|
                self.member_map().dom().contains(id) ==> self.permissions_of(
                    &#[trigger] self.member_map()[id],
                    Some(channel),
                ).has(Permissions::VIEW_CHANNEL)
    }

    /// The first of `channels` in which `member` can read.
    pub fn first_readable<'a>(&self, channels: &[&'a GuildChannel], member: &Member) -> (r: Option<
        &'a GuildChannel,
    >)
        ensures
            r == first_where(channels@, self.readable_by(member)),
    {
        let ghost wanted: spec_fn(&'a GuildChannel) -> bool = self.readable_by(member);
        let mut i: usize = 0;
        while i < channels.len()
            invariant
                i <= channels.len(),
                wanted == self.readable_by(member),
                forall|j: int| 0 <= j < i ==> !wanted(#[trigger] channels@[j]),
            decreases channels.len() - i,
        {
            let channel = channels[i];
            if channel.kind != ChannelType::Category && self.user_permissions_in(
                channel,
                member,
            ).view_channel() {
                proof {
                    assert(is_first_where(channels@, wanted, i as int));
                    lemma_first_where(channels@, wanted, i as int);
                }
                return Some(channel);
            }
            i += 1;
        }
        proof {
            lemma_first_where_is_wanted(channels@, wanted);
        }
        None
    }

    /// Whether each of `members` can read in a channel.
    pub open spec fn readable_by_each<'a>(&self, members: Seq<&Member>) -> spec_fn(
        &'a GuildChannel,
    ) -> bool {
        |channel: &'a GuildChannel|
            channel.kind != ChannelType::Category && forall|i: int|
                0 <= i < members.len() ==> self.permissions_of(
                    #[trigger] members[i],
                    Some(channel),
                ).has(Permissions::VIEW_CHANNEL)
    }

    /// Whether each of `members` may view `channel`.
    pub fn all_may_view(&self, channel: &GuildChannel, members: &[&Member]) -> (r: bool)
        ensures
            r == forall|i: int|
                0 <= i < members@.len() ==> self.permissions_of(
                    #[trigger] members@[i],
                    Some(channel),
                ).has(Permissions::VIEW_CHANNEL),
    {
        let mut i: usize = 0;
        while i < members.len()
            invariant
                i <= members.len(),
                forall|j: int|
                    0 <= j < i ==> self.permissions_of(#[trigger] members@[j], Some(channel)).has(
                        Permissions::VIEW_CHANNEL,
                    ),
            decreases members.len() - i,
        {
            if !self.user_permissions_in(channel, members[i]).view_channel() {
                return false;
            }
            i += 1;
        }
        true
    }

    /// The first of `channels` in which each of `members` can read.
    pub fn first_readable_by_each<'a>(&self, channels: &[&'a GuildChannel], members: &[&Member])
        -> (r: Option<&'a GuildChannel>)
        ensures
            r == first_where(channels@, self.readable_by_each(members@)),
    {
        let ghost wanted: spec_fn(&'a GuildChannel) -> bool = self.readable_by_each(members@);
        let mut i: usize = 0;
        while i < channels.len()
            invariant
                i <= channels.len(),
                wanted == self.readable_by_each(members@),
                forall|j: int| 0 <= j < i ==> !wanted(#[trigger] channels@[j]),
            decreases channels.len() - i,
        {
            let channel = channels[i];
            if channel.kind != ChannelType::Category && self.all_may_view(channel, members) {
                proof {
                    assert(is_first_where(channels@, wanted, i as int));
                    lemma_first_where(channels@, wanted, i as int);
                }
                return Some(channel);
            }
            i += 1;
        }
        proof {
            lemma_first_where_is_wanted(channels@, wanted);
        }
        None
    }

    /// A channel in which each member can read that the guild's map hands
    /// out is one in which every member of the guild can read.
    pub proof fn lemma_each_is_all<'a>(&self, members: Seq<&Member>, channel: &'a GuildChannel)
        requires
            walks_members(members, self.member_map()),
        ensures
            self.readable_by_each(members)(channel) == self.readable_by_all()(channel),
    {
        lemma_walk_of_members(members, self.member_map());
        if self.readable_by_each(members)(channel) {
            assert forall|id: u64| self.member_map().dom().contains(id) implies self.permissions_of(
                &#[trigger] self.member_map()[id],
                Some(channel),
            ).has(Permissions::VIEW_CHANNEL) by {
                let j = choose|j: int|
                    0 <= j < members.len() && *#[trigger] members[j] == self.member_map()[id];
                assert(self.permissions_of(members[j], Some(channel)).has(
                    Permissions::VIEW_CHANNEL,
                ));
            }
        }
        if self.readable_by_all()(channel) {
            assert forall|i: int| 0 <= i < members.len() implies self.permissions_of(
                #[trigger] members[i],
                Some(channel),
            ).has(Permissions::VIEW_CHANNEL) by {
                let id = members[i].user.id.0;
                assert(self.member_map().dom().contains(id));
                assert(self.member_map()[id] == *members[i]);
            }
        }
    }

    /// The channel that the user `uid` lands in: the first channel, as the
    /// guild's map hands its channels out, that is no category and that the
    /// user may view. `None` where the user is no member of the guild, or
    /// can read in none of its channels.
    pub fn default_channel<'a>(&'a self, uid: UserId) -> (r: Option<&'a GuildChannel>)
        ensures
            match self.member_map().dom().contains(uid.0) {
                true => exists|walk: Seq<&'a GuildChannel>|
                    #![trigger walks_channels(walk, self.channel_map())]
                    walks_channels(walk, self.channel_map()) && r == first_where(
                        walk,
                        self.readable_by(&self.member_map()[uid.0]),
                    ),
                false => r is None,
            },
    {
        let member = match get_member(&self.members, uid.get()) {
            Some(member) => member,
            None => {
                return None;
            },
        };
        let channels = channel_values(&self.channels);
        let r = self.first_readable(channels.as_slice(), member);
        assert(walks_channels(channels@, self.channel_map()) && r == first_where(
            channels@,
            self.readable_by(&self.member_map()[uid.0]),
        ));
        r
    }

    /// The channel that everyone lands in: the first channel, as the guild's
    /// map hands its channels out, that is no category and that every member
    /// of the guild may view. `None` where there is no such channel.
    pub fn default_channel_guaranteed<'a>(&'a self) -> (r: Option<&'a GuildChannel>)
        ensures
            exists|walk: Seq<&'a GuildChannel>|
                #![trigger walks_channels(walk, self.channel_map())]
                walks_channels(walk, self.channel_map()) && r == first_where(
                    walk,
                    self.readable_by_all(),
                ),
    {
        let channels = channel_values(&self.channels);
        let members = member_values(&self.members);
        let r = self.first_readable_by_each(channels.as_slice(), members.as_slice());
        proof {
            assert forall|i: int| 0 <= i < channels@.len() implies self.readable_by_each(
                members@,
            )(#[trigger] channels@[i]) == self.readable_by_all()(channels@[i]) by {
                self.lemma_each_is_all(members@, channels@[i]);
            }
            lemma_first_where_same(
                channels@,
                self.readable_by_each(members@),
                self.readable_by_all(),
            );
            assert(walks_channels(channels@, self.channel_map()) && r == first_where(
                channels@,
                self.readable_by_all(),
            ));
        }
        r
    }

    /// The members whose users are known to have the status `status`, in the
    /// order in which the guild's map hands its members out.
    pub fn members_with_status<'a>(&'a self, status: OnlineStatus) -> (r: Vec<&'a Member>)
        ensures
            exists|walk: Seq<&'a Member>|
                #![trigger walks_members(walk, self.member_map())]
                walks_members(walk, self.member_map()) && r@ == walk.filter(
                    has_status(self.presence_map(), status),
                ),
    {
        let members = member_values(&self.members);
        let r = with_status_among(members.as_slice(), &self.presences, status);
        assert(walks_members(members@, self.member_map()) && r@ == members@.filter(
            has_status(self.presence_map(), status),
        ));
        r
    }

    /// The member that goes by `name`: a user name, a user name with `#` and
    /// a discriminator, or a nickname. Who has the user name (and the
    /// discriminator) goes before who has the nickname; among several the
    /// first as the guild's map hands its members out. See [`named_among`].
    pub fn member_named<'a>(&'a self, name: &str) -> (r: Option<&'a Member>)
        ensures
            exists|walk: Seq<&'a Member>|
                #![trigger walks_members(walk, self.member_map())]
                walks_members(walk, self.member_map()) && r == named_among(walk, name@),
    {
        let members = member_values(&self.members);
        let r = member_named_among(members.as_slice(), name);
        assert(walks_members(members@, self.member_map()) && r == named_among(members@, name@));
        r
    }

    /// The members whose user name, or failing that whose nickname, begins
    /// with `prefix`, each with the name that does; with `sorted` on, the
    /// name closest to `prefix` first. See [`searched`].
    pub fn members_starting_with<'a>(&'a self, prefix: &str, case_sensitive: bool, sorted: bool)
        -> (r: Vec<(&'a Member, &'a str)>)
        ensures
            exists|walk: Seq<&'a Member>|
                #![trigger walks_members(walk, self.member_map())]
                walks_members(walk, self.member_map()) && named(r@) == searched(
                    walk,
                    NameSearch::StartsWith,
                    prefix@,
                    case_sensitive,
                    sorted,
                ),
    {
        let members = member_values(&self.members);
        let r = search_members(
            members.as_slice(),
            NameSearch::StartsWith,
            prefix,
            case_sensitive,
            sorted,
        );
        assert(walks_members(members@, self.member_map()) && named(r@) == searched(
            members@,
            NameSearch::StartsWith,
            prefix@,
            case_sensitive,
            sorted,
        ));
        r
    }

    /// The members whose user name, or failing that whose nickname, has
    /// `substring` in it, each with the name that has; with `sorted` on, the
    /// name closest to `substring` first. See [`searched`].
    pub fn members_containing<'a>(&'a self, substring: &str, case_sensitive: bool, sorted: bool)
        -> (r: Vec<(&'a Member, String)>)
        ensures
            exists|walk: Seq<&'a Member>|
                #![trigger walks_members(walk, self.member_map())]
                walks_members(walk, self.member_map()) && named_owned(r@) == searched(
                    walk,
                    NameSearch::Contains,
                    substring@,
                    case_sensitive,
                    sorted,
                ),
    {
        let members = member_values(&self.members);
        let r = with_owned_names(
            search_members(
                members.as_slice(),
                NameSearch::Contains,
                substring,
                case_sensitive,
                sorted,
            ),
        );
        assert(walks_members(members@, self.member_map()) && named_owned(r@) == searched(
            members@,
            NameSearch::Contains,
            substring@,
            case_sensitive,
            sorted,
        ));
        r
    }

    /// The members whose user name has `substring` in it, each with that
    /// name; with `sorted` on, the name closest to `substring` first. See
    /// [`searched`].
    pub fn members_username_containing<'a>(
        &'a self,
        substring: &str,
        case_sensitive: bool,
        sorted: bool,
    ) -> (r: Vec<(&'a Member, String)>)
        ensures
            exists|walk: Seq<&'a Member>|
                #![trigger walks_members(walk, self.member_map())]
                walks_members(walk, self.member_map()) && named_owned(r@) == searched(
                    walk,
                    NameSearch::UsernameContains,
                    substring@,
                    case_sensitive,
                    sorted,
                ),
    {
        let members = member_values(&self.members);
        let r = with_owned_names(
            search_members(
                members.as_slice(),
                NameSearch::UsernameContains,
                substring,
                case_sensitive,
                sorted,
            ),
        );
        assert(walks_members(members@, self.member_map()) && named_owned(r@) == searched(
            members@,
            NameSearch::UsernameContains,
            substring@,
            case_sensitive,
            sorted,
        ));
        r
    }

    /// The members whose nickname has `substring` in it, each with that
    /// nickname; a member without a nickname counts by its user name. With
    /// `sorted` on, the name closest to `substring` first. See [`searched`].
    pub fn members_nick_containing<'a>(
        &'a self,
        substring: &str,
        case_sensitive: bool,
        sorted: bool,
    ) -> (r: Vec<(&'a Member, String)>)
        ensures
            exists|walk: Seq<&'a Member>|
                #![trigger walks_members(walk, self.member_map())]
                walks_members(walk, self.member_map()) && named_owned(r@) == searched(
                    walk,
                    NameSearch::NickContains,
                    substring@,
                    case_sensitive,
                    sorted,
                ),
    {
        let members = member_values(&self.members);
        let r = with_owned_names(
            search_members(
                members.as_slice(),
                NameSearch::NickContains,
                substring,
                case_sensitive,
                sorted,
            ),
        );
        assert(walks_members(members@, self.member_map()) && named_owned(r@) == searched(
            members@,
            NameSearch::NickContains,
            substring@,
            case_sensitive,
            sorted,
        ));
        r
    }

    /// A role with the name `role_name`: where several roles have it, the
    /// first as the guild's map hands its roles out.
    pub fn role_by_name<'a>(&'a self, role_name: &str) -> (r: Option<&'a Role>)
        ensures
            exists|walk: Seq<&'a Role>|
                #![trigger walks_roles(walk, self.role_map())]
                walks_roles(walk, self.role_map()) && r == first_where(walk, has_name(role_name@)),
    {
        let roles = role_values(&self.roles);
        let r = role_named_among(roles.as_slice(), role_name);
        assert(walks_roles(roles@, self.role_map()) && r == first_where(
            roles@,
            has_name(role_name@),
        ));
        r
    }
}

} // verus!
