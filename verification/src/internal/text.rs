//! Searching in text. A text is searched as the bytes of its UTF-8 form, in
//! which a text occurs in another exactly where its characters do.

use vstd::prelude::*;
use vstd::string::StringSliceAdditionalSpecFns;
use vstd::utf8::encode_utf8;

verus! {

/// Whether `needle` stands in `haystack` from the index `at` on.
pub open spec fn occurs_at(haystack: Seq<u8>, needle: Seq<u8>, at: int) -> bool {
    &&& 0 <= at
    &&& at + needle.len() <= haystack.len()
    &&& haystack.subrange(at, at + needle.len()) == needle
}

/// Whether `needle` stands somewhere in `haystack`.
pub open spec fn occurs(haystack: Seq<u8>, needle: Seq<u8>) -> bool {
    exists|at: int| occurs_at(haystack, needle, at)
}

/// Whether `at` is the first index from which `needle` stands in `haystack`.
pub open spec fn first_occurs_at(haystack: Seq<u8>, needle: Seq<u8>, at: int) -> bool {
    &&& occurs_at(haystack, needle, at)
    &&& forall|before: int| 0 <= before < at ==> !occurs_at(haystack, needle, before)
}

/// The first index from which `needle` stands in `haystack`, if it stands
/// anywhere in it.
pub open spec fn first_occurrence(haystack: Seq<u8>, needle: Seq<u8>) -> Option<int> {
    if occurs(haystack, needle) {
        Some(choose|at: int| first_occurs_at(haystack, needle, at))
    } else {
        None
    }
}

/// The first occurrence is one index and no other.
pub proof fn lemma_first_occurrence(haystack: Seq<u8>, needle: Seq<u8>, at: int)
    requires
        first_occurs_at(haystack, needle, at),
    ensures
        first_occurrence(haystack, needle) == Some(at),
{
    let chosen = choose|at: int| first_occurs_at(haystack, needle, at);
    assert(first_occurs_at(haystack, needle, chosen));
    if chosen < at {
        assert(!occurs_at(haystack, needle, chosen));
    }
    if at < chosen {
        assert(!occurs_at(haystack, needle, at));
    }
}

/// The text of `text` in lower case, as the standard library makes it.
pub uninterp spec fn lowercase(text: Seq<char>) -> Seq<char>;

/// `str::to_lowercase`: the text in lower case. Believed, not proved. What
/// the lower case of a text is takes the tables of Unicode to say: it has a
/// name here, `lowercase`, and no more is known of it than that it depends
/// on the text alone.
#[verifier::external_body]
pub(crate) fn to_lowercase(text: &str) -> (r: String)
    ensures
        r@ == lowercase(text@),
{
    text.to_lowercase()
}

/// Whether `needle` stands in `haystack` from the index `at` on.
pub fn bytes_match_at(haystack: &[u8], needle: &[u8], at: usize) -> (r: bool)
    requires
        at + needle.len() <= haystack.len(),
    ensures
        r == occurs_at(haystack@, needle@, at as int),
{
    let mut k: usize = 0;
    while k < needle.len()
        invariant
            k <= needle.len(),
            at + needle.len() <= haystack.len(),
            forall|j: int| 0 <= j < k ==> haystack@[at + j] == needle@[j],
        decreases needle.len() - k,
    {
        if haystack[at + k] != needle[k] {
            assert(haystack@.subrange(at as int, at + needle.len())[k as int] != needle@[k as int]);
            return false;
        }
        k += 1;
    }
    assert(haystack@.subrange(at as int, at + needle.len()) =~= needle@);
    true
}

/// The first index from which `needle` stands in `haystack`, or `None` where
/// it stands nowhere in it. An empty `needle` stands at 0.
pub fn find_bytes(haystack: &[u8], needle: &[u8]) -> (r: Option<usize>)
    ensures
        match r {
            Some(at) => first_occurrence(haystack@, needle@) == Some(at as int),
            None => first_occurrence(haystack@, needle@) is None,
        },
        r matches Some(at) ==> first_occurs_at(haystack@, needle@, at as int),
{
    if needle.len() > haystack.len() {
        return None;
    }
    let last = haystack.len() - needle.len();
    let mut at: usize = 0;
    while at <= last
        invariant
            last == haystack.len() - needle.len(),
            needle.len() <= haystack.len(),
            at <= last + 1,
            forall|before: int| 0 <= before < at ==> !occurs_at(haystack@, needle@, before),
        decreases last + 1 - at,
    {
        if bytes_match_at(haystack, needle, at) {
            proof {
                lemma_first_occurrence(haystack@, needle@, at as int);
            }
            return Some(at);
        }
        if at == last {
            return None;
        }
        at += 1;
    }
    None
}

/// Whether `text` begins with `prefix`.
pub fn starts_with(text: &str, prefix: &str) -> (r: bool)
    ensures
        r == occurs_at(text.spec_bytes(), prefix.spec_bytes(), 0),
{
    let text = text.as_bytes();
    let prefix = prefix.as_bytes();
    if prefix.len() > text.len() {
        return false;
    }
    bytes_match_at(text, prefix, 0)
}

/// The byte at which `needle` first stands in `haystack`, if it stands in it.
pub fn find(haystack: &str, needle: &str) -> (r: Option<usize>)
    ensures
        match r {
            Some(at) => first_occurrence(haystack.spec_bytes(), needle.spec_bytes()) == Some(
                at as int,
            ),
            None => first_occurrence(haystack.spec_bytes(), needle.spec_bytes()) is None,
        },
        r matches Some(at) ==> first_occurs_at(
            haystack.spec_bytes(),
            needle.spec_bytes(),
            at as int,
        ),
{
    find_bytes(haystack.as_bytes(), needle.as_bytes())
}

/// Whether `needle` stands somewhere in `haystack`.
pub fn contains_text(haystack: &str, needle: &str) -> (r: bool)
    ensures
        r == occurs(haystack.spec_bytes(), needle.spec_bytes()),
{
    find(haystack, needle).is_some()
}

/// Whether the two texts are the same.
pub fn same_text(first: &str, second: &str) -> (r: bool)
    ensures
        r == (first@ == second@),
        r == (first.spec_bytes() == second.spec_bytes()),
{
    let a = first.as_bytes();
    let b = second.as_bytes();
    proof {
        vstd::utf8::encode_utf8_decode_utf8(first@);
        vstd::utf8::encode_utf8_decode_utf8(second@);
    }
    if a.len() != b.len() {
        return false;
    }
    let r = bytes_match_at(a, b, 0);
    proof {
        assert(a@.subrange(0, a@.len() as int) =~= a@);
    }
    r
}

} // verus!
