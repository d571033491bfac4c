//! Immutable strings with a small footprint: the `FixedString` of
//! `small_fixed_array`, as far as the models use it.

use vstd::prelude::*;
use vstd::utf8::encode_utf8;

verus! {

/// An immutable string of at most `u32::MAX` bytes. It holds a
/// `small_fixed_array::FixedString`, which Verus does not look into: what is
/// known of a value is its text, `self@`.
#[verifier::external_body]
#[derive(Debug)]
pub struct FixedString {
    inner: small_fixed_array::FixedString,
}

/// The text that a `FixedString` holds.
pub uninterp spec fn fixed_string_text(s: FixedString) -> Seq<char>;

/// The longest prefix of `text` whose UTF-8 form has at most `max` bytes.
pub open spec fn truncated_text(text: Seq<char>, max: nat) -> Seq<char>
    decreases text.len(),
{
    if encode_utf8(text).len() <= max || text.len() == 0 {
        text
    } else {
        truncated_text(text.drop_last(), max)
    }
}

/// `small_fixed_array::FixedString::from_static_trunc`: the string with the
/// text of `val`, cut at the last character boundary within `u32::MAX` bytes
/// where `val` is longer than that. Believed, not proved.
#[verifier::external_body]
fn fixed_from_static(val: &'static str) -> (r: FixedString)
    ensures
        fixed_string_text(r) == truncated_text(val@, u32::MAX as nat),
{
    FixedString { inner: small_fixed_array::FixedString::from_static_trunc(val) }
}

/// `small_fixed_array::FixedString::from_str_trunc`: the string with the text
/// of `val`, cut at the last character boundary within `u32::MAX` bytes where
/// `val` is longer than that. Believed, not proved.
#[verifier::external_body]
fn fixed_from_str(val: &str) -> (r: FixedString)
    ensures
        fixed_string_text(r) == truncated_text(val@, u32::MAX as nat),
{
    FixedString { inner: small_fixed_array::FixedString::from_str_trunc(val) }
}

/// `small_fixed_array::FixedString::as_str`: the string slice with the text
/// of `s`. Believed, not proved.
#[verifier::external_body]
fn fixed_as_str<'a>(s: &'a FixedString) -> (r: &'a str)
    ensures
        r@ == fixed_string_text(*s),
{
    s.inner.as_str()
}

/// `Clone::clone` of `small_fixed_array::FixedString`: the copy holds the text
/// of `s`. Believed, not proved: the clone copies each of the three
/// representations as it stands.
#[verifier::external_body]
fn fixed_clone(s: &FixedString) -> (r: FixedString)
    ensures
        fixed_string_text(r) == fixed_string_text(*s),
{
    FixedString { inner: s.inner.clone() }
}

impl View for FixedString {
    type V = Seq<char>;

    open spec fn view(&self) -> Seq<char> {
        fixed_string_text(*self)
    }
}

impl FixedString {
    /// The empty string.
    pub fn new() -> (r: Self)
        ensures
            r@ == Seq::<char>::empty(),
    {
        let r = fixed_from_static("");
        proof {
            reveal_strlit("");
            assert(""@.len() == 0);
            assert(""@ =~= Seq::<char>::empty());
        }
        r
    }

    /// The string with the text of `val`, which is neither copied nor
    /// allocated for. A text of more than `u32::MAX` bytes is cut at the last
    /// character boundary within them.
    pub fn from_static_trunc(val: &'static str) -> (r: Self)
        ensures
            r@ == truncated_text(val@, u32::MAX as nat),
            encode_utf8(val@).len() <= u32::MAX ==> r@ == val@,
    {
        fixed_from_static(val)
    }

    /// The string with a copy of the text of `val`. A text of more than
    /// `u32::MAX` bytes is cut at the last character boundary within them.
    pub fn from_str_trunc(val: &str) -> (r: Self)
        ensures
            r@ == truncated_text(val@, u32::MAX as nat),
            encode_utf8(val@).len() <= u32::MAX ==> r@ == val@,
    {
        fixed_from_str(val)
    }

    /// The text as a string slice.
    pub fn as_str(&self) -> (r: &str)
        ensures
            r@ == self@,
    {
        fixed_as_str(self)
    }
}

impl Clone for FixedString {
    fn clone(&self) -> (r: Self)
        ensures
            r@ == self@,
    {
        fixed_clone(self)
    }
}

impl Default for FixedString {
    fn default() -> (r: Self)
        ensures
            r@ == Seq::<char>::empty(),
    {
        FixedString::new()
    }
}

} // verus!
