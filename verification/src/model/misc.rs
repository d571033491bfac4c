//! Values that several models share.

use crate::model::utils::hex_text;
use crate::model::utils::push_hex;
use vstd::prelude::*;
use vstd::string::StringExecFns;

verus! {

/// The hash under which an image is kept: sixteen bytes, and whether the
/// image moves.
#[derive(Clone, Copy, Debug, PartialEq, Eq, Hash)]
pub struct ImageHash {
    /// The sixteen bytes of the hash.
    pub hash: [u8; 16],
    /// Whether the image is animated.
    pub is_animated: bool,
}

impl ImageHash {
    /// The hash as text: the bytes in hexadecimal, after `a_` where the image
    /// is animated.
    pub open spec fn text(self) -> Seq<char> {
        if self.is_animated {
            "a_"@ + hex_text(self.hash@)
        } else {
            hex_text(self.hash@)
        }
    }

    /// Whether the image is animated.
    pub fn is_animated(&self) -> (r: bool)
        ensures
            r == self.is_animated,
    {
        self.is_animated
    }

    /// Adds the hash as text to the end of `text`.
    pub fn push_text(&self, text: &mut String)
        ensures
            final(text)@ == old(text)@ + self.text(),
    {
        if self.is_animated {
            text.append("a_");
        }
        push_hex(text, self.hash.as_slice());
        assert(text@ =~= old(text)@ + self.text());
    }

    /// The hash as text.
    pub fn to_text(&self) -> (r: String)
        ensures
            r@ == self.text(),
    {
        let mut text = String::new();
        self.push_text(&mut text);
        assert(text@ =~= self.text());
        text
    }
}

} // verus!
