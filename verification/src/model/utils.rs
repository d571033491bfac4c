//! Text that the models give out: numbers in decimal, hashes in hexadecimal,
//! and the addresses of images.

use crate::internal::text::find_bytes;
use crate::internal::text::first_occurrence;
use crate::internal::text::occurs_at;
use crate::model::id::GuildId;
use crate::model::misc::ImageHash;
use vstd::prelude::*;
use vstd::slice::slice_subrange;
use vstd::string::StringExecFns;
use vstd::string::StringSliceAdditionalSpecFns;

verus! {

/// The digit for `d` in hexadecimal, in lower case; for `d` under 10 it is
/// the decimal digit too.
pub open spec fn hex_digit(d: int) -> char {
    seq!['0', '1', '2', '3', '4', '5', '6', '7', '8', '9', 'a', 'b', 'c', 'd', 'e', 'f'][d]
}

/// The number `n` in decimal, without leading zeros.
pub open spec fn decimal_text(n: nat) -> Seq<char>
    decreases n,
{
    if n < 10 {
        seq![hex_digit(n as int)]
    } else {
        decimal_text(n / 10) + seq![hex_digit((n % 10) as int)]
    }
}

/// The bytes of `bytes` in hexadecimal, two digits for each.
pub open spec fn hex_text(bytes: Seq<u8>) -> Seq<char>
    decreases bytes.len(),
{
    if bytes.len() == 0 {
        Seq::empty()
    } else {
        hex_text(bytes.drop_last()) + seq![
            hex_digit(bytes.last() as int / 16),
            hex_digit(bytes.last() as int % 16),
        ]
    }
}

/// The text of one digit.
fn digit_text(d: u8) -> (r: &'static str)
    requires
        d < 16,
    ensures
        r@ == seq![hex_digit(d as int)],
{
    proof {
        reveal_strlit("0");
        reveal_strlit("1");
        reveal_strlit("2");
        reveal_strlit("3");
        reveal_strlit("4");
        reveal_strlit("5");
        reveal_strlit("6");
        reveal_strlit("7");
        reveal_strlit("8");
        reveal_strlit("9");
        reveal_strlit("a");
        reveal_strlit("b");
        reveal_strlit("c");
        reveal_strlit("d");
        reveal_strlit("e");
        reveal_strlit("f");
    }
    let r = if d == 0 {
        "0"
    } else if d == 1 {
        "1"
    } else if d == 2 {
        "2"
    } else if d == 3 {
        "3"
    } else if d == 4 {
        "4"
    } else if d == 5 {
        "5"
    } else if d == 6 {
        "6"
    } else if d == 7 {
        "7"
    } else if d == 8 {
        "8"
    } else if d == 9 {
        "9"
    } else if d == 10 {
        "a"
    } else if d == 11 {
        "b"
    } else if d == 12 {
        "c"
    } else if d == 13 {
        "d"
    } else if d == 14 {
        "e"
    } else {
        "f"
    };
    assert(r@ =~= seq![hex_digit(d as int)]);
    r
}

/// Adds the number `n` in decimal to the end of `text`.
pub fn push_decimal(text: &mut String, n: u64)
    ensures
        final(text)@ == old(text)@ + decimal_text(n as nat),
    decreases n,
{
    if n >= 10 {
        push_decimal(text, n / 10);
    }
    text.append(digit_text((n % 10) as u8));
    assert(old(text)@ + decimal_text(n as nat) =~= text@);
}

/// Adds the bytes of `bytes` in hexadecimal to the end of `text`.
pub fn push_hex(text: &mut String, bytes: &[u8])
    ensures
        final(text)@ == old(text)@ + hex_text(bytes@),
{
    let mut i: usize = 0;
    assert(bytes@.take(0) =~= Seq::<u8>::empty());
    assert(old(text)@ + hex_text(bytes@.take(0)) =~= text@);
    while i < bytes.len()
        invariant
            i <= bytes.len(),
            text@ == old(text)@ + hex_text(bytes@.take(i as int)),
        decreases bytes.len() - i,
    {
        let byte = bytes[i];
        let ghost before = text@;
        text.append(digit_text(byte / 16));
        text.append(digit_text(byte % 16));
        proof {
            assert(bytes@.take(i + 1).drop_last() =~= bytes@.take(i as int));
            assert(text@ =~= before + seq![
                hex_digit(byte as int / 16),
                hex_digit(byte as int % 16),
            ]);
            assert(text@ =~= old(text)@ + hex_text(bytes@.take(i + 1)));
        }
        i += 1;
    }
    assert(bytes@.take(i as int) =~= bytes@);
}

/// The address of the icon `icon` of the guild `id`: a GIF image where the
/// icon moves, and else a WEBP image.
pub open spec fn icon_url_text(id: GuildId, icon: ImageHash) -> Seq<char> {
    "https://cdn.discordapp.com/icons/"@ + decimal_text(id.0 as nat) + "/"@ + icon.text() + (
    if icon.is_animated {
        ".gif"@
    } else {
        ".webp"@
    })
}

/// The address of the splash image `splash` of the guild `id`.
pub open spec fn splash_url_text(id: GuildId, splash: ImageHash) -> Seq<char> {
    "https://cdn.discordapp.com/splashes/"@ + decimal_text(id.0 as nat) + "/"@ + splash.text()
        + ".webp?size=4096"@
}

/// The address of the banner `banner` of the guild `id`.
pub open spec fn banner_url_text(id: GuildId, banner: Seq<char>) -> Seq<char> {
    "https://cdn.discordapp.com/banners/"@ + decimal_text(id.0 as nat) + "/"@ + banner
        + ".webp?size=1024"@
}

/// The address of a guild's icon, if the guild has one.
pub fn icon_url(id: GuildId, icon: Option<&ImageHash>) -> (r: Option<String>)
    ensures
        match icon {
            Some(icon) => r matches Some(url) && url@ == icon_url_text(id, *icon),
            None => r is None,
        },
{
    match icon {
        Some(icon) => {
            let mut url = String::new();
            url.append("https://cdn.discordapp.com/icons/");
            push_decimal(&mut url, id.get());
            url.append("/");
            icon.push_text(&mut url);
            if icon.is_animated() {
                url.append(".gif");
            } else {
                url.append(".webp");
            }
            assert(url@ =~= icon_url_text(id, *icon));
            Some(url)
        },
        None => None,
    }
}

/// The address of a guild's splash image, if the guild has one.
pub fn splash_url(id: GuildId, splash: Option<&ImageHash>) -> (r: Option<String>)
    ensures
        match splash {
            Some(splash) => r matches Some(url) && url@ == splash_url_text(id, *splash),
            None => r is None,
        },
{
    match splash {
        Some(splash) => {
            let mut url = String::new();
            url.append("https://cdn.discordapp.com/splashes/");
            push_decimal(&mut url, id.get());
            url.append("/");
            splash.push_text(&mut url);
            url.append(".webp?size=4096");
            assert(url@ =~= splash_url_text(id, *splash));
            Some(url)
        },
        None => None,
    }
}

/// The address of a guild's banner, if the guild has one.
pub fn banner_url(id: GuildId, banner: Option<&str>) -> (r: Option<String>)
    ensures
        match banner {
            Some(banner) => r matches Some(url) && url@ == banner_url_text(id, banner@),
            None => r is None,
        },
{
    match banner {
        Some(banner) => {
            let mut url = String::new();
            url.append("https://cdn.discordapp.com/banners/");
            push_decimal(&mut url, id.get());
            url.append("/");
            url.append(banner);
            url.append(".webp?size=1024");
            assert(url@ =~= banner_url_text(id, banner@));
            Some(url)
        },
        None => None,
    }
}

/// Whether every byte of `text` is a decimal digit.
pub open spec fn all_digits(text: Seq<u8>) -> bool {
    forall|i: int| 0 <= i < text.len() ==> 48 <= #[trigger] text[i] <= 57
}

/// The number that the decimal digits of `digits` write.
pub open spec fn digits_value(digits: Seq<u8>) -> nat
    decreases digits.len(),
{
    if digits.len() == 0 {
        0
    } else {
        digits_value(digits.drop_last()) * 10 + (digits.last() - 48) as nat
    }
}

/// The text without the plus sign that may stand before a number.
pub open spec fn unsigned_digits(text: Seq<u8>) -> Seq<u8> {
    if text.len() > 0 && text[0] == 43 {
        text.skip(1)
    } else {
        text
    }
}

/// The number under 65536 that `text` writes in decimal: one digit or more,
/// after a plus sign or without one, and nothing else.
pub open spec fn parse_u16_spec(text: Seq<u8>) -> Option<u16> {
    let digits = unsigned_digits(text);
    if digits.len() > 0 && all_digits(digits) && digits_value(digits) <= 65535 {
        Some(digits_value(digits) as u16)
    } else {
        None
    }
}

/// Reads a number under 65536 written in decimal: see [`parse_u16_spec`].
pub fn parse_u16(text: &[u8]) -> (r: Option<u16>)
    ensures
        r == parse_u16_spec(text@),
{
    let start: usize = if text.len() > 0 && text[0] == 43 {
        1
    } else {
        0
    };
    let ghost digits = unsigned_digits(text@);
    assert(digits =~= text@.skip(start as int));
    if start == text.len() {
        return None;
    }
    let mut value: u32 = 0;
    let mut too_large = false;
    let mut k: usize = start;
    assert(digits.take(0) =~= Seq::<u8>::empty());
    while k < text.len()
        invariant
            start <= k <= text.len(),
            digits == text@.skip(start as int),
            digits == unsigned_digits(text@),
            all_digits(digits.take(k - start)),
            !too_large ==> value == digits_value(digits.take(k - start)) && value <= 65535,
            too_large ==> digits_value(digits.take(k - start)) > 65535,
        decreases text.len() - k,
    {
        let byte = text[k];
        let ghost read = digits.take(k - start);
        let ghost next = digits.take(k - start + 1);
        assert(next.drop_last() =~= read);
        assert(next.last() == byte);
        if byte < 48 || byte > 57 {
            assert(digits[k - start] == byte);
            return None;
        }
        assert(all_digits(next)) by {
            assert forall|i: int| 0 <= i < next.len() implies 48 <= #[trigger] next[i] <= 57 by {
                if i < read.len() {
                    assert(next[i] == read[i]);
                }
            }
        }
        if !too_large {
            value = value * 10 + (byte - 48) as u32;
            if value > 65535 {
                too_large = true;
            }
        }
        k += 1;
    }
    assert(digits.take(k - start) =~= digits);
    if too_large {
        None
    } else {
        Some(value as u16)
    }
}

/// A user tag taken apart, where the name ends at the byte `at`.
pub open spec fn tag_parts(text: Seq<u8>, at: Option<int>) -> Option<(Seq<u8>, Option<u16>)> {
    match at {
        None => Some((text, None)),
        Some(at) => match parse_u16_spec(text.skip(at + 1)) {
            Some(number) => if number > 9999 {
                None
            } else if number == 0 {
                Some((text.take(at), None))
            } else {
                Some((text.take(at), Some(number)))
            },
            None => None,
        },
    }
}

/// A user tag taken apart: the name, and the discriminator where the tag has
/// one. A tag is a name alone, or a name, `#` and a number of at most 9999,
/// of which 0 stands for no discriminator. The name ends at the first `#`.
/// Anything else is no tag.
pub open spec fn parse_user_tag_spec(text: Seq<u8>) -> Option<(Seq<u8>, Option<u16>)> {
    tag_parts(text, first_occurrence(text, seq![35u8]))
}

/// Takes a user tag apart: see [`parse_user_tag_spec`].
pub fn parse_user_tag(tag: &str) -> (r: Option<(&str, Option<u16>)>)
    ensures
        match r {
            Some((name, discriminator)) => parse_user_tag_spec(tag.spec_bytes()) == Some(
                (name.spec_bytes(), discriminator),
            ),
            None => parse_user_tag_spec(tag.spec_bytes()) is None,
        },
{
    let bytes = tag.as_bytes();
    let hash: [u8; 1] = [35];
    assert(hash@ =~= seq![35u8]);
    match find_bytes(bytes, hash.as_slice()) {
        None => {
            Some((tag, None))
        },
        Some(at) => {
            proof {
                vstd::utf8::encode_utf8_valid_utf8(tag@);
                assert(hash@.len() == 1);
                assert(occurs_at(bytes@, hash@, at as int));
                assert(bytes@.subrange(at as int, at + 1)[0] == seq![35u8][0]);
                assert(bytes@[at as int] == 35u8);
                assert(!vstd::utf8::is_continuation_byte(35u8)) by (bit_vector);
                vstd::utf8::is_char_boundary_iff_not_is_continuation_byte(bytes@, at as int);
            }
            let (name, _) = tag.split_at(at);
            let len = bytes.len();
            assert(at < len);
            let rest = slice_subrange(bytes, at + 1, len);
            assert(rest@ =~= bytes@.skip(at + 1));
            assert(name.spec_bytes() =~= bytes@.take(at as int));
            match parse_u16(rest) {
                Some(number) => {
                    if number > 9999 {
                        None
                    } else if number == 0 {
                        Some((name, None))
                    } else {
                        Some((name, Some(number)))
                    }
                },
                None => None,
            }
        },
    }
}

} // verus!
