//! Character classes.

use vstd::prelude::*;

verus! {

/// Whether `c` is one of the ten ASCII digits.
pub open spec fn is_digit(c: char) -> bool {
    '0' <= c <= '9'
}

/// Whether `c` is one of the fifty-two ASCII letters.
pub open spec fn is_ascii_letter(c: char) -> bool {
    ('a' <= c <= 'z') || ('A' <= c <= 'Z')
}

/// Whether `c` lies in the ASCII range.
pub open spec fn is_ascii(c: char) -> bool {
    c <= '\u{7f}'
}

/// For a character outside ASCII: whether Unicode gives it the property
/// `Alphabetic`.
pub uninterp spec fn unicode_alphabetic(c: char) -> bool;

/// For a character outside ASCII: whether Unicode counts it as alphabetic or
/// numeric.
pub uninterp spec fn unicode_alphanumeric(c: char) -> bool;

/// Whether `c` is alphabetic: an ASCII letter, or alphabetic by Unicode.
pub open spec fn alphabetic(c: char) -> bool {
    if is_ascii(c) {
        is_ascii_letter(c)
    } else {
        unicode_alphabetic(c)
    }
}

/// Whether `c` is alphanumeric: an ASCII letter or digit, or alphabetic or
/// numeric by Unicode.
pub open spec fn alphanumeric(c: char) -> bool {
    if is_ascii(c) {
        is_ascii_letter(c) || is_digit(c)
    } else {
        unicode_alphanumeric(c)
    }
}

/// Tests for an ASCII digit.
pub fn char_is_digit(c: char) -> (r: bool)
    ensures
        r == is_digit(c),
{
    '0' <= c && c <= '9'
}

/// Trusted: calls `char::is_alphabetic`.  In ASCII that holds of the letters
/// and of nothing else; beyond ASCII it is Unicode's property `Alphabetic`,
/// which is only named here.
#[verifier::external_body]
pub(crate) fn char_is_alphabetic(c: char) -> (r: bool)
    ensures
        r == (if is_ascii(c) {
            is_ascii_letter(c)
        } else {
            unicode_alphabetic(c)
        }),
{
    c.is_alphabetic()
}

/// Trusted: calls `char::is_alphanumeric`.  In ASCII that holds of the
/// letters and digits and of nothing else; beyond ASCII it is Unicode's
/// `Alphabetic` or one of its numeric categories, which is only named here.
#[verifier::external_body]
pub(crate) fn char_is_alphanumeric(c: char) -> (r: bool)
    ensures
        r == (if is_ascii(c) {
            is_ascii_letter(c) || is_digit(c)
        } else {
            unicode_alphanumeric(c)
        }),
{
    c.is_alphanumeric()
}

/// Whether `c` is white space: one of the code points to which Unicode
/// gives the property `White_Space`.
pub open spec fn is_whitespace(c: char) -> bool {
    let n = c as u32;
    (0x09 <= n <= 0x0d) || n == 0x20 || n == 0x85 || n == 0xa0 || n == 0x1680 || (0x2000 <= n
        <= 0x200a) || n == 0x2028 || n == 0x2029 || n == 0x202f || n == 0x205f || n == 0x3000
}

/// Tests for white space.
pub fn char_is_whitespace(c: char) -> (r: bool)
    ensures
        r == is_whitespace(c),
{
    let n: u32 = c as u32;
    (0x09 <= n && n <= 0x0d) || n == 0x20 || n == 0x85 || n == 0xa0 || n == 0x1680 || (0x2000
        <= n && n <= 0x200a) || n == 0x2028 || n == 0x2029 || n == 0x202f || n == 0x205f || n
        == 0x3000
}

/// For a character outside ASCII: its upper-case form by Unicode's rules,
/// which may be more than one character.
pub uninterp spec fn unicode_uppercase(c: char) -> Seq<char>;

/// The upper-case form of an ASCII character: the capital of a small
/// letter, and any other character itself.
pub open spec fn ascii_uppercase(c: char) -> char {
    if 'a' <= c <= 'z' {
        ((c as u32 - 32) as u8) as char
    } else {
        c
    }
}

/// The upper-case form of `c`.
pub open spec fn uppercase(c: char) -> Seq<char> {
    if is_ascii(c) {
        seq![ascii_uppercase(c)]
    } else {
        unicode_uppercase(c)
    }
}

/// Trusted: calls `char::to_uppercase` and collects what it yields.  In
/// ASCII that is the capital of a small letter and any other character
/// unchanged; beyond ASCII it is Unicode's mapping, which is only named
/// here.
#[verifier::external_body]
pub(crate) fn uppercase_text(c: char) -> (r: String)
    ensures
        r@ == (if is_ascii(c) {
            seq![ascii_uppercase(c)]
        } else {
            unicode_uppercase(c)
        }),
{
    c.to_uppercase().collect()
}

} // verus!
