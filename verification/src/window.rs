//! The window of terminal output that a consumer keeps on display: the end
//! of all that a session has written, 64 KiB at most.

use vstd::prelude::*;
use vstd::string::StringSliceAdditionalSpecFns;
use vstd::utf8::{
    encode_utf8, encode_utf8_valid_utf8, is_char_boundary, is_char_boundary_start_end_of_seq,
};

verus! {

/// The most bytes that the window holds.
pub const WINDOW_BYTES: usize = 65536;

/// The first index at or after `from` at which a character starts, or the
/// length: where a cut can be made.
pub open spec fn next_boundary(bytes: Seq<u8>, from: int) -> int
    decreases bytes.len() - from,
{
    if 0 <= from < bytes.len() && !is_char_boundary(bytes, from) {
        next_boundary(bytes, from + 1)
    } else {
        from
    }
}

/// Where the window on `bytes` starts: at the start where they fit, and
/// else 64 KiB before the end, or at the first character that starts after
/// that.
pub open spec fn window_start(bytes: Seq<u8>) -> int {
    if bytes.len() > WINDOW_BYTES {
        next_boundary(bytes, bytes.len() - WINDOW_BYTES)
    } else {
        0
    }
}

/// The bytes in the window on `bytes`.
pub open spec fn window_of(bytes: Seq<u8>) -> Seq<u8> {
    bytes.subrange(window_start(bytes), bytes.len() as int)
}

/// The end of `text` that fits the window.
pub fn window_tail(text: &str) -> (r: &str)
    ensures
        r.spec_bytes() == window_of(text.spec_bytes()),
        r.spec_bytes().len() <= WINDOW_BYTES,
{
    let n: usize = text.as_bytes().len();
    let ghost bytes = text.spec_bytes();
    proof {
        encode_utf8_valid_utf8(text@);
        is_char_boundary_start_end_of_seq(bytes);
    }
    if n <= WINDOW_BYTES {
        return text;
    }
    let mut cut: usize = n - WINDOW_BYTES;
    while cut < n && !text.is_char_boundary(cut)
        invariant
            n - WINDOW_BYTES <= cut <= n,
            n == bytes.len(),
            bytes == text.spec_bytes(),
            next_boundary(bytes, cut as int) == next_boundary(bytes, n - WINDOW_BYTES),
        decreases n - cut,
    {
        cut = cut + 1;
    }
    let parts = text.split_at(cut);
    parts.1
}

/// The window after `text` has been written to a display that showed
/// `current`.
pub fn append_to_window(current: &str, text: &str) -> (r: String)
    ensures
        r@ == window_tail_text(current@ + text@),
{
    let mut combined = String::from_str(current);
    combined.append(text);
    let tail = window_tail(combined.as_str());
    let r = String::from_str(tail);
    proof {
        lemma_text_by_bytes(r@, tail@);
        lemma_window_is_text(combined@);
        lemma_text_by_bytes(r@, window_tail_text(combined@));
    }
    r
}

/// The text in the window on `text`.
pub open spec fn window_tail_text(text: Seq<char>) -> Seq<char> {
    vstd::utf8::decode_utf8(window_of(encode_utf8(text)))
}

/// Two texts with the same bytes are the same text.
proof fn lemma_text_by_bytes(a: Seq<char>, b: Seq<char>)
    requires
        encode_utf8(a) == encode_utf8(b),
    ensures
        a == b,
{
    vstd::utf8::encode_utf8_decode_utf8(a);
    vstd::utf8::encode_utf8_decode_utf8(b);
}

/// The window on a text holds whole characters: its bytes are those of the
/// text that they decode to.
proof fn lemma_window_is_text(text: Seq<char>)
    ensures
        encode_utf8(window_tail_text(text)) == window_of(encode_utf8(text)),
{
    let bytes = encode_utf8(text);
    encode_utf8_valid_utf8(text);
    is_char_boundary_start_end_of_seq(bytes);
    let start = window_start(bytes);
    if bytes.len() > WINDOW_BYTES {
        lemma_next_boundary(bytes, bytes.len() - WINDOW_BYTES);
    }
    vstd::utf8::valid_utf8_split(bytes, start);
    vstd::utf8::decode_utf8_encode_utf8(window_of(bytes));
}

/// The next boundary lies within the bytes and is a boundary.
proof fn lemma_next_boundary(bytes: Seq<u8>, from: int)
    requires
        vstd::utf8::valid_utf8(bytes),
        0 <= from <= bytes.len(),
    ensures
        from <= next_boundary(bytes, from) <= bytes.len(),
        is_char_boundary(bytes, next_boundary(bytes, from)),
    decreases bytes.len() - from,
{
    is_char_boundary_start_end_of_seq(bytes);
    if from < bytes.len() && !is_char_boundary(bytes, from) {
        lemma_next_boundary(bytes, from + 1);
    }
}

} // verus!
