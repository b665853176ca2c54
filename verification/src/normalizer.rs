//! The stream normalizer.
//!
//! Raw pseudo-terminal output is cleaned in two passes.  The first drops
//! terminal escape sequences; the second simulates the carriage return, which
//! moves the cursor back to the first column so that what follows overwrites
//! the line.  The result is what a terminal would show, without emulating a
//! terminal: there is no cursor position and no colour model.
//!
//! Each chunk is normalized on its own.  An escape sequence whose end arrives
//! in a later chunk than its start is cut at the chunk boundary: the part in
//! the first chunk is dropped, the rest is read as text.

use crate::normalizer_laws::{law_output_has_no_escape, lemma_overwrite_lacks_cr};
use crate::text::push_char;
use vstd::prelude::*;
use vstd::string::StringSliceAdditionalSpecFns;

verus! {

/// The escape byte, which introduces every control sequence.
pub const ESC: u8 = 0x1b;

/// The bell byte, one of the two terminators of an operating-system command.
pub const BEL: u8 = 0x07;

/// The line feed.
pub const LF: u8 = 0x0a;

/// The carriage return.
pub const CR: u8 = 0x0d;

/// The first index at or after `i` whose byte lies outside `lo..=hi`.
pub open spec fn skip_class(s: Seq<u8>, i: int, lo: u8, hi: u8) -> int
    decreases s.len() - i,
{
    if 0 <= i < s.len() && lo <= s[i] && s[i] <= hi {
        skip_class(s, i + 1, lo, hi)
    } else {
        i
    }
}

/// The end of a control sequence whose body starts at `i`, after `ESC [`:
/// parameter bytes, then intermediate bytes, then one final byte if there is
/// one.
pub open spec fn csi_end(s: Seq<u8>, i: int) -> int {
    let k = skip_class(s, skip_class(s, i, 0x30, 0x3f), 0x20, 0x2f);
    if 0 <= k < s.len() && 0x40 <= s[k] && s[k] <= 0x7e {
        k + 1
    } else {
        k
    }
}

/// The end of an operating-system command whose body starts at `i`, after
/// `ESC ]`: just past the first bell or the first `ESC \`, or the end of the
/// input where neither occurs.
pub open spec fn osc_end(s: Seq<u8>, i: int) -> int
    decreases s.len() - i,
{
    if i < 0 || i >= s.len() {
        i
    } else if s[i] == BEL {
        i + 1
    } else if s[i] == ESC && i + 1 < s.len() && s[i + 1] == 0x5c {
        i + 2
    } else {
        osc_end(s, i + 1)
    }
}

/// Whether `b` introduces a character-set designation after `ESC`: one of
/// `( ) * +`.
pub open spec fn is_charset_intro(b: u8) -> bool {
    b == 0x28 || b == 0x29 || b == 0x2a || b == 0x2b
}

/// The index just past the escape sequence that starts at `i`, where
/// `s[i]` is the escape byte.
pub open spec fn escape_end(s: Seq<u8>, i: int) -> int {
    if i + 1 >= s.len() {
        i + 1
    } else if s[i + 1] == 0x5b {
        csi_end(s, i + 2)
    } else if s[i + 1] == 0x5d {
        osc_end(s, i + 2)
    } else if is_charset_intro(s[i + 1]) {
        if i + 2 < s.len() {
            i + 3
        } else {
            i + 2
        }
    } else {
        i + 2
    }
}

/// What is left of `s[i..]` once every escape sequence is dropped.
pub open spec fn strip_from(s: Seq<u8>, i: int) -> Seq<u8>
    decreases s.len() - i,
{
    if i < 0 || i >= s.len() {
        Seq::empty()
    } else if s[i] == ESC {
        proof {
            lemma_escape_end_bounds(s, i);
        }
        strip_from(s, escape_end(s, i))
    } else {
        seq![s[i]] + strip_from(s, i + 1)
    }
}

/// The first pass: `s` without its escape sequences.
pub open spec fn strip_escapes(s: Seq<u8>) -> Seq<u8> {
    strip_from(s, 0)
}

/// The index just after the last line feed of `t`, or 0 where it has none:
/// where the line that is being written starts.
pub open spec fn line_start(t: Seq<u8>) -> int
    decreases t.len(),
{
    if t.len() == 0 {
        0
    } else if t.last() == LF {
        t.len() as int
    } else {
        line_start(t.drop_last())
    }
}

/// The second pass: what a terminal shows after receiving `s`, when a
/// carriage return wipes the line being written and every other byte is
/// appended to it.
pub open spec fn overwrite(s: Seq<u8>) -> Seq<u8>
    decreases s.len(),
{
    if s.len() == 0 {
        Seq::empty()
    } else {
        let shown = overwrite(s.drop_last());
        if s.last() == CR {
            shown.subrange(0, line_start(shown))
        } else {
            shown.push(s.last())
        }
    }
}

/// Both passes: the clean bytes of a raw chunk.
pub open spec fn normalize(s: Seq<u8>) -> Seq<u8> {
    overwrite(strip_escapes(s))
}

/// Each byte read as the character with that code point.
pub open spec fn latin1(s: Seq<u8>) -> Seq<char> {
    Seq::new(s.len(), |i: int| s[i] as char)
}

/// Skipping a class of bytes moves forward and stays within the input.
pub proof fn lemma_skip_class_bounds(s: Seq<u8>, i: int, lo: u8, hi: u8)
    requires
        0 <= i <= s.len(),
    ensures
        i <= skip_class(s, i, lo, hi) <= s.len(),
    decreases s.len() - i,
{
    if i < s.len() && lo <= s[i] && s[i] <= hi {
        lemma_skip_class_bounds(s, i + 1, lo, hi);
    }
}

/// An operating-system command ends at or after its start and within the
/// input.
pub proof fn lemma_osc_end_bounds(s: Seq<u8>, i: int)
    requires
        0 <= i <= s.len(),
    ensures
        i <= osc_end(s, i) <= s.len(),
    decreases s.len() - i,
{
    if i < s.len() && s[i] != BEL && !(s[i] == ESC && i + 1 < s.len() && s[i + 1] == 0x5c) {
        lemma_osc_end_bounds(s, i + 1);
    }
}

/// An escape sequence is at least the escape byte and ends within the input.
pub proof fn lemma_escape_end_bounds(s: Seq<u8>, i: int)
    requires
        0 <= i < s.len(),
    ensures
        i < escape_end(s, i) <= s.len(),
{
    if i + 1 < s.len() {
        if s[i + 1] == 0x5b {
            let j = skip_class(s, i + 2, 0x30, 0x3f);
            lemma_skip_class_bounds(s, i + 2, 0x30, 0x3f);
            lemma_skip_class_bounds(s, j, 0x20, 0x2f);
        } else if s[i + 1] == 0x5d {
            lemma_osc_end_bounds(s, i + 2);
        }
    }
}

/// Cutting a text at the start of its last line leaves that start in place.
pub proof fn lemma_line_start_fixed(t: Seq<u8>)
    ensures
        0 <= line_start(t) <= t.len(),
        line_start(t.subrange(0, line_start(t))) == line_start(t),
    decreases t.len(),
{
    if t.len() > 0 && t.last() != LF {
        lemma_line_start_fixed(t.drop_last());
        let k = line_start(t.drop_last());
        assert(t.subrange(0, k) =~= t.drop_last().subrange(0, k));
    }
}

/// Whether the byte `b` is absent from `s`.
pub open spec fn lacks(s: Seq<u8>, b: u8) -> bool {
    forall|k: int| 0 <= k < s.len() ==> s[k] != b
}

/// Skips the bytes of a class.
fn skip_class_run(bytes: &[u8], i: usize, lo: u8, hi: u8) -> (r: usize)
    requires
        i <= bytes@.len(),
    ensures
        r == skip_class(bytes@, i as int, lo, hi),
        i <= r <= bytes@.len(),
{
    let mut k: usize = i;
    while k < bytes.len() && lo <= bytes[k] && bytes[k] <= hi
        invariant
            i <= k <= bytes@.len(),
            skip_class(bytes@, k as int, lo, hi) == skip_class(bytes@, i as int, lo, hi),
        decreases bytes@.len() - k,
    {
        k = k + 1;
    }
    k
}

/// Finds the end of an operating-system command.
fn osc_run(bytes: &[u8], i: usize) -> (r: usize)
    requires
        i <= bytes@.len(),
    ensures
        r == osc_end(bytes@, i as int),
        i <= r <= bytes@.len(),
{
    let mut k: usize = i;
    while k < bytes.len()
        invariant
            i <= k <= bytes@.len(),
            osc_end(bytes@, k as int) == osc_end(bytes@, i as int),
        decreases bytes@.len() - k,
    {
        if bytes[k] == BEL {
            return k + 1;
        }
        if bytes[k] == ESC && k + 1 < bytes.len() && bytes[k + 1] == 0x5c {
            return k + 2;
        }
        k = k + 1;
    }
    k
}

/// Finds the end of the escape sequence that starts at `i`.
fn escape_run(bytes: &[u8], i: usize) -> (r: usize)
    requires
        i < bytes@.len(),
        bytes@[i as int] == ESC,
    ensures
        r == escape_end(bytes@, i as int),
        i < r <= bytes@.len(),
{
    proof {
        lemma_escape_end_bounds(bytes@, i as int);
    }
    let n: usize = bytes.len();
    if i + 1 >= n {
        return i + 1;
    }
    let intro: u8 = bytes[i + 1];
    if intro == 0x5b {
        let params: usize = skip_class_run(bytes, i + 2, 0x30, 0x3f);
        let inter: usize = skip_class_run(bytes, params, 0x20, 0x2f);
        if inter < n && 0x40 <= bytes[inter] && bytes[inter] <= 0x7e {
            inter + 1
        } else {
            inter
        }
    } else if intro == 0x5d {
        osc_run(bytes, i + 2)
    } else if intro == 0x28 || intro == 0x29 || intro == 0x2a || intro == 0x2b {
        if i + 2 < n {
            i + 3
        } else {
            i + 2
        }
    } else {
        i + 2
    }
}

/// The first pass on its own: `input` without its escape sequences.
pub fn strip_escape_bytes(input: &[u8]) -> (r: Vec<u8>)
    ensures
        r@ == strip_escapes(input@),
{
    let mut stripped: Vec<u8> = Vec::new();
    let mut i: usize = 0;
    while i < input.len()
        invariant
            i <= input@.len(),
            strip_escapes(input@) == stripped@ + strip_from(input@, i as int),
        decreases input@.len() - i,
    {
        if input[i] == ESC {
            i = escape_run(input, i);
        } else {
            stripped.push(input[i]);
            i = i + 1;
        }
    }
    stripped
}

/// The second pass on its own: `input` with every carriage return applied.
pub fn overwrite_bytes(input: &[u8]) -> (r: Vec<u8>)
    ensures
        r@ == overwrite(input@),
{
    let mut shown: Vec<u8> = Vec::new();
    let mut start: usize = 0;
    let mut i: usize = 0;
    while i < input.len()
        invariant
            i <= input@.len(),
            shown@ == overwrite(input@.subrange(0, i as int)),
            start == line_start(shown@),
            start <= shown@.len() <= i,
        decreases input@.len() - i,
    {
        let b: u8 = input[i];
        proof {
            let next = input@.subrange(0, i + 1);
            assert(next.drop_last() =~= input@.subrange(0, i as int));
        }
        if b == CR {
            proof {
                lemma_line_start_fixed(shown@);
            }
            shown.truncate(start);
        } else {
            shown.push(b);
            if b == LF {
                start = shown.len();
            } else {
                assert(shown@.drop_last() =~= overwrite(input@.subrange(0, i as int)));
            }
        }
        i = i + 1;
    }
    assert(input@.subrange(0, i as int) =~= input@);
    shown
}

/// The normalizer on raw bytes: escape sequences dropped, carriage returns
/// applied, every other byte kept as it is.
pub fn normalize_bytes(input: &[u8]) -> (r: Vec<u8>)
    ensures
        r@ == normalize(input@),
        lacks(r@, ESC),
        lacks(r@, CR),
{
    let stripped = strip_escape_bytes(input);
    let shown = overwrite_bytes(stripped.as_slice());
    proof {
        law_output_has_no_escape(input@);
        lemma_overwrite_lacks_cr(strip_escapes(input@));
    }
    shown
}

/// The text that `bytes` stand for, one character per byte.
pub fn latin1_text(bytes: &[u8]) -> (r: String)
    ensures
        r@ == latin1(bytes@),
{
    let mut out = String::new();
    let mut i: usize = 0;
    while i < bytes.len()
        invariant
            i <= bytes@.len(),
            out@ == latin1(bytes@.subrange(0, i as int)),
        decreases bytes@.len() - i,
    {
        push_char(&mut out, bytes[i] as char);
        i = i + 1;
    }
    out
}

/// What `strip_ansi` makes of a text: the normalizer applied to its UTF-8
/// bytes, each clean byte shown as one character.
pub open spec fn clean_text(text: Seq<char>) -> Seq<char> {
    latin1(normalize(vstd::utf8::encode_utf8(text)))
}

/// Strips terminal escape sequences from `input` and applies its carriage
/// returns, for clean display.
pub fn strip_ansi(input: &str) -> (r: String)
    ensures
        r@ == clean_text(input@),
        forall|k: int| 0 <= k < r@.len() ==> r@[k] != '\u{1b}' && r@[k] != '\r',
{
    let clean = normalize_bytes(input.as_bytes());
    latin1_text(clean.as_slice())
}

} // verus!
