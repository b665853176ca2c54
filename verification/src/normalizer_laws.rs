//! What holds of the stream normalizer for every input: its laws, proved
//! from the definition of its two passes.

use crate::normalizer::{
    clean_text, csi_end, escape_end, lacks, lemma_escape_end_bounds, lemma_line_start_fixed,
    lemma_skip_class_bounds, line_start, normalize, osc_end, overwrite, skip_class, strip_escapes,
    strip_from, BEL, CR, ESC, LF,
};
use vstd::prelude::*;
use vstd::utf8::{encode_utf8, is_ascii_chars, is_ascii_chars_encode_utf8};

verus! {

/// The first pass leaves no escape byte.
proof fn lemma_strip_lacks_escape(s: Seq<u8>, i: int)
    ensures
        lacks(strip_from(s, i), ESC),
    decreases s.len() - i,
{
    if 0 <= i < s.len() {
        if s[i] == ESC {
            lemma_escape_end_bounds(s, i);
            lemma_strip_lacks_escape(s, escape_end(s, i));
        } else {
            lemma_strip_lacks_escape(s, i + 1);
        }
    }
}

/// The second pass adds nothing: a byte that its input lacks, its output
/// lacks too.
proof fn lemma_overwrite_keeps_lack(s: Seq<u8>, b: u8)
    requires
        lacks(s, b),
    ensures
        lacks(overwrite(s), b),
    decreases s.len(),
{
    if s.len() > 0 {
        lemma_overwrite_keeps_lack(s.drop_last(), b);
        lemma_line_start_fixed(overwrite(s.drop_last()));
    }
}

/// The second pass leaves no carriage return.
pub proof fn lemma_overwrite_lacks_cr(s: Seq<u8>)
    ensures
        lacks(overwrite(s), CR),
    decreases s.len(),
{
    if s.len() > 0 {
        lemma_overwrite_lacks_cr(s.drop_last());
        lemma_line_start_fixed(overwrite(s.drop_last()));
    }
}

/// The first pass changes nothing in an input without escape bytes.
proof fn lemma_strip_plain(s: Seq<u8>, i: int)
    requires
        lacks(s, ESC),
        0 <= i <= s.len(),
    ensures
        strip_from(s, i) == s.subrange(i, s.len() as int),
    decreases s.len() - i,
{
    if i < s.len() {
        lemma_strip_plain(s, i + 1);
    }
}

/// The second pass changes nothing in an input without carriage returns.
proof fn lemma_overwrite_plain(s: Seq<u8>)
    requires
        lacks(s, CR),
    ensures
        overwrite(s) == s,
    decreases s.len(),
{
    if s.len() > 0 {
        lemma_overwrite_plain(s.drop_last());
    }
}

/// Text without carriage returns that follows an input is shown after what
/// is shown of the input.
proof fn lemma_overwrite_append_plain(s: Seq<u8>, t: Seq<u8>)
    requires
        lacks(t, CR),
    ensures
        overwrite(s + t) == overwrite(s) + t,
    decreases t.len(),
{
    if t.len() > 0 {
        lemma_overwrite_append_plain(s, t.drop_last());
        assert((s + t).drop_last() =~= s + t.drop_last());
    }
}

/// A text without line feeds is one line, which starts at its start.
proof fn lemma_line_start_none(t: Seq<u8>)
    requires
        lacks(t, LF),
    ensures
        line_start(t) == 0,
    decreases t.len(),
{
    if t.len() > 0 {
        lemma_line_start_none(t.drop_last());
    }
}

/// The last line of a text that holds a line feed starts after it.
proof fn lemma_line_start_after_feed(a: Seq<u8>, b: Seq<u8>)
    ensures
        line_start(a.push(LF) + b) == a.len() + 1 + line_start(b),
    decreases b.len(),
{
    let whole = a.push(LF) + b;
    if b.len() > 0 {
        assert(whole.drop_last() =~= a.push(LF) + b.drop_last());
        lemma_line_start_after_feed(a, b.drop_last());
    }
}

/// The normalizer never lets an escape byte through.
pub proof fn law_output_has_no_escape(input: Seq<u8>)
    ensures
        lacks(normalize(input), ESC),
{
    lemma_strip_lacks_escape(input, 0);
    lemma_overwrite_keeps_lack(strip_escapes(input), ESC);
}

/// Normalizing what the normalizer gave changes nothing: no control byte is
/// left for a second run to act on.
pub proof fn law_normalize_is_idempotent(input: Seq<u8>)
    ensures
        normalize(normalize(input)) == normalize(input),
{
    let once = normalize(input);
    law_output_has_no_escape(input);
    lemma_strip_plain(once, 0);
    assert(once.subrange(0, once.len() as int) =~= once);
    lemma_overwrite_lacks_cr(strip_escapes(input));
    lemma_overwrite_plain(once);
}

/// Plain text is shown as it is: an input without escape bytes and without
/// carriage returns comes out unchanged, line feeds included.
pub proof fn law_plain_text_is_unchanged(input: Seq<u8>)
    requires
        lacks(input, ESC),
        lacks(input, CR),
    ensures
        normalize(input) == input,
{
    lemma_strip_plain(input, 0);
    assert(input.subrange(0, input.len() as int) =~= input);
    lemma_overwrite_plain(input);
}

/// The last carriage return of a line wins: of a line of plain text that
/// holds a carriage return, only what follows the last one is shown.
pub proof fn law_last_carriage_return_wins(before: Seq<u8>, after: Seq<u8>)
    requires
        lacks(before, ESC),
        lacks(before, LF),
        lacks(after, ESC),
        lacks(after, CR),
    ensures
        normalize(before.push(CR) + after) == after,
{
    let line = before.push(CR) + after;
    lemma_strip_plain(line, 0);
    assert(line.subrange(0, line.len() as int) =~= line);
    lemma_overwrite_append_plain(before.push(CR), after);
    assert(before.push(CR).drop_last() =~= before);
    lemma_overwrite_keeps_lack(before, LF);
    lemma_line_start_none(overwrite(before));
}

/// Line feeds are kept and lines do not affect each other: the text before a
/// line feed and the text after it are shown as each would be alone.
pub proof fn law_lines_are_independent(a: Seq<u8>, b: Seq<u8>)
    ensures
        overwrite(a.push(LF) + b) == overwrite(a).push(LF) + overwrite(b),
    decreases b.len(),
{
    let whole = a.push(LF) + b;
    if b.len() == 0 {
        assert(a.push(LF).drop_last() =~= a);
    } else {
        assert(whole.drop_last() =~= a.push(LF) + b.drop_last());
        law_lines_are_independent(a, b.drop_last());
        let left = overwrite(a);
        let right = overwrite(b.drop_last());
        if b.last() == CR {
            lemma_line_start_after_feed(left, right);
            lemma_line_start_fixed(right);
        }
    }
}

/// Whether `q` is one complete control sequence: `ESC [`, parameter bytes,
/// intermediate bytes, and a final byte.
pub open spec fn is_control_sequence(q: Seq<u8>) -> bool {
    &&& q.len() >= 3
    &&& q[0] == ESC
    &&& q[1] == 0x5b
    &&& 0x40 <= q.last() && q.last() <= 0x7e
    &&& csi_end(q, 2) == q.len()
}

/// Skipping a class of bytes does not depend on what stood before.
proof fn lemma_skip_class_suffix(x: Seq<u8>, y: Seq<u8>, i: int, lo: u8, hi: u8)
    requires
        0 <= i <= y.len(),
    ensures
        skip_class(x + y, x.len() + i, lo, hi) == x.len() + skip_class(y, i, lo, hi),
    decreases y.len() - i,
{
    if i < y.len() {
        if lo <= y[i] && y[i] <= hi {
            lemma_skip_class_suffix(x, y, i + 1, lo, hi);
        }
    }
}

/// Where an operating-system command ends does not depend on what stood
/// before it.
proof fn lemma_osc_end_suffix(x: Seq<u8>, y: Seq<u8>, i: int)
    requires
        0 <= i <= y.len(),
    ensures
        osc_end(x + y, x.len() + i) == x.len() + osc_end(y, i),
    decreases y.len() - i,
{
    if i < y.len() {
        if y[i] != BEL && !(y[i] == ESC && i + 1 < y.len() && y[i + 1] == 0x5c) {
            lemma_osc_end_suffix(x, y, i + 1);
        }
    }
}

/// Where an escape sequence ends does not depend on what stood before it.
proof fn lemma_escape_end_suffix(x: Seq<u8>, y: Seq<u8>, i: int)
    requires
        0 <= i < y.len(),
    ensures
        escape_end(x + y, x.len() + i) == x.len() + escape_end(y, i),
{
    if i + 1 < y.len() {
        assert((x + y)[x.len() + i + 1] == y[i + 1]);
        if y[i + 1] == 0x5b {
            lemma_skip_class_suffix(x, y, i + 2, 0x30, 0x3f);
            let j = skip_class(y, i + 2, 0x30, 0x3f);
            lemma_skip_class_bounds(y, i + 2, 0x30, 0x3f);
            lemma_skip_class_suffix(x, y, j, 0x20, 0x2f);
            let k = skip_class(y, j, 0x20, 0x2f);
            lemma_skip_class_bounds(y, j, 0x20, 0x2f);
            if k < y.len() {
                assert((x + y)[x.len() + k] == y[k]);
            }
        } else if y[i + 1] == 0x5d {
            lemma_osc_end_suffix(x, y, i + 2);
        }
    }
}

/// What is left of a tail of the input does not depend on what stood before
/// it.
proof fn lemma_strip_suffix(x: Seq<u8>, y: Seq<u8>, i: int)
    requires
        0 <= i <= y.len(),
    ensures
        strip_from(x + y, x.len() + i) == strip_from(y, i),
    decreases y.len() - i,
{
    if i < y.len() {
        if y[i] == ESC {
            lemma_escape_end_suffix(x, y, i);
            lemma_escape_end_bounds(y, i);
            lemma_strip_suffix(x, y, escape_end(y, i));
        } else {
            lemma_strip_suffix(x, y, i + 1);
        }
    }
}

/// What is skipped is of the class that is skipped.
proof fn lemma_skip_class_members(s: Seq<u8>, i: int, lo: u8, hi: u8)
    requires
        0 <= i,
    ensures
        forall|t: int| i <= t < skip_class(s, i, lo, hi) ==> lo <= #[trigger] s[t] && s[t] <= hi,
    decreases s.len() - i,
{
    if i < s.len() && lo <= s[i] && s[i] <= hi {
        lemma_skip_class_members(s, i + 1, lo, hi);
    }
}

/// Skipping that stops within a text does not depend on what follows the
/// text.
proof fn lemma_skip_class_prefix(q: Seq<u8>, y: Seq<u8>, i: int, lo: u8, hi: u8)
    requires
        0 <= i,
        skip_class(q, i, lo, hi) < q.len(),
    ensures
        skip_class(q + y, i, lo, hi) == skip_class(q, i, lo, hi),
    decreases q.len() - i,
{
    if i < q.len() {
        if lo <= q[i] && q[i] <= hi {
            lemma_skip_class_prefix(q, y, i + 1, lo, hi);
        }
    }
}

/// Text without escape bytes at the head of the input is kept as it is.
proof fn lemma_strip_plain_prefix(s: Seq<u8>, i: int, n: int)
    requires
        0 <= i <= n <= s.len(),
        forall|k: int| 0 <= k < n ==> s[k] != ESC,
    ensures
        strip_from(s, i) == s.subrange(i, n) + strip_from(s, n),
    decreases n - i,
{
    if i < n {
        lemma_strip_plain_prefix(s, i + 1, n);
    }
}

/// A complete control sequence is removed whole: what stands before it,
/// where that holds no escape byte, and what is left of the text after it
/// are joined with nothing lost and nothing added.
pub proof fn law_control_sequence_is_removed(before: Seq<u8>, q: Seq<u8>, after: Seq<u8>)
    requires
        lacks(before, ESC),
        is_control_sequence(q),
    ensures
        strip_escapes(before + q + after) == before + strip_escapes(after),
{
    let tail = q + after;
    let s = before + tail;
    assert(before + q + after =~= s);
    assert forall|k: int| 0 <= k < before.len() implies s[k] != ESC by {
        assert(s[k] == before[k]);
    }
    lemma_strip_plain_prefix(s, 0, before.len() as int);
    assert(s.subrange(0, before.len() as int) =~= before);
    lemma_strip_suffix(before, tail, 0);
    // The sequence at the head of `tail` ends where `q` ends.
    let j = skip_class(q, 2, 0x30, 0x3f);
    let k = skip_class(q, j, 0x20, 0x2f);
    lemma_skip_class_bounds(q, 2, 0x30, 0x3f);
    lemma_skip_class_bounds(q, j, 0x20, 0x2f);
    lemma_skip_class_members(q, 2, 0x30, 0x3f);
    lemma_skip_class_members(q, j, 0x20, 0x2f);
    assert(k < q.len()) by {
        if k >= q.len() {
            let last = q.len() - 1;
            assert(q[last] == q.last());
            if last >= j {
                assert(0x20 <= q[last] && q[last] <= 0x2f);
            } else {
                assert(0x30 <= q[last] && q[last] <= 0x3f);
            }
        }
    }
    assert(k + 1 == q.len());
    lemma_skip_class_prefix(q, after, j, 0x20, 0x2f);
    lemma_skip_class_prefix(q, after, 2, 0x30, 0x3f);
    assert(tail[0] == q[0] && tail[1] == q[1] && tail[k] == q[k]);
    assert(escape_end(tail, 0) == q.len());
    lemma_strip_suffix(q, after, 0);
}

/// Two pieces of plain text with a complete control sequence between them
/// come out as the two pieces joined.
pub proof fn law_text_around_a_control_sequence_is_kept(a: Seq<u8>, q: Seq<u8>, b: Seq<u8>)
    requires
        lacks(a, ESC),
        lacks(a, CR),
        lacks(b, ESC),
        lacks(b, CR),
        is_control_sequence(q),
    ensures
        normalize(a + q + b) == a + b,
{
    law_control_sequence_is_removed(a, q, b);
    lemma_strip_plain(b, 0);
    assert(b.subrange(0, b.len() as int) =~= b);
    lemma_overwrite_plain(a + b);
}

/// `strip_ansi` never returns an escape character.
pub proof fn law_clean_text_has_no_escape(text: Seq<char>)
    ensures
        forall|k: int| 0 <= k < clean_text(text).len() ==> clean_text(text)[k] != '\u{1b}',
{
    law_output_has_no_escape(encode_utf8(text));
}

/// `strip_ansi` applied to its own result returns it unchanged, wherever that
/// result is plain ASCII.
pub proof fn law_clean_text_is_idempotent(text: Seq<char>)
    requires
        is_ascii_chars(clean_text(text)),
    ensures
        clean_text(clean_text(text)) == clean_text(text),
{
    let bytes = normalize(encode_utf8(text));
    let shown = clean_text(text);
    is_ascii_chars_encode_utf8(shown);
    assert(encode_utf8(shown) =~= bytes);
    law_normalize_is_idempotent(encode_utf8(text));
}

} // verus!
