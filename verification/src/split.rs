//! Taking a text apart: lines, fields, pieces between separators.

use crate::chars::{char_is_whitespace, is_whitespace};
use crate::text::{chars_eq, index_of};
use vstd::prelude::*;

verus! {

/// The texts that a list of character runs holds.
pub open spec fn runs(list: Seq<Vec<char>>) -> Seq<Seq<char>> {
    Seq::new(list.len(), |i: int| list[i]@)
}

/// One line of `s`, from `i` up to the line feed at `e` or up to the end: a
/// carriage return just before the line feed belongs to the line ending.
pub open spec fn line_at(s: Seq<char>, i: int, e: int) -> Seq<char> {
    if e < s.len() && i < e && s[e - 1] == '\r' {
        s.subrange(i, e - 1)
    } else {
        s.subrange(i, e)
    }
}

/// The lines of `s[i..]`.
pub open spec fn lines_from(s: Seq<char>, i: int) -> Seq<Seq<char>>
    decreases s.len() - i + 1,
{
    if i < 0 || i >= s.len() {
        Seq::empty()
    } else {
        let e = index_of(s, '\n', i);
        proof {
            lemma_index_of_bounds(s, '\n', i);
        }
        seq![line_at(s, i, e)] + lines_from(s, e + 1)
    }
}

/// The lines of a text.  Lines end in a line feed or in a carriage return
/// and a line feed; the ending is no part of the line, and the last line
/// needs none.
pub open spec fn lines_of(s: Seq<char>) -> Seq<Seq<char>> {
    lines_from(s, 0)
}

/// `index_of` moves forward and stays within the text, and what it skips
/// differs from `c`.
pub proof fn lemma_index_of_bounds(s: Seq<char>, c: char, i: int)
    requires
        0 <= i <= s.len(),
    ensures
        i <= index_of(s, c, i) <= s.len(),
        index_of(s, c, i) < s.len() ==> s[index_of(s, c, i)] == c,
        forall|k: int| i <= k < index_of(s, c, i) ==> s[k] != c,
    decreases s.len() - i,
{
    if i < s.len() && s[i] != c {
        lemma_index_of_bounds(s, c, i + 1);
    }
}

/// The characters `chars[from..to]`.
pub fn slice_of(chars: &Vec<char>, from: usize, to: usize) -> (r: Vec<char>)
    requires
        from <= to <= chars@.len(),
    ensures
        r@ == chars@.subrange(from as int, to as int),
{
    let mut out: Vec<char> = Vec::new();
    let mut i: usize = from;
    while i < to
        invariant
            from <= i <= to <= chars@.len(),
            out@ == chars@.subrange(from as int, i as int),
        decreases to - i,
    {
        out.push(chars[i]);
        i = i + 1;
    }
    out
}

/// The first index at or after `from` that holds `c`, or the length.
pub fn find_char_from(chars: &Vec<char>, c: char, from: usize) -> (r: usize)
    requires
        from <= chars@.len(),
    ensures
        r == index_of(chars@, c, from as int),
        from <= r <= chars@.len(),
{
    let mut i: usize = from;
    while i < chars.len() && chars[i] != c
        invariant
            from <= i <= chars@.len(),
            index_of(chars@, c, i as int) == index_of(chars@, c, from as int),
        decreases chars@.len() - i,
    {
        i = i + 1;
    }
    i
}

/// Splits a text into its lines.
pub fn split_lines(chars: &Vec<char>) -> (r: Vec<Vec<char>>)
    ensures
        runs(r@) == lines_of(chars@),
{
    let n: usize = chars.len();
    let mut lines: Vec<Vec<char>> = Vec::new();
    let mut i: usize = 0;
    while i < n
        invariant
            i <= n,
            n == chars@.len(),
            lines_of(chars@) == runs(lines@) + lines_from(chars@, i as int),
        decreases n - i,
    {
        let e: usize = find_char_from(chars, '\n', i);
        let line = if e < n && i < e && chars[e - 1] == '\r' {
            slice_of(chars, i, e - 1)
        } else {
            slice_of(chars, i, e)
        };
        let ghost before = lines@;
        lines.push(line);
        proof {
            assert(runs(before) + (seq![line@] + lines_from(chars@, e + 1)) =~= runs(lines@)
                + lines_from(chars@, e + 1));
        }
        if e == n {
            i = n;
        } else {
            i = e + 1;
        }
    }
    lines
}

/// The first index at or after `i` that holds no white space.
pub open spec fn skip_space(s: Seq<char>, i: int) -> int
    decreases s.len() - i,
{
    if 0 <= i < s.len() && is_whitespace(s[i]) {
        skip_space(s, i + 1)
    } else {
        i
    }
}

/// The first index at or after `i` that holds white space, or the length.
pub open spec fn skip_word(s: Seq<char>, i: int) -> int
    decreases s.len() - i,
{
    if 0 <= i < s.len() && !is_whitespace(s[i]) {
        skip_word(s, i + 1)
    } else {
        i
    }
}

/// The end of `s` once the white space at its end is cut off, not going
/// below `low`.
pub open spec fn trim_end_at(s: Seq<char>, low: int, i: int) -> int
    decreases i,
{
    if 0 <= low < i <= s.len() && is_whitespace(s[i - 1]) {
        trim_end_at(s, low, i - 1)
    } else {
        i
    }
}

/// `s` without the white space at its start and at its end.
pub open spec fn trimmed(s: Seq<char>) -> Seq<char> {
    let a = skip_space(s, 0);
    s.subrange(a, trim_end_at(s, a, s.len() as int))
}

/// Scanning for white space moves forward and stays within the text.
pub proof fn lemma_space_bounds(s: Seq<char>, i: int)
    requires
        0 <= i <= s.len(),
    ensures
        i <= skip_space(s, i) <= s.len(),
        i <= skip_word(s, i) <= s.len(),
        i < s.len() && !is_whitespace(s[i]) ==> i < skip_word(s, i),
        skip_space(s, i) < s.len() ==> !is_whitespace(s[skip_space(s, i)]),
    decreases s.len() - i,
{
    if i < s.len() {
        lemma_space_bounds(s, i + 1);
    }
}

/// Skips white space.
fn scan_space(chars: &Vec<char>, from: usize) -> (r: usize)
    requires
        from <= chars@.len(),
    ensures
        r == skip_space(chars@, from as int),
        from <= r <= chars@.len(),
{
    let mut i: usize = from;
    while i < chars.len() && char_is_whitespace(chars[i])
        invariant
            from <= i <= chars@.len(),
            skip_space(chars@, i as int) == skip_space(chars@, from as int),
        decreases chars@.len() - i,
    {
        i = i + 1;
    }
    i
}

/// Skips what is no white space.
fn scan_word(chars: &Vec<char>, from: usize) -> (r: usize)
    requires
        from <= chars@.len(),
    ensures
        r == skip_word(chars@, from as int),
        from <= r <= chars@.len(),
{
    let mut i: usize = from;
    while i < chars.len() && !char_is_whitespace(chars[i])
        invariant
            from <= i <= chars@.len(),
            skip_word(chars@, i as int) == skip_word(chars@, from as int),
        decreases chars@.len() - i,
    {
        i = i + 1;
    }
    i
}

/// Cuts the white space off both ends of a text.
pub fn trim(chars: &Vec<char>) -> (r: Vec<char>)
    ensures
        r@ == trimmed(chars@),
{
    let a: usize = scan_space(chars, 0);
    let mut b: usize = chars.len();
    while a < b && char_is_whitespace(chars[b - 1])
        invariant
            a <= b <= chars@.len(),
            trim_end_at(chars@, a as int, b as int) == trim_end_at(
                chars@,
                a as int,
                chars@.len() as int,
            ),
        decreases b,
    {
        b = b - 1;
    }
    slice_of(chars, a, b)
}

/// The fields of `s[i..]`: the runs of characters between white space.
pub open spec fn fields_from(s: Seq<char>, i: int) -> Seq<Seq<char>>
    decreases s.len() - i,
{
    let a = skip_space(s, i);
    let b = skip_word(s, a);
    if i < 0 || i > s.len() || a >= s.len() {
        Seq::empty()
    } else {
        proof {
            lemma_space_bounds(s, i);
            lemma_space_bounds(s, a);
        }
        seq![s.subrange(a, b)] + fields_from(s, b)
    }
}

/// The fields of a text: what stands between white space, none of them
/// empty.
pub open spec fn fields_of(s: Seq<char>) -> Seq<Seq<char>> {
    fields_from(s, 0)
}

/// Splits a text into its fields.
pub fn split_fields(chars: &Vec<char>) -> (r: Vec<Vec<char>>)
    ensures
        runs(r@) == fields_of(chars@),
{
    let n: usize = chars.len();
    let mut fields: Vec<Vec<char>> = Vec::new();
    let mut i: usize = 0;
    loop
        invariant
            i <= n,
            n == chars@.len(),
            fields_of(chars@) == runs(fields@) + fields_from(chars@, i as int),
        ensures
            runs(fields@) == fields_of(chars@),
        decreases n - i,
    {
        let a: usize = scan_space(chars, i);
        if a >= n {
            break;
        }
        let b: usize = scan_word(chars, a);
        let field = slice_of(chars, a, b);
        fields.push(field);
        proof {
            lemma_space_bounds(chars@, a as int);
        }
        i = b;
    }
    fields
}

/// The first index at or after `i` that holds one of `seps`, or the length.
pub open spec fn next_sep(s: Seq<char>, seps: Seq<char>, i: int) -> int
    decreases s.len() - i,
{
    if 0 <= i < s.len() && !seps.contains(s[i]) {
        next_sep(s, seps, i + 1)
    } else {
        i
    }
}

/// The pieces of `s[i..]` between separators.
pub open spec fn pieces_from(s: Seq<char>, seps: Seq<char>, i: int) -> Seq<Seq<char>>
    decreases s.len() - i + 1,
{
    let e = next_sep(s, seps, i);
    if i < 0 || i > s.len() {
        Seq::empty()
    } else if e >= s.len() {
        seq![s.subrange(i, s.len() as int)]
    } else {
        proof {
            lemma_next_sep_bounds(s, seps, i);
        }
        seq![s.subrange(i, e)] + pieces_from(s, seps, e + 1)
    }
}

/// The pieces of a text between separators: one more than there are
/// separators, empty where two separators meet and at either end.
pub open spec fn pieces_of(s: Seq<char>, seps: Seq<char>) -> Seq<Seq<char>> {
    pieces_from(s, seps, 0)
}

/// Scanning for a separator moves forward and stays within the text.
pub proof fn lemma_next_sep_bounds(s: Seq<char>, seps: Seq<char>, i: int)
    requires
        0 <= i <= s.len(),
    ensures
        i <= next_sep(s, seps, i) <= s.len(),
    decreases s.len() - i,
{
    if i < s.len() {
        lemma_next_sep_bounds(s, seps, i + 1);
    }
}

/// Tests whether `c` is one of `seps`.
pub fn is_one_of(c: char, seps: &Vec<char>) -> (r: bool)
    ensures
        r == seps@.contains(c),
{
    let mut k: usize = 0;
    while k < seps.len()
        invariant
            k <= seps@.len(),
            forall|j: int| 0 <= j < k ==> seps@[j] != c,
        decreases seps@.len() - k,
    {
        if seps[k] == c {
            return true;
        }
        k = k + 1;
    }
    false
}

/// Finds the next separator.
fn scan_sep(chars: &Vec<char>, seps: &Vec<char>, from: usize) -> (r: usize)
    requires
        from <= chars@.len(),
    ensures
        r == next_sep(chars@, seps@, from as int),
        from <= r <= chars@.len(),
{
    let mut i: usize = from;
    while i < chars.len() && !is_one_of(chars[i], seps)
        invariant
            from <= i <= chars@.len(),
            next_sep(chars@, seps@, i as int) == next_sep(chars@, seps@, from as int),
        decreases chars@.len() - i,
    {
        i = i + 1;
    }
    i
}

/// Splits a text at every separator.
pub fn split_pieces(chars: &Vec<char>, seps: &Vec<char>) -> (r: Vec<Vec<char>>)
    ensures
        runs(r@) == pieces_of(chars@, seps@),
        r@.len() >= 1,
{
    let n: usize = chars.len();
    let mut pieces: Vec<Vec<char>> = Vec::new();
    let mut i: usize = 0;
    loop
        invariant_except_break
            pieces_of(chars@, seps@) == runs(pieces@) + pieces_from(chars@, seps@, i as int),
        invariant
            i <= n,
            n == chars@.len(),
        ensures
            runs(pieces@) == pieces_of(chars@, seps@),
            pieces@.len() >= 1,
        decreases n - i,
    {
        let e: usize = scan_sep(chars, seps, i);
        let piece = slice_of(chars, i, e);
        pieces.push(piece);
        if e >= n {
            break;
        }
        i = e + 1;
    }
    pieces
}

/// Tests whether one of `list` is the text `wanted`.
pub fn holds_text(list: &Vec<Vec<char>>, wanted: &Vec<char>) -> (r: bool)
    ensures
        r == runs(list@).contains(wanted@),
{
    let mut i: usize = 0;
    while i < list.len()
        invariant
            i <= list@.len(),
            forall|k: int| 0 <= k < i ==> runs(list@)[k] != wanted@,
        decreases list@.len() - i,
    {
        if chars_eq(&list[i], wanted) {
            assert(runs(list@)[i as int] == wanted@);
            return true;
        }
        i = i + 1;
    }
    false
}

} // verus!
