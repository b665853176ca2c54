//! The order of version strings.
//!
//! A version string is read as a run of segments, each made of digits or of
//! letters, with anything else between them counting as a separator.  Two
//! strings are compared segment by segment.

use crate::chars::{
    alphabetic, alphanumeric, char_is_alphabetic, char_is_alphanumeric, char_is_digit, is_digit,
};
use vstd::prelude::*;

verus! {

/// The outcome of a comparison.
#[derive(Clone, Copy, Debug, PartialEq, Eq, Structural)]
pub enum Order {
    Less,
    Equal,
    Greater,
}

/// The first index at or after `i` that holds an alphanumeric character.
pub open spec fn segment_start(s: Seq<char>, i: int) -> int
    decreases s.len() - i,
{
    if 0 <= i < s.len() && !alphanumeric(s[i]) {
        segment_start(s, i + 1)
    } else {
        i
    }
}

/// The first index at or after `i` that holds no digit.
pub open spec fn digits_end(s: Seq<char>, i: int) -> int
    decreases s.len() - i,
{
    if 0 <= i < s.len() && is_digit(s[i]) {
        digits_end(s, i + 1)
    } else {
        i
    }
}

/// The first index at or after `i` that holds no alphabetic character.
pub open spec fn letters_end(s: Seq<char>, i: int) -> int
    decreases s.len() - i,
{
    if 0 <= i < s.len() && alphabetic(s[i]) {
        letters_end(s, i + 1)
    } else {
        i
    }
}

/// The order of `a[i..ie]` against `b[j..je]` as strings: by the first
/// character in which they differ, a proper prefix coming first.
pub open spec fn text_order(a: Seq<char>, i: int, ie: int, b: Seq<char>, j: int, je: int) -> Order
    decreases ie - i,
{
    if i >= ie && j >= je {
        Order::Equal
    } else if i >= ie {
        Order::Less
    } else if j >= je {
        Order::Greater
    } else if a[i] < b[j] {
        Order::Less
    } else if a[i] > b[j] {
        Order::Greater
    } else {
        text_order(a, i + 1, ie, b, j + 1, je)
    }
}

/// The order of two runs of digits: the longer is the greater, and of two of
/// one length the one that comes later as a string.
pub open spec fn digits_order(a: Seq<char>, i: int, ie: int, b: Seq<char>, j: int, je: int) -> Order {
    if ie - i < je - j {
        Order::Less
    } else if ie - i > je - j {
        Order::Greater
    } else {
        text_order(a, i, ie, b, j, je)
    }
}

/// The order of `a[i..]` against `b[j..]` as versions.
///
/// Separators are skipped.  A string that ends first is the lesser.  A
/// segment of digits is greater than one of letters.  Two segments of one
/// kind are compared, and the next segments decide where they are equal.
/// The result is `None` where both strings stand at a character that is
/// alphanumeric but neither a digit nor alphabetic: there the comparison has
/// no way on.
pub open spec fn order_from(a: Seq<char>, i: int, b: Seq<char>, j: int) -> Option<Order>
    decreases (a.len() - i) + (b.len() - j),
{
    let i1 = segment_start(a, i);
    let j1 = segment_start(b, j);
    if !(0 <= i <= a.len() && 0 <= j <= b.len()) {
        None
    } else if i1 >= a.len() && j1 >= b.len() {
        Some(Order::Equal)
    } else if i1 >= a.len() {
        Some(Order::Less)
    } else if j1 >= b.len() {
        Some(Order::Greater)
    } else if is_digit(a[i1]) && is_digit(b[j1]) {
        let i2 = digits_end(a, i1);
        let j2 = digits_end(b, j1);
        proof {
            lemma_scan_bounds(a, i);
            lemma_scan_bounds(b, j);
            lemma_scan_bounds(a, i1);
            lemma_scan_bounds(b, j1);
        }
        match digits_order(a, i1, i2, b, j1, j2) {
            Order::Equal => order_from(a, i2, b, j2),
            decided => Some(decided),
        }
    } else if is_digit(a[i1]) {
        Some(Order::Greater)
    } else if is_digit(b[j1]) {
        Some(Order::Less)
    } else {
        let i2 = letters_end(a, i1);
        let j2 = letters_end(b, j1);
        proof {
            lemma_scan_bounds(a, i);
            lemma_scan_bounds(b, j);
            lemma_scan_bounds(a, i1);
            lemma_scan_bounds(b, j1);
        }
        if i2 == i1 && j2 == j1 {
            None
        } else {
            match text_order(a, i1, i2, b, j1, j2) {
                Order::Equal => order_from(a, i2, b, j2),
                decided => Some(decided),
            }
        }
    }
}

/// The order of `a` against `b` as versions, where the comparison is
/// defined.
pub open spec fn version_text_order(a: Seq<char>, b: Seq<char>) -> Option<Order> {
    order_from(a, 0, b, 0)
}

/// Scanning moves forward and stays within the string.
pub proof fn lemma_scan_bounds(s: Seq<char>, i: int)
    requires
        0 <= i <= s.len(),
    ensures
        i <= segment_start(s, i) <= s.len(),
        i <= digits_end(s, i) <= s.len(),
        i <= letters_end(s, i) <= s.len(),
        i < s.len() && is_digit(s[i]) ==> i < digits_end(s, i),
        i < s.len() && alphabetic(s[i]) ==> i < letters_end(s, i),
    decreases s.len() - i,
{
    if i < s.len() {
        lemma_scan_bounds(s, i + 1);
    }
}

/// Two equal segments have one length.
proof fn lemma_equal_text_has_equal_length(
    a: Seq<char>,
    i: int,
    ie: int,
    b: Seq<char>,
    j: int,
    je: int,
)
    requires
        i <= ie,
        j <= je,
        text_order(a, i, ie, b, j, je) == Order::Equal,
    ensures
        ie - i == je - j,
    decreases ie - i,
{
    if i < ie && j < je {
        lemma_equal_text_has_equal_length(a, i + 1, ie, b, j + 1, je);
    }
}

/// Skips separators.
fn scan_separators(s: &Vec<char>, i: usize) -> (r: usize)
    requires
        i <= s@.len(),
    ensures
        r == segment_start(s@, i as int),
        i <= r <= s@.len(),
{
    let mut k: usize = i;
    while k < s.len() && !char_is_alphanumeric(s[k])
        invariant
            i <= k <= s@.len(),
            segment_start(s@, k as int) == segment_start(s@, i as int),
        decreases s@.len() - k,
    {
        k = k + 1;
    }
    k
}

/// Skips digits.
fn scan_digits(s: &Vec<char>, i: usize) -> (r: usize)
    requires
        i <= s@.len(),
    ensures
        r == digits_end(s@, i as int),
        i <= r <= s@.len(),
{
    let mut k: usize = i;
    while k < s.len() && char_is_digit(s[k])
        invariant
            i <= k <= s@.len(),
            digits_end(s@, k as int) == digits_end(s@, i as int),
        decreases s@.len() - k,
    {
        k = k + 1;
    }
    k
}

/// Skips alphabetic characters.
fn scan_letters(s: &Vec<char>, i: usize) -> (r: usize)
    requires
        i <= s@.len(),
    ensures
        r == letters_end(s@, i as int),
        i <= r <= s@.len(),
{
    let mut k: usize = i;
    while k < s.len() && char_is_alphabetic(s[k])
        invariant
            i <= k <= s@.len(),
            letters_end(s@, k as int) == letters_end(s@, i as int),
        decreases s@.len() - k,
    {
        k = k + 1;
    }
    k
}

/// Compares `a[i..ie]` with `b[j..je]` as strings.
pub fn order_text(a: &Vec<char>, i: usize, ie: usize, b: &Vec<char>, j: usize, je: usize) -> (r:
    Order)
    requires
        i <= ie <= a@.len(),
        j <= je <= b@.len(),
    ensures
        r == text_order(a@, i as int, ie as int, b@, j as int, je as int),
{
    let mut x: usize = i;
    let mut y: usize = j;
    while x < ie && y < je
        invariant
            i <= x <= ie <= a@.len(),
            j <= y <= je <= b@.len(),
            text_order(a@, x as int, ie as int, b@, y as int, je as int) == text_order(
                a@,
                i as int,
                ie as int,
                b@,
                j as int,
                je as int,
            ),
        decreases ie - x,
    {
        if a[x] < b[y] {
            return Order::Less;
        }
        if a[x] > b[y] {
            return Order::Greater;
        }
        x = x + 1;
        y = y + 1;
    }
    if x >= ie && y >= je {
        Order::Equal
    } else if x >= ie {
        Order::Less
    } else {
        Order::Greater
    }
}

/// Compares two version strings, given as characters.  Returns `None` where
/// the comparison is not defined.
pub fn order_versions(a: &Vec<char>, b: &Vec<char>) -> (r: Option<Order>)
    ensures
        r == version_text_order(a@, b@),
{
    let mut i: usize = 0;
    let mut j: usize = 0;
    loop
        invariant
            i <= a@.len(),
            j <= b@.len(),
            order_from(a@, i as int, b@, j as int) == version_text_order(a@, b@),
        decreases (a@.len() - i) + (b@.len() - j),
    {
        let i1: usize = scan_separators(a, i);
        let j1: usize = scan_separators(b, j);
        if i1 >= a.len() && j1 >= b.len() {
            return Some(Order::Equal);
        }
        if i1 >= a.len() {
            return Some(Order::Less);
        }
        if j1 >= b.len() {
            return Some(Order::Greater);
        }
        let a_digit = char_is_digit(a[i1]);
        let b_digit = char_is_digit(b[j1]);
        proof {
            lemma_scan_bounds(a@, i1 as int);
            lemma_scan_bounds(b@, j1 as int);
        }
        if a_digit && b_digit {
            let i2: usize = scan_digits(a, i1);
            let j2: usize = scan_digits(b, j1);
            if i2 - i1 < j2 - j1 {
                return Some(Order::Less);
            }
            if i2 - i1 > j2 - j1 {
                return Some(Order::Greater);
            }
            match order_text(a, i1, i2, b, j1, j2) {
                Order::Equal => {
                    i = i2;
                    j = j2;
                },
                decided => {
                    return Some(decided);
                },
            }
        } else if a_digit {
            return Some(Order::Greater);
        } else if b_digit {
            return Some(Order::Less);
        } else {
            let i2: usize = scan_letters(a, i1);
            let j2: usize = scan_letters(b, j1);
            if i2 == i1 && j2 == j1 {
                return None;
            }
            match order_text(a, i1, i2, b, j1, j2) {
                Order::Equal => {
                    proof {
                        lemma_equal_text_has_equal_length(
                            a@,
                            i1 as int,
                            i2 as int,
                            b@,
                            j1 as int,
                            j2 as int,
                        );
                    }
                    i = i2;
                    j = j2;
                },
                decided => {
                    return Some(decided);
                },
            }
        }
    }
}

} // verus!
