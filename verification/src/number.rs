//! Numbers written in base ten.

use crate::chars::{char_is_digit, is_digit};
use vstd::prelude::*;

verus! {

/// The number that a run of digits writes in base ten.
pub open spec fn digits_value(s: Seq<char>) -> nat
    decreases s.len(),
{
    if s.len() == 0 {
        0
    } else {
        digits_value(s.drop_last()) * 10 + ((s.last() as u32 - '0' as u32) as nat)
    }
}

/// Whether `s` holds digits only.
pub open spec fn all_digits(s: Seq<char>) -> bool {
    forall|k: int| 0 <= k < s.len() ==> is_digit(#[trigger] s[k])
}

/// The number that a run of digits stands for, where it is one, not empty,
/// and of a value that a `u32` can hold.
pub open spec fn parse_digits(digits: Seq<char>) -> Option<u32> {
    if digits.len() == 0 || !all_digits(digits) || digits_value(digits) > u32::MAX {
        None
    } else {
        Some(digits_value(digits) as u32)
    }
}

/// The number that `s` stands for as a decimal `u32`: a run of digits after
/// at most one plus sign.
pub open spec fn parse_u32(s: Seq<char>) -> Option<u32> {
    if s.len() > 0 && s[0] == '+' {
        parse_digits(s.subrange(1, s.len() as int))
    } else {
        parse_digits(s)
    }
}

/// A run of digits is worth no less than the run without its last digit.
proof fn lemma_digits_value_grows(s: Seq<char>)
    requires
        s.len() > 0,
        all_digits(s),
    ensures
        digits_value(s.drop_last()) <= digits_value(s),
        all_digits(s.drop_last()),
{
    assert forall|k: int| 0 <= k < s.drop_last().len() implies is_digit(
        #[trigger] s.drop_last()[k],
    ) by {}
}

/// A run of digits that has outgrown `u32` stays so however it goes on.
proof fn lemma_digits_value_prefix(s: Seq<char>, n: int)
    requires
        0 <= n <= s.len(),
        all_digits(s),
    ensures
        digits_value(s.subrange(0, n)) <= digits_value(s),
    decreases s.len() - n,
{
    if n < s.len() {
        lemma_digits_value_grows(s);
        lemma_digits_value_prefix(s.drop_last(), n);
        assert(s.drop_last().subrange(0, n) =~= s.subrange(0, n));
    } else {
        assert(s.subrange(0, n) =~= s);
    }
}

/// Reads `chars[from..to]` as a run of digits.
pub fn parse_digit_run(chars: &Vec<char>, from: usize, to: usize) -> (r: Option<u32>)
    requires
        from <= to <= chars@.len(),
    ensures
        r == parse_digits(chars@.subrange(from as int, to as int)),
{
    let ghost digits = chars@.subrange(from as int, to as int);
    if from == to {
        return None;
    }
    let mut value: u32 = 0;
    let mut i: usize = from;
    while i < to
        invariant
            from <= i <= to <= chars@.len(),
            digits == chars@.subrange(from as int, to as int),
            all_digits(digits.subrange(0, i - from)),
            value == digits_value(digits.subrange(0, i - from)),
        decreases to - i,
    {
        let c = chars[i];
        let ghost seen = digits.subrange(0, i - from);
        let ghost next = digits.subrange(0, i - from + 1);
        proof {
            assert(next.drop_last() =~= seen);
            assert(next.last() == c);
        }
        if !char_is_digit(c) {
            return None;
        }
        let d: u32 = c as u32 - '0' as u32;
        proof {
            assert forall|k: int| 0 <= k < next.len() implies is_digit(#[trigger] next[k]) by {}
        }
        if value > (u32::MAX - d) / 10 {
            proof {
                if all_digits(digits) {
                    lemma_digits_value_prefix(digits, i - from + 1);
                }
            }
            return None;
        }
        value = value * 10 + d;
        i = i + 1;
    }
    proof {
        assert(digits.subrange(0, i - from) =~= digits);
    }
    Some(value)
}

/// Reads `chars[from..to]` as a decimal `u32`.
pub fn parse_number(chars: &Vec<char>, from: usize, to: usize) -> (r: Option<u32>)
    requires
        from <= to <= chars@.len(),
    ensures
        r == parse_u32(chars@.subrange(from as int, to as int)),
{
    let ghost s = chars@.subrange(from as int, to as int);
    if from < to && chars[from] == '+' {
        assert(chars@.subrange(from + 1, to as int) =~= s.subrange(1, s.len() as int));
        parse_digit_run(chars, from + 1, to)
    } else {
        parse_digit_run(chars, from, to)
    }
}

} // verus!
