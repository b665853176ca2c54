//! Sizes in bytes, written for people.

use crate::text::push_char;
use vstd::prelude::*;

verus! {

/// The bytes in a kibibyte.
pub const KIB: u64 = 1024;

/// The bytes in a mebibyte.
pub const MIB: u64 = 1_048_576;

/// The bytes in a gibibyte.
pub const GIB: u64 = 1_073_741_824;

/// The least number that a double-precision float cannot tell from its
/// successor: two to the power 53.
pub const DOUBLE_LIMIT: u64 = 9_007_199_254_740_992;

/// The digit that stands for `d`, below ten.
pub open spec fn digit(d: nat) -> char {
    ((d + 48) as u8) as char
}

/// `n` written in base ten.
pub open spec fn decimal(n: nat) -> Seq<char>
    decreases n,
{
    if n < 10 {
        seq![digit(n)]
    } else {
        decimal(n / 10).push(digit(n % 10))
    }
}

/// The whole number nearest to `n / d`, the even one of two that are equally
/// near.
pub open spec fn nearest(n: nat, d: nat) -> nat {
    let q = n / d;
    let r = n % d;
    if 2 * r > d || (2 * r == d && q % 2 == 1) {
        q + 1
    } else {
        q
    }
}

/// The power of two of which a double-precision float near `bytes` is a
/// multiple: 1 below two to the power 53, and doubled each time `bytes`
/// doubles from there.
pub open spec fn grain(bytes: nat) -> nat
    decreases bytes,
{
    if bytes < DOUBLE_LIMIT {
        1
    } else {
        grain(bytes / 2) * 2
    }
}

/// The double-precision number nearest to `bytes`: `bytes` itself below two
/// to the power 53, and above it the nearest multiple of the power of two
/// that leaves 53 significant bits.
pub open spec fn nearest_double(bytes: nat) -> nat {
    let g = grain(bytes);
    nearest(bytes, g) * g
}

/// `bytes / unit` to one decimal place: the nearest tenth of the
/// double-precision number nearest to `bytes`, divided by `unit`.
pub open spec fn tenths(bytes: nat, unit: nat) -> nat {
    nearest(nearest_double(bytes) * 10, unit)
}

/// A number of tenths written with one decimal place.
pub open spec fn one_decimal(t: nat) -> Seq<char> {
    decimal(t / 10) + seq!['.'] + decimal(t % 10)
}

/// A size in bytes as people read it: in GB, MB or KB with one decimal
/// place from the first unit that it reaches, in bytes below that.
pub open spec fn size_text(bytes: u64) -> Seq<char> {
    if bytes >= GIB {
        one_decimal(tenths(bytes as nat, GIB as nat)) + " GB"@
    } else if bytes >= MIB {
        one_decimal(tenths(bytes as nat, MIB as nat)) + " MB"@
    } else if bytes >= KIB {
        one_decimal(tenths(bytes as nat, KIB as nat)) + " KB"@
    } else {
        decimal(bytes as nat) + " B"@
    }
}

/// Appends `n` in base ten to `out`.
pub fn push_decimal(out: &mut String, n: u128)
    ensures
        final(out)@ == old(out)@ + decimal(n as nat),
    decreases n,
{
    if n >= 10 {
        push_decimal(out, n / 10);
    }
    let d: u8 = (n % 10) as u8;
    push_char(out, (d + 48) as char);
}

/// Divides and rounds to the nearest whole number, to the even one of two.
fn round_nearest(n: u128, d: u128) -> (r: u128)
    requires
        d > 0,
        n < 0x1_0000_0000_0000_0000_0000,
    ensures
        r == nearest(n as nat, d as nat),
        r <= n / d + 1,
{
    let q: u128 = n / d;
    let r: u128 = n % d;
    if r > d - r || (r == d - r && q % 2 == 1) {
        q + 1
    } else {
        q
    }
}

/// Finds the grain of the double-precision numbers near `bytes`.
fn find_grain(bytes: u64) -> (g: u128)
    ensures
        g == grain(bytes as nat),
        1 <= g <= bytes + 1,
{
    let mut g: u128 = 1;
    let mut rest: u64 = bytes;
    while rest >= DOUBLE_LIMIT
        invariant
            1 <= g <= bytes + 1,
            grain(bytes as nat) == grain(rest as nat) * g,
            rest * g <= bytes,
        decreases rest,
    {
        let half: u64 = rest / 2;
        proof {
            assert(half * (g * 2) <= rest * g) by (nonlinear_arith)
                requires
                    2 * half <= rest,
                    g >= 1,
            ;
            assert(grain(half as nat) * 2 * g == grain(half as nat) * (g * 2))
                by (nonlinear_arith);
            assert(g * 2 <= rest * g) by (nonlinear_arith)
                requires
                    rest >= 2,
                    g >= 1,
            ;
        }
        rest = half;
        g = g * 2;
    }
    assert(grain(rest as nat) * g == g) by (nonlinear_arith)
        requires
            grain(rest as nat) == 1,
    ;
    g
}

/// Sets `bytes / unit` down with one decimal place.
fn push_scaled(out: &mut String, bytes: u64, unit: u64)
    requires
        unit > 0,
    ensures
        final(out)@ == old(out)@ + one_decimal(tenths(bytes as nat, unit as nat)),
{
    let g: u128 = find_grain(bytes);
    let multiple: u128 = round_nearest(bytes as u128, g);
    proof {
        assert(multiple * g <= 0x2_0000_0000_0000_0000) by (nonlinear_arith)
            requires
                multiple <= (bytes as u128) / g + 1,
                1 <= g <= bytes + 1,
                bytes < 0x1_0000_0000_0000_0000,
        ;
    }
    let double: u128 = multiple * g;
    let t: u128 = round_nearest(double * 10, unit as u128);
    push_decimal(out, t / 10);
    push_char(out, '.');
    push_decimal(out, t % 10);
}

/// Format bytes into human readable size
pub fn format_size(bytes: u64) -> (r: String)
    ensures
        r@ == size_text(bytes),
{
    let mut out = String::new();
    if bytes >= GIB {
        push_scaled(&mut out, bytes, GIB);
        out.append(" GB");
    } else if bytes >= MIB {
        push_scaled(&mut out, bytes, MIB);
        out.append(" MB");
    } else if bytes >= KIB {
        push_scaled(&mut out, bytes, KIB);
        out.append(" KB");
    } else {
        push_decimal(&mut out, bytes as u128);
        out.append(" B");
    }
    out
}

} // verus!
