//! Exporting a thread: what the client says of the file it was handed.
use crate::text::{decimal, push_decimal};
use vstd::prelude::*;

verus! {

/// A quotient rounded to the nearest integer, and to the even one of two that
/// are equally near.
pub open spec fn round_half_even(n: nat, d: nat) -> nat
    recommends
        d > 0,
{
    let q = n / d;
    let r = n % d;
    if 2 * r > d || (2 * r == d && q % 2 == 1) {
        q + 1
    } else {
        q
    }
}

/// The smallest power of two that brings `n` below the 53 bits of a
/// double-precision significand.
pub open spec fn float_unit(n: nat, unit: nat) -> nat
    decreases n / unit,
    when unit > 0
{
    if n / unit < 0x20_0000_0000_0000 {
        unit
    } else {
        proof {
            vstd::arithmetic::div_mod::lemma_div_denominator(n as int, unit as int, 2);
        }
        float_unit(n, unit * 2)
    }
}

/// A count as a double-precision number holds it.
pub open spec fn as_double(n: nat) -> nat {
    round_half_even(n, float_unit(n, 1)) * float_unit(n, 1)
}

/// One digit after the point.
pub open spec fn with_tenths(tenths: nat) -> Seq<char> {
    decimal(tenths / 10) + seq!['.'] + decimal(tenths % 10)
}

/// A size in the unit that fits it.
pub open spec fn size_text(bytes: nat) -> Seq<char> {
    if bytes < 1024 {
        decimal(bytes) + " B"@
    } else if bytes < 1024 * 1024 {
        with_tenths(round_half_even(bytes * 10, 1024)) + " KB"@
    } else {
        with_tenths(round_half_even(as_double(bytes) * 10, 1024 * 1024)) + " MB"@
    }
}

fn rounded(n: u128, d: u128) -> (q: u128)
    requires
        0 < d <= 0x1_0000_0000_0000_0000,
        n < 0x1000_0000_0000_0000_0000_0000,
    ensures
        q == round_half_even(n as nat, d as nat),
{
    let q: u128 = n / d;
    let r: u128 = n % d;
    assert(q <= n) by (nonlinear_arith)
        requires
            q == n / d,
            d > 0,
    ;
    if 2 * r > d || (2 * r == d && q % 2 == 1) {
        q + 1
    } else {
        q
    }
}

fn to_double(bytes: u64) -> (value: u128)
    ensures
        value == as_double(bytes as nat),
        value <= 0x1_0000_0000_0000_0000,
{
    let n: u128 = bytes as u128;
    let mut unit: u128 = 1;
    while n / unit >= 0x20_0000_0000_0000
        invariant
            n == bytes,
            1 <= unit <= 0x1000,
            float_unit(n as nat, unit as nat) == float_unit(n as nat, 1),
            unit == 1 || unit == 2 || unit == 4 || unit == 8 || unit == 16 || unit == 32 || unit
                == 64 || unit == 128 || unit == 256 || unit == 512 || unit == 1024 || unit == 2048,
        decreases 0x1000 - unit,
    {
        assert(unit < 2048) by {
            if unit == 2048 {
                assert(n / 2048 < 0x20_0000_0000_0000);
            }
        }
        unit = unit * 2;
    }
    let q: u128 = rounded(n, unit);
    assert(q <= 0x20_0000_0000_0000);
    assert(q * unit <= 0x1_0000_0000_0000_0000) by {
        if unit == 2048 {
            assert(q <= 0x20_0000_0000_0000);
        }
        assert(q * unit <= 0x20_0000_0000_0000 * 2048) by (nonlinear_arith)
            requires
                q <= 0x20_0000_0000_0000,
                unit <= 2048,
        ;
    }
    q * unit
}

fn push_tenths(text: &mut String, tenths: u64)
    ensures
        final(text)@ == old(text)@ + with_tenths(tenths as nat),
{
    push_decimal(text, tenths / 10);
    text.push('.');
    push_decimal(text, tenths % 10);
    assert(text@ =~= old(text)@ + with_tenths(tenths as nat));
}

/// A size in the unit that fits it.
pub fn format_size(bytes: usize) -> (text: String)
    ensures
        text@ == size_text(bytes as nat),
{
    let bytes: u64 = bytes as u64;
    let mut text = String::new();
    if bytes < 1024 {
        push_decimal(&mut text, bytes);
        text.append(" B");
        assert(text@ =~= size_text(bytes as nat));
    } else if bytes < 1024 * 1024 {
        let tenths: u64 = rounded(bytes as u128 * 10, 1024) as u64;
        push_tenths(&mut text, tenths);
        text.append(" KB");
        assert(text@ =~= size_text(bytes as nat));
    } else {
        let value: u128 = to_double(bytes);
        let tenths: u64 = rounded(value * 10, 1024 * 1024) as u64;
        push_tenths(&mut text, tenths);
        text.append(" MB");
        assert(text@ =~= size_text(bytes as nat));
    }
    text
}

/// A number rounds to the nearest whole, and from halfway between two to the even one.
pub proof fn law_rounding_is_to_the_nearest(n: nat, d: nat)
    requires
        d > 0,
    ensures
        ({
            let q = round_half_even(n, d) as int;
            &&& -(d as int) <= 2 * (q * d - n) <= d
            &&& 2 * (q * d - n) == d || 2 * (q * d - n) == -(d as int) ==> q % 2 == 0
        }),
{
    let q = n as int / d as int;
    let r = n as int % d as int;
    assert(n == q * d + r && 0 <= r < d) by {
        vstd::arithmetic::div_mod::lemma_fundamental_div_mod(n as int, d as int);
        vstd::arithmetic::div_mod::lemma_mod_bound(n as int, d as int);
        vstd::arithmetic::mul::lemma_mul_is_commutative(q, d as int);
    }
    assert((q + 1) * d == q * d + d) by (nonlinear_arith);
}

/// Sizes below a kilobyte are told in bytes, below a megabyte in kilobytes, and else in
/// megabytes, with one digit behind the point.
pub proof fn law_sizes_are_told_in_their_unit(bytes: nat)
    ensures
        bytes < 1024 ==> size_text(bytes) == decimal(bytes) + seq![' ', 'B'],
        1024 <= bytes < 1_048_576 ==> {
            let tenths = round_half_even(bytes * 10, 1024);
            size_text(bytes) == decimal(tenths / 10) + seq!['.'] + decimal(tenths % 10)
                + seq![' ', 'K', 'B']
        },
        bytes >= 1_048_576 ==> {
            let tenths = round_half_even(as_double(bytes) * 10, 1_048_576);
            size_text(bytes) == decimal(tenths / 10) + seq!['.'] + decimal(tenths % 10)
                + seq![' ', 'M', 'B']
        },
        bytes < 0x20_0000_0000_0000 ==> as_double(bytes) == bytes,
{
    reveal_strlit(" B");
    reveal_strlit(" KB");
    reveal_strlit(" MB");
    assert(" B"@ =~= seq![' ', 'B']);
    assert(" KB"@ =~= seq![' ', 'K', 'B']);
    assert(" MB"@ =~= seq![' ', 'M', 'B']);
    if bytes < 0x20_0000_0000_0000 {
        assert(float_unit(bytes, 1) == 1);
        assert(bytes % 1 == 0 && bytes / 1 == bytes);
    }
}

} // verus!
