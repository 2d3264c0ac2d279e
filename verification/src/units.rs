//! Human-readable byte sizes: B, KiB, MiB, GiB, TiB.
//!
//! The size is shown in the largest unit (up to TiB) in which it is at least
//! one; bytes are shown as a whole number, every other unit with two decimals.
//! The arithmetic is exact: the count is first rounded to the nearest value a
//! 64-bit float holds (ties to even), divided by the unit, and rounded to two
//! decimals with ties to even, which is what formatting such a float with
//! `{:.2}` shows.

use vstd::prelude::*;
use vstd::arithmetic::div_mod::{lemma_div_denominator, lemma_fundamental_div_mod};
use crate::text::{decimal, decimal_string, digit_char, digit_to_char, push_char};

verus! {

/// `2^k`.
pub open spec fn pow2(k: nat) -> nat
    decreases k,
{
    if k == 0 {
        1
    } else {
        2 * pow2((k - 1) as nat)
    }
}

/// How many low bits of `b` do not fit in the 53-bit significand of a float.
pub open spec fn excess_bits(b: nat) -> nat
    decreases b,
{
    if b < 0x20_0000_0000_0000 {
        0
    } else {
        1 + excess_bits(b / 2)
    }
}

/// `num / den` rounded to the nearest integer, ties to even.
pub open spec fn div_round_even(num: nat, den: nat) -> nat {
    let q = num / den;
    let rem = num % den;
    if 2 * rem > den || (2 * rem == den && q % 2 == 1) {
        q + 1
    } else {
        q
    }
}

/// The value of `b as f64`: `b` rounded to the nearest multiple of
/// `2^excess_bits(b)`, ties to even.
pub open spec fn float_value(b: nat) -> nat {
    let p = pow2(excess_bits(b));
    div_round_even(b, p) * p
}

/// The number of bytes in unit `i` (B, KiB, MiB, GiB, TiB).
pub open spec fn unit_size(i: nat) -> nat {
    if i == 0 {
        1
    } else if i == 1 {
        1024
    } else if i == 2 {
        1048576
    } else if i == 3 {
        1073741824
    } else {
        1099511627776
    }
}

/// The name of unit `i`.
pub open spec fn unit_name(i: nat) -> Seq<char> {
    if i == 0 {
        "B"@
    } else if i == 1 {
        "KiB"@
    } else if i == 2 {
        "MiB"@
    } else if i == 3 {
        "GiB"@
    } else {
        "TiB"@
    }
}

/// The largest unit, up to TiB, in which `v` is at least one.
pub open spec fn unit_index(v: nat) -> nat {
    if v < 1024 {
        0
    } else if v < 1048576 {
        1
    } else if v < 1073741824 {
        2
    } else if v < 1099511627776 {
        3
    } else {
        4
    }
}

/// `num / den` with two decimals, rounded half to even.
pub open spec fn fixed2(num: nat, den: nat) -> Seq<char> {
    let q = div_round_even(num * 100, den);
    decimal(q / 100) + seq!['.', digit_char((q % 100) / 10), digit_char(q % 10)]
}

/// The text shown for `b` bytes.
pub open spec fn format_bytes_spec(b: nat) -> Seq<char> {
    let v = float_value(b);
    let i = unit_index(v);
    if i == 0 {
        decimal(b) + " "@ + unit_name(0)
    } else {
        fixed2(v, unit_size(i)) + " "@ + unit_name(i)
    }
}

/// Below 2^53 every count is exactly what the float holds.
pub proof fn lemma_float_value_exact(b: nat)
    requires
        b < 0x20_0000_0000_0000,
    ensures
        float_value(b) == b,
{
    assert(excess_bits(b) == 0);
    assert(pow2(0) == 1);
}

/// `div_round_even` never rounds by more than one.
proof fn lemma_div_round_even_bounds(num: nat, den: nat)
    requires
        den > 0,
    ensures
        num / den <= div_round_even(num, den) <= num / den + 1,
{
}

fn round_even(num: u128, den: u128) -> (q: u128)
    requires
        den > 0,
        den <= 0x1_0000_0000_0000_0000,
        num < 0xffff_ffff_ffff_ffff_ffff_ffff_ffff_0000,
    ensures
        q == div_round_even(num as nat, den as nat),
{
    let q = num / den;
    let rem = num % den;
    assert(rem < den);
    if 2 * rem > den || (2 * rem == den && q % 2 == 1) {
        assert(q <= num) by (nonlinear_arith)
            requires
                q == num / den,
                den > 0,
        ;
        q + 1
    } else {
        q
    }
}

/// `b as f64`, as an exact integer.
fn float_value_of(b: u64) -> (r: u128)
    ensures
        r == float_value(b as nat),
        r <= 0x2_0000_0000_0000_0000,
{
    let mut t: u64 = b;
    let mut p: u64 = 1;
    let ghost mut e: nat = 0;
    while t >= 0x20_0000_0000_0000
        invariant
            p >= 1,
            t as nat == (b as nat) / (p as nat),
            p as nat == pow2(e),
            excess_bits(b as nat) == e + excess_bits(t as nat),
            p * 0x10_0000_0000_0000 <= (b as nat) || p == 1,
        decreases t,
    {
        proof {
            lemma_div_denominator(b as int, p as int, 2);
            lemma_fundamental_div_mod(b as int, p as int);
            assert(p * 0x20_0000_0000_0000 <= (b as nat)) by (nonlinear_arith)
                requires
                    t >= 0x20_0000_0000_0000,
                    p >= 1,
                    (b as int) == p * (b as int / p as int) + (b as int % p as int),
                    (b as int % p as int) >= 0,
                    t as int == (b as int) / (p as int),
            ;
            assert(p < 0x800) by (nonlinear_arith)
                requires
                    p * 0x20_0000_0000_0000 <= (b as nat),
                    b <= 0xffff_ffff_ffff_ffff,
            ;
        }
        t = t / 2;
        p = p * 2;
        proof {
            e = e + 1;
        }
    }
    let rem = b % p;
    let q: u64 = if 2 * (rem as u128) > p as u128 || (2 * (rem as u128) == p as u128 && t % 2 == 1) {
        t + 1
    } else {
        t
    };
    assert(excess_bits(t as nat) == 0);
    assert(q as nat == div_round_even(b as nat, p as nat));
    proof {
        lemma_fundamental_div_mod(b as int, p as int);
        assert(p <= 0x1000) by (nonlinear_arith)
            requires
                p * 0x10_0000_0000_0000 <= (b as nat) || p == 1,
                b <= 0xffff_ffff_ffff_ffff,
        ;
        assert(q as int * p as int <= 0x2_0000_0000_0000_0000) by (nonlinear_arith)
            requires
                (b as int) == p * (t as int) + (b as int % p as int),
                q <= t + 1,
                (b as int % p as int) >= 0,
                b <= 0xffff_ffff_ffff_ffff,
                p >= 1,
                p <= 0x1000,
        ;
    }
    (q as u128) * (p as u128)
}

/// The name of unit `i`.
fn unit_str(i: u64) -> (s: &'static str)
    ensures
        s@ == unit_name(i as nat),
{
    if i == 0 {
        "B"
    } else if i == 1 {
        "KiB"
    } else if i == 2 {
        "MiB"
    } else if i == 3 {
        "GiB"
    } else {
        "TiB"
    }
}

/// `num / den` with two decimals.
fn fixed2_string(num: u128, den: u128) -> (s: String)
    requires
        den >= 1024,
        den <= 0x1_0000_0000_0000_0000,
        num <= 0x2_0000_0000_0000_0000,
    ensures
        s@ == fixed2(num as nat, den as nat),
{
    let q = round_even(num * 100, den);
    let mut s = decimal_string(q / 100);
    push_char(&mut s, '.');
    push_char(&mut s, digit_to_char(((q % 100) / 10) as u64));
    push_char(&mut s, digit_to_char((q % 10) as u64));
    assert(s@ =~= fixed2(num as nat, den as nat));
    s
}

/// The size `bytes` in the largest fitting unit, e.g. `512 B` or `1.50 KiB`.
pub fn format_bytes(bytes: u64) -> (s: String)
    ensures
        s@ == format_bytes_spec(bytes as nat),
{
    let v = float_value_of(bytes);
    let i: u64 = if v < 1024 {
        0
    } else if v < 1048576 {
        1
    } else if v < 1073741824 {
        2
    } else if v < 1099511627776 {
        3
    } else {
        4
    };
    if i == 0 {
        let mut s = decimal_string(bytes as u128);
        s.append(" ");
        s.append(unit_str(0));
        s
    } else {
        let den: u128 = if i == 1 {
            1024
        } else if i == 2 {
            1048576
        } else if i == 3 {
            1073741824
        } else {
            1099511627776
        };
        let mut s = fixed2_string(v, den);
        s.append(" ");
        s.append(unit_str(i));
        s
    }
}

/// Bytes are always shown as a whole number: below 1024 the text is the
/// decimal count followed by ` B`.
pub proof fn law_bytes_are_whole(b: nat)
    requires
        b < 1024,
    ensures
        format_bytes_spec(b) == decimal(b) + " "@ + "B"@,
{
    lemma_float_value_exact(b);
}

/// Counts from 2^53 on keep at least 52 significant bits in a float.
proof fn lemma_excess_bits(b: nat)
    ensures
        pow2(excess_bits(b)) >= 1,
        b / pow2(excess_bits(b)) < 0x20_0000_0000_0000,
        b >= 0x20_0000_0000_0000 ==> b / pow2(excess_bits(b)) >= 0x10_0000_0000_0000,
    decreases b,
{
    if b >= 0x20_0000_0000_0000 {
        lemma_excess_bits(b / 2);
        let e = excess_bits(b / 2);
        lemma_div_denominator(b as int, 2, pow2(e) as int);
        assert(pow2(e + 1) == 2 * pow2(e));
        assert(excess_bits(b) == e + 1);
    }
}

/// From 1024 bytes on the size is shown in KiB, MiB, GiB or TiB, with two
/// decimals: the unit is the largest one that is at most the (float) count,
/// and below 2^53 bytes that count is exact.
pub proof fn law_larger_units_have_two_decimals(b: nat)
    requires
        1024 <= b,
    ensures
        ({
            let v = float_value(b);
            let i = unit_index(v);
            &&& 1 <= i <= 4
            &&& unit_size(i) <= v
            &&& i < 4 ==> v < 1024 * unit_size(i)
            &&& format_bytes_spec(b) == fixed2(v, unit_size(i)) + " "@ + unit_name(i)
        }),
        b < 0x20_0000_0000_0000 ==> float_value(b) == b,
{
    if b < 0x20_0000_0000_0000 {
        lemma_float_value_exact(b);
    } else {
        lemma_excess_bits(b);
        let p = pow2(excess_bits(b));
        let t = b / p;
        lemma_div_round_even_bounds(b, p);
        assert(div_round_even(b, p) * p >= t * p) by (nonlinear_arith)
            requires
                div_round_even(b, p) >= t,
                p >= 1,
        ;
        assert(t * p >= t) by (nonlinear_arith)
            requires
                p >= 1,
                t >= 0,
        ;
    }
}

} // verus!
