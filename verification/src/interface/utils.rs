//! Display helpers of the interface: byte counts in binary units.
//!
//! A byte count is shown the way a program computes it with 64-bit floats:
//! the count is converted to `f64`, divided by 1024 while it is at least
//! 1024 (up to terabytes), and printed with two decimals. All of this is
//! done here in exact integer arithmetic.

use vstd::prelude::*;

use crate::text::{digit_char, push_char, push_decimal, push_decimal_u128, push_str, spec_decimal, spec_digit_char};

verus! {

/// `n / d` rounded to the nearest integer, halves to the even neighbour.
pub open spec fn spec_div_round_half_even(n: nat, d: nat) -> nat {
    let q = n / d;
    let r = n % d;
    if 2 * r > d || (2 * r == d && q % 2 == 1) {
        q + 1
    } else {
        q
    }
}

/// 2 to the power `e`.
pub open spec fn spec_pow2(e: nat) -> nat
    decreases e,
{
    if e == 0 {
        1
    } else {
        2 * spec_pow2((e - 1) as nat)
    }
}

/// The number of low bits that must go for `b` to fit in the 53 significant
/// bits of a 64-bit float.
pub open spec fn spec_f64_shift(b: nat) -> nat
    decreases b,
{
    if b < 0x20_0000_0000_0000 {
        0
    } else {
        1 + spec_f64_shift(b / 2)
    }
}

/// The value of `b as f64`: `b` rounded to 53 significant bits, halves to
/// even.
pub open spec fn spec_u64_as_f64(b: nat) -> nat {
    let p = spec_pow2(spec_f64_shift(b));
    spec_div_round_half_even(b, p) * p
}

/// 1024 to the power `k`.
pub open spec fn spec_kib_power(k: nat) -> nat
    decreases k,
{
    if k == 0 {
        1
    } else {
        1024 * spec_kib_power((k - 1) as nat)
    }
}

/// The unit a size is shown in: the largest `k` up to 4 with `f` at least
/// `1024^k`.
pub open spec fn spec_unit_index(f: nat) -> nat {
    if f >= spec_kib_power(4) {
        4
    } else if f >= spec_kib_power(3) {
        3
    } else if f >= spec_kib_power(2) {
        2
    } else if f >= spec_kib_power(1) {
        1
    } else {
        0
    }
}

/// The name of unit `k`.
pub open spec fn spec_unit_name(k: nat) -> Seq<char> {
    if k == 1 {
        "KB"@
    } else if k == 2 {
        "MB"@
    } else if k == 3 {
        "GB"@
    } else if k == 4 {
        "TB"@
    } else {
        "B"@
    }
}

/// The text of a byte count: "0 B" for zero; below 1024 the count itself and
/// " B"; otherwise the count as a 64-bit float divided by `1024^k` for its
/// unit `k`, with two decimals (rounded, halves to even), and the unit.
pub open spec fn spec_format_bytes(bytes: nat) -> Seq<char> {
    if bytes == 0 {
        "0 B"@
    } else {
        let f = spec_u64_as_f64(bytes);
        let k = spec_unit_index(f);
        if k == 0 {
            spec_decimal(bytes) + " B"@
        } else {
            let q = spec_div_round_half_even(f * 100, spec_kib_power(k));
            spec_decimal(q / 100) + seq!['.', spec_digit_char((q % 100) / 10), spec_digit_char(q % 10)]
                + seq![' '] + spec_unit_name(k)
        }
    }
}

fn div_round_half_even(n: u128, d: u128) -> (q: u128)
    requires
        0 < d < 0x10_0000_0000_0000_0000_0000_0000,
        n < 0x10_0000_0000_0000_0000_0000_0000,
    ensures
        q == spec_div_round_half_even(n as nat, d as nat),
{
    let q = n / d;
    let r = n % d;
    if 2 * r > d || (2 * r == d && q % 2 == 1) {
        q + 1
    } else {
        q
    }
}

/// The value of `b as f64`, as an integer.
fn u64_as_f64(b: u64) -> (f: u128)
    ensures
        f == spec_u64_as_f64(b as nat),
        f <= 0x2_0000_0000_0000_0000,
{
    let mut x: u64 = b;
    let mut p: u128 = 1;
    let ghost mut i: nat = 0;
    while x >= 0x20_0000_0000_0000
        invariant
            p == spec_pow2(i),
            1 <= p <= 0x1000,
            x as nat == b as nat / p as nat,
            spec_f64_shift(b as nat) == i + spec_f64_shift(x as nat),
        decreases x,
    {
        proof {
            vstd::arithmetic::div_mod::lemma_div_denominator(b as int, p as int, 2);
            vstd::arithmetic::div_mod::lemma_fundamental_div_mod(b as int, p as int);
            let r = b as int % p as int;
            assert(p * 0x20_0000_0000_0000 <= b) by (nonlinear_arith)
                requires
                    b == p * x + r,
                    0 <= r,
                    x >= 0x20_0000_0000_0000,
                    p >= 1,
            ;
        }
        x = x / 2;
        p = p * 2;
        proof {
            i = i + 1;
        }
    }
    assert(spec_f64_shift(x as nat) == 0);
    let q = div_round_half_even(b as u128, p);
    assert(q <= 0x20_0000_0000_0000);
    assert(q * p <= 0x2_0000_0000_0000_0000) by (nonlinear_arith)
        requires
            q <= 0x20_0000_0000_0000,
            p <= 0x1000,
    ;
    q * p
}

/// Append the name of unit `k`.
fn push_unit_name(s: &mut String, k: u32)
    requires
        1 <= k <= 4,
    ensures
        final(s)@ == old(s)@ + spec_unit_name(k as nat),
{
    if k == 1 {
        push_str(s, "KB");
    } else if k == 2 {
        push_str(s, "MB");
    } else if k == 3 {
        push_str(s, "GB");
    } else {
        push_str(s, "TB");
    }
}

/// Format bytes for display: "0 B", "1023 B", "1.50 KB", "1.00 GB", up to
/// terabytes.
pub fn format_bytes(bytes: u64) -> (s: String)
    ensures
        s@ == spec_format_bytes(bytes as nat),
{
    let mut s = String::new();
    if bytes == 0 {
        push_str(&mut s, "0 B");
        assert(s@ =~= spec_format_bytes(bytes as nat));
        return s;
    }
    let f = u64_as_f64(bytes);
    assert(spec_kib_power(1) == 1024 && spec_kib_power(2) == 1048576 && spec_kib_power(3)
        == 1073741824 && spec_kib_power(4) == 1099511627776) by {
        reveal_with_fuel(spec_kib_power, 5);
    }
    let (k, scale): (u32, u128) = if f >= 1099511627776 {
        (4, 1099511627776)
    } else if f >= 1073741824 {
        (3, 1073741824)
    } else if f >= 1048576 {
        (2, 1048576)
    } else if f >= 1024 {
        (1, 1024)
    } else {
        (0, 1)
    };
    assert(k as nat == spec_unit_index(f as nat));
    if k == 0 {
        push_decimal(&mut s, bytes);
        push_str(&mut s, " B");
        assert(s@ =~= spec_format_bytes(bytes as nat));
        return s;
    }
    assert(scale as nat == spec_kib_power(k as nat));
    let q = div_round_half_even(f * 100, scale);
    push_decimal_u128(&mut s, q / 100);
    push_char(&mut s, '.');
    push_char(&mut s, digit_char(((q % 100) / 10) as u64));
    push_char(&mut s, digit_char((q % 10) as u64));
    push_char(&mut s, ' ');
    push_unit_name(&mut s, k);
    assert(s@ =~= spec_format_bytes(bytes as nat));
    s
}

} // verus!
