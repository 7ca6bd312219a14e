//! Sizes in bytes as short text: `500 B`, `1.0 KB`, `2.5 MB`.
//!
//! A size below 1024 is written as it is. A larger one is divided by the
//! largest of 1024, 1024², 1024³ and 1024⁴ that does not exceed it, and
//! written with one decimal. The size is taken at double precision, which
//! holds 53 significant bits: above 2⁵³ bytes it is first rounded to the
//! nearest value that such a number can hold. Both roundings, to double
//! precision and to one decimal, go to the nearest value and take the even
//! one of two that are equally near. All of this is computed on integers.

use vstd::arithmetic::div_mod::{lemma_div_denominator, lemma_fundamental_div_mod};
use vstd::prelude::*;
use vstd::string::*;
use crate::utils::{decimal, digit, digit_char, push_decimal};

verus! {

/// The least size that double precision cannot always hold exactly: 2⁵³.
pub const DOUBLE_LIMIT: u64 = 9007199254740992;

/// Which unit a size is written in: 0 for bytes, up to 4 for terabytes.
pub open spec fn unit_index(bytes: nat) -> nat {
    if bytes < 1024 {
        0
    } else if bytes < 1048576 {
        1
    } else if bytes < 1073741824 {
        2
    } else if bytes < 1099511627776 {
        3
    } else {
        4
    }
}

/// The number of bytes in the unit with the given index.
pub open spec fn unit_size(index: nat) -> nat {
    if index == 0 {
        1
    } else if index == 1 {
        1024
    } else if index == 2 {
        1048576
    } else if index == 3 {
        1073741824
    } else {
        1099511627776
    }
}

/// The name of the unit with the given index.
pub open spec fn unit_name(index: nat) -> Seq<char> {
    if index == 0 {
        "B"@
    } else if index == 1 {
        "KB"@
    } else if index == 2 {
        "MB"@
    } else if index == 3 {
        "GB"@
    } else {
        "TB"@
    }
}

/// `n / d` rounded to the nearest whole number; of two that are equally
/// near, the even one.
pub open spec fn round_half_even(n: nat, d: nat) -> nat
    recommends
        d > 0,
{
    if 2 * (n % d) > d || (2 * (n % d) == d && (n / d) % 2 == 1) {
        n / d + 1
    } else {
        n / d
    }
}

/// The spacing of the values that double precision can hold around `n`:
/// the least power of two that brings `n` below 2⁵³ when dividing it.
pub open spec fn double_scale(n: nat) -> nat
    decreases n,
{
    if n < DOUBLE_LIMIT {
        1
    } else {
        2 * double_scale(n / 2)
    }
}

/// `n` as double precision holds it.
pub open spec fn nearest_double(n: nat) -> nat {
    round_half_even(n, double_scale(n)) * double_scale(n)
}

/// The size in tenths of its unit.
pub open spec fn size_tenths(bytes: nat) -> nat {
    round_half_even(nearest_double(bytes) * 10, unit_size(unit_index(bytes)))
}

/// The text of a size.
pub open spec fn file_size_text(bytes: nat) -> Seq<char> {
    if unit_index(bytes) == 0 {
        decimal(bytes) + " B"@
    } else {
        decimal(size_tenths(bytes) / 10) + seq!['.', digit_char((size_tenths(bytes) % 10) as int), ' ']
            + unit_name(unit_index(bytes))
    }
}

/// A power of two from 1 to 2048.
pub open spec fn is_spacing(s: int) -> bool {
    s == 1 || s == 2 || s == 4 || s == 8 || s == 16 || s == 32 || s == 64 || s == 128 || s == 256
        || s == 512 || s == 1024 || s == 2048
}

/// `n / d` rounded to the nearest whole number, ties to even.
pub fn rounded_quotient(n: u128, d: u128) -> (q: u128)
    requires
        0 < d <= 0x1_0000_0000_0000_0000,
        n < 0x1_0000_0000_0000_0000_0000,
    ensures
        q == round_half_even(n as nat, d as nat),
        q <= n / d + 1,
{
    let whole: u128 = n / d;
    let rest: u128 = n % d;
    if 2 * rest > d || (2 * rest == d && whole % 2 == 1) {
        whole + 1
    } else {
        whole
    }
}

/// `bytes` as double precision holds it.
pub fn to_nearest_double(bytes: u64) -> (held: u128)
    ensures
        held == nearest_double(bytes as nat),
        held <= bytes + 2048,
        bytes < DOUBLE_LIMIT ==> held == bytes,
{
    let mut scale: u64 = 1;
    let mut rest: u64 = bytes;
    while rest >= DOUBLE_LIMIT
        invariant
            is_spacing(scale as int),
            bytes < DOUBLE_LIMIT ==> scale == 1,
            rest == bytes / scale,
            double_scale(bytes as nat) == scale * double_scale(rest as nat),
            scale * rest <= bytes,
        decreases rest,
    {
        proof {
            let b = bytes as int;
            let s = scale as int;
            let r = rest as int;
            lemma_div_denominator(b, s, 2);
            lemma_fundamental_div_mod(b, s * 2);
            assert((s * 2) * (r / 2) <= b) by (nonlinear_arith)
                requires
                    b == (s * 2) * (b / (s * 2)) + b % (s * 2),
                    r / 2 == b / (s * 2),
                    0 <= b % (s * 2),
            ;
            assert(s < 2048) by (nonlinear_arith)
                requires
                    s * r <= b,
                    r >= 9007199254740992,
                    b < 0x1_0000_0000_0000_0000,
                    s > 0,
            ;
            assert(s * (2 * double_scale((r / 2) as nat)) == (s * 2) * double_scale(
                (r / 2) as nat,
            )) by (nonlinear_arith);
        }
        rest = rest / 2;
        scale = scale * 2;
    }
    assert(double_scale(rest as nat) == 1);
    assert(double_scale(bytes as nat) == scale) by (nonlinear_arith)
        requires
            double_scale(bytes as nat) == scale * double_scale(rest as nat),
            double_scale(rest as nat) == 1,
    ;
    let quotient: u128 = rounded_quotient(bytes as u128, scale as u128);
    proof {
        let b = bytes as int;
        let s = scale as int;
        let q = quotient as int;
        lemma_fundamental_div_mod(b, s);
        assert(q * s <= b + s) by (nonlinear_arith)
            requires
                q <= b / s + 1,
                b == s * (b / s) + b % s,
                0 <= b % s,
                0 < s,
        ;
    }
    quotient * (scale as u128)
}

/// The index of the unit that `bytes` is written in.
pub fn unit_index_of(bytes: u64) -> (index: usize)
    ensures
        index == unit_index(bytes as nat),
        index <= 4,
{
    if bytes < 1024 {
        0
    } else if bytes < 1048576 {
        1
    } else if bytes < 1073741824 {
        2
    } else if bytes < 1099511627776 {
        3
    } else {
        4
    }
}

/// The number of bytes in the unit with the given index.
pub fn unit_size_of(index: usize) -> (size: u64)
    ensures
        size == unit_size(index as nat),
        0 < size <= 1099511627776,
{
    if index == 0 {
        1
    } else if index == 1 {
        1024
    } else if index == 2 {
        1048576
    } else if index == 3 {
        1073741824
    } else {
        1099511627776
    }
}

/// The name of the unit with the given index.
pub fn unit_name_of(index: usize) -> (name: &'static str)
    ensures
        name@ == unit_name(index as nat),
{
    if index == 0 {
        "B"
    } else if index == 1 {
        "KB"
    } else if index == 2 {
        "MB"
    } else if index == 3 {
        "GB"
    } else {
        "TB"
    }
}

/// A size in bytes as text: whole bytes below 1024, and one decimal of
/// the largest fitting unit from there on.
pub fn format_file_size(bytes: u64) -> (text: String)
    ensures
        text@ == file_size_text(bytes as nat),
{
    let index = unit_index_of(bytes);
    let mut text = String::new();
    if index == 0 {
        push_decimal(&mut text, bytes);
        text.append(" B");
        return text;
    }
    let held: u128 = to_nearest_double(bytes);
    let size: u128 = unit_size_of(index) as u128;
    let tenths: u128 = rounded_quotient(held * 10, size);
    assert(tenths <= 0xFFFF_FFFF_FFFF_FFFF) by {
        let n = held as int * 10;
        let d = size as int;
        assert(n / d <= n) by (nonlinear_arith)
            requires
                d >= 1,
                n >= 0,
        ;
    }
    let tenths: u64 = tenths as u64;
    push_decimal(&mut text, tenths / 10);
    text.push('.');
    text.push(digit(tenths % 10));
    text.push(' ');
    text.append(unit_name_of(index));
    text
}

} // verus!
