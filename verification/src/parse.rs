//! Reading whole numbers and comma-separated lists from text.
//!
//! A number is an optional sign followed by one or more ASCII digits, and
//! nothing else: no blanks, no separators. A minus sign is accepted only
//! where the number may be negative. A number that does not fit its type
//! is no number.

use vstd::prelude::*;
use crate::text::{to_chars, trim, trim_range};

verus! {

/// An ASCII decimal digit.
pub open spec fn is_digit(c: char) -> bool {
    '0' <= c <= '9'
}

/// Every character of `s` is a digit.
pub open spec fn all_digits(s: Seq<char>) -> bool {
    forall|i: int| 0 <= i < s.len() ==> is_digit(#[trigger] s[i])
}

/// The number that the digits `s` write in decimal.
pub open spec fn digits_value(s: Seq<char>) -> int
    decreases s.len(),
{
    if s.len() == 0 {
        0
    } else {
        digits_value(s.drop_last()) * 10 + (s.last() as int - 48)
    }
}

/// The number that `s` writes, where it is one or more digits.
pub open spec fn unsigned_value(s: Seq<char>) -> Option<int> {
    if s.len() > 0 && all_digits(s) {
        Some(digits_value(s))
    } else {
        None
    }
}

/// The whole number that `s` writes: digits with an optional `+` in
/// front, or, where `signed`, with a `-` in front.
pub open spec fn integer_value(s: Seq<char>, signed: bool) -> Option<int> {
    if s.len() > 0 && s[0] == '+' {
        unsigned_value(s.drop_first())
    } else if s.len() > 0 && s[0] == '-' && signed {
        match unsigned_value(s.drop_first()) {
            Some(v) => Some(-v),
            None => None,
        }
    } else {
        unsigned_value(s)
    }
}

/// The number that `s` writes, where it lies between `low` and `high`.
pub open spec fn bounded_value(s: Seq<char>, signed: bool, low: int, high: int) -> Option<int> {
    match integer_value(s, signed) {
        Some(v) => if low <= v <= high {
            Some(v)
        } else {
            None
        },
        None => None,
    }
}

/// `s` read as an `i64`.
pub open spec fn i64_value(s: Seq<char>) -> Option<i64> {
    match bounded_value(s, true, i64::MIN as int, i64::MAX as int) {
        Some(v) => Some(v as i64),
        None => None,
    }
}

/// `s` read as an `i32`.
pub open spec fn i32_value(s: Seq<char>) -> Option<i32> {
    match bounded_value(s, true, i32::MIN as int, i32::MAX as int) {
        Some(v) => Some(v as i32),
        None => None,
    }
}

/// `s` read as a `u64`.
pub open spec fn u64_value(s: Seq<char>) -> Option<u64> {
    match bounded_value(s, false, 0, u64::MAX as int) {
        Some(v) => Some(v as u64),
        None => None,
    }
}

/// The pieces of `s` between occurrences of `separator`. There is always
/// at least one piece; text without a separator is its own only piece.
pub open spec fn split(s: Seq<char>, separator: char) -> Seq<Seq<char>>
    decreases s.len(),
{
    if s.len() == 0 {
        seq![Seq::empty()]
    } else if s.last() == separator {
        split(s.drop_last(), separator).push(Seq::empty())
    } else {
        let pieces = split(s.drop_last(), separator);
        pieces.drop_last().push(pieces.last().push(s.last()))
    }
}

/// The numbers among `pieces`: each piece is trimmed and read as an
/// `i64`, and a piece that is no number is passed over.
pub open spec fn numbers_among(pieces: Seq<Seq<char>>) -> Seq<i64>
    decreases pieces.len(),
{
    if pieces.len() == 0 {
        Seq::empty()
    } else {
        match i64_value(trim(pieces.last())) {
            Some(v) => numbers_among(pieces.drop_last()).push(v),
            None => numbers_among(pieces.drop_last()),
        }
    }
}

/// The numbers in a comma-separated list.
pub open spec fn id_list(s: Seq<char>) -> Seq<i64> {
    numbers_among(split(s, ','))
}

/// Digits write a number that is not negative.
pub proof fn lemma_digits_value_nonnegative(s: Seq<char>)
    requires
        all_digits(s),
    ensures
        0 <= digits_value(s),
    decreases s.len(),
{
    if s.len() > 0 {
        assert(is_digit(s.last()));
        lemma_digits_value_nonnegative(s.drop_last());
    }
}

/// The value of the digits `v[from..to]`, where they are digits and write
/// a number up to `limit`; `None` otherwise.
pub fn read_digits(v: &Vec<char>, from: usize, to: usize, limit: u64) -> (value: Option<u64>)
    requires
        from <= to <= v@.len(),
    ensures
        value == match unsigned_value(v@.subrange(from as int, to as int)) {
            Some(n) => if n <= limit {
                Some(n as u64)
            } else {
                None
            },
            None => None,
        },
{
    if from == to {
        return None;
    }
    let ghost s = v@.subrange(from as int, to as int);
    let mut value: u64 = 0;
    let mut too_large = false;
    let mut i: usize = from;
    assert(s.take(0) == Seq::<char>::empty());
    while i < to
        invariant
            from <= i <= to <= v@.len(),
            s == v@.subrange(from as int, to as int),
            all_digits(s.take(i - from)),
            !too_large ==> value == digits_value(s.take(i - from)) && value <= limit,
            too_large ==> digits_value(s.take(i - from)) > limit,
        decreases to - i,
    {
        let c = v[i];
        if !('0' <= c && c <= '9') {
            assert(!is_digit(s[i - from]));
            return None;
        }
        let d: u64 = (c as u8 - 48) as u64;
        proof {
            let next = s.take(i - from + 1);
            assert(next.drop_last() == s.take(i - from));
            assert(next.last() == c);
            lemma_digits_value_nonnegative(s.take(i - from));
        }
        if !too_large {
            if limit < d || value > (limit - d) / 10 {
                too_large = true;
            } else {
                value = value * 10 + d;
            }
        }
        i = i + 1;
    }
    assert(s.take(to - from) == s);
    if too_large {
        None
    } else {
        Some(value)
    }
}

/// The whole number that `v[from..to]` writes, where it lies between
/// `low` and `high`; `None` otherwise.
pub fn read_integer(v: &Vec<char>, from: usize, to: usize, signed: bool, low: i128, high: i128) -> (value:
    Option<i128>)
    requires
        from <= to <= v@.len(),
        -0xFFFF_FFFF_FFFF_FFFF <= low <= 0 <= high <= 0xFFFF_FFFF_FFFF_FFFF,
    ensures
        value == match bounded_value(v@.subrange(from as int, to as int), signed, low as int, high as int) {
            Some(n) => Some(n as i128),
            None => None,
        },
{
    if from == to {
        return None;
    }
    let ghost s = v@.subrange(from as int, to as int);
    let first = v[from];
    assert(s[0] == first);
    assert(s.drop_first() == v@.subrange(from + 1, to as int));
    proof {
        if all_digits(s.drop_first()) {
            lemma_digits_value_nonnegative(s.drop_first());
        }
        if all_digits(s) {
            lemma_digits_value_nonnegative(s);
        }
    }
    if first == '+' {
        match read_digits(v, from + 1, to, high as u64) {
            Some(n) => Some(n as i128),
            None => None,
        }
    } else if first == '-' && signed {
        match read_digits(v, from + 1, to, (-low) as u64) {
            Some(n) => Some(-(n as i128)),
            None => None,
        }
    } else {
        match read_digits(v, from, to, high as u64) {
            Some(n) => Some(n as i128),
            None => None,
        }
    }
}

/// `text` read as an `i64`.
pub fn parse_i64(text: &str) -> (value: Option<i64>)
    ensures
        value == i64_value(text@),
{
    let v = to_chars(text);
    assert(v@.subrange(0, v@.len() as int) == v@);
    match read_integer(&v, 0, v.len(), true, -0x8000_0000_0000_0000, 0x7FFF_FFFF_FFFF_FFFF) {
        Some(n) => Some(n as i64),
        None => None,
    }
}

/// `text` read as an `i32`.
pub fn parse_i32(text: &str) -> (value: Option<i32>)
    ensures
        value == i32_value(text@),
{
    let v = to_chars(text);
    assert(v@.subrange(0, v@.len() as int) == v@);
    match read_integer(&v, 0, v.len(), true, -0x8000_0000, 0x7FFF_FFFF) {
        Some(n) => Some(n as i32),
        None => None,
    }
}

/// `text` read as a `u64`.
pub fn parse_u64(text: &str) -> (value: Option<u64>)
    ensures
        value == u64_value(text@),
{
    let v = to_chars(text);
    assert(v@.subrange(0, v@.len() as int) == v@);
    match read_integer(&v, 0, v.len(), false, 0, 0xFFFF_FFFF_FFFF_FFFF) {
        Some(n) => Some(n as u64),
        None => None,
    }
}

/// The numbers in a comma-separated list: each piece is trimmed and read
/// as an `i64`; what is no number is passed over.
pub fn parse_id_list(text: &str) -> (ids: Vec<i64>)
    ensures
        ids@ == id_list(text@),
{
    let v = to_chars(text);
    let mut ids: Vec<i64> = Vec::new();
    let mut start: usize = 0;
    let mut i: usize = 0;
    assert(v@.take(0) == Seq::<char>::empty());
    assert(seq![Seq::<char>::empty()].drop_last() == Seq::<Seq<char>>::empty());
    assert(v@.subrange(0, 0) == Seq::<char>::empty());
    while i < v.len()
        invariant
            start <= i <= v@.len(),
            split(v@.take(i as int), ',').len() >= 1,
            split(v@.take(i as int), ',').last() == v@.subrange(start as int, i as int),
            ids@ == numbers_among(split(v@.take(i as int), ',').drop_last()),
        decreases v.len() - i,
    {
        let ghost pieces = split(v@.take(i as int), ',');
        assert(v@.take(i + 1).drop_last() == v@.take(i as int));
        assert(v@.take(i + 1).last() == v@[i as int]);
        if v[i] == ',' {
            let (a, b) = trim_range(&v, start, i);
            match read_integer(&v, a, b, true, -0x8000_0000_0000_0000, 0x7FFF_FFFF_FFFF_FFFF) {
                Some(n) => {
                    ids.push(n as i64);
                },
                None => {},
            }
            proof {
                assert(pieces.push(Seq::<char>::empty()).drop_last() == pieces);
                assert(v@.subrange(i + 1, i + 1) == Seq::<char>::empty());
            }
            start = i + 1;
        } else {
            proof {
                let longer = pieces.drop_last().push(pieces.last().push(v@[i as int]));
                assert(longer.drop_last() == pieces.drop_last());
                assert(v@.subrange(start as int, i as int).push(v@[i as int]) == v@.subrange(
                    start as int,
                    i + 1,
                ));
            }
        }
        i = i + 1;
    }
    assert(v@.take(v@.len() as int) == v@);
    let (a, b) = trim_range(&v, start, i);
    match read_integer(&v, a, b, true, -0x8000_0000_0000_0000, 0x7FFF_FFFF_FFFF_FFFF) {
        Some(n) => {
            ids.push(n as i64);
        },
        None => {},
    }
    ids
}

} // verus!
