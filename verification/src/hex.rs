//! Hexadecimal text: the lowercase encoding of bytes, ASCII uppercasing,
//! and the shape of an activation key.

use vstd::prelude::*;


verus! {

/// Number of characters in an activation key.
pub const KEY_LEN: usize = 16;

/// The lowercase hexadecimal digit for a value below 16.
pub open spec fn hex_digit_lower(n: int) -> char
    recommends
        0 <= n < 16,
{
    if n < 10 {
        (n + 48) as char
    } else {
        (n + 87) as char
    }
}

/// The `k`-th hexadecimal digit of `bytes`: two digits per byte, the high
/// half first.
pub open spec fn hex_char_at(bytes: Seq<u8>, k: int) -> char
    recommends
        0 <= k < 2 * bytes.len(),
{
    if k % 2 == 0 {
        hex_digit_lower(bytes[k / 2] as int / 16)
    } else {
        hex_digit_lower(bytes[k / 2] as int % 16)
    }
}

/// The lowercase hexadecimal text of `bytes`.
pub open spec fn to_hex_lower(bytes: Seq<u8>) -> Seq<char> {
    Seq::new(2 * bytes.len(), |k: int| hex_char_at(bytes, k))
}

/// `c` with the ASCII letters `a` to `z` mapped to `A` to `Z`.
pub open spec fn ascii_upper(c: char) -> char {
    if 'a' <= c <= 'z' {
        ((c as int) - 32) as char
    } else {
        c
    }
}

/// `s` with every character mapped by [`ascii_upper`].
pub open spec fn to_ascii_upper(s: Seq<char>) -> Seq<char> {
    Seq::new(s.len(), |i: int| ascii_upper(s[i]))
}

/// A digit `0`-`9` or a letter `a`-`f`.
pub open spec fn is_lower_hex_digit(c: char) -> bool {
    '0' <= c <= '9' || 'a' <= c <= 'f'
}

/// A digit `0`-`9` or a letter `A`-`F`.
pub open spec fn is_upper_hex_digit(c: char) -> bool {
    '0' <= c <= '9' || 'A' <= c <= 'F'
}

/// The shape of an activation key: exactly sixteen uppercase hexadecimal
/// digits.
pub open spec fn is_activation_key(s: Seq<char>) -> bool {
    &&& s.len() == KEY_LEN
    &&& forall|i: int| 0 <= i < s.len() ==> is_upper_hex_digit(#[trigger] s[i])
}

/// Every character of a hexadecimal encoding is a lowercase hex digit.
pub proof fn lemma_hex_lower_digits(bytes: Seq<u8>)
    ensures
        to_hex_lower(bytes).len() == 2 * bytes.len(),
        forall|k: int|
            0 <= k < 2 * bytes.len() ==> is_lower_hex_digit(#[trigger] to_hex_lower(bytes)[k]),
{
    assert forall|k: int| 0 <= k < 2 * bytes.len() implies is_lower_hex_digit(
        #[trigger] to_hex_lower(bytes)[k],
    ) by {
        let b = bytes[k / 2] as int;
        assert(0 <= b / 16 < 16 && 0 <= b % 16 < 16);
    }
}

/// Every character of `s` is a lowercase hexadecimal digit.
pub open spec fn is_lower_hex_text(s: Seq<char>) -> bool {
    forall|i: int| 0 <= i < s.len() ==> is_lower_hex_digit(#[trigger] s[i])
}

/// Uppercasing any sixteen consecutive characters of lowercase
/// hexadecimal text gives text in the shape of an activation key.
pub proof fn lemma_upper_hex_window_is_key(hex: Seq<char>, start: int, end: int)
    requires
        is_lower_hex_text(hex),
        0 <= start <= end <= hex.len(),
        end - start == KEY_LEN,
    ensures
        is_activation_key(to_ascii_upper(hex.subrange(start, end))),
{
    let window = hex.subrange(start, end);
    let key = to_ascii_upper(window);
    assert forall|i: int| 0 <= i < key.len() implies is_upper_hex_digit(#[trigger] key[i]) by {
        assert(window[i] == hex[start + i]);
        assert(is_lower_hex_digit(window[i]));
    }
}

/// The lowercase hexadecimal digit for `n`.
pub fn hex_digit(n: u8) -> (c: char)
    requires
        n < 16,
    ensures
        c == hex_digit_lower(n as int),
{
    if n < 10 {
        (n + 48) as char
    } else {
        (n + 87) as char
    }
}

/// The lowercase hexadecimal encoding of `bytes`, two characters per byte.
pub fn encode_hex(bytes: &[u8]) -> (s: String)
    ensures
        s@ == to_hex_lower(bytes@),
        s@.len() == 2 * bytes@.len(),
        is_lower_hex_text(s@),
{
    proof {
        lemma_hex_lower_digits(bytes@);
    }
    let mut s = String::new();
    let n: usize = bytes.len();
    let mut i: usize = 0;
    while i < n
        invariant
            n == bytes@.len(),
            i <= n,
            s@.len() == 2 * i,
            forall|k: int| 0 <= k < 2 * i ==> s@[k] == hex_char_at(bytes@, k),
        decreases n - i,
    {
        let b: u8 = bytes[i];
        s.push(hex_digit(b / 16));
        s.push(hex_digit(b % 16));
        i = i + 1;
    }
    s
}

/// `c` with an ASCII lowercase letter replaced by its uppercase form.
pub fn ascii_upper_char(c: char) -> (r: char)
    ensures
        r == ascii_upper(c),
{
    if 'a' <= c && c <= 'z' {
        let u: u8 = c as u8;
        (u - 32) as char
    } else {
        c
    }
}

/// The characters `v[from..to]` in ASCII uppercase.
pub fn upper_window(v: &Vec<char>, from: usize, to: usize) -> (s: String)
    requires
        from <= to <= v@.len(),
    ensures
        s@ == to_ascii_upper(v@.subrange(from as int, to as int)),
{
    let mut s = String::new();
    let mut i: usize = from;
    while i < to
        invariant
            from <= i <= to <= v@.len(),
            s@.len() == i - from,
            forall|k: int| 0 <= k < i - from ==> s@[k] == ascii_upper(v@[from + k]),
        decreases to - i,
    {
        s.push(ascii_upper_char(v[i]));
        i = i + 1;
    }
    s
}

} // verus!
