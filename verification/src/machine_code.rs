//! The input normalizer: which raw strings count as machine codes, and the
//! canonical form of one.
//!
//! Validation looks at the raw input with only its ends trimmed. Cleaning
//! is more aggressive: it also drops blanks inside the text. Cleaning never
//! validates, so a caller that wants a checked machine code validates first
//! and cleans second; [`MachineCode::parse`] does both in that order.

use vstd::prelude::*;
use crate::error::ActivationError;
use crate::text::{is_whitespace, to_chars, trim, trim_bounds};

verus! {

/// Least number of characters in a machine code.
pub const MIN_CODE_LEN: usize = 8;

/// An ASCII letter or digit.
pub open spec fn is_ascii_alphanumeric(c: char) -> bool {
    '0' <= c <= '9' || 'a' <= c <= 'z' || 'A' <= c <= 'Z'
}

/// The characters a machine code is made of: ASCII letters and digits,
/// `-`, `_` and `@`.
pub open spec fn is_code_char(c: char) -> bool {
    is_ascii_alphanumeric(c) || c == '-' || c == '_' || c == '@'
}

/// Every character of `s` may stand in a machine code.
pub open spec fn all_code_chars(s: Seq<char>) -> bool {
    forall|i: int| 0 <= i < s.len() ==> is_code_char(#[trigger] s[i])
}

/// A machine code in canonical form: at least eight characters, all of
/// them from the accepted set.
pub open spec fn is_machine_code(s: Seq<char>) -> bool {
    s.len() >= MIN_CODE_LEN && all_code_chars(s)
}

/// A raw input is valid when, with leading and trailing whitespace
/// removed, it is a machine code.
pub open spec fn is_valid_machine_code(raw: Seq<char>) -> bool {
    is_machine_code(trim(raw))
}

/// The four blanks that cleaning removes wherever they stand: space, line
/// feed, carriage return and tab.
pub open spec fn is_blank(c: char) -> bool {
    c == ' ' || c == '\n' || c == '\r' || c == '\t'
}

/// `s` with every blank removed, the other characters in their order.
pub open spec fn without_blanks(s: Seq<char>) -> Seq<char>
    decreases s.len(),
{
    if s.len() == 0 {
        s
    } else if is_blank(s.last()) {
        without_blanks(s.drop_last())
    } else {
        without_blanks(s.drop_last()).push(s.last())
    }
}

/// The cleaned form of a raw input: trimmed, then freed of blanks.
pub open spec fn clean(raw: Seq<char>) -> Seq<char> {
    without_blanks(trim(raw))
}

/// Text without blanks is left alone by [`without_blanks`].
pub proof fn lemma_without_blanks_identity(s: Seq<char>)
    requires
        forall|i: int| 0 <= i < s.len() ==> !is_blank(#[trigger] s[i]),
    ensures
        without_blanks(s) == s,
    decreases s.len(),
{
    if s.len() > 0 {
        lemma_without_blanks_identity(s.drop_last());
        assert(s.drop_last().push(s.last()) == s);
    }
}

/// Cleaning leaves no blank behind.
pub proof fn lemma_clean_has_no_blank(raw: Seq<char>)
    ensures
        forall|i: int| 0 <= i < clean(raw).len() ==> !is_blank(#[trigger] clean(raw)[i]),
{
    lemma_without_blanks_has_no_blank(trim(raw));
}

/// No blank is left in the result of [`without_blanks`].
pub proof fn lemma_without_blanks_has_no_blank(s: Seq<char>)
    ensures
        forall|i: int| 0 <= i < without_blanks(s).len() ==> !is_blank(#[trigger] without_blanks(s)[i]),
    decreases s.len(),
{
    if s.len() > 0 {
        lemma_without_blanks_has_no_blank(s.drop_last());
        let rest = without_blanks(s.drop_last());
        assert forall|i: int| 0 <= i < without_blanks(s).len() implies !is_blank(
            #[trigger] without_blanks(s)[i],
        ) by {
            if i < rest.len() {
                assert(without_blanks(s)[i] == rest[i]);
            }
        }
    }
}

/// On a valid input, cleaning amounts to trimming, and what comes out is a
/// machine code: validate first, clean second, and the result needs no
/// second look.
pub proof fn lemma_valid_then_clean(raw: Seq<char>)
    requires
        is_valid_machine_code(raw),
    ensures
        clean(raw) == trim(raw),
        is_machine_code(clean(raw)),
{
    let t = trim(raw);
    assert forall|i: int| 0 <= i < t.len() implies !is_blank(#[trigger] t[i]) by {
        assert(is_code_char(t[i]));
    }
    lemma_without_blanks_identity(t);
}

/// A machine code holds no whitespace and no control character.
pub proof fn lemma_machine_code_is_plain(s: Seq<char>)
    requires
        is_machine_code(s),
    ensures
        forall|i: int| 0 <= i < s.len() ==> !is_whitespace(#[trigger] s[i]) && ' ' < s[i] < '\u{7f}',
{
    assert forall|i: int| 0 <= i < s.len() implies !is_whitespace(#[trigger] s[i]) && ' ' < s[i]
        < '\u{7f}' by {
        assert(is_code_char(s[i]));
    }
}

/// Tells whether `c` may stand in a machine code.
pub fn is_code_character(c: char) -> (r: bool)
    ensures
        r == is_code_char(c),
{
    ('0' <= c && c <= '9') || ('a' <= c && c <= 'z') || ('A' <= c && c <= 'Z') || c == '-' || c
        == '_' || c == '@'
}

/// Tells whether `c` is one of the four blanks.
pub fn is_blank_character(c: char) -> (r: bool)
    ensures
        r == is_blank(c),
{
    c == ' ' || c == '\n' || c == '\r' || c == '\t'
}

/// Tells whether `raw`, with its ends trimmed, is a machine code.
pub fn validate(raw: &str) -> (valid: bool)
    ensures
        valid == is_valid_machine_code(raw@),
{
    let v = to_chars(raw);
    let (a, b) = trim_bounds(&v);
    if b - a < MIN_CODE_LEN {
        return false;
    }
    let ghost t = trim(raw@);
    let mut i: usize = a;
    while i < b
        invariant
            a <= i <= b <= v@.len(),
            b - a >= MIN_CODE_LEN,
            t == trim(raw@),
            t == v@.subrange(a as int, b as int),
            forall|k: int| 0 <= k < i - a ==> is_code_char(#[trigger] t[k]),
        decreases b - i,
    {
        if !is_code_character(v[i]) {
            assert(!is_code_char(t[i - a]));
            return false;
        }
        i = i + 1;
    }
    true
}

/// The cleaned form of `raw`: trimmed, then with every blank removed.
pub fn clean_text(raw: &str) -> (cleaned: String)
    ensures
        cleaned@ == clean(raw@),
{
    let v = to_chars(raw);
    let (a, b) = trim_bounds(&v);
    let mut out = String::new();
    let mut i: usize = a;
    assert(v@.subrange(a as int, a as int) == Seq::<char>::empty());
    while i < b
        invariant
            a <= i <= b <= v@.len(),
            out@ == without_blanks(v@.subrange(a as int, i as int)),
        decreases b - i,
    {
        let c = v[i];
        assert(v@.subrange(a as int, i + 1).drop_last() == v@.subrange(a as int, i as int));
        if !is_blank_character(c) {
            out.push(c);
        }
        i = i + 1;
    }
    out
}

/// A validated machine code in canonical form.
pub struct MachineCode {
    code: String,
}

impl View for MachineCode {
    type V = Seq<char>;

    closed spec fn view(&self) -> Seq<char> {
        self.code@
    }
}

impl MachineCode {
    #[verifier::type_invariant]
    closed spec fn well_formed(&self) -> bool {
        is_machine_code(self.code@)
    }

    /// Validates `raw`, then cleans it. Fails with `InvalidMachineCode`
    /// exactly when `raw` is not valid; nothing is cleaned in that case.
    pub fn parse(raw: &str) -> (r: Result<MachineCode, ActivationError>)
        ensures
            match r {
                Ok(m) => is_valid_machine_code(raw@) && m@ == clean(raw@) && is_machine_code(m@),
                Err(e) => e == ActivationError::InvalidMachineCode && !is_valid_machine_code(raw@),
            },
    {
        if !validate(raw) {
            return Err(ActivationError::InvalidMachineCode);
        }
        let code = clean_text(raw);
        proof {
            lemma_valid_then_clean(raw@);
        }
        Ok(MachineCode { code })
    }

    /// The text of the machine code.
    pub fn as_str(&self) -> (s: &str)
        ensures
            s@ == self@,
            is_machine_code(s@),
    {
        proof {
            use_type_invariant(self);
        }
        self.code.as_str()
    }
}

} // verus!
