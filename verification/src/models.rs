//! The version classifier: it guesses the product version that a machine
//! code comes from, by the code's shape alone.

use vstd::prelude::*;
use vstd::utf8::*;
use crate::machine_code::{is_code_char, is_machine_code};
use crate::text::to_chars;

verus! {

/// A guessed product version: its label, and whether it is the oldest
/// scheme.
#[derive(Debug, Clone)]
pub struct FinalShellVersion {
    pub version: String,
    pub is_legacy: bool,
}

/// The mathematical value of a [`FinalShellVersion`].
pub struct FinalShellVersionView {
    pub version: Seq<char>,
    pub is_legacy: bool,
}

impl View for FinalShellVersion {
    type V = FinalShellVersionView;

    open spec fn view(&self) -> FinalShellVersionView {
        FinalShellVersionView { version: self.version@, is_legacy: self.is_legacy }
    }
}

/// Label of the versions before 3.9.6.
pub open spec fn label_legacy() -> Seq<char> {
    "< 3.9.6"@
}

/// Label of the versions from 3.9.6 on.
pub open spec fn label_v396_plus() -> Seq<char> {
    "≥ 3.9.6"@
}

/// Label of version 4.5.
pub open spec fn label_v45() -> Seq<char> {
    "4.5"@
}

/// Label of the versions from 4.6 on.
pub open spec fn label_v46() -> Seq<char> {
    "4.6+"@
}

/// Length of a machine code as the classifier measures it: in bytes of
/// its UTF-8 encoding. For a code of ASCII characters this is the number
/// of characters.
pub open spec fn code_len(code: Seq<char>) -> nat {
    encode_utf8(code).len()
}

/// The classifier's rules, tried in this order; the first that matches
/// decides.
///
/// 1. shorter than 15: before 3.9.6, the only legacy bucket;
/// 2. holds a `-` and is longer than 25: 4.6 and later;
/// 3. longer than 20: 3.9.6 and later;
/// 4. anything else: 4.5.
pub open spec fn classify(code: Seq<char>) -> FinalShellVersionView {
    if code_len(code) < 15 {
        FinalShellVersionView { version: label_legacy(), is_legacy: true }
    } else if code.contains('-') && code_len(code) > 25 {
        FinalShellVersionView { version: label_v46(), is_legacy: false }
    } else if code_len(code) > 20 {
        FinalShellVersionView { version: label_v396_plus(), is_legacy: false }
    } else {
        FinalShellVersionView { version: label_v45(), is_legacy: false }
    }
}

/// For a machine code the classifier's length is plainly the number of
/// characters: every character of a machine code is one byte long.
pub proof fn lemma_machine_code_len(code: Seq<char>)
    requires
        is_machine_code(code),
    ensures
        code_len(code) == code.len(),
{
    assert forall|i: int| 0 <= i < code.len() implies '\0' <= #[trigger] code[i] <= '\u{7f}' by {
        assert(is_code_char(code[i]));
    }
    is_ascii_chars_encode_utf8(code);
}

/// Only the first rule calls a code legacy: a code is legacy exactly when
/// it is shorter than fifteen, and exactly then does it carry the legacy
/// label.
pub proof fn lemma_legacy_iff_short(code: Seq<char>)
    ensures
        classify(code).is_legacy <==> code_len(code) < 15,
        classify(code).is_legacy <==> classify(code).version == label_legacy(),
{
    reveal_strlit("< 3.9.6");
    reveal_strlit("≥ 3.9.6");
    reveal_strlit("4.5");
    reveal_strlit("4.6+");
    assert(label_legacy()[0] == '<');
    assert(label_v396_plus()[0] == '≥');
    assert(label_v45()[0] == '4');
    assert(label_v46()[0] == '4');
}

/// Tells whether `c` occurs in `s`.
pub fn contains_char(s: &str, c: char) -> (found: bool)
    ensures
        found == s@.contains(c),
{
    let v = to_chars(s);
    let mut i: usize = 0;
    while i < v.len()
        invariant
            v@ == s@,
            i <= v@.len(),
            forall|k: int| 0 <= k < i ==> v@[k] != c,
        decreases v.len() - i,
    {
        if v[i] == c {
            assert(s@[i as int] == c);
            return true;
        }
        i = i + 1;
    }
    false
}

impl FinalShellVersion {
    /// Classifies a machine code by its length and by whether it holds a
    /// dash.
    pub fn detect_version(machine_code: &str) -> (version: FinalShellVersion)
        ensures
            version@ == classify(machine_code@),
    {
        let len: usize = machine_code.as_bytes().len();
        if len < 15 {
            FinalShellVersion { version: "< 3.9.6".to_owned(), is_legacy: true }
        } else if contains_char(machine_code, '-') && len > 25 {
            FinalShellVersion { version: "4.6+".to_owned(), is_legacy: false }
        } else if len > 20 {
            FinalShellVersion { version: "≥ 3.9.6".to_owned(), is_legacy: false }
        } else {
            FinalShellVersion { version: "4.5".to_owned(), is_legacy: false }
        }
    }
}

} // verus!
