//! Escaping of text for a chat message in Markdown.
//!
//! The characters that Markdown gives a meaning to get a backslash in
//! front, each exactly once, so that they are shown as they are.

use vstd::prelude::*;
use crate::text::to_chars;

verus! {

/// The characters that are escaped whether or not code spans are kept.
pub open spec fn is_reserved(c: char) -> bool {
    ||| c == '\\'
    ||| c == '_'
    ||| c == '*'
    ||| c == '['
    ||| c == ']'
    ||| c == '('
    ||| c == ')'
    ||| c == '~'
    ||| c == '>'
    ||| c == '#'
    ||| c == '+'
    ||| c == '-'
    ||| c == '='
    ||| c == '|'
    ||| c == '{'
    ||| c == '}'
    ||| c == '.'
    ||| c == '!'
}

/// Whether `c` gets a backslash: a reserved character always, the
/// backtick only where code spans are not kept.
pub open spec fn is_escaped(c: char, keep_code_spans: bool) -> bool {
    is_reserved(c) || (c == '`' && !keep_code_spans)
}

/// `s` with a backslash in front of every escaped character.
pub open spec fn escaped(s: Seq<char>, keep_code_spans: bool) -> Seq<char>
    decreases s.len(),
{
    if s.len() == 0 {
        s
    } else if is_escaped(s.last(), keep_code_spans) {
        escaped(s.drop_last(), keep_code_spans).push('\\').push(s.last())
    } else {
        escaped(s.drop_last(), keep_code_spans).push(s.last())
    }
}

/// Tells whether `c` is a reserved character.
pub fn is_reserved_char(c: char) -> (r: bool)
    ensures
        r == is_reserved(c),
{
    c == '\\' || c == '_' || c == '*' || c == '[' || c == ']' || c == '(' || c == ')' || c == '~'
        || c == '>' || c == '#' || c == '+' || c == '-' || c == '=' || c == '|' || c == '{' || c
        == '}' || c == '.' || c == '!'
}

/// `text` with a backslash in front of every escaped character.
pub fn escape(text: &str, keep_code_spans: bool) -> (out: String)
    ensures
        out@ == escaped(text@, keep_code_spans),
{
    let v = to_chars(text);
    let mut out = String::new();
    let mut i: usize = 0;
    assert(v@.take(0) == Seq::<char>::empty());
    while i < v.len()
        invariant
            i <= v@.len(),
            out@ == escaped(v@.take(i as int), keep_code_spans),
        decreases v.len() - i,
    {
        let c = v[i];
        assert(v@.take(i + 1).drop_last() == v@.take(i as int));
        if is_reserved_char(c) || (c == '`' && !keep_code_spans) {
            out.push('\\');
        }
        out.push(c);
        i = i + 1;
    }
    assert(v@.take(v@.len() as int) == v@);
    out
}

/// Escapes every character that Markdown gives a meaning to, the backtick
/// among them.
pub fn escape_markdown_v2(text: &str) -> (out: String)
    ensures
        out@ == escaped(text@, false),
{
    escape(text, false)
}

/// Escapes as [`escape_markdown_v2`] does, but leaves backticks alone, so
/// that keys set in code spans can still be copied with one touch.
pub fn escape_activation_output(text: &str) -> (out: String)
    ensures
        out@ == escaped(text@, true),
{
    escape(text, true)
}

} // verus!
