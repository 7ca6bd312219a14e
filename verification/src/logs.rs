//! What the health check reads out of log files: how often a word occurs,
//! and when a log file is old enough to be removed.

use vstd::prelude::*;
use crate::text::to_chars;

verus! {

/// Logs older than this many seconds are removed: seven days.
pub const LOG_RETENTION_SECS: u64 = 604800;

/// How often `word` occurs in `text`, counting from the left and never
/// counting a character twice: after a match the search goes on behind it.
/// The empty word is found once in front of every character and once more
/// at the end.
pub open spec fn count_matches(text: Seq<char>, word: Seq<char>) -> nat
    decreases text.len(),
{
    if word.len() == 0 {
        text.len() + 1
    } else if text.len() < word.len() {
        0
    } else if text.take(word.len() as int) == word {
        1 + count_matches(text.skip(word.len() as int), word)
    } else {
        count_matches(text.skip(1), word)
    }
}

/// A count as a `usize` holds it: itself, or the largest `usize` where it
/// is larger than that.
pub open spec fn within_usize(count: nat) -> usize {
    if count <= usize::MAX {
        count as usize
    } else {
        usize::MAX
    }
}

/// A log file of the given age is due for removal.
pub open spec fn is_stale(age_secs: u64) -> bool {
    age_secs > LOG_RETENTION_SECS
}

/// Tells whether `word` stands in `text` at position `at`.
pub fn matches_at(text: &Vec<char>, word: &Vec<char>, at: usize) -> (found: bool)
    requires
        at <= text@.len(),
    ensures
        found == (text@.len() - at >= word@.len() && text@.skip(at as int).take(word@.len() as int)
            == word@),
{
    if text.len() - at < word.len() {
        return false;
    }
    let ghost window = text@.skip(at as int).take(word@.len() as int);
    let mut k: usize = 0;
    while k < word.len()
        invariant
            k <= word@.len(),
            at + word.len() <= text.len(),
            window == text@.skip(at as int).take(word@.len() as int),
            forall|j: int| 0 <= j < k ==> window[j] == word@[j],
        decreases word.len() - k,
    {
        if text[at + k] != word[k] {
            assert(window[k as int] != word@[k as int]);
            return false;
        }
        k = k + 1;
    }
    assert(window =~= word@);
    true
}

/// How often `word` occurs in `text`, matches not overlapping.
pub fn count_occurrences(text: &str, word: &str) -> (count: usize)
    ensures
        count == within_usize(count_matches(text@, word@)),
{
    let t = to_chars(text);
    let w = to_chars(word);
    if w.len() == 0 {
        return if t.len() < usize::MAX {
            t.len() + 1
        } else {
            usize::MAX
        };
    }
    let mut count: usize = 0;
    let mut at: usize = 0;
    assert(t@.skip(0) == t@);
    while at < t.len()
        invariant
            at <= t@.len(),
            w@.len() > 0,
            count + count_matches(t@.skip(at as int), w@) == count_matches(t@, w@),
            count * w@.len() <= at,
        decreases t.len() - at,
    {
        let ghost rest = t@.skip(at as int);
        if matches_at(&t, &w, at) {
            assert(rest.skip(w@.len() as int) == t@.skip(at + w@.len()));
            assert((count + 1) * w@.len() == count * w@.len() + w@.len()) by (nonlinear_arith);
            assert(count < t@.len()) by (nonlinear_arith)
                requires
                    count * w@.len() <= at,
                    at < t@.len(),
                    w@.len() > 0,
            ;
            count = count + 1;
            at = at + w.len();
        } else {
            assert(rest.skip(1) == t@.skip(at + 1));
            at = at + 1;
        }
    }
    count
}

/// Tells whether a log file of the given age, in seconds, is due for
/// removal.
pub fn should_remove_log(age_secs: u64) -> (stale: bool)
    ensures
        stale == is_stale(age_secs),
{
    age_secs > LOG_RETENTION_SECS
}

} // verus!
