//! Character-level helpers on which the naming conventions and the request
//! parsing are built.

use vstd::prelude::*;
use vstd::std_specs::iter::IteratorSpec;

verus! {

/// The characters of `s`, in order.
pub fn chars_of(s: &str) -> (out: Vec<char>)
    ensures
        out@ == s@,
{
    broadcast use vstd::string::group_string_axioms;

    let mut out: Vec<char> = Vec::new();
    let mut rest = s.chars();
    loop
        invariant
            rest.obeys_prophetic_iter_laws(),
            rest.decrease() is Some,
            out@ + rest.remaining() == s@,
        ensures
            out@ == s@,
        decreases rest.decrease()->0,
    {
        match rest.next() {
            Some(c) => {
                out.push(c);
            },
            None => {
                assert(out@ =~= out@ + rest.remaining());
                break ;
            },
        }
    }
    out
}

/// Whether `pattern` stands in `text` at position `at`.
pub open spec fn occurs_at(pattern: Seq<char>, text: Seq<char>, at: int) -> bool {
    0 <= at && at + pattern.len() <= text.len() && text.subrange(at, at + pattern.len())
        == pattern
}

/// Whether `pattern` stands somewhere in `text`.
pub open spec fn occurs_in(pattern: Seq<char>, text: Seq<char>) -> bool {
    exists|at: int| occurs_at(pattern, text, at)
}

/// The position of the first `mark` in `text` at or after `from`, or the
/// length of `text` where there is none.
pub open spec fn first_index_from(text: Seq<char>, mark: char, from: int) -> int
    decreases text.len() - from,
{
    if from < 0 || from >= text.len() {
        text.len() as int
    } else if text[from] == mark {
        from
    } else {
        first_index_from(text, mark, from + 1)
    }
}

/// The part of `text` before its first `mark`: all of it where it holds none.
pub open spec fn before_first(text: Seq<char>, mark: char) -> Seq<char> {
    text.subrange(0, first_index_from(text, mark, 0))
}

/// The part of `text` behind its first `mark`, where it holds one.
pub open spec fn after_first(text: Seq<char>, mark: char) -> Option<Seq<char>> {
    let at = first_index_from(text, mark, 0);
    if at < text.len() {
        Some(text.subrange(at + 1, text.len() as int))
    } else {
        None
    }
}

/// The first index is within bounds, marks the character, and nothing before
/// it does.
pub proof fn lemma_first_index(text: Seq<char>, mark: char, from: int)
    requires
        0 <= from <= text.len(),
    ensures
        from <= first_index_from(text, mark, from) <= text.len(),
        first_index_from(text, mark, from) < text.len() ==> text[first_index_from(
            text,
            mark,
            from,
        )] == mark,
        forall|j: int| from <= j < first_index_from(text, mark, from) ==> text[j] != mark,
    decreases text.len() - from,
{
    if from < text.len() && text[from] != mark {
        lemma_first_index(text, mark, from + 1);
    }
}

/// Tests whether `pattern` stands in `text` at position `at`.
pub fn matches_at(text: &[char], pattern: &[char], at: usize) -> (found: bool)
    ensures
        found == occurs_at(pattern@, text@, at as int),
{
    if at > text.len() || pattern.len() > text.len() - at {
        return false;
    }
    let mut k: usize = 0;
    while k < pattern.len()
        invariant
            k <= pattern.len(),
            at + pattern.len() <= text.len(),
            forall|j: int| 0 <= j < k ==> text@[at + j] == pattern@[j],
        decreases pattern.len() - k,
    {
        if text[at + k] != pattern[k] {
            assert(text@.subrange(at as int, at + pattern.len())[k as int] == text@[at + k]);
            return false;
        }
        k += 1;
    }
    assert(text@.subrange(at as int, at + pattern.len()) =~= pattern@);
    true
}

/// Tests whether `text` begins with `pattern`.
pub fn starts_with(text: &[char], pattern: &[char]) -> (found: bool)
    ensures
        found == pattern@.is_prefix_of(text@),
{
    matches_at(text, pattern, 0)
}

/// Tests whether `text` ends with `pattern`.
pub fn ends_with(text: &[char], pattern: &[char]) -> (found: bool)
    ensures
        found == pattern@.is_suffix_of(text@),
{
    if pattern.len() > text.len() {
        return false;
    }
    matches_at(text, pattern, text.len() - pattern.len())
}

/// Tests whether `pattern` stands somewhere in `text`.
pub fn contains(text: &[char], pattern: &[char]) -> (found: bool)
    ensures
        found == occurs_in(pattern@, text@),
{
    if pattern.len() > text.len() {
        return false;
    }
    let last: usize = text.len() - pattern.len();
    let mut at: usize = 0;
    while at < last
        invariant
            at <= last,
            last == text.len() - pattern.len(),
            forall|j: int| 0 <= j < at ==> !occurs_at(pattern@, text@, j),
        decreases last - at,
    {
        if matches_at(text, pattern, at) {
            return true;
        }
        at += 1;
    }
    matches_at(text, pattern, last)
}

/// The position of the first `mark` in `text` at or after `from`, or the
/// length of `text` where there is none.
pub fn first_index_at(text: &[char], mark: char, from: usize) -> (at: usize)
    ensures
        at as int == first_index_from(text@, mark, from as int),
        from <= text.len() ==> from <= at,
        at <= text.len(),
        at < text.len() ==> text@[at as int] == mark,
        forall|j: int| from <= j < at ==> text@[j] != mark,
{
    if from > text.len() {
        return text.len();
    }
    proof {
        lemma_first_index(text@, mark, from as int);
    }
    let mut at: usize = from;
    while at < text.len() && text[at] != mark
        invariant
            from <= at <= text.len(),
            first_index_from(text@, mark, from as int) == first_index_from(text@, mark, at as int),
        decreases text.len() - at,
    {
        at += 1;
    }
    at
}

/// The position of the first `mark` in `text`, or the length of `text` where
/// there is none.
pub fn first_index(text: &[char], mark: char) -> (at: usize)
    ensures
        at as int == first_index_from(text@, mark, 0),
        at <= text.len(),
        at < text.len() ==> text@[at as int] == mark,
        forall|j: int| 0 <= j < at ==> text@[j] != mark,
{
    first_index_at(text, mark, 0)
}

/// Tests whether the part of `text` from `from` up to `to` is `other`.
pub fn part_equals(text: &[char], from: usize, to: usize, other: &[char]) -> (same: bool)
    requires
        from <= to <= text.len(),
    ensures
        same == (text@.subrange(from as int, to as int) == other@),
{
    if to - from != other.len() {
        assert(text@.subrange(from as int, to as int).len() != other@.len());
        return false;
    }
    matches_at(text, other, from)
}

/// Tests whether two texts hold the same characters.
pub fn same_text(left: &str, right: &str) -> (same: bool)
    ensures
        same == (left@ == right@),
{
    let a = chars_of(left);
    let b = chars_of(right);
    if a.len() != b.len() {
        return false;
    }
    let found = matches_at(a.as_slice(), b.as_slice(), 0);
    proof {
        if found {
            assert(a@.subrange(0, a@.len() as int) =~= a@);
        }
        if a@ == b@ {
            assert(a@.subrange(0, b@.len() as int) =~= a@);
        }
    }
    found
}

} // verus!
