//! Text primitives.
//!
//! Strings are reasoned about as sequences of characters. The search
//! functions here work on a `Vec<char>` copy of a string slice, by index.

use vstd::prelude::*;
use vstd::string::StringSliceAdditionalSpecFns;
use vstd::utf8::encode_utf8_decode_utf8;

verus! {

/// `pattern` stands in `text` at index `at`.
pub open spec fn occurs_at(text: Seq<char>, pattern: Seq<char>, at: int) -> bool {
    &&& 0 <= at
    &&& at + pattern.len() <= text.len()
    &&& text.subrange(at, at + pattern.len()) == pattern
}

/// `pattern` stands somewhere in `text`.
pub open spec fn occurs_in(text: Seq<char>, pattern: Seq<char>) -> bool {
    exists|at: int| occurs_at(text, pattern, at)
}

/// The index of the first `wanted` in `text`, or the length of `text` when
/// there is none.
pub open spec fn first_index_of(text: Seq<char>, wanted: char) -> int
    decreases text.len(),
{
    if text.len() == 0 || text[0] == wanted {
        0
    } else {
        1 + first_index_of(text.skip(1), wanted)
    }
}

/// `first_index_of` is the least index that holds `wanted`.
pub proof fn lemma_first_index_of(text: Seq<char>, wanted: char)
    ensures
        0 <= first_index_of(text, wanted) <= text.len(),
        first_index_of(text, wanted) < text.len() ==> text[first_index_of(text, wanted)] == wanted,
        forall|i: int| 0 <= i < first_index_of(text, wanted) ==> text[i] != wanted,
    decreases text.len(),
{
    if text.len() == 0 || text[0] == wanted {
    } else {
        let rest = text.skip(1);
        lemma_first_index_of(rest, wanted);
        assert forall|i: int| 0 <= i < first_index_of(text, wanted) implies text[i] != wanted by {
            if i > 0 {
                assert(rest[i - 1] == text[i]);
            }
        }
    }
}

/// An index that holds `wanted`, with none before it, is `first_index_of`;
/// so is the length of a text that holds none.
pub proof fn lemma_first_index_of_unique(text: Seq<char>, wanted: char, at: int)
    requires
        0 <= at <= text.len(),
        at < text.len() ==> text[at] == wanted,
        forall|i: int| 0 <= i < at ==> text[i] != wanted,
    ensures
        first_index_of(text, wanted) == at,
{
    lemma_first_index_of(text, wanted);
    let first = first_index_of(text, wanted);
    if first < at {
        assert(text[first] == wanted);
    } else if at < first {
        assert(text[at] == wanted);
    }
}

/// Collects the characters of `text` into a vector.
pub(crate) fn chars_of(text: &str) -> (chars: Vec<char>)
    ensures
        chars@ == text@,
{
    let mut chars: Vec<char> = Vec::new();
    for c in it: text.chars()
        invariant
            chars@ == it.seq().take(it.index()),
            it.seq() == text@,
    {
        chars.push(c);
    }
    chars
}

/// Whether two string slices hold the same characters.
pub fn same_text(left: &str, right: &str) -> (same: bool)
    ensures
        same == (left@ == right@),
{
    let left_bytes = left.as_bytes();
    let right_bytes = right.as_bytes();
    proof {
        encode_utf8_decode_utf8(left@);
        encode_utf8_decode_utf8(right@);
    }
    if left_bytes.len() != right_bytes.len() {
        return false;
    }
    let mut at: usize = 0;
    while at < left_bytes.len()
        invariant
            left_bytes@ == left.spec_bytes(),
            right_bytes@ == right.spec_bytes(),
            left_bytes@.len() == right_bytes@.len(),
            at <= left_bytes@.len(),
            forall|i: int| 0 <= i < at ==> left_bytes@[i] == right_bytes@[i],
        decreases left_bytes@.len() - at,
    {
        if left_bytes[at] != right_bytes[at] {
            return false;
        }
        at = at + 1;
    }
    assert(left_bytes@ =~= right_bytes@);
    true
}

/// Whether `pattern` stands in `text` at index `at`.
pub(crate) fn matches_at(text: &Vec<char>, pattern: &Vec<char>, at: usize) -> (found: bool)
    ensures
        found == occurs_at(text@, pattern@, at as int),
{
    if at > text.len() || pattern.len() > text.len() - at {
        return false;
    }
    let mut offset: usize = 0;
    while offset < pattern.len()
        invariant
            at + pattern@.len() <= text@.len() <= usize::MAX,
            offset <= pattern@.len(),
            forall|i: int| 0 <= i < offset ==> text@[at + i] == pattern@[i],
        decreases pattern@.len() - offset,
    {
        if text[at + offset] != pattern[offset] {
            assert(text@.subrange(at as int, at + pattern@.len())[offset as int]
                != pattern@[offset as int]);
            return false;
        }
        offset = offset + 1;
    }
    assert(text@.subrange(at as int, at + pattern@.len()) =~= pattern@);
    true
}

/// Whether `pattern` stands somewhere in `text[from..to]`.
pub(crate) fn found_between(text: &Vec<char>, from: usize, to: usize, pattern: &Vec<char>) -> (found:
    bool)
    requires
        from <= to <= text@.len(),
    ensures
        found == occurs_in(text@.subrange(from as int, to as int), pattern@),
{
    let ghost line = text@.subrange(from as int, to as int);
    if pattern.len() > to - from {
        return false;
    }
    if pattern.len() == 0 {
        assert(line.subrange(0, 0) =~= pattern@);
        assert(occurs_at(line, pattern@, 0));
        return true;
    }
    let last: usize = to - pattern.len();
    let mut at: usize = from;
    while at <= last
        invariant
            from <= at,
            at <= last + 1,
            last == to - pattern@.len(),
            from <= to <= text@.len(),
            0 < pattern@.len() <= to - from,
            line == text@.subrange(from as int, to as int),
            forall|i: int| 0 <= i < at - from ==> !occurs_at(line, pattern@, i),
        decreases last + 1 - at,
    {
        let here = matches_at(text, pattern, at);
        proof {
            assert(line.subrange(at - from, at - from + pattern@.len()) =~= text@.subrange(
                at as int,
                at + pattern@.len(),
            ));
        }
        if here {
            assert(occurs_at(line, pattern@, at - from));
            return true;
        }
        at = at + 1;
    }
    false
}

/// The index of the first `wanted` at or after `from`, or the length of
/// `text` when there is none.
pub(crate) fn find_char(text: &Vec<char>, from: usize, wanted: char) -> (at: usize)
    requires
        from <= text@.len(),
    ensures
        from <= at <= text@.len(),
        at == from + first_index_of(text@.skip(from as int), wanted),
{
    let ghost tail = text@.skip(from as int);
    let mut at: usize = from;
    while at < text.len() && text[at] != wanted
        invariant
            from <= at <= text@.len(),
            tail == text@.skip(from as int),
            forall|i: int| 0 <= i < at - from ==> tail[i] != wanted,
        decreases text@.len() - at,
    {
        at = at + 1;
    }
    proof {
        lemma_first_index_of_unique(tail, wanted, at - from);
    }
    at
}

} // verus!
