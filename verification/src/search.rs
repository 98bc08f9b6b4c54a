//! Literal substring search over text: case-sensitive, character by
//! character, with no pattern syntax.

use vstd::prelude::*;

verus! {

/// `needle` stands in `text` at position `at`.
pub open spec fn occurs_at(text: Seq<char>, needle: Seq<char>, at: int) -> bool {
    &&& 0 <= at
    &&& at + needle.len() <= text.len()
    &&& text.subrange(at, at + needle.len()) == needle
}

/// `needle` stands somewhere in `text`.
pub open spec fn contains(text: Seq<char>, needle: Seq<char>) -> bool {
    exists|at: int| occurs_at(text, needle, at)
}

/// The characters of `text`, one by one.
pub fn to_chars(text: &str) -> (chars: Vec<char>)
    ensures
        chars@ == text@,
{
    let mut chars: Vec<char> = Vec::new();
    for c in it: text.chars()
        invariant
            it.seq() == text@,
            chars@ == it.seq().take(it.index() as int),
    {
        chars.push(c);
    }
    chars
}

/// Whether `needle` stands in `text` at position `at`.
pub fn matches_at(text: &Vec<char>, needle: &Vec<char>, at: usize) -> (found: bool)
    ensures
        found == occurs_at(text@, needle@, at as int),
{
    if needle.len() > text.len() || at > text.len() - needle.len() {
        return false;
    }
    let mut k: usize = 0;
    while k < needle.len()
        invariant
            k <= needle.len(),
            at + needle.len() <= text.len(),
            forall|j: int| 0 <= j < k ==> text@[at + j] == needle@[j],
        decreases needle.len() - k,
    {
        if text[at + k] != needle[k] {
            assert(text@.subrange(at as int, at + needle.len())[k as int] != needle@[k as int]);
            return false;
        }
        k += 1;
    }
    assert(text@.subrange(at as int, at + needle.len()) =~= needle@);
    true
}

/// The first position at which `needle` stands in `text`, if there is one.
pub fn find(text: &Vec<char>, needle: &Vec<char>) -> (first: Option<usize>)
    ensures
        match first {
            Some(at) => {
                &&& occurs_at(text@, needle@, at as int)
                &&& forall|earlier: int| 0 <= earlier < at ==> !occurs_at(text@, needle@, earlier)
            },
            None => !contains(text@, needle@),
        },
{
    if needle.len() > text.len() {
        return None;
    }
    let last: usize = text.len() - needle.len();
    let mut at: usize = 0;
    loop
        invariant
            last == text.len() - needle.len(),
            at <= last,
            forall|earlier: int| 0 <= earlier < at ==> !occurs_at(text@, needle@, earlier),
        decreases last - at,
    {
        if matches_at(text, needle, at) {
            return Some(at);
        }
        if at == last {
            return None;
        }
        at += 1;
    }
}

/// Whether `needle` stands somewhere in `text`, as a literal substring.
pub fn contains_text(text: &str, needle: &str) -> (found: bool)
    ensures
        found == contains(text@, needle@),
{
    let text_chars = to_chars(text);
    let needle_chars = to_chars(needle);
    find(&text_chars, &needle_chars).is_some()
}

/// The empty text stands in every text.
pub proof fn lemma_contains_empty(text: Seq<char>)
    ensures
        contains(text, Seq::<char>::empty()),
{
    assert(text.subrange(0, 0) == Seq::<char>::empty());
    assert(occurs_at(text, Seq::<char>::empty(), 0));
}

/// A text stands in itself, and in any text built around it.
pub proof fn lemma_contains_middle(before: Seq<char>, needle: Seq<char>, after: Seq<char>)
    ensures
        contains(before + needle + after, needle),
{
    let text = before + needle + after;
    let at = before.len() as int;
    assert(text.subrange(at, at + needle.len()) == needle);
    assert(occurs_at(text, needle, at));
}

/// What stands in a part of a text stands in the whole.
pub proof fn lemma_contains_transitive(text: Seq<char>, part: Seq<char>, needle: Seq<char>)
    requires
        contains(text, part),
        contains(part, needle),
    ensures
        contains(text, needle),
{
    let outer = choose|at: int| occurs_at(text, part, at);
    let inner = choose|at: int| occurs_at(part, needle, at);
    let at = outer + inner;
    assert(text.subrange(at, at + needle.len()) == text.subrange(
        outer,
        outer + part.len(),
    ).subrange(inner, inner + needle.len()));
    assert(occurs_at(text, needle, at));
}

} // verus!
