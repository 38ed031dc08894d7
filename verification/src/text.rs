//! What the build plan asks of the strings it is given: whether one occurs in
//! another, and what a string is after one character has been replaced.

use vstd::prelude::*;
use vstd::string::*;

verus! {

/// Whether `pattern` stands in `text` at position `at`.
pub open spec fn occurs_at(text: Seq<char>, pattern: Seq<char>, at: int) -> bool {
    &&& 0 <= at
    &&& at + pattern.len() <= text.len()
    &&& text.subrange(at, at + pattern.len()) == pattern
}

/// Whether `pattern` stands somewhere in `text`.
pub open spec fn occurs_in(text: Seq<char>, pattern: Seq<char>) -> bool {
    exists|at: int| occurs_at(text, pattern, at)
}

/// `text` with `to` in place of every `from`.
pub open spec fn replaced(text: Seq<char>, from: char, to: Seq<char>) -> Seq<char>
    decreases text.len(),
{
    if text.len() == 0 {
        Seq::empty()
    } else {
        replaced(text.drop_last(), from, to) + if text.last() == from {
            to
        } else {
            seq![text.last()]
        }
    }
}

/// What an optional string holds, where it holds something.
pub open spec fn text_of(value: Option<String>) -> Option<Seq<char>> {
    match value {
        Some(text) => Some(text@),
        None => None,
    }
}

/// The characters of `s`, one by one.
pub fn chars_of(s: &str) -> (v: Vec<char>)
    ensures
        v@ == s@,
{
    let mut v: Vec<char> = Vec::new();
    for c in it: s.chars()
        invariant
            v@ == it.seq().take(it.index() as int),
            it.seq() == s@,
    {
        v.push(c);
    }
    v
}

/// The strings `names`, each as a string of its own.
pub fn owned(names: &[&str]) -> (v: Vec<String>)
    ensures
        v.deep_view() == names.deep_view(),
{
    let mut v: Vec<String> = Vec::new();
    let mut i: usize = 0;
    while i < names.len()
        invariant
            0 <= i <= names.len(),
            v.deep_view() == names.deep_view().take(i as int),
        decreases names.len() - i,
    {
        let ghost before = v.deep_view();
        v.push(String::from_str(names[i]));
        assert(v.deep_view() =~= before.push(names@[i as int]@));
        assert(names.deep_view().take(i + 1) =~= names.deep_view().take(i as int).push(
            names@[i as int]@,
        ));
        i = i + 1;
    }
    assert(names.deep_view().take(i as int) =~= names.deep_view());
    v
}

/// Whether `pattern` stands in `text` at position `at`.
pub fn matches_at(text: &Vec<char>, pattern: &Vec<char>, at: usize) -> (b: bool)
    ensures
        b == occurs_at(text@, pattern@, at as int),
{
    if pattern.len() > text.len() || at > text.len() - pattern.len() {
        return false;
    }
    let mut i: usize = 0;
    while i < pattern.len()
        invariant
            0 <= i <= pattern.len(),
            at + pattern.len() <= text.len(),
            forall|j: int| 0 <= j < i ==> text@[at + j] == pattern@[j],
        decreases pattern.len() - i,
    {
        if text[at + i] != pattern[i] {
            assert(text@.subrange(at as int, at + pattern.len())[i as int] == text@[at + i]);
            return false;
        }
        i = i + 1;
    }
    assert(text@.subrange(at as int, at + pattern.len()) =~= pattern@);
    true
}

/// Whether the two strings hold the same characters.
pub fn same(a: &str, b: &str) -> (r: bool)
    ensures
        r == (a@ == b@),
{
    let a = chars_of(a);
    let b = chars_of(b);
    if a.len() != b.len() {
        return false;
    }
    let r = matches_at(&a, &b, 0);
    assert(a@.subrange(0, a@.len() as int) =~= a@);
    r
}

/// Whether `text` begins with `prefix`.
pub fn starts_with(text: &str, prefix: &str) -> (b: bool)
    ensures
        b == occurs_at(text@, prefix@, 0),
{
    let text = chars_of(text);
    let prefix = chars_of(prefix);
    matches_at(&text, &prefix, 0)
}

/// Whether `text` ends with `suffix`.
pub fn ends_with(text: &str, suffix: &str) -> (b: bool)
    ensures
        b == occurs_at(text@, suffix@, text@.len() - suffix@.len()),
{
    let text = chars_of(text);
    let suffix = chars_of(suffix);
    if suffix.len() > text.len() {
        return false;
    }
    matches_at(&text, &suffix, text.len() - suffix.len())
}

/// Whether `pattern` stands somewhere in `text`.
pub fn contains(text: &str, pattern: &str) -> (b: bool)
    ensures
        b == occurs_in(text@, pattern@),
{
    let haystack = chars_of(text);
    let needle = chars_of(pattern);
    if needle.len() > haystack.len() {
        return false;
    }
    let last = haystack.len() - needle.len();
    let mut at: usize = 0;
    loop
        invariant
            0 <= at <= last,
            last == haystack.len() - needle.len(),
            haystack@ == text@,
            needle@ == pattern@,
            forall|k: int| 0 <= k < at ==> !occurs_at(text@, pattern@, k),
        decreases last - at,
    {
        if matches_at(&haystack, &needle, at) {
            return true;
        }
        if at == last {
            return false;
        }
        at = at + 1;
    }
}

/// `text` with `to` in place of every `from`.
pub fn replace(text: &str, from: char, to: &str) -> (r: String)
    ensures
        r@ == replaced(text@, from, to@),
{
    let chars = chars_of(text);
    let mut r = String::new();
    let mut i: usize = 0;
    while i < chars.len()
        invariant
            0 <= i <= chars.len(),
            chars@ == text@,
            r@ == replaced(text@.take(i as int), from, to@),
        decreases chars.len() - i,
    {
        proof {
            let longer = text@.take(i + 1);
            assert(longer.drop_last() =~= text@.take(i as int));
            assert(longer.last() == text@[i as int]);
        }
        if chars[i] == from {
            r.append(to);
        } else {
            let piece = text.substring_char(i, i + 1);
            assert(piece@ =~= seq![text@[i as int]]);
            r.append(piece);
        }
        i = i + 1;
    }
    assert(text@.take(i as int) =~= text@);
    r
}

} // verus!
