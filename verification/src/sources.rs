//! The lists of source files as they are written down: each list a text in
//! which every name stands between double quotes.

use crate::text::chars_of;
use vstd::prelude::*;
use vstd::string::*;

verus! {

/// The position of the first `c` in `s`, or the length of `s` where `s`
/// holds none.
pub open spec fn position(s: Seq<char>, c: char) -> int
    decreases s.len(),
{
    if s.len() == 0 {
        0
    } else if s[0] == c {
        0
    } else {
        1 + position(s.drop_first(), c)
    }
}

/// The names in `text`: what stands between the first double quote and the
/// second, between the third and the fourth, and so on. A quote that is
/// never closed begins no name.
pub open spec fn quoted_names(text: Seq<char>) -> Seq<Seq<char>>
    decreases text.len(),
{
    let open = position(text, '"');
    if open >= text.len() {
        Seq::empty()
    } else {
        let rest = text.skip(open + 1);
        let close = position(rest, '"');
        if close >= rest.len() {
            Seq::empty()
        } else {
            proof {
                lemma_position(text, '"');
                lemma_position(rest, '"');
            }
            seq![rest.take(close)] + quoted_names(rest.skip(close + 1))
        }
    }
}

/// The position of the first `c` lies in the text or at its end, no `c`
/// stands before it, and where it lies in the text a `c` stands there.
pub proof fn lemma_position(s: Seq<char>, c: char)
    ensures
        0 <= position(s, c) <= s.len(),
        forall|i: int| 0 <= i < position(s, c) ==> s[i] != c,
        position(s, c) < s.len() ==> s[position(s, c)] == c,
    decreases s.len(),
{
    if s.len() > 0 && s[0] != c {
        let rest = s.drop_first();
        lemma_position(rest, c);
        assert forall|i: int| 0 <= i < position(s, c) implies s[i] != c by {
            if i > 0 {
                assert(rest[i - 1] == s[i]);
            }
        }
        if position(s, c) < s.len() {
            assert(rest[position(rest, c)] == s[position(s, c)]);
        }
    }
}

/// The first `c` at or after `from` is found by looking at the text from
/// `from` on.
proof fn lemma_position_found(s: Seq<char>, c: char, at: int)
    requires
        0 <= at <= s.len(),
        forall|i: int| 0 <= i < at ==> s[i] != c,
        at < s.len() ==> s[at] == c,
    ensures
        position(s, c) == at,
{
    lemma_position(s, c);
    let p = position(s, c);
    if p < at {
        assert(s[p] == c);
    } else if p > at {
        assert(s[at] != c);
    }
}

/// The position of the first `c` in `s` at or after `from`, or the length of
/// `s` where there is none.
fn find_from(s: &Vec<char>, from: usize, c: char) -> (at: usize)
    requires
        from <= s.len(),
    ensures
        at == from + position(s@.skip(from as int), c),
        from <= at <= s.len(),
{
    let mut at = from;
    let ghost rest = s@.skip(from as int);
    while at < s.len() && s[at] != c
        invariant
            from <= at <= s.len(),
            rest == s@.skip(from as int),
            forall|i: int| 0 <= i < at - from ==> rest[i] != c,
        decreases s.len() - at,
    {
        assert(rest[at - from] == s@[at as int]);
        at = at + 1;
    }
    proof {
        if at < s.len() {
            assert(rest[at - from] == s@[at as int]);
        }
        lemma_position_found(rest, c, at - from);
    }
    at
}

/// Reads a list of source files: the names that stand between double
/// quotes in `text`, in their order.
pub fn parse_list(text: &str) -> (names: Vec<String>)
    ensures
        names.deep_view() == quoted_names(text@),
{
    let chars = chars_of(text);
    let mut names: Vec<String> = Vec::new();
    let mut i: usize = 0;
    let mut done = false;
    assert(text@.skip(0) =~= text@);
    assert(names.deep_view() =~= Seq::<Seq<char>>::empty());
    while !done
        invariant
            0 <= i <= chars.len(),
            chars@ == text@,
            !done ==> quoted_names(text@) == names.deep_view() + quoted_names(text@.skip(i as int)),
            done ==> quoted_names(text@) == names.deep_view(),
        decreases chars.len() - i + (if done { 0int } else { 1int }),
    {
        let ghost tail = text@.skip(i as int);
        let ghost found = names.deep_view();
        let open = find_from(&chars, i, '"');
        if open >= chars.len() {
            assert(quoted_names(tail) =~= Seq::<Seq<char>>::empty());
            assert(found + Seq::<Seq<char>>::empty() =~= found);
            done = true;
        } else {
            let ghost rest = tail.skip(open - i + 1);
            assert(rest =~= text@.skip(open + 1));
            let close = find_from(&chars, open + 1, '"');
            if close >= chars.len() {
                assert(quoted_names(tail) =~= Seq::<Seq<char>>::empty());
                assert(found + Seq::<Seq<char>>::empty() =~= found);
                done = true;
            } else {
                let name = String::from_str(text.substring_char(open + 1, close));
                assert(name@ =~= rest.take(close - open - 1));
                assert(rest.skip(close - open - 1 + 1) =~= text@.skip(close + 1));
                names.push(name);
                assert(names.deep_view() =~= found.push(name@));
                assert(found + (seq![name@] + quoted_names(text@.skip(close + 1)))
                    =~= found.push(name@) + quoted_names(text@.skip(close + 1)));
                i = close + 1;
            }
        }
    }
    names
}

} // verus!
