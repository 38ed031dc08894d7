//! Names of directories and files in the source tree.
//!
//! A path is a string whose components are separated by `/`. Paths are put
//! together by [`join`], get their extension from [`with_extension`], and are
//! ordered component by component by [`compare`].

use crate::text::chars_of;
use vstd::prelude::*;
use vstd::string::*;

verus! {

/// `rel` below `base`: the two with one separator between them. An absolute
/// `rel` stands for itself, and an empty `base` adds nothing.
pub open spec fn joined(base: Seq<char>, rel: Seq<char>) -> Seq<char> {
    if rel.len() > 0 && rel[0] == '/' {
        rel
    } else if base.len() == 0 || base.last() == '/' {
        base + rel
    } else {
        base + seq!['/'] + rel
    }
}

/// The position of the last `c` in `s`, or -1 where `s` holds none.
pub open spec fn last_index_of(s: Seq<char>, c: char) -> int
    decreases s.len(),
{
    if s.len() == 0 {
        -1
    } else if s.last() == c {
        s.len() - 1
    } else {
        last_index_of(s.drop_last(), c)
    }
}

/// The last component of `path`: what follows its last separator.
pub open spec fn file_name(path: Seq<char>) -> Seq<char> {
    path.skip(last_index_of(path, '/') + 1)
}

/// Whether the last component of `path` names a file: it is not empty, and
/// it is neither `.` nor `..`.
pub open spec fn names_file(path: Seq<char>) -> bool {
    let name = file_name(path);
    name.len() > 0 && name != seq!['.'] && name != seq!['.', '.']
}

/// The length of `name` without its extension. The extension begins at the
/// last `.` of the name; a name that begins with its only `.` has none.
pub open spec fn stem_len(name: Seq<char>) -> int {
    let dot = last_index_of(name, '.');
    if dot <= 0 {
        name.len() as int
    } else {
        dot
    }
}

/// `path` with the extension `ext` in place of the one that its file name
/// has, or added to a file name that has none. A path that names no file is
/// left as it is, and an empty `ext` leaves the file name without extension.
pub open spec fn with_extension(path: Seq<char>, ext: Seq<char>) -> Seq<char> {
    if !names_file(path) {
        path
    } else {
        let start = last_index_of(path, '/') + 1;
        let stem = path.take(start + stem_len(path.skip(start)));
        if ext.len() == 0 {
            stem
        } else {
            stem + seq!['.'] + ext
        }
    }
}

/// The weight of a character when paths are ordered. The separator weighs
/// less than every other character, so that a directory comes before
/// everything whose name merely begins like its own, and paths are ordered
/// component by component.
pub open spec fn weight(c: char) -> int {
    if c == '/' {
        0
    } else {
        c as int + 1
    }
}

/// `a` and `b` agree before position `k`, and there `a` ends or holds the
/// lighter character.
pub open spec fn parts_at(a: Seq<char>, b: Seq<char>, k: int) -> bool {
    &&& 0 <= k <= a.len()
    &&& k < b.len()
    &&& a.take(k) == b.take(k)
    &&& (k == a.len() || weight(a[k]) < weight(b[k]))
}

/// Whether `a` comes before `b` when paths are sorted.
pub open spec fn precedes(a: Seq<char>, b: Seq<char>) -> bool {
    exists|k: int| parts_at(a, b, k)
}

/// Where one path stands with respect to another when paths are sorted.
#[derive(Clone, Copy, PartialEq, Eq, Structural, Debug)]
pub enum Order {
    Before,
    Same,
    After,
}

/// Only the separator weighs nothing, and no two characters weigh the same.
pub proof fn lemma_weight_tells_apart(x: char, y: char)
    ensures
        weight(x) >= 0,
        weight(x) == 0 <==> x == '/',
        weight(x) == weight(y) <==> x == y,
{
}

/// No path comes before itself.
pub proof fn lemma_precedes_is_irreflexive(a: Seq<char>)
    ensures
        !precedes(a, a),
{
}

/// Of two paths at most one comes before the other.
pub proof fn lemma_precedes_is_asymmetric(a: Seq<char>, b: Seq<char>)
    requires
        precedes(a, b),
    ensures
        !precedes(b, a),
{
    let k = choose|k: int| parts_at(a, b, k);
    if precedes(b, a) {
        let m = choose|m: int| parts_at(b, a, m);
        if m < k {
            assert(a.take(k)[m] == b.take(k)[m]);
        } else if k < m {
            assert(b.take(m)[k] == a.take(m)[k]);
        }
    }
}

/// What comes before a path comes before everything that the path comes
/// before.
pub proof fn lemma_precedes_is_transitive(a: Seq<char>, b: Seq<char>, c: Seq<char>)
    requires
        precedes(a, b),
        precedes(b, c),
    ensures
        precedes(a, c),
{
    let k = choose|k: int| parts_at(a, b, k);
    let m = choose|m: int| parts_at(b, c, m);
    let n = if k <= m {
        k
    } else {
        m
    };
    assert(a.take(n) =~= c.take(n)) by {
        assert forall|i: int| 0 <= i < n implies a[i] == c[i] by {
            assert(a.take(k)[i] == b.take(k)[i]);
            assert(b.take(m)[i] == c.take(m)[i]);
        }
    }
    if k < m {
        assert(b.take(m)[k] == c.take(m)[k]);
    } else if m < k {
        assert(a.take(k)[m] == b.take(k)[m]);
    }
    assert(parts_at(a, c, n));
}

/// Two paths that agree before position `k` are the same path, or one of
/// them comes before the other.
proof fn lemma_paths_part_somewhere(a: Seq<char>, b: Seq<char>, k: int)
    requires
        0 <= k <= a.len(),
        k <= b.len(),
        a.take(k) == b.take(k),
    ensures
        a == b || precedes(a, b) || precedes(b, a),
    decreases a.len() - k,
{
    if k == a.len() && k == b.len() {
        assert(a.take(k) =~= a);
        assert(b.take(k) =~= b);
    } else if k == a.len() {
        assert(parts_at(a, b, k));
    } else if k == b.len() {
        assert(parts_at(b, a, k));
    } else if a[k] == b[k] {
        assert(a.take(k + 1) =~= a.take(k).push(a[k]));
        assert(b.take(k + 1) =~= b.take(k).push(b[k]));
        lemma_paths_part_somewhere(a, b, k + 1);
    } else {
        lemma_weight_tells_apart(a[k], b[k]);
        if weight(a[k]) < weight(b[k]) {
            assert(parts_at(a, b, k));
        } else {
            assert(parts_at(b, a, k));
        }
    }
}

/// Of two different paths one comes before the other.
pub proof fn lemma_precedes_is_total(a: Seq<char>, b: Seq<char>)
    ensures
        a == b || precedes(a, b) || precedes(b, a),
{
    assert(a.take(0) =~= b.take(0));
    lemma_paths_part_somewhere(a, b, 0);
}

/// What lies below a directory lies below that directory taken with an
/// empty name.
pub proof fn lemma_join_through_empty(base: Seq<char>, rel: Seq<char>)
    ensures
        joined(joined(base, Seq::empty()), rel) == joined(base, rel),
{
    let same_dir = joined(base, Seq::empty());
    if base.len() == 0 || base.last() == '/' {
        assert(same_dir =~= base);
    } else {
        assert(same_dir =~= base + seq!['/']);
        assert(same_dir.last() == '/');
        assert(same_dir + rel =~= base + seq!['/'] + rel);
    }
}

/// Puts `rel` below `base`.
pub fn join(base: &str, rel: &str) -> (path: String)
    ensures
        path@ == joined(base@, rel@),
{
    let base_chars = chars_of(base);
    let rel_chars = chars_of(rel);
    if rel_chars.len() > 0 && rel_chars[0] == '/' {
        return String::from_str(rel);
    }
    let mut path = String::from_str(base);
    if base_chars.len() > 0 && base_chars[base_chars.len() - 1] != '/' {
        proof {
            reveal_strlit("/");
        }
        assert("/"@ =~= seq!['/']);
        path.append("/");
    }
    path.append(rel);
    path
}

/// The position of the last `c` in the first `end` characters of `s`, as a
/// count from 1: the number of characters up to and including that `c`, or 0
/// where there is none.
fn last_index_before(s: &Vec<char>, end: usize, c: char) -> (n: usize)
    requires
        end <= s.len(),
    ensures
        n == last_index_of(s@.take(end as int), c) + 1,
        n <= end,
{
    let mut n: usize = end;
    while n > 0
        invariant
            0 <= n <= end <= s.len(),
            last_index_of(s@.take(end as int), c) == last_index_of(s@.take(n as int), c),
        decreases n,
    {
        assert(s@.take(n as int).last() == s@[n - 1]);
        if s[n - 1] == c {
            return n;
        }
        assert(s@.take(n as int).drop_last() =~= s@.take(n - 1));
        n = n - 1;
    }
    n
}

/// Gives the file that `path` names the extension `ext`.
pub fn set_extension(path: &str, ext: &str) -> (r: String)
    ensures
        r@ == with_extension(path@, ext@),
{
    let chars = chars_of(path);
    let len = chars.len();
    assert(chars@.take(len as int) =~= path@);
    let start = last_index_before(&chars, len, '/');
    let ghost name = path@.skip(start as int);
    let name_len = len - start;
    let is_dot = name_len == 1 && chars[start] == '.';
    let is_dot_dot = name_len == 2 && chars[start] == '.' && chars[start + 1] == '.';
    assert(is_dot == (name == seq!['.'])) by {
        if is_dot {
            assert(name =~= seq!['.']);
        } else if name == seq!['.'] {
            assert(seq!['.'].len() == 1 && seq!['.'][0] == '.');
            assert(name[0] == chars@[start as int]);
        }
    }
    assert(is_dot_dot == (name == seq!['.', '.'])) by {
        if is_dot_dot {
            assert(name =~= seq!['.', '.']);
        } else if name == seq!['.', '.'] {
            assert(seq!['.', '.'].len() == 2);
            assert(seq!['.', '.'][0] == '.' && seq!['.', '.'][1] == '.');
            assert(name[0] == chars@[start as int] && name[1] == chars@[start + 1]);
        }
    }
    if name_len == 0 || is_dot || is_dot_dot {
        return String::from_str(path);
    }
    let mut dot: usize = len;
    let mut found = false;
    assert(name.take(len - start) =~= name);
    while dot > start && !found
        invariant
            start <= dot <= len == chars.len(),
            chars@ == path@,
            name == path@.skip(start as int),
            last_index_of(name, '.') == last_index_of(name.take(dot - start), '.'),
            found ==> dot > start && chars@[dot - 1] == '.',
        decreases dot - (if found { 1int } else { 0int }),
    {
        assert(name.take(dot - start).last() == chars@[dot - 1]);
        if chars[dot - 1] == '.' {
            found = true;
        } else {
            assert(name.take(dot - start).drop_last() =~= name.take(dot - start - 1));
            dot = dot - 1;
        }
    }
    assert(name.take(len - start) =~= name);
    let ghost at = last_index_of(name, '.');
    assert(found ==> at == dot - start - 1) by {
        if found {
            assert(name.take(dot - start).last() == chars@[dot - 1]);
        }
    }
    assert(!found ==> at == -1) by {
        if !found {
            assert(name.take(0) =~= Seq::<char>::empty());
        }
    }
    let end = if found && dot - 1 > start {
        dot - 1
    } else {
        len
    };
    assert(end == start + stem_len(name));
    let mut r = String::from_str(path.substring_char(0, end));
    assert(path@.subrange(0, end as int) =~= path@.take(end as int));
    if chars_of(ext).len() > 0 {
        proof {
            reveal_strlit(".");
        }
        assert("."@ =~= seq!['.']);
        r.append(".");
        r.append(ext);
    }
    r
}

/// Says where `a` stands with respect to `b` when paths are sorted.
pub fn compare(a: &str, b: &str) -> (order: Order)
    ensures
        (order == Order::Before) == precedes(a@, b@),
        (order == Order::Same) == (a@ == b@),
        (order == Order::After) == precedes(b@, a@),
{
    let left = chars_of(a);
    let right = chars_of(b);
    let mut i: usize = 0;
    while i < left.len() && i < right.len()
        invariant
            0 <= i <= left.len(),
            i <= right.len(),
            left@ == a@,
            right@ == b@,
            a@.take(i as int) == b@.take(i as int),
        decreases left.len() - i,
    {
        let x = left[i];
        let y = right[i];
        if x != y {
            let less = if x == '/' {
                true
            } else if y == '/' {
                false
            } else {
                x < y
            };
            proof {
                lemma_weight_tells_apart(x, y);
                lemma_weight_tells_apart(y, x);
                if less {
                    assert(parts_at(a@, b@, i as int));
                    lemma_precedes_is_asymmetric(a@, b@);
                } else {
                    assert(parts_at(b@, a@, i as int));
                    lemma_precedes_is_asymmetric(b@, a@);
                }
            }
            return if less {
                Order::Before
            } else {
                Order::After
            };
        }
        assert(a@.take(i + 1) =~= a@.take(i as int).push(x));
        assert(b@.take(i + 1) =~= b@.take(i as int).push(y));
        i = i + 1;
    }
    proof {
        lemma_precedes_is_irreflexive(a@);
        if i == left.len() && i == right.len() {
            assert(a@.take(i as int) =~= a@);
            assert(b@.take(i as int) =~= b@);
        } else if i == left.len() {
            assert(parts_at(a@, b@, i as int));
            lemma_precedes_is_asymmetric(a@, b@);
        } else {
            assert(parts_at(b@, a@, i as int));
            lemma_precedes_is_asymmetric(b@, a@);
        }
    }
    if i == left.len() && i == right.len() {
        Order::Same
    } else if i == left.len() {
        Order::Before
    } else {
        Order::After
    }
}

} // verus!
