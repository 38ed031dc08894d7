//! The list of include directories, as the compiler gets it: sorted, and
//! every directory once.

use crate::path::{
    compare,
    lemma_precedes_is_asymmetric,
    lemma_precedes_is_irreflexive,
    lemma_precedes_is_transitive,
    precedes,
    Order,
};
use vstd::prelude::*;

verus! {

/// Each directory comes before all that follow it.
pub open spec fn ascending(dirs: Seq<Seq<char>>) -> bool {
    forall|i: int, j: int| 0 <= i < j < dirs.len() ==> precedes(dirs[i], dirs[j])
}

/// The two lists hold the same directories, however often and in whatever
/// order.
pub open spec fn same_members(a: Seq<Seq<char>>, b: Seq<Seq<char>>) -> bool {
    forall|dir: Seq<char>| a.contains(dir) <==> b.contains(dir)
}

/// `dirs` without the repetitions: each directory stays where it first
/// occurs.
pub open spec fn first_occurrences(dirs: Seq<Seq<char>>) -> Seq<Seq<char>>
    decreases dirs.len(),
{
    if dirs.len() == 0 {
        Seq::empty()
    } else {
        let before = first_occurrences(dirs.drop_last());
        if before.contains(dirs.last()) {
            before
        } else {
            before.push(dirs.last())
        }
    }
}

/// An ascending list holds no directory twice.
pub proof fn lemma_ascending_has_no_duplicates(dirs: Seq<Seq<char>>)
    requires
        ascending(dirs),
    ensures
        dirs.no_duplicates(),
{
    assert forall|i: int, j: int| 0 <= i < dirs.len() && 0 <= j < dirs.len() && i != j implies dirs[i]
        != dirs[j] by {
        lemma_precedes_is_irreflexive(dirs[i]);
        if i < j {
            assert(precedes(dirs[i], dirs[j]));
        } else {
            assert(precedes(dirs[j], dirs[i]));
        }
    }
}

/// What `first_occurrences` keeps: every directory of the list, once.
pub proof fn lemma_first_occurrences_keeps_members(dirs: Seq<Seq<char>>)
    ensures
        same_members(first_occurrences(dirs), dirs),
        first_occurrences(dirs).no_duplicates(),
    decreases dirs.len(),
{
    if dirs.len() > 0 {
        let shorter = dirs.drop_last();
        let before = first_occurrences(shorter);
        let kept = first_occurrences(dirs);
        lemma_first_occurrences_keeps_members(shorter);
        assert forall|dir: Seq<char>| kept.contains(dir) <==> dirs.contains(dir) by {
            if kept.contains(dir) {
                let i = choose|i: int| 0 <= i < kept.len() && kept[i] == dir;
                if i < before.len() {
                    assert(before[i] == dir);
                    assert(before.contains(dir));
                    let j = choose|j: int| 0 <= j < shorter.len() && shorter[j] == dir;
                    assert(dirs[j] == dir);
                } else {
                    assert(dirs[dirs.len() - 1] == dir);
                }
            }
            if dirs.contains(dir) {
                let j = choose|j: int| 0 <= j < dirs.len() && dirs[j] == dir;
                if j < shorter.len() {
                    assert(shorter[j] == dir);
                    assert(before.contains(dir));
                    let i = choose|i: int| 0 <= i < before.len() && before[i] == dir;
                    assert(kept[i] == dir);
                } else if before.contains(dir) {
                } else {
                    assert(kept[kept.len() - 1] == dir);
                }
            }
        }
    }
}

/// There is one ascending list of the directories of a list, and no other.
pub proof fn lemma_ascending_is_unique(a: Seq<Seq<char>>, b: Seq<Seq<char>>)
    requires
        ascending(a),
        ascending(b),
        same_members(a, b),
    ensures
        a == b,
    decreases a.len(),
{
    if a.len() == 0 {
        if b.len() > 0 {
            assert(b.contains(b[0]));
            assert(a.contains(b[0]));
        }
        assert(a =~= b);
    } else if b.len() == 0 {
        assert(a.contains(a[0]));
        assert(b.contains(a[0]));
    } else {
        // The two lists end in the same directory: the one that no other
        // comes after.
        let x = a.last();
        let y = b.last();
        assert(a.contains(x));
        assert(b.contains(x));
        assert(b.contains(y));
        assert(a.contains(y));
        let i = choose|i: int| 0 <= i < b.len() && b[i] == x;
        let j = choose|j: int| 0 <= j < a.len() && a[j] == y;
        if x != y {
            assert(precedes(b[i], b[b.len() - 1]));
            assert(precedes(a[j], a[a.len() - 1]));
            lemma_precedes_is_asymmetric(x, y);
        }
        let a0 = a.drop_last();
        let b0 = b.drop_last();
        lemma_ascending_has_no_duplicates(a);
        lemma_ascending_has_no_duplicates(b);
        assert forall|dir: Seq<char>| a0.contains(dir) <==> b0.contains(dir) by {
            if a0.contains(dir) {
                let k = choose|k: int| 0 <= k < a0.len() && a0[k] == dir;
                assert(a[k] == dir);
                assert(a.contains(dir));
                let m = choose|m: int| 0 <= m < b.len() && b[m] == dir;
                assert(b0[m] == dir);
            }
            if b0.contains(dir) {
                let k = choose|k: int| 0 <= k < b0.len() && b0[k] == dir;
                assert(b[k] == dir);
                assert(b.contains(dir));
                let m = choose|m: int| 0 <= m < a.len() && a[m] == dir;
                assert(a0[m] == dir);
            }
        }
        assert(ascending(a0)) by {
            assert forall|p: int, q: int| 0 <= p < q < a0.len() implies precedes(a0[p], a0[q]) by {
                assert(precedes(a[p], a[q]));
            }
        }
        assert(ascending(b0)) by {
            assert forall|p: int, q: int| 0 <= p < q < b0.len() implies precedes(b0[p], b0[q]) by {
                assert(precedes(b[p], b[q]));
            }
        }
        lemma_ascending_is_unique(a0, b0);
        assert(a =~= a0.push(x));
        assert(b =~= b0.push(y));
    }
}

/// Where the directories of `dirs` first occur in ascending order already,
/// sorting moves none of them: the final list is `dirs` without its
/// repetitions, each directory where it first occurred.
pub proof fn lemma_final_list_keeps_first_occurrences(
    dirs: Seq<Seq<char>>,
    finalized: Seq<Seq<char>>,
)
    requires
        ascending(finalized),
        same_members(finalized, dirs),
        ascending(first_occurrences(dirs)),
    ensures
        finalized == first_occurrences(dirs),
{
    lemma_first_occurrences_keeps_members(dirs);
    lemma_ascending_is_unique(finalized, first_occurrences(dirs));
}

/// A directory put into an ascending list between what comes before it and
/// what comes after it leaves the list ascending.
proof fn lemma_insert_keeps_ascending(dirs: Seq<Seq<char>>, at: int, dir: Seq<char>)
    requires
        ascending(dirs),
        0 <= at <= dirs.len(),
        forall|j: int| 0 <= j < at ==> precedes(#[trigger] dirs[j], dir),
        at < dirs.len() ==> precedes(dir, dirs[at]),
    ensures
        ascending(dirs.insert(at, dir)),
{
    let longer = dirs.insert(at, dir);
    assert forall|i: int, j: int| 0 <= i < j < longer.len() implies precedes(
        longer[i],
        longer[j],
    ) by {
        if j < at {
            assert(precedes(dirs[i], dirs[j]));
        } else if j == at {
            assert(precedes(dirs[i], dir));
        } else if i < at {
            assert(precedes(dirs[i], dirs[j - 1]));
        } else if i == at {
            if j - 1 > at {
                assert(precedes(dirs[at], dirs[j - 1]));
                lemma_precedes_is_transitive(dir, dirs[at], dirs[j - 1]);
            }
        } else {
            assert(precedes(dirs[i - 1], dirs[j - 1]));
        }
    }
}

/// A list with one directory more holds that directory and what it held.
proof fn lemma_insert_adds_one_member(dirs: Seq<Seq<char>>, at: int, dir: Seq<char>)
    requires
        0 <= at <= dirs.len(),
    ensures
        forall|other: Seq<char>|
            dirs.insert(at, dir).contains(other) <==> (other == dir || dirs.contains(other)),
{
    let longer = dirs.insert(at, dir);
    assert forall|other: Seq<char>| longer.contains(other) <==> (other == dir || dirs.contains(
        other,
    )) by {
        if longer.contains(other) {
            let i = choose|i: int| 0 <= i < longer.len() && longer[i] == other;
            if i < at {
                assert(dirs[i] == other);
            } else if i > at {
                assert(dirs[i - 1] == other);
            }
        }
        if other == dir {
            assert(longer[at] == other);
        }
        if dirs.contains(other) {
            let i = choose|i: int| 0 <= i < dirs.len() && dirs[i] == other;
            if i < at {
                assert(longer[i] == other);
            } else {
                assert(longer[i + 1] == other);
            }
        }
    }
}

/// Sorts the include directories and removes the repetitions.
///
/// What comes back holds exactly the directories of `dirs`, in ascending
/// order, and therefore each of them once.
pub fn finalize_includes(dirs: &Vec<String>) -> (finalized: Vec<String>)
    ensures
        ascending(finalized.deep_view()),
        same_members(finalized.deep_view(), dirs.deep_view()),
        finalized.deep_view().no_duplicates(),
{
    let mut out: Vec<String> = Vec::new();
    let mut i: usize = 0;
    assert(dirs.deep_view().take(0) =~= Seq::<Seq<char>>::empty());
    while i < dirs.len()
        invariant
            0 <= i <= dirs.len(),
            ascending(out.deep_view()),
            same_members(out.deep_view(), dirs.deep_view().take(i as int)),
        decreases dirs.len() - i,
    {
        let dir = &dirs[i];
        let ghost before = out.deep_view();
        let ghost seen = dirs.deep_view().take(i as int);
        // Walk past everything that comes before `dir`.
        let mut at: usize = 0;
        let mut present = false;
        let mut stop = false;
        while at < out.len() && !stop
            invariant
                0 <= at <= out.len(),
                out.deep_view() == before,
                forall|j: int| 0 <= j < at ==> precedes(#[trigger] before[j], dir@),
                stop ==> at < out.len(),
                stop && present ==> before[at as int] == dir@,
                stop && !present ==> precedes(dir@, before[at as int]),
                !stop ==> !present,
            decreases out.len() - at + (if stop { 0int } else { 1int }),
        {
            assert(before[at as int] == out@[at as int]@);
            match compare(out[at].as_str(), dir.as_str()) {
                Order::Before => {
                    at = at + 1;
                },
                Order::Same => {
                    present = true;
                    stop = true;
                },
                Order::After => {
                    stop = true;
                },
            }
        }
        let ghost next = dirs.deep_view().take(i + 1);
        proof {
            assert(next =~= seen.push(dir@));
            assert forall|other: Seq<char>| next.contains(other) <==> (other == dir@
                || seen.contains(other)) by {
                if next.contains(other) {
                    let k = choose|k: int| 0 <= k < next.len() && next[k] == other;
                    if k < seen.len() {
                        assert(seen[k] == other);
                    }
                }
                if other == dir@ {
                    assert(next[next.len() - 1] == other);
                }
                if seen.contains(other) {
                    let k = choose|k: int| 0 <= k < seen.len() && seen[k] == other;
                    assert(next[k] == other);
                }
            }
        }
        if present {
            assert(before.contains(dir@));
        } else {
            out.insert(at, dir.clone());
            proof {
                assert(out.deep_view() =~= before.insert(at as int, dir@));
                lemma_insert_keeps_ascending(before, at as int, dir@);
                lemma_insert_adds_one_member(before, at as int, dir@);
            }
        }
        assert forall|other: Seq<char>| out.deep_view().contains(other) <==> next.contains(
            other,
        ) by {
            assert(before.contains(other) <==> seen.contains(other));
            assert(next.contains(other) <==> (other == dir@ || seen.contains(other)));
        }
        i = i + 1;
    }
    proof {
        assert(dirs.deep_view().take(i as int) =~= dirs.deep_view());
        lemma_ascending_has_no_duplicates(out.deep_view());
    }
    out
}

} // verus!
