//! Sorting by a numeric key that leaves items with equal keys in their order.

use vstd::prelude::*;
use vstd::seq_lib::{to_multiset_build, to_multiset_insert};

verus! {

/// An item that is ordered by a number.
pub trait SortKey {
    /// The number by which the item is ordered.
    spec fn sort_key(&self) -> u64;

    /// Computes [`SortKey::sort_key`].
    fn key(&self) -> (k: u64)
        ensures
            k == self.sort_key(),
    ;
}

/// Whether the keys of `s` never descend.
pub open spec fn sorted_by_key<T: SortKey>(s: Seq<T>) -> bool {
    forall|i: int, j: int| 0 <= i < j < s.len() ==> s[i].sort_key() <= s[j].sort_key()
}

/// Where an item with key `k` goes into `s`: behind the last item whose key is
/// not greater.
pub open spec fn insert_position<T: SortKey>(s: Seq<T>, k: u64) -> int
    decreases s.len(),
{
    if s.len() > 0 && s.last().sort_key() > k {
        insert_position(s.drop_last(), k)
    } else {
        s.len() as int
    }
}

/// `s` with `x` put in behind the last item whose key is not greater than that of `x`.
pub open spec fn insert_sorted<T: SortKey>(s: Seq<T>, x: T) -> Seq<T> {
    s.insert(insert_position(s, x.sort_key()), x)
}

/// The items of `s` in the order of their keys, those with equal keys in the
/// order that they have in `s`.
pub open spec fn stable_sorted<T: SortKey>(s: Seq<T>) -> Seq<T>
    decreases s.len(),
{
    if s.len() == 0 {
        s
    } else {
        insert_sorted(stable_sorted(s.drop_last()), s.last())
    }
}

/// What marks the place where an item goes in.
pub proof fn lemma_insert_position<T: SortKey>(s: Seq<T>, k: u64)
    ensures
        0 <= insert_position(s, k) <= s.len(),
        forall|t: int| insert_position(s, k) <= t < s.len() ==> (#[trigger] s[t]).sort_key() > k,
        insert_position(s, k) > 0 ==> s[insert_position(s, k) - 1].sort_key() <= k,
    decreases s.len(),
{
    if s.len() > 0 && s.last().sort_key() > k {
        let p = s.drop_last();
        lemma_insert_position(p, k);
        assert forall|t: int| insert_position(s, k) <= t < s.len() implies (#[trigger] s[t]).sort_key()
            > k by {
            if t < p.len() {
                assert(s[t] == p[t]);
            }
        }
        if insert_position(s, k) > 0 {
            assert(s[insert_position(s, k) - 1] == p[insert_position(p, k) - 1]);
        }
    }
}

/// The place with that mark is the place where the item goes in.
pub proof fn lemma_insert_position_is<T: SortKey>(s: Seq<T>, k: u64, j: int)
    requires
        0 <= j <= s.len(),
        forall|t: int| j <= t < s.len() ==> (#[trigger] s[t]).sort_key() > k,
        j > 0 ==> s[j - 1].sort_key() <= k,
    ensures
        insert_position(s, k) == j,
    decreases s.len(),
{
    if s.len() > 0 && s.last().sort_key() > k {
        let p = s.drop_last();
        assert(j < s.len()) by {
            if j == s.len() {
                assert(s[j - 1] == s.last());
            }
        }
        assert forall|t: int| j <= t < p.len() implies (#[trigger] p[t]).sort_key() > k by {
            assert(p[t] == s[t]);
        }
        if j > 0 {
            assert(p[j - 1] == s[j - 1]);
        }
        lemma_insert_position_is(p, k, j);
    } else {
        if j < s.len() {
            assert(s[s.len() - 1].sort_key() > k);
        }
    }
}

/// Putting an item into a sorted sequence leaves it sorted, and adds that item
/// and nothing else.
pub proof fn lemma_insert_sorted<T: SortKey>(s: Seq<T>, x: T)
    ensures
        insert_sorted(s, x).len() == s.len() + 1,
        insert_sorted(s, x).to_multiset() == s.to_multiset().insert(x),
        sorted_by_key(s) ==> sorted_by_key(insert_sorted(s, x)),
{
    let j = insert_position(s, x.sort_key());
    lemma_insert_position(s, x.sort_key());
    to_multiset_insert(s, j, x);
    let r = insert_sorted(s, x);
    if sorted_by_key(s) {
        assert forall|a: int, b: int| 0 <= a < b < r.len() implies r[a].sort_key()
            <= r[b].sort_key() by {
            // `r[a]` and `r[b]` are `x` or items of `s`, in the order of `s`.
            if j > 0 && a < j {
                assert(s[a].sort_key() <= s[j - 1].sort_key());
            }
            if b > j {
                assert(r[b] == s[b - 1]);
            }
            if a > j {
                assert(r[a] == s[a - 1]);
            }
        }
    }
}

/// Sorting gives a sequence whose keys never descend and which holds the same
/// items as often: nothing is lost and nothing comes twice.
pub proof fn lemma_stable_sorted<T: SortKey>(s: Seq<T>)
    ensures
        sorted_by_key(stable_sorted(s)),
        stable_sorted(s).len() == s.len(),
        stable_sorted(s).to_multiset() == s.to_multiset(),
    decreases s.len(),
{
    if s.len() > 0 {
        let p = s.drop_last();
        lemma_stable_sorted(p);
        lemma_insert_sorted(stable_sorted(p), s.last());
        to_multiset_build(p, s.last());
        assert(p.push(s.last()) =~= s);
    }
}

/// Sorting leaves a sequence as it is if its keys never descend: items with
/// equal keys are not exchanged.
pub proof fn lemma_stable_sorted_fixes_sorted<T: SortKey>(s: Seq<T>)
    requires
        sorted_by_key(s),
    ensures
        stable_sorted(s) == s,
    decreases s.len(),
{
    if s.len() > 0 {
        let p = s.drop_last();
        assert(sorted_by_key(p)) by {
            assert forall|i: int, j: int| 0 <= i < j < p.len() implies p[i].sort_key()
                <= p[j].sort_key() by {
                assert(p[i] == s[i] && p[j] == s[j]);
            }
        }
        lemma_stable_sorted_fixes_sorted(p);
        let k = s.last().sort_key();
        if p.len() > 0 {
            assert(p[p.len() - 1] == s[p.len() - 1]);
        }
        lemma_insert_position_is(p, k, p.len() as int);
        assert(p.insert(p.len() as int, s.last()) =~= s);
    }
}

/// Sorts `v` by key, keeping the order of items with equal keys.
pub fn sort_by_key<T: SortKey>(v: &mut Vec<T>)
    ensures
        final(v)@ == stable_sorted(old(v)@),
{
    let n = v.len();
    let ghost orig = v@;
    let mut i: usize = 0;
    assert(v@.take(0) =~= stable_sorted(orig.take(0)));
    while i < n
        invariant
            i <= n,
            n == orig.len(),
            v@.len() == n,
            v@.take(i as int) == stable_sorted(orig.take(i as int)),
            v@.skip(i as int) == orig.skip(i as int),
        decreases n - i,
    {
        let k = v[i].key();
        let mut j: usize = i;
        while j > 0 && v[j - 1].key() > k
            invariant
                j <= i < n,
                v@.len() == n,
                forall|t: int| j <= t < i ==> (#[trigger] v@[t]).sort_key() > k,
            decreases j,
        {
            j -= 1;
        }
        let ghost before = v@;
        let ghost prefix = before.take(i as int);
        let ghost x = before[i as int];
        proof {
            assert(x == orig[i as int]) by {
                assert(before.skip(i as int)[0] == orig.skip(i as int)[0]);
            }
            assert forall|t: int| j <= t < prefix.len() implies (#[trigger] prefix[t]).sort_key()
                > k by {
                assert(prefix[t] == before[t]);
            }
            if j > 0 {
                assert(prefix[j - 1] == before[j - 1]);
            }
            lemma_insert_position_is(prefix, k, j as int);
            let whole = orig.take(i + 1);
            assert(whole.drop_last() =~= orig.take(i as int));
            assert(whole.last() == x);
            assert(stable_sorted(whole) == prefix.insert(j as int, x));
        }
        if j < i {
            let item = v.remove(i);
            v.insert(j, item);
        }
        proof {
            assert(v@ =~= before.remove(i as int).insert(j as int, x)) by {
                if j == i {
                    assert(before.remove(i as int).insert(i as int, x) =~= before);
                }
            }
            assert(v@.take(i + 1) =~= prefix.insert(j as int, x));
            let rest = v@.skip(i + 1);
            assert(rest.len() == orig.skip(i + 1).len());
            assert forall|t: int| 0 <= t < rest.len() implies #[trigger] rest[t] == orig.skip(
                i + 1,
            )[t] by {
                assert(before.skip(i as int)[t + 1] == orig.skip(i as int)[t + 1]);
            }
            assert(rest =~= orig.skip(i + 1));
        }
        i += 1;
    }
    assert(v@.take(n as int) =~= v@);
    assert(orig.take(n as int) =~= orig);
}

} // verus!
