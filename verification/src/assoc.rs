//! Association lists keyed by names: the model of the hub's tables.
//!
//! A table is a sequence of `(key, value)` pairs whose keys are pairwise
//! distinct; its meaning is the finite map from each key to its value.

use vstd::prelude::*;

verus! {

/// `k` is the key of some entry of `s`.
pub open spec fn has_key<W>(s: Seq<(Seq<char>, W)>, k: Seq<char>) -> bool {
    exists|i: int| 0 <= i < s.len() && #[trigger] s[i].0 == k
}

/// No key occurs twice in `s`.
pub open spec fn keys_distinct<W>(s: Seq<(Seq<char>, W)>) -> bool {
    forall|i: int, j: int|
        0 <= i < s.len() && 0 <= j < s.len() && i != j ==> #[trigger] s[i].0 != #[trigger] s[j].0
}

/// The map that a table stands for.
pub open spec fn as_map<W>(s: Seq<(Seq<char>, W)>) -> Map<Seq<char>, W> {
    Map::new(
        |k: Seq<char>| has_key(s, k),
        |k: Seq<char>| s[choose|i: int| 0 <= i < s.len() && #[trigger] s[i].0 == k].1,
    )
}

/// The entry at index `i` is what the map holds for its key.
pub proof fn lemma_as_map_index<W>(s: Seq<(Seq<char>, W)>, i: int)
    requires
        keys_distinct(s),
        0 <= i < s.len(),
    ensures
        as_map(s).dom().contains(s[i].0),
        as_map(s)[s[i].0] == s[i].1,
{
    assert(has_key(s, s[i].0));
    let j = choose|j: int| 0 <= j < s.len() && #[trigger] s[j].0 == s[i].0;
    assert(j == i);
}

/// Replacing the value of an entry updates the map at that key.
pub proof fn lemma_as_map_update<W>(s: Seq<(Seq<char>, W)>, i: int, w: W)
    requires
        keys_distinct(s),
        0 <= i < s.len(),
    ensures
        keys_distinct(s.update(i, (s[i].0, w))),
        as_map(s.update(i, (s[i].0, w))) == as_map(s).insert(s[i].0, w),
{
    let t = s.update(i, (s[i].0, w));
    assert(keys_distinct(t)) by {
        assert forall|a: int, b: int|
            0 <= a < t.len() && 0 <= b < t.len() && a != b implies #[trigger] t[a].0
            != #[trigger] t[b].0 by {
            assert(t[a].0 == s[a].0);
            assert(t[b].0 == s[b].0);
        }
    }
    let m = as_map(s).insert(s[i].0, w);
    assert forall|k: Seq<char>| #[trigger] as_map(t).dom().contains(k) <==> m.dom().contains(k) by {
        if has_key(t, k) {
            let j = choose|j: int| 0 <= j < t.len() && #[trigger] t[j].0 == k;
            assert(s[j].0 == k);
        }
        if has_key(s, k) {
            let j = choose|j: int| 0 <= j < s.len() && #[trigger] s[j].0 == k;
            assert(t[j].0 == k);
        }
    }
    assert forall|k: Seq<char>| #[trigger] as_map(t).dom().contains(k) implies as_map(t)[k]
        == m[k] by {
        let j = choose|j: int| 0 <= j < t.len() && #[trigger] t[j].0 == k;
        lemma_as_map_index(t, j);
        if j != i {
            lemma_as_map_index(s, j);
        }
    }
    assert(as_map(t) =~= m);
}

/// Appending an entry with a new key adds that key to the map.
pub proof fn lemma_as_map_push<W>(s: Seq<(Seq<char>, W)>, k: Seq<char>, w: W)
    requires
        keys_distinct(s),
        !has_key(s, k),
    ensures
        keys_distinct(s.push((k, w))),
        as_map(s.push((k, w))) == as_map(s).insert(k, w),
{
    let t = s.push((k, w));
    assert(keys_distinct(t)) by {
        assert forall|a: int, b: int|
            0 <= a < t.len() && 0 <= b < t.len() && a != b implies #[trigger] t[a].0
            != #[trigger] t[b].0 by {
            if a < s.len() && b < s.len() {
                assert(t[a].0 == s[a].0);
                assert(t[b].0 == s[b].0);
            } else if a < s.len() {
                assert(t[a].0 == s[a].0);
            } else {
                assert(t[b].0 == s[b].0);
            }
        }
    }
    let m = as_map(s).insert(k, w);
    assert forall|x: Seq<char>| #[trigger] as_map(t).dom().contains(x) <==> m.dom().contains(x) by {
        if has_key(t, x) {
            let j = choose|j: int| 0 <= j < t.len() && #[trigger] t[j].0 == x;
            if j < s.len() {
                assert(s[j].0 == x);
            }
        }
        if has_key(s, x) {
            let j = choose|j: int| 0 <= j < s.len() && #[trigger] s[j].0 == x;
            assert(t[j].0 == x);
        }
        if x == k {
            assert(t[s.len() as int].0 == k);
        }
    }
    assert forall|x: Seq<char>| #[trigger] as_map(t).dom().contains(x) implies as_map(t)[x]
        == m[x] by {
        let j = choose|j: int| 0 <= j < t.len() && #[trigger] t[j].0 == x;
        lemma_as_map_index(t, j);
        if j < s.len() {
            assert(t[j] == s[j]);
            lemma_as_map_index(s, j);
        }
    }
    assert(as_map(t) =~= m);
}

/// Removing an entry removes its key from the map.
pub proof fn lemma_as_map_remove<W>(s: Seq<(Seq<char>, W)>, i: int)
    requires
        keys_distinct(s),
        0 <= i < s.len(),
    ensures
        keys_distinct(s.remove(i)),
        as_map(s.remove(i)) == as_map(s).remove(s[i].0),
{
    let t = s.remove(i);
    assert forall|a: int| 0 <= a < t.len() implies #[trigger] t[a] == if a < i {
        s[a]
    } else {
        s[a + 1]
    } by {}
    assert(keys_distinct(t)) by {
        assert forall|a: int, b: int|
            0 <= a < t.len() && 0 <= b < t.len() && a != b implies #[trigger] t[a].0
            != #[trigger] t[b].0 by {
            let sa = if a < i { a } else { a + 1 };
            let sb = if b < i { b } else { b + 1 };
            assert(t[a] == s[sa]);
            assert(t[b] == s[sb]);
        }
    }
    let m = as_map(s).remove(s[i].0);
    assert forall|x: Seq<char>| #[trigger] as_map(t).dom().contains(x) <==> m.dom().contains(x) by {
        if has_key(t, x) {
            let j = choose|j: int| 0 <= j < t.len() && #[trigger] t[j].0 == x;
            let sj = if j < i { j } else { j + 1 };
            assert(t[j] == s[sj]);
            assert(s[sj].0 == x);
        }
        if has_key(s, x) && x != s[i].0 {
            let j = choose|j: int| 0 <= j < s.len() && #[trigger] s[j].0 == x;
            if j < i {
                assert(t[j] == s[j]);
            } else {
                assert(j != i);
                assert(t[j - 1] == s[j]);
            }
        }
    }
    assert forall|x: Seq<char>| #[trigger] as_map(t).dom().contains(x) implies as_map(t)[x]
        == m[x] by {
        let j = choose|j: int| 0 <= j < t.len() && #[trigger] t[j].0 == x;
        lemma_as_map_index(t, j);
        let sj = if j < i { j } else { j + 1 };
        assert(t[j] == s[sj]);
        lemma_as_map_index(s, sj);
    }
    assert(as_map(t) =~= m);
}

/// A table with distinct keys has as many keys as entries.
pub proof fn lemma_as_map_len<W>(s: Seq<(Seq<char>, W)>)
    requires
        keys_distinct(s),
    ensures
        as_map(s).dom().finite(),
        as_map(s).dom().len() == s.len(),
    decreases s.len(),
{
    if s.len() == 0 {
        assert(as_map(s).dom() =~= Set::<Seq<char>>::empty());
    } else {
        let r = s.drop_last();
        let last = s.last();
        assert(keys_distinct(r)) by {
            assert forall|a: int, b: int|
                0 <= a < r.len() && 0 <= b < r.len() && a != b implies #[trigger] r[a].0
                != #[trigger] r[b].0 by {
                assert(r[a] == s[a]);
                assert(r[b] == s[b]);
            }
        }
        assert(!has_key(r, last.0)) by {
            if has_key(r, last.0) {
                let j = choose|j: int| 0 <= j < r.len() && #[trigger] r[j].0 == last.0;
                assert(s[j].0 == last.0);
                assert(s[s.len() - 1].0 == last.0);
            }
        }
        lemma_as_map_len(r);
        lemma_as_map_push(r, last.0, last.1);
        assert(r.push((last.0, last.1)) =~= s);
    }
}

/// The map of the empty table is empty.
pub proof fn lemma_as_map_empty<W>(s: Seq<(Seq<char>, W)>)
    requires
        s.len() == 0,
    ensures
        keys_distinct(s),
        as_map(s) == Map::<Seq<char>, W>::empty(),
{
    assert(as_map(s) =~= Map::<Seq<char>, W>::empty());
}

} // verus!
