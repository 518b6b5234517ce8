//! Facts about removing one value from a sequence.

use vstd::prelude::*;

verus! {

/// The predicate "differs from `x`".
pub open spec fn other_than<A>(x: A) -> spec_fn(A) -> bool {
    |y: A| y != x
}

/// What `s.filter(other_than(x))` keeps: every element but `x`, with its
/// length, duplicates and order as the facts below say.
pub proof fn lemma_filter_other_than<A>(s: Seq<A>, x: A)
    ensures
        forall|y: A| #[trigger] s.filter(other_than(x)).contains(y) <==> (s.contains(y) && y != x),
        !s.contains(x) ==> s.filter(other_than(x)) == s,
        s.contains(x) ==> s.filter(other_than(x)).len() < s.len(),
        s.filter(other_than(x)).len() <= s.len(),
        s.no_duplicates() ==> s.filter(other_than(x)).no_duplicates(),
    decreases s.len(),
{
    reveal(Seq::filter);
    let p = other_than(x);
    if s.len() == 0 {
        assert(s.filter(p) == s);
    } else {
        let r = s.drop_last();
        let l = s.last();
        lemma_filter_other_than(r, x);
        assert(s =~= r.push(l));
        let fr = r.filter(p);
        assert(s.filter(p) == if p(l) { fr.push(l) } else { fr });
        assert forall|y: A| #[trigger] s.filter(p).contains(y) <==> (s.contains(y) && y != x) by {
            if p(l) {
                if fr.push(l).contains(y) && y != l {
                    let k = choose|k: int| 0 <= k < fr.push(l).len() && fr.push(l)[k] == y;
                    assert(fr[k] == y);
                    assert(fr.contains(y));
                }
                if s.contains(y) && y != x && y != l {
                    let k = choose|k: int| 0 <= k < s.len() && s[k] == y;
                    assert(k < r.len());
                    assert(r[k] == y);
                    assert(r.contains(y));
                    let m = choose|m: int| 0 <= m < fr.len() && fr[m] == y;
                    assert(fr.push(l)[m] == y);
                }
                if y == l {
                    assert(fr.push(l)[fr.len() as int] == l);
                    assert(s[s.len() - 1] == l);
                }
            } else {
                if fr.contains(y) {
                    assert(r.contains(y));
                    let k = choose|k: int| 0 <= k < r.len() && r[k] == y;
                    assert(s[k] == y);
                }
                if s.contains(y) && y != x {
                    let k = choose|k: int| 0 <= k < s.len() && s[k] == y;
                    assert(l == x);
                    assert(k != s.len() - 1);
                    assert(r[k] == y);
                }
            }
        }
        if !s.contains(x) {
            assert(!r.contains(x)) by {
                if r.contains(x) {
                    let k = choose|k: int| 0 <= k < r.len() && r[k] == x;
                    assert(s[k] == x);
                }
            }
            assert(l != x) by {
                assert(s[s.len() - 1] == l);
            }
            assert(s.filter(p) == r.push(l));
        }
        if s.contains(x) {
            if l != x {
                assert(r.contains(x)) by {
                    let k = choose|k: int| 0 <= k < s.len() && s[k] == x;
                    assert(k != s.len() - 1);
                    assert(r[k] == x);
                }
            }
        }
        if s.no_duplicates() {
            assert(r.no_duplicates()) by {
                assert forall|i: int, j: int|
                    0 <= i < r.len() && 0 <= j < r.len() && i != j implies r[i] != r[j] by {
                    assert(r[i] == s[i]);
                    assert(r[j] == s[j]);
                }
            }
            if p(l) {
                assert(!fr.contains(l)) by {
                    if fr.contains(l) {
                        assert(r.contains(l));
                        let k = choose|k: int| 0 <= k < r.len() && r[k] == l;
                        assert(s[k] == l);
                        assert(s[s.len() - 1] == l);
                    }
                }
                let t = fr.push(l);
                assert forall|i: int, j: int|
                    0 <= i < t.len() && 0 <= j < t.len() && i != j implies t[i] != t[j] by {
                    if i < fr.len() && j < fr.len() {
                    } else if i < fr.len() {
                        assert(fr.contains(t[i]));
                    } else {
                        assert(fr.contains(t[j]));
                    }
                }
            }
        }
    }
}

} // verus!
