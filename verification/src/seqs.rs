//! Small sequence utilities shared by the tracker modules: the first index
//! satisfying a predicate, the subsequence satisfying one, and a capped
//! history window.

use vstd::prelude::*;

verus! {

/// Index of the first element satisfying `p`, or `-1` where none does.
pub open spec fn first_where<A>(s: Seq<A>, p: spec_fn(A) -> bool) -> int
    decreases s.len(),
{
    if s.len() == 0 {
        -1
    } else if p(s[0]) {
        0
    } else {
        let r = first_where(s.subrange(1, s.len() as int), p);
        if r < 0 {
            -1
        } else {
            r + 1
        }
    }
}

/// Characterization of [`first_where`].
pub proof fn lemma_first_where<A>(s: Seq<A>, p: spec_fn(A) -> bool)
    ensures
        first_where(s, p) == -1 || (0 <= first_where(s, p) < s.len()),
        first_where(s, p) == -1 ==> forall|k: int| 0 <= k < s.len() ==> !p(s[k]),
        first_where(s, p) >= 0 ==> p(s[first_where(s, p)]) && forall|k: int|
            0 <= k < first_where(s, p) ==> !p(s[k]),
    decreases s.len(),
{
    if s.len() == 0 {
    } else if p(s[0]) {
    } else {
        let t = s.subrange(1, s.len() as int);
        lemma_first_where(t, p);
        let f = first_where(s, p);
        if first_where(t, p) >= 0 {
            assert(s[first_where(t, p) + 1] == t[first_where(t, p)]);
            assert forall|k: int| 0 <= k < f implies !p(s[k]) by {
                if k > 0 {
                    assert(t[k - 1] == s[k]);
                    assert(!p(t[k - 1]));
                }
            }
        } else {
            assert forall|k: int| 0 <= k < s.len() implies !p(s[k]) by {
                if k > 0 {
                    assert(t[k - 1] == s[k]);
                    assert(!p(t[k - 1]));
                }
            }
        }
    }
}

/// Where `j` is a first match, it is the [`first_where`] index.
pub proof fn lemma_first_where_is<A>(s: Seq<A>, p: spec_fn(A) -> bool, j: int)
    requires
        0 <= j < s.len(),
        p(s[j]),
        forall|k: int| 0 <= k < j ==> !p(s[k]),
    ensures
        first_where(s, p) == j,
{
    lemma_first_where(s, p);
    let f = first_where(s, p);
    if f == -1 {
        assert(!p(s[j]));
    } else if f < j {
        assert(!p(s[f]));
    } else if f > j {
        assert(!p(s[j]));
    }
}

/// Where nothing matches, [`first_where`] is `-1`.
pub proof fn lemma_first_where_none<A>(s: Seq<A>, p: spec_fn(A) -> bool)
    requires
        forall|k: int| 0 <= k < s.len() ==> !p(s[k]),
    ensures
        first_where(s, p) == -1,
{
    lemma_first_where(s, p);
    if first_where(s, p) >= 0 {
        assert(!p(s[first_where(s, p)]));
    }
}

/// The elements satisfying `p`, in order.
pub open spec fn filtered<A>(s: Seq<A>, p: spec_fn(A) -> bool) -> Seq<A>
    decreases s.len(),
{
    if s.len() == 0 {
        Seq::empty()
    } else {
        let r = filtered(s.drop_last(), p);
        if p(s.last()) {
            r.push(s.last())
        } else {
            r
        }
    }
}

/// The last `n` elements, or all of them where there are fewer.
pub open spec fn keep_last<A>(s: Seq<A>, n: int) -> Seq<A> {
    if s.len() <= n {
        s
    } else {
        s.subrange(s.len() - n, s.len() as int)
    }
}

/// How many elements satisfy `p`.
pub open spec fn count_where<A>(s: Seq<A>, p: spec_fn(A) -> bool) -> nat
    decreases s.len(),
{
    if s.len() == 0 {
        0
    } else {
        count_where(s.drop_last(), p) + (if p(s.last()) {
            1nat
        } else {
            0nat
        })
    }
}

} // verus!
