//! Stable sorting by an integer rank.

use vstd::prelude::*;
use crate::model::views_of;

verus! {

/// A value with an integer rank, read from its view.
pub trait Ranked: View + Sized {
    /// The rank of a view.
    spec fn rank_of(v: Self::V) -> int;

    /// The rank of this value.
    fn rank(&self) -> (k: i128)
        ensures
            k as int == Self::rank_of(self@);
}

/// `s` with `x` placed after every leading element whose rank is at most
/// that of `x`.
pub open spec fn insert_ranked<V>(s: Seq<V>, x: V, rank: spec_fn(V) -> int) -> Seq<V>
    decreases s.len(),
{
    if s.len() == 0 {
        seq![x]
    } else if rank(x) < rank(s[0]) {
        seq![x] + s
    } else {
        seq![s[0]] + insert_ranked(s.drop_first(), x, rank)
    }
}

/// The stable sort of `s` by rank, ascending: each element in turn is
/// placed after all earlier ones of lower or equal rank.
pub open spec fn sort_ranked<V>(s: Seq<V>, rank: spec_fn(V) -> int) -> Seq<V>
    decreases s.len(),
{
    if s.len() == 0 {
        s
    } else {
        insert_ranked(sort_ranked(s.drop_last(), rank), s.last(), rank)
    }
}

/// Whether the ranks along `s` never decrease.
pub open spec fn ranks_ascend<V>(s: Seq<V>, rank: spec_fn(V) -> int) -> bool {
    forall|i: int, j: int| 0 <= i < j < s.len() ==> rank(s[i]) <= rank(s[j])
}

proof fn lemma_insert_at<V>(s: Seq<V>, x: V, rank: spec_fn(V) -> int, j: int)
    requires
        0 <= j <= s.len(),
        forall|i: int| 0 <= i < j ==> rank(#[trigger] s[i]) <= rank(x),
        j == s.len() || rank(x) < rank(s[j]),
    ensures
        insert_ranked(s, x, rank) == s.insert(j, x),
    decreases j,
{
    if j == 0 {
        if s.len() == 0 {
            assert(s.insert(0, x) =~= seq![x]);
        } else {
            assert(s.insert(0, x) =~= seq![x] + s);
        }
    } else {
        let t = s.drop_first();
        assert(rank(s[0]) <= rank(x));
        assert forall|i: int| 0 <= i < j - 1 implies rank(#[trigger] t[i]) <= rank(x) by {
            assert(t[i] == s[i + 1]);
        }
        if j < s.len() {
            assert(t[j - 1] == s[j]);
        }
        lemma_insert_at(t, x, rank, j - 1);
        assert(seq![s[0]] + t.insert(j - 1, x) =~= s.insert(j, x));
    }
}

proof fn lemma_insert_keeps_order<V>(s: Seq<V>, x: V, rank: spec_fn(V) -> int)
    requires
        ranks_ascend(s, rank),
    ensures
        ranks_ascend(insert_ranked(s, x, rank), rank),
        insert_ranked(s, x, rank).len() == s.len() + 1,
        forall|k: int|
            0 <= k < s.len() + 1 ==> #[trigger] insert_ranked(s, x, rank)[k] == x || exists|m: int|
                0 <= m < s.len() && s[m] == insert_ranked(s, x, rank)[k],
    decreases s.len(),
{
    let r = insert_ranked(s, x, rank);
    if s.len() == 0 {
        assert(r =~= seq![x]);
    } else if rank(x) < rank(s[0]) {
        assert(r =~= seq![x] + s);
        assert forall|i: int, j: int| 0 <= i < j < r.len() implies rank(r[i]) <= rank(r[j]) by {
            if i > 0 {
                assert(r[i] == s[i - 1]);
            }
            assert(r[j] == s[j - 1]);
        }
        assert forall|k: int| 0 <= k < s.len() + 1 implies #[trigger] r[k] == x || exists|m: int|
            0 <= m < s.len() && s[m] == r[k] by {
            if k > 0 {
                assert(s[k - 1] == r[k]);
            }
        }
    } else {
        let t = s.drop_first();
        assert forall|i: int, j: int| 0 <= i < j < t.len() implies rank(t[i]) <= rank(t[j]) by {
            assert(t[i] == s[i + 1]);
            assert(t[j] == s[j + 1]);
        }
        lemma_insert_keeps_order(t, x, rank);
        let rt = insert_ranked(t, x, rank);
        assert(r =~= seq![s[0]] + rt);
        assert forall|k: int| 0 <= k < rt.len() implies rank(s[0]) <= rank(#[trigger] rt[k]) by {
            if rt[k] != x {
                let m = choose|m: int| 0 <= m < t.len() && t[m] == rt[k];
                assert(t[m] == s[m + 1]);
            }
        }
        assert forall|i: int, j: int| 0 <= i < j < r.len() implies rank(r[i]) <= rank(r[j]) by {
            if i == 0 {
                assert(r[j] == rt[j - 1]);
            } else {
                assert(r[i] == rt[i - 1]);
                assert(r[j] == rt[j - 1]);
            }
        }
        assert forall|k: int| 0 <= k < s.len() + 1 implies #[trigger] r[k] == x || exists|m: int|
            0 <= m < s.len() && s[m] == r[k] by {
            if k == 0 {
                assert(s[0] == r[0]);
            } else {
                assert(r[k] == rt[k - 1]);
                if rt[k - 1] != x {
                    let m = choose|m: int| 0 <= m < t.len() && t[m] == rt[k - 1];
                    assert(s[m + 1] == r[k]);
                }
            }
        }
    }
}

/// The stable sort orders by rank.
pub proof fn lemma_sort_ranked<V>(s: Seq<V>, rank: spec_fn(V) -> int)
    ensures
        ranks_ascend(sort_ranked(s, rank), rank),
        sort_ranked(s, rank).len() == s.len(),
    decreases s.len(),
{
    if s.len() > 0 {
        lemma_sort_ranked(s.drop_last(), rank);
        lemma_insert_keeps_order(sort_ranked(s.drop_last(), rank), s.last(), rank);
    }
}

/// Sorts by rank, ascending and stably (see `sort_ranked`).
pub fn stable_sort<T: Ranked>(v: Vec<T>) -> (r: Vec<T>)
    ensures
        views_of(r@) == sort_ranked(views_of(v@), |x: T::V| T::rank_of(x)),
{
    let ghost orig = views_of(v@);
    let ghost rank = |x: T::V| T::rank_of(x);
    let n = v.len();
    let mut rest = v;
    let mut out: Vec<T> = Vec::new();
    let mut k: usize = 0;
    assert(orig.subrange(0, 0) =~= Seq::<T::V>::empty());
    assert(views_of(out@) =~= Seq::<T::V>::empty());
    assert(views_of(rest@) =~= orig.subrange(0, n as int));
    while rest.len() > 0
        invariant
            rank == (|x: T::V| T::rank_of(x)),
            orig.len() == n,
            k + rest@.len() == n,
            views_of(rest@) == orig.subrange(k as int, n as int),
            views_of(out@) == sort_ranked(orig.subrange(0, k as int), rank),
        decreases rest.len(),
    {
        let ghost before_rest = rest@;
        let x = rest.remove(0);
        assert(views_of(before_rest)[0] == orig.subrange(k as int, n as int)[0]);
        assert(x@ == orig[k as int]);
        assert(views_of(rest@) =~= orig.subrange(k + 1, n as int)) by {
            assert(rest@ =~= before_rest.subrange(1, before_rest.len() as int));
            assert forall|i: int| 0 <= i < rest@.len() implies views_of(rest@)[i] == orig.subrange(k + 1, n as int)[i] by {
                assert(views_of(before_rest)[i + 1] == orig.subrange(k as int, n as int)[i + 1]);
            }
        }
        let kx = x.rank();
        let mut j: usize = 0;
        while j < out.len() && out[j].rank() <= kx
            invariant
                j <= out@.len(),
                kx == T::rank_of(x@),
                forall|i: int| 0 <= i < j ==> T::rank_of(#[trigger] views_of(out@)[i]) <= T::rank_of(x@),
            decreases out.len() - j,
        {
            j += 1;
        }
        proof {
            lemma_insert_at(views_of(out@), x@, rank, j as int);
            assert(orig.subrange(0, k + 1).drop_last() =~= orig.subrange(0, k as int));
        }
        let ghost before = out@;
        out.insert(j, x);
        proof {
            assert(views_of(out@) =~= views_of(before).insert(j as int, x@));
        }
        k += 1;
    }
    assert(orig.subrange(0, n as int) =~= orig);
    out
}

/// Takes the first element out of a list.
pub fn take_first<T: View>(v: &mut Vec<T>) -> (x: T)
    requires
        old(v)@.len() > 0,
    ensures
        x == old(v)@[0],
        final(v)@ == old(v)@.drop_first(),
        views_of(final(v)@) == views_of(old(v)@).drop_first(),
{
    let x = v.remove(0);
    assert(v@ =~= old(v)@.drop_first());
    assert(views_of(v@) =~= views_of(old(v)@).drop_first());
    x
}

/// The elements of `s` whose rank is `k`, in order.
pub open spec fn with_rank<V>(s: Seq<V>, rank: spec_fn(V) -> int, k: int) -> Seq<V>
    decreases s.len(),
{
    if s.len() == 0 {
        Seq::empty()
    } else {
        (if rank(s[0]) == k { seq![s[0]] } else { Seq::empty() }) + with_rank(s.drop_first(), rank, k)
    }
}

proof fn lemma_with_rank_push<V>(s: Seq<V>, x: V, rank: spec_fn(V) -> int, k: int)
    ensures
        with_rank(s.push(x), rank, k) == with_rank(s, rank, k) + (if rank(x) == k { seq![x] } else { Seq::empty() }),
    decreases s.len(),
{
    if s.len() == 0 {
        assert(s.push(x).drop_first() =~= Seq::<V>::empty());
        assert(s.push(x)[0] == x);
        assert(with_rank(s.push(x).drop_first(), rank, k) =~= Seq::<V>::empty());
        assert(with_rank(s, rank, k) =~= Seq::<V>::empty());
        assert(with_rank(s.push(x), rank, k) =~= with_rank(s, rank, k) + (if rank(x) == k { seq![x] } else { Seq::empty() }));
    } else {
        lemma_with_rank_push(s.drop_first(), x, rank, k);
        assert(s.push(x).drop_first() =~= s.drop_first().push(x));
        assert(with_rank(s.push(x), rank, k) =~= with_rank(s, rank, k) + (if rank(x) == k { seq![x] } else { Seq::empty() }));
    }
}

proof fn lemma_with_rank_above<V>(s: Seq<V>, rank: spec_fn(V) -> int, k: int)
    requires
        forall|i: int| 0 <= i < s.len() ==> rank(#[trigger] s[i]) > k,
    ensures
        with_rank(s, rank, k) == Seq::<V>::empty(),
    decreases s.len(),
{
    if s.len() > 0 {
        let t = s.drop_first();
        assert forall|i: int| 0 <= i < t.len() implies rank(#[trigger] t[i]) > k by {
            assert(t[i] == s[i + 1]);
        }
        lemma_with_rank_above(t, rank, k);
        assert(rank(s[0]) > k);
        assert(with_rank(s, rank, k) =~= Seq::<V>::empty());
    }
}

proof fn lemma_insert_with_rank<V>(s: Seq<V>, x: V, rank: spec_fn(V) -> int, k: int)
    requires
        ranks_ascend(s, rank),
    ensures
        with_rank(insert_ranked(s, x, rank), rank, k) == with_rank(s, rank, k) + (if rank(x) == k { seq![x] } else { Seq::empty() }),
    decreases s.len(),
{
    let tail = if rank(x) == k { seq![x] } else { Seq::<V>::empty() };
    if s.len() == 0 {
        assert(insert_ranked(s, x, rank) =~= s.push(x));
        lemma_with_rank_push(s, x, rank, k);
    } else if rank(x) < rank(s[0]) {
        let r = seq![x] + s;
        assert(r.drop_first() =~= s);
        if rank(x) == k {
            assert forall|i: int| 0 <= i < s.len() implies rank(#[trigger] s[i]) > k by {
                if i > 0 {
                    assert(rank(s[0]) <= rank(s[i]));
                }
            }
            lemma_with_rank_above(s, rank, k);
        }
        assert(with_rank(r, rank, k) =~= with_rank(s, rank, k) + tail);
    } else {
        let t = s.drop_first();
        assert forall|i: int, j: int| 0 <= i < j < t.len() implies rank(t[i]) <= rank(t[j]) by {
            assert(t[i] == s[i + 1]);
            assert(t[j] == s[j + 1]);
        }
        lemma_insert_with_rank(t, x, rank, k);
        let r = seq![s[0]] + insert_ranked(t, x, rank);
        assert(r.drop_first() =~= insert_ranked(t, x, rank));
        assert(with_rank(r, rank, k) =~= with_rank(s, rank, k) + tail);
    }
}

/// The stable sort keeps, for every rank, the elements of that rank in
/// the order they had before.
pub proof fn lemma_sort_stable<V>(s: Seq<V>, rank: spec_fn(V) -> int, k: int)
    ensures
        with_rank(sort_ranked(s, rank), rank, k) == with_rank(s, rank, k),
    decreases s.len(),
{
    if s.len() > 0 {
        lemma_sort_stable(s.drop_last(), rank, k);
        lemma_sort_ranked(s.drop_last(), rank);
        lemma_insert_with_rank(sort_ranked(s.drop_last(), rank), s.last(), rank, k);
        lemma_with_rank_push(s.drop_last(), s.last(), rank, k);
        assert(s.drop_last().push(s.last()) =~= s);
    }
}

} // verus!
