use vstd::prelude::*;

verus! {

/// Values with a ranking: `ranks_before(a, b)` when `a` must come strictly before `b`.
pub trait Ranked: Sized {
    spec fn ranks_before(a: Self, b: Self) -> bool;

    fn before(&self, other: &Self) -> (r: bool)
        ensures
            r == Self::ranks_before(*self, *other),
    ;
}

/// Where `x` goes in `s`: before the first element that it ranks before, else at the end.
pub open spec fn insert_pos<T: Ranked>(s: Seq<T>, x: T) -> int
    decreases s.len(),
{
    if s.len() == 0 {
        0
    } else if T::ranks_before(x, s[0]) {
        0
    } else {
        1 + insert_pos(s.drop_first(), x)
    }
}

/// The stable sort of `s` by rank: each element in turn is placed before the first
/// element it ranks before, so that elements of equal rank keep their order.
pub open spec fn ranked_sort<T: Ranked>(s: Seq<T>) -> Seq<T>
    decreases s.len(),
{
    if s.len() == 0 {
        s
    } else {
        let sorted = ranked_sort(s.drop_last());
        sorted.insert(insert_pos(sorted, s.last()), s.last())
    }
}

proof fn lemma_insert_pos_bounds<T: Ranked>(s: Seq<T>, x: T)
    ensures
        0 <= insert_pos(s, x) <= s.len(),
    decreases s.len(),
{
    if s.len() > 0 {
        lemma_insert_pos_bounds(s.drop_first(), x);
    }
}

/// The length of a ranked sort.
pub proof fn lemma_ranked_sort_len<T: Ranked>(s: Seq<T>)
    ensures
        ranked_sort(s).len() == s.len(),
    decreases s.len(),
{
    if s.len() > 0 {
        lemma_ranked_sort_len(s.drop_last());
        lemma_insert_pos_bounds(ranked_sort(s.drop_last()), s.last());
    }
}

/// Every element of the input is an element of its ranked sort.
pub proof fn lemma_ranked_sort_keeps<T: Ranked>(s: Seq<T>)
    ensures
        forall|k: int| 0 <= k < s.len() ==> ranked_sort(s).contains(#[trigger] s[k]),
    decreases s.len(),
{
    if s.len() > 0 {
        let prev = s.drop_last();
        lemma_ranked_sort_keeps(prev);
        lemma_ranked_sort_len(prev);
        let sorted = ranked_sort(prev);
        let pos = insert_pos(sorted, s.last());
        lemma_insert_pos_bounds(sorted, s.last());
        let out = ranked_sort(s);
        assert(out == sorted.insert(pos, s.last()));
        assert forall|k: int| 0 <= k < s.len() implies out.contains(#[trigger] s[k]) by {
            if k == s.len() - 1 {
                assert(out[pos] == s[k]);
            } else {
                assert(prev[k] == s[k]);
                assert(sorted.contains(prev[k]));
                let j = choose|j: int| 0 <= j < sorted.len() && sorted[j] == prev[k];
                if j < pos {
                    assert(out[j] == s[k]);
                } else {
                    assert(out[j + 1] == s[k]);
                }
            }
        }
    }
}

/// Every element of a ranked sort is an element of the input.
pub proof fn lemma_ranked_sort_elements<T: Ranked>(s: Seq<T>)
    ensures
        ranked_sort(s).len() == s.len(),
        forall|k: int| 0 <= k < s.len() ==> exists|j: int| 0 <= j < s.len() && #[trigger] ranked_sort(s)[k] == s[j],
    decreases s.len(),
{
    lemma_ranked_sort_len(s);
    if s.len() > 0 {
        let prev = s.drop_last();
        lemma_ranked_sort_elements(prev);
        let sorted = ranked_sort(prev);
        let pos = insert_pos(sorted, s.last());
        lemma_insert_pos_bounds(sorted, s.last());
        assert forall|k: int| 0 <= k < s.len() implies exists|j: int| 0 <= j < s.len() && #[trigger] ranked_sort(s)[k] == s[j] by {
            if k < pos {
                assert(ranked_sort(s)[k] == sorted[k]);
                let j = choose|j: int| 0 <= j < prev.len() && sorted[k] == prev[j];
                assert(ranked_sort(s)[k] == s[j]);
            } else if k == pos {
                assert(ranked_sort(s)[k] == s[s.len() - 1]);
            } else {
                assert(ranked_sort(s)[k] == sorted[k - 1]);
                let j = choose|j: int| 0 <= j < prev.len() && sorted[k - 1] == prev[j];
                assert(ranked_sort(s)[k] == s[j]);
            }
        }
    }
}

/// Whether no element of `s` ranks before an element that precedes it.
pub open spec fn is_ranked<T: Ranked>(s: Seq<T>) -> bool {
    forall|i: int, j: int| 0 <= i < j < s.len() ==> !T::ranks_before(#[trigger] s[j], #[trigger] s[i])
}

/// Whether `ranks_before` is asymmetric and transitive.
pub open spec fn strict_order<T: Ranked>() -> bool {
    &&& forall|a: T, b: T| #[trigger] T::ranks_before(a, b) ==> !T::ranks_before(b, a)
    &&& forall|a: T, b: T, c: T| #[trigger] T::ranks_before(a, b) && #[trigger] T::ranks_before(b, c) ==> T::ranks_before(a, c)
}

proof fn lemma_insert_pos_facts<T: Ranked>(s: Seq<T>, x: T)
    ensures
        forall|k: int| 0 <= k < insert_pos(s, x) ==> !T::ranks_before(x, #[trigger] s[k]),
        insert_pos(s, x) < s.len() ==> T::ranks_before(x, s[insert_pos(s, x)]),
    decreases s.len(),
{
    lemma_insert_pos_bounds(s, x);
    if s.len() > 0 && !T::ranks_before(x, s[0]) {
        lemma_insert_pos_facts(s.drop_first(), x);
        assert forall|k: int| 0 <= k < insert_pos(s, x) implies !T::ranks_before(x, #[trigger] s[k]) by {
            if k > 0 {
                assert(s[k] == s.drop_first()[k - 1]);
            }
        }
        let q = insert_pos(s.drop_first(), x);
        lemma_insert_pos_bounds(s.drop_first(), x);
        if q < s.drop_first().len() {
            assert(s[q + 1] == s.drop_first()[q]);
        }
    }
}

/// A ranked sort is ranked when the ranking is a strict order.
pub proof fn lemma_ranked_sort_is_ranked<T: Ranked>(s: Seq<T>)
    requires
        strict_order::<T>(),
    ensures
        is_ranked(ranked_sort(s)),
    decreases s.len(),
{
    if s.len() > 0 {
        let prev = s.drop_last();
        lemma_ranked_sort_is_ranked(prev);
        let sorted = ranked_sort(prev);
        let x = s.last();
        let p = insert_pos(sorted, x);
        lemma_insert_pos_bounds(sorted, x);
        lemma_insert_pos_facts(sorted, x);
        let r = ranked_sort(s);
        assert(r == sorted.insert(p, x));
        assert forall|i: int, j: int| 0 <= i < j < r.len() implies !T::ranks_before(#[trigger] r[j], #[trigger] r[i]) by {
            if j < p {
                assert(r[i] == sorted[i] && r[j] == sorted[j]);
            } else if j == p {
                assert(r[i] == sorted[i] && r[j] == x);
            } else if i < p {
                assert(r[i] == sorted[i] && r[j] == sorted[j - 1]);
            } else if i == p {
                assert(r[i] == x && r[j] == sorted[j - 1]);
                if j - 1 > p {
                    assert(!T::ranks_before(sorted[j - 1], sorted[p]));
                    if T::ranks_before(sorted[j - 1], x) {
                        assert(T::ranks_before(x, sorted[p]));
                        assert(T::ranks_before(sorted[j - 1], sorted[p]));
                    }
                }
            } else {
                assert(r[i] == sorted[i - 1] && r[j] == sorted[j - 1]);
            }
        }
    }
}

fn find_insert_pos<T: Ranked>(sorted: &Vec<T>, x: &T) -> (j: usize)
    ensures
        j == insert_pos(sorted@, *x),
{
    let mut j: usize = 0;
    assert(sorted@.subrange(0, sorted@.len() as int) =~= sorted@);
    while j < sorted.len() && !x.before(&sorted[j])
        invariant
            0 <= j <= sorted@.len(),
            insert_pos(sorted@, *x) == j + insert_pos(sorted@.subrange(j as int, sorted@.len() as int), *x),
        decreases sorted@.len() - j,
    {
        let ghost rest = sorted@.subrange(j as int, sorted@.len() as int);
        assert(rest[0] == sorted@[j as int]);
        assert(rest.drop_first() =~= sorted@.subrange(j + 1, sorted@.len() as int));
        j = j + 1;
    }
    if j < sorted.len() {
        let ghost rest = sorted@.subrange(j as int, sorted@.len() as int);
        assert(rest[0] == sorted@[j as int]);
    }
    j
}

/// Sorts `v` stably by rank.
pub fn sort_ranked<T: Ranked>(v: Vec<T>) -> (r: Vec<T>)
    ensures
        r@ == ranked_sort(v@),
{
    let ghost orig = v@;
    let n = v.len();
    let mut rest = v;
    let mut sorted: Vec<T> = Vec::new();
    let mut i: usize = 0;
    while rest.len() > 0
        invariant
            0 <= i <= orig.len(),
            n == orig.len(),
            rest@ == orig.subrange(i as int, orig.len() as int),
            sorted@ == ranked_sort(orig.subrange(0, i as int)),
        decreases rest@.len(),
    {
        let x = rest.remove(0);
        proof {
            lemma_ranked_sort_len(orig.subrange(0, i as int));
        }
        let j = find_insert_pos(&sorted, &x);
        proof {
            lemma_insert_pos_bounds(sorted@, x);
        }
        sorted.insert(j, x);
        let ghost pre = orig.subrange(0, i + 1);
        assert(pre.drop_last() =~= orig.subrange(0, i as int));
        assert(pre.last() == x);
        assert(rest@ =~= orig.subrange(i + 1, orig.len() as int));
        i = i + 1;
    }
    assert(orig.subrange(0, orig.len() as int) =~= orig);
    sorted
}

} // verus!
