//! Where the results of `Seq::filter_map` stand: lemmas that hold of any
//! sequence and any function.

use vstd::prelude::*;

verus! {

/// The number of results that the first `i` elements of `s` give.
pub open spec fn emitted_before<A, B>(s: Seq<A>, f: spec_fn(A) -> Option<B>, i: int) -> nat {
    s.take(i).filter_map(f).len()
}

/// What a prefix of `s` gives is a prefix of what `s` gives.
pub proof fn lemma_filter_map_prefix<A, B>(s: Seq<A>, f: spec_fn(A) -> Option<B>, i: int)
    requires
        0 <= i <= s.len(),
    ensures
        emitted_before(s, f, i) <= s.filter_map(f).len(),
        s.filter_map(f).take(emitted_before(s, f, i) as int) == s.take(i).filter_map(f),
    decreases s.len(),
{
    if i == s.len() {
        assert(s.take(i) =~= s);
        assert(s.filter_map(f).take(s.filter_map(f).len() as int) =~= s.filter_map(f));
    } else {
        let rest = s.drop_last();
        lemma_filter_map_prefix(rest, f, i);
        assert(rest.take(i) =~= s.take(i));
        let n = emitted_before(s, f, i) as int;
        assert(s.filter_map(f).take(n) =~= rest.filter_map(f).take(n));
    }
}

/// A longer prefix gives at least as many results as a shorter one.
pub proof fn lemma_emitted_before_monotone<A, B>(
    s: Seq<A>,
    f: spec_fn(A) -> Option<B>,
    i: int,
    j: int,
)
    requires
        0 <= i <= j <= s.len(),
    ensures
        emitted_before(s, f, i) <= emitted_before(s, f, j),
{
    lemma_filter_map_prefix(s.take(j), f, i);
    assert(s.take(j).take(i) =~= s.take(i));
}

/// The element at `i` gives one result, which stands at the place that the
/// elements before it have left free, or it gives none.
pub proof fn lemma_filter_map_at<A, B>(s: Seq<A>, f: spec_fn(A) -> Option<B>, i: int)
    requires
        0 <= i < s.len(),
    ensures
        match f(s[i]) {
            Some(b) => {
                &&& emitted_before(s, f, i) < s.filter_map(f).len()
                &&& s.filter_map(f)[emitted_before(s, f, i) as int] == b
                &&& emitted_before(s, f, i + 1) == emitted_before(s, f, i) + 1
            },
            None => emitted_before(s, f, i + 1) == emitted_before(s, f, i),
        },
{
    s.lemma_filter_map_take_succ(f, i);
    lemma_filter_map_prefix(s, f, i + 1);
    let p = emitted_before(s, f, i) as int;
    match f(s[i]) {
        Some(b) => {
            let upto = s.take(i + 1).filter_map(f);
            assert(upto[p] == b);
            assert(s.filter_map(f).take(p + 1)[p] == b);
        },
        None => {},
    }
}

/// Every result comes from an element: the one at some index `i` with as
/// many results before it as the result's place says.
pub proof fn lemma_filter_map_source<A, B>(s: Seq<A>, f: spec_fn(A) -> Option<B>, p: int) -> (i:
    int)
    requires
        0 <= p < s.filter_map(f).len(),
    ensures
        0 <= i < s.len(),
        emitted_before(s, f, i) == p,
        f(s[i]) == Some(s.filter_map(f)[p]),
    decreases s.len(),
{
    let rest = s.drop_last();
    let last = s.len() - 1;
    assert(s.take(last) =~= rest);
    if p < rest.filter_map(f).len() {
        let i = lemma_filter_map_source(rest, f, p);
        assert(rest.take(i) =~= s.take(i));
        i
    } else {
        last
    }
}

} // verus!
