use vstd::prelude::*;

verus! {

/// The position of the first element of `s` that satisfies `p`, if any.
pub open spec fn first_index<A>(s: Seq<A>, p: spec_fn(A) -> bool) -> Option<int>
    decreases s.len(),
{
    if s.len() == 0 {
        None
    } else if p(s[0]) {
        Some(0)
    } else {
        match first_index(s.drop_first(), p) {
            Some(i) => Some(i + 1),
            None => None,
        }
    }
}

/// `i` is the position of the first element of `s` that satisfies `p`.
pub open spec fn is_first_match<A>(s: Seq<A>, p: spec_fn(A) -> bool, i: int) -> bool {
    &&& 0 <= i < s.len()
    &&& p(s[i])
    &&& forall|j: int| 0 <= j < i ==> !p(#[trigger] s[j])
}

/// `first_index` finds the first match, and finds none only where no
/// element matches.
pub proof fn lemma_first_index<A>(s: Seq<A>, p: spec_fn(A) -> bool)
    ensures
        match first_index(s, p) {
            Some(i) => is_first_match(s, p, i),
            None => forall|j: int| 0 <= j < s.len() ==> !p(#[trigger] s[j]),
        },
    decreases s.len(),
{
    if s.len() > 0 && !p(s[0]) {
        let t = s.drop_first();
        lemma_first_index(t, p);
        match first_index(t, p) {
            Some(i) => {
                assert forall|j: int| 0 <= j < i + 1 implies !p(#[trigger] s[j]) by {
                    if j > 0 {
                        assert(s[j] == t[j - 1]);
                    }
                }
            },
            None => {
                assert forall|j: int| 0 <= j < s.len() implies !p(#[trigger] s[j]) by {
                    if j > 0 {
                        assert(s[j] == t[j - 1]);
                    }
                }
            },
        }
    }
}

/// The first match is the one that `first_index` finds.
pub proof fn lemma_first_match_found<A>(s: Seq<A>, p: spec_fn(A) -> bool, i: int)
    requires
        is_first_match(s, p, i),
    ensures
        first_index(s, p) == Some(i),
{
    lemma_first_index(s, p);
    match first_index(s, p) {
        Some(k) => {
            if k < i {
                assert(!p(s[k]));
            } else if i < k {
                assert(!p(s[i]));
            }
        },
        None => {
            assert(!p(s[i]));
        },
    }
}

/// Where no element satisfies `p`, `first_index` finds nothing.
pub proof fn lemma_no_match_found<A>(s: Seq<A>, p: spec_fn(A) -> bool)
    requires
        forall|j: int| 0 <= j < s.len() ==> !p(#[trigger] s[j]),
    ensures
        first_index(s, p) is None,
{
    lemma_first_index(s, p);
    if let Some(k) = first_index(s, p) {
        assert(p(s[k]));
    }
}

/// How many elements of `s` satisfy `p`.
pub open spec fn count_where<A>(s: Seq<A>, p: spec_fn(A) -> bool) -> nat
    decreases s.len(),
{
    if s.len() == 0 {
        0
    } else {
        count_where(s.drop_last(), p) + if p(s.last()) {
            1nat
        } else {
            0nat
        }
    }
}

/// A count never exceeds the length.
pub proof fn lemma_count_at_most_len<A>(s: Seq<A>, p: spec_fn(A) -> bool)
    ensures
        count_where(s, p) <= s.len(),
    decreases s.len(),
{
    if s.len() > 0 {
        lemma_count_at_most_len(s.drop_last(), p);
    }
}

/// Counting one more element of a prefix adds one exactly where it matches.
pub proof fn lemma_count_step<A>(s: Seq<A>, p: spec_fn(A) -> bool, i: int)
    requires
        0 <= i < s.len(),
    ensures
        count_where(s.take(i + 1), p) == count_where(s.take(i), p) + if p(s[i]) {
            1nat
        } else {
            0nat
        },
{
    assert(s.take(i + 1).drop_last() =~= s.take(i));
}

/// Where every element satisfies exactly one of three predicates, their
/// counts add up to the length.
pub proof fn lemma_count_partition<A>(
    s: Seq<A>,
    p: spec_fn(A) -> bool,
    q: spec_fn(A) -> bool,
    r: spec_fn(A) -> bool,
)
    requires
        forall|x: A|
            #![trigger p(x)]
            (p(x) && !q(x) && !r(x)) || (!p(x) && q(x) && !r(x)) || (!p(x) && !q(x) && r(x)),
    ensures
        count_where(s, p) + count_where(s, q) + count_where(s, r) == s.len(),
    decreases s.len(),
{
    if s.len() > 0 {
        lemma_count_partition(s.drop_last(), p, q, r);
        let x = s.last();
        assert((p(x) && !q(x) && !r(x)) || (!p(x) && q(x) && !r(x)) || (!p(x) && !q(x) && r(x)));
    }
}

/// Two sequences whose elements agree, position by position, on whether they
/// satisfy `p` have their first match at the same place.
pub proof fn lemma_first_index_agrees<A>(s: Seq<A>, t: Seq<A>, p: spec_fn(A) -> bool)
    requires
        s.len() == t.len(),
        forall|j: int| 0 <= j < s.len() ==> p(#[trigger] s[j]) == p(t[j]),
    ensures
        first_index(s, p) == first_index(t, p),
    decreases s.len(),
{
    if s.len() > 0 {
        assert(p(s[0]) == p(t[0]));
        let s1 = s.drop_first();
        let t1 = t.drop_first();
        assert forall|j: int| 0 <= j < s1.len() implies p(#[trigger] s1[j]) == p(t1[j]) by {
            assert(s1[j] == s[j + 1]);
            assert(t1[j] == t[j + 1]);
        }
        lemma_first_index_agrees(s1, t1, p);
    }
}

} // verus!
