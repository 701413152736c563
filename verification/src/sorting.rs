//! A stable sort with an exact specification. `sort_spec` is a
//! specification-level insertion sort, so it names one particular result
//! sequence; the executable sort is proved to return exactly that sequence.
//! Elements that compare equal keep their original relative order.

use vstd::prelude::*;

verus! {

/// One insertion-sort step: `x` inserted into `s` before the first element
/// not at-or-below `x`. Elements of `s` equal to `x` stay in front of it,
/// which is what makes the sort stable.
pub open spec fn insort<T>(le: spec_fn(T, T) -> bool, x: T, s: Seq<T>) -> Seq<T>
    decreases s.len(),
{
    if s.len() == 0 {
        seq![x]
    } else if le(s[0], x) {
        seq![s[0]] + insort(le, x, s.drop_first())
    } else {
        seq![x] + s
    }
}

/// Stable insertion sort of `s` under the total preorder `le`.
pub open spec fn sort_spec<T>(le: spec_fn(T, T) -> bool, s: Seq<T>) -> Seq<T>
    decreases s.len(),
{
    if s.len() == 0 {
        s
    } else {
        insort(le, s.last(), sort_spec(le, s.drop_last()))
    }
}

/// Where the executable scan stops is where `insort` puts the element.
proof fn lemma_insort_at<T>(le: spec_fn(T, T) -> bool, x: T, s: Seq<T>, j: int)
    requires
        0 <= j <= s.len(),
        forall|k: int| 0 <= k < j ==> le(#[trigger] s[k], x),
        j < s.len() ==> !le(s[j], x),
    ensures
        insort(le, x, s) == s.insert(j, x),
    decreases j,
{
    if s.len() == 0 {
        assert(insort(le, x, s) =~= s.insert(0, x));
    } else if j == 0 {
        assert(insort(le, x, s) =~= s.insert(0, x));
    } else {
        assert(le(s[0], x));
        lemma_insort_at(le, x, s.drop_first(), j - 1);
        assert(insort(le, x, s) == seq![s[0]] + s.drop_first().insert(j - 1, x));
        assert(seq![s[0]] + s.drop_first().insert(j - 1, x) =~= s.insert(j, x));
    }
}

/// First position in `out` whose element is not at-or-below `x` according
/// to `leq`: where a stable insertion must place `x`.
fn find_pos<T, F: Fn(&T, &T) -> bool>(
    out: &Vec<T>,
    x: &T,
    leq: &F,
    Ghost(le): Ghost<spec_fn(T, T) -> bool>,
) -> (j: usize)
    requires
        forall|a: &T, b: &T| #[trigger] call_requires(*leq, (a, b)),
        forall|a: &T, b: &T, ret: bool|
            #[trigger] call_ensures(*leq, (a, b), ret) ==> ret == le(*a, *b),
    ensures
        j <= out@.len(),
        forall|k: int| 0 <= k < j ==> le(#[trigger] out@[k], *x),
        j < out@.len() ==> !le(out@[j as int], *x),
{
    let mut j: usize = 0;
    while j < out.len()
        invariant
            j <= out@.len(),
            forall|k: int| 0 <= k < j ==> le(#[trigger] out@[k], *x),
            forall|a: &T, b: &T| #[trigger] call_requires(*leq, (a, b)),
            forall|a: &T, b: &T, ret: bool|
                #[trigger] call_ensures(*leq, (a, b), ret) ==> ret == le(*a, *b),
        decreases out@.len() - j,
    {
        let below = leq(&out[j], x);
        if !below {
            return j;
        }
        j = j + 1;
    }
    j
}

/// Whether `s` is ordered by `le`, every pair in place.
pub open spec fn sorted_by_le<T>(le: spec_fn(T, T) -> bool, s: Seq<T>) -> bool {
    forall|i: int, j: int| 0 <= i < j < s.len() ==> le(#[trigger] s[i], #[trigger] s[j])
}

/// Every element of an insertion is the inserted one or one of the rest.
proof fn lemma_insort_elems<T>(le: spec_fn(T, T) -> bool, x: T, s: Seq<T>)
    ensures
        forall|i: int|
            0 <= i < insort(le, x, s).len() ==> (#[trigger] insort(le, x, s)[i]) == x || s.contains(
                insort(le, x, s)[i],
            ),
    decreases s.len(),
{
    if s.len() == 0 {
    } else if le(s[0], x) {
        lemma_insort_elems(le, x, s.drop_first());
        let out = insort(le, x, s);
        let rest = insort(le, x, s.drop_first());
        assert forall|i: int| 0 <= i < out.len() implies out[i] == x || s.contains(out[i]) by {
            if i == 0 {
                assert(out[0] == s[0]);
            } else {
                assert(out[i] == rest[i - 1]);
                if rest[i - 1] != x {
                    let k = choose|k: int|
                        0 <= k < s.drop_first().len() && s.drop_first()[k] == rest[i - 1];
                    assert(s[k + 1] == rest[i - 1]);
                }
            }
        }
    } else {
        let out = insort(le, x, s);
        assert forall|i: int| 0 <= i < out.len() implies out[i] == x || s.contains(out[i]) by {
            if i > 0 {
                assert(out[i] == s[i - 1]);
            }
        }
    }
}

/// Inserting into an ordered sequence keeps it ordered, when `le` is
/// total and transitive.
proof fn lemma_insort_sorted<T>(le: spec_fn(T, T) -> bool, x: T, s: Seq<T>)
    requires
        forall|a: T, b: T| #[trigger] le(a, b) || #[trigger] le(b, a),
        forall|a: T, b: T, c: T| #[trigger] le(a, b) && #[trigger] le(b, c) ==> le(a, c),
        sorted_by_le(le, s),
    ensures
        sorted_by_le(le, insort(le, x, s)),
    decreases s.len(),
{
    if s.len() == 0 {
    } else if le(s[0], x) {
        assert(sorted_by_le(le, s.drop_first()));
        lemma_insort_sorted(le, x, s.drop_first());
        lemma_insort_elems(le, x, s.drop_first());
        let out = insort(le, x, s);
        let rest = insort(le, x, s.drop_first());
        assert forall|i: int, j: int| 0 <= i < j < out.len() implies le(out[i], out[j]) by {
            if i == 0 {
                assert(out[j] == rest[j - 1]);
                if rest[j - 1] == x {
                } else {
                    let k = choose|k: int|
                        0 <= k < s.drop_first().len() && s.drop_first()[k] == rest[j - 1];
                    assert(s[k + 1] == rest[j - 1]);
                    assert(le(s[0], s[k + 1]));
                }
            } else {
                assert(out[i] == rest[i - 1]);
                assert(out[j] == rest[j - 1]);
            }
        }
    } else {
        let out = insort(le, x, s);
        assert forall|i: int, j: int| 0 <= i < j < out.len() implies le(out[i], out[j]) by {
            if i == 0 {
                assert(out[0] == x);
                assert(out[j] == s[j - 1]);
                assert(!le(s[0], x));
                assert(le(x, s[0]));
                if j > 1 {
                    assert(le(s[0], s[j - 1]));
                }
            } else {
                assert(out[i] == s[i - 1]);
                assert(out[j] == s[j - 1]);
            }
        }
    }
}

/// The sorted sequence is ordered by `le`, when `le` is total and
/// transitive.
pub proof fn lemma_sort_spec_sorted<T>(le: spec_fn(T, T) -> bool, s: Seq<T>)
    requires
        forall|a: T, b: T| #[trigger] le(a, b) || #[trigger] le(b, a),
        forall|a: T, b: T, c: T| #[trigger] le(a, b) && #[trigger] le(b, c) ==> le(a, c),
    ensures
        sorted_by_le(le, sort_spec(le, s)),
    decreases s.len(),
{
    if s.len() > 0 {
        lemma_sort_spec_sorted(le, s.drop_last());
        lemma_insort_sorted(le, s.last(), sort_spec(le, s.drop_last()));
    }
}

/// An insertion adds exactly the inserted element.
proof fn lemma_insort_multiset<T>(le: spec_fn(T, T) -> bool, x: T, s: Seq<T>)
    ensures
        insort(le, x, s).to_multiset() == s.to_multiset().insert(x),
    decreases s.len(),
{
    broadcast use vstd::seq_lib::group_to_multiset_ensures;

    if s.len() == 0 {
        assert(insort(le, x, s) =~= Seq::empty().push(x));
        assert(Seq::<T>::empty().push(x).to_multiset() =~= Seq::<T>::empty().to_multiset().insert(
            x,
        ));
        assert(s.to_multiset() =~= Seq::<T>::empty().to_multiset());
    } else if le(s[0], x) {
        lemma_insort_multiset(le, x, s.drop_first());
        let rest = insort(le, x, s.drop_first());
        assert(insort(le, x, s) == seq![s[0]] + rest);
        vstd::seq_lib::lemma_multiset_commutative(seq![s[0]], rest);
        vstd::seq_lib::lemma_multiset_commutative(seq![s[0]], s.drop_first());
        assert(seq![s[0]] + s.drop_first() =~= s);
        assert((seq![s[0]] + rest).to_multiset() =~= s.to_multiset().insert(x));
    } else {
        assert(insort(le, x, s) == seq![x] + s);
        vstd::seq_lib::lemma_multiset_commutative(seq![x], s);
        assert(seq![x] =~= Seq::<T>::empty().push(x));
        assert(seq![x].to_multiset() =~= Seq::<T>::empty().to_multiset().insert(x));
        assert((seq![x] + s).to_multiset() =~= s.to_multiset().insert(x));
    }
}

/// The sort is a permutation: the same rows with the same
/// multiplicities, only rearranged.
pub proof fn lemma_sort_spec_permutes<T>(le: spec_fn(T, T) -> bool, s: Seq<T>)
    ensures
        sort_spec(le, s).to_multiset() == s.to_multiset(),
    decreases s.len(),
{
    broadcast use vstd::seq_lib::group_to_multiset_ensures;

    if s.len() > 0 {
        lemma_sort_spec_permutes(le, s.drop_last());
        lemma_insort_multiset(le, s.last(), sort_spec(le, s.drop_last()));
        assert(s.drop_last().push(s.last()) =~= s);
        assert(s.drop_last().push(s.last()).to_multiset() =~= s.drop_last().to_multiset().insert(
            s.last(),
        ));
    }
}

/// One insertion step commutes with an element-wise view, when the order
/// only reads the view.
proof fn lemma_insort_map<T, V>(
    f: spec_fn(T) -> V,
    le_t: spec_fn(T, T) -> bool,
    le_v: spec_fn(V, V) -> bool,
    x: T,
    s: Seq<T>,
)
    requires
        forall|a: T, b: T| #[trigger] le_t(a, b) == le_v(f(a), f(b)),
    ensures
        insort(le_v, f(x), s.map_values(f)) == insort(le_t, x, s).map_values(f),
    decreases s.len(),
{
    let m = s.map_values(f);
    if s.len() == 0 {
        assert(insort(le_v, f(x), m) =~= insort(le_t, x, s).map_values(f));
    } else if le_t(s[0], x) {
        lemma_insort_map(f, le_t, le_v, x, s.drop_first());
        assert(m.drop_first() =~= s.drop_first().map_values(f));
        assert(insort(le_v, f(x), m) == seq![m[0]] + insort(le_v, f(x), m.drop_first()));
        assert(insort(le_t, x, s).map_values(f) =~= seq![f(s[0])] + insort(
            le_t,
            x,
            s.drop_first(),
        ).map_values(f));
    } else {
        assert(insort(le_v, f(x), m) =~= (seq![x] + s).map_values(f));
    }
}

/// Sorting commutes with an element-wise view, when the order only reads
/// the view.
pub proof fn lemma_sort_spec_map<T, V>(
    f: spec_fn(T) -> V,
    le_t: spec_fn(T, T) -> bool,
    le_v: spec_fn(V, V) -> bool,
    s: Seq<T>,
)
    requires
        forall|a: T, b: T| #[trigger] le_t(a, b) == le_v(f(a), f(b)),
    ensures
        sort_spec(le_v, s.map_values(f)) == sort_spec(le_t, s).map_values(f),
    decreases s.len(),
{
    let m = s.map_values(f);
    if s.len() == 0 {
        assert(sort_spec(le_v, m) =~= sort_spec(le_t, s).map_values(f));
    } else {
        lemma_sort_spec_map(f, le_t, le_v, s.drop_last());
        assert(m.drop_last() =~= s.drop_last().map_values(f));
        assert(m.last() == f(s.last()));
        lemma_insort_map(f, le_t, le_v, s.last(), sort_spec(le_t, s.drop_last()));
    }
}

/// Sorts `v` stably by the order `leq` decides; `le` is the
/// specification-level meaning of `leq`. Returns exactly `sort_spec(le, v@)`.
pub fn sort_by_le<T, F: Fn(&T, &T) -> bool>(
    v: Vec<T>,
    leq: &F,
    Ghost(le): Ghost<spec_fn(T, T) -> bool>,
) -> (r: Vec<T>)
    requires
        forall|a: &T, b: &T| #[trigger] call_requires(*leq, (a, b)),
        forall|a: &T, b: &T, ret: bool|
            #[trigger] call_ensures(*leq, (a, b), ret) ==> ret == le(*a, *b),
    ensures
        r@ == sort_spec(le, v@),
{
    let ghost orig = v@;
    let mut src = v;
    let mut out: Vec<T> = Vec::new();
    proof {
        assert(orig.take(0) =~= Seq::<T>::empty());
        assert(orig.skip(0) =~= orig);
    }
    while src.len() > 0
        invariant
            src@.len() <= orig.len(),
            out@ == sort_spec(le, orig.take(orig.len() - src@.len())),
            src@ == orig.skip(orig.len() - src@.len()),
            forall|a: &T, b: &T| #[trigger] call_requires(*leq, (a, b)),
            forall|a: &T, b: &T, ret: bool|
                #[trigger] call_ensures(*leq, (a, b), ret) ==> ret == le(*a, *b),
        decreases src@.len(),
    {
        let ghost k = orig.len() - src@.len();
        let x = src.remove(0);
        proof {
            assert(x == orig[k]);
            assert(src@ =~= orig.skip(k + 1));
        }
        let j = find_pos(&out, &x, leq, Ghost(le));
        proof {
            lemma_insort_at(le, x, out@, j as int);
            assert(orig.take(k + 1).drop_last() =~= orig.take(k));
            assert(orig.take(k + 1).last() == orig[k]);
        }
        out.insert(j, x);
    }
    proof {
        assert(orig.take(orig.len() as int) =~= orig);
    }
    out
}

} // verus!
