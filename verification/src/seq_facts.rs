use vstd::prelude::*;

verus! {

/// Filtering by a condition that every element meets changes nothing.
pub proof fn lemma_filter_all<A>(s: Seq<A>, keep: spec_fn(A) -> bool)
    requires
        forall|i: int| 0 <= i < s.len() ==> keep(#[trigger] s[i]),
    ensures
        s.filter(keep) == s,
    decreases s.len(),
{
    reveal(Seq::filter);
    if s.len() > 0 {
        let rest = s.drop_last();
        assert forall|i: int| 0 <= i < rest.len() implies keep(#[trigger] rest[i]) by {
            assert(rest[i] == s[i]);
        }
        lemma_filter_all(rest, keep);
        assert(rest.push(s.last()) =~= s);
    }
}

/// Filtering by a condition that no element meets leaves nothing.
pub proof fn lemma_filter_none<A>(s: Seq<A>, keep: spec_fn(A) -> bool)
    requires
        forall|i: int| 0 <= i < s.len() ==> !keep(#[trigger] s[i]),
    ensures
        s.filter(keep) == Seq::<A>::empty(),
    decreases s.len(),
{
    reveal(Seq::filter);
    if s.len() > 0 {
        let rest = s.drop_last();
        assert forall|i: int| 0 <= i < rest.len() implies !keep(#[trigger] rest[i]) by {
            assert(rest[i] == s[i]);
        }
        lemma_filter_none(rest, keep);
    } else {
        assert(s =~= Seq::<A>::empty());
    }
}

/// Where exactly one element fails a condition, filtering by the condition
/// removes that element and keeps the rest in place.
pub proof fn lemma_remove_is_filter<A>(s: Seq<A>, at: int, keep: spec_fn(A) -> bool)
    requires
        0 <= at < s.len(),
        !keep(s[at]),
        forall|i: int| 0 <= i < s.len() && i != at ==> keep(#[trigger] s[i]),
    ensures
        s.filter(keep) == s.remove(at),
    decreases s.len(),
{
    reveal(Seq::filter);
    let rest = s.drop_last();
    if at == s.len() - 1 {
        assert forall|i: int| 0 <= i < rest.len() implies keep(#[trigger] rest[i]) by {
            assert(rest[i] == s[i]);
        }
        lemma_filter_all(rest, keep);
        assert(s.remove(at) =~= rest);
    } else {
        assert(rest[at] == s[at]);
        assert forall|i: int| 0 <= i < rest.len() && i != at implies keep(#[trigger] rest[i]) by {
            assert(rest[i] == s[i]);
        }
        lemma_remove_is_filter(rest, at, keep);
        assert(rest.remove(at).push(s.last()) =~= s.remove(at));
    }
}

/// Every element that a filter keeps stands in the sequence it was taken from
/// and meets the condition.
pub proof fn lemma_filter_member<A>(s: Seq<A>, keep: spec_fn(A) -> bool, k: int)
    requires
        0 <= k < s.filter(keep).len(),
    ensures
        keep(s.filter(keep)[k]),
        exists|i: int| 0 <= i < s.len() && #[trigger] s[i] == s.filter(keep)[k],
{
    s.lemma_filter_pred(keep, k);
    let kept = s.filter(keep);
    assert(kept.contains(kept[k]));
    s.lemma_filter_contains_rev(keep, kept[k]);
}

/// Every element that meets the condition is kept by the filter.
pub proof fn lemma_filter_keeps<A>(s: Seq<A>, keep: spec_fn(A) -> bool, i: int)
    requires
        0 <= i < s.len(),
        keep(s[i]),
    ensures
        exists|k: int| 0 <= k < s.filter(keep).len() && #[trigger] s.filter(keep)[k] == s[i],
{
    s.lemma_filter_contains(keep, i);
}

/// Where no two elements share a key, no two elements that a filter keeps do.
pub proof fn lemma_filter_keeps_distinct<A, K>(
    s: Seq<A>,
    keep: spec_fn(A) -> bool,
    key: spec_fn(A) -> K,
)
    requires
        forall|i: int, j: int|
            0 <= i < s.len() && 0 <= j < s.len() && i != j ==> key(#[trigger] s[i]) != key(
                #[trigger] s[j],
            ),
    ensures
        forall|i: int, j: int|
            0 <= i < s.filter(keep).len() && 0 <= j < s.filter(keep).len() && i != j ==> key(
                #[trigger] s.filter(keep)[i],
            ) != key(#[trigger] s.filter(keep)[j]),
    decreases s.len(),
{
    reveal(Seq::filter);
    if s.len() > 0 {
        let rest = s.drop_last();
        let last = s.last();
        assert forall|i: int, j: int|
            0 <= i < rest.len() && 0 <= j < rest.len() && i != j implies key(#[trigger] rest[i])
            != key(#[trigger] rest[j]) by {
            assert(rest[i] == s[i] && rest[j] == s[j]);
        }
        lemma_filter_keeps_distinct(rest, keep, key);
        let kept_rest = rest.filter(keep);
        let kept = s.filter(keep);
        if keep(last) {
            assert(kept == kept_rest.push(last));
            assert forall|i: int, j: int|
                0 <= i < kept.len() && 0 <= j < kept.len() && i != j implies key(#[trigger] kept[i])
                != key(#[trigger] kept[j]) by {
                if i < kept_rest.len() && j < kept_rest.len() {
                    assert(kept[i] == kept_rest[i] && kept[j] == kept_rest[j]);
                } else if i < kept_rest.len() {
                    lemma_filter_member(rest, keep, i);
                    let k = choose|k: int| 0 <= k < rest.len() && #[trigger] rest[k] == kept_rest[i];
                    assert(rest[k] == s[k]);
                    assert(kept[j] == s[s.len() - 1]);
                } else {
                    lemma_filter_member(rest, keep, j);
                    let k = choose|k: int| 0 <= k < rest.len() && #[trigger] rest[k] == kept_rest[j];
                    assert(rest[k] == s[k]);
                    assert(kept[i] == s[s.len() - 1]);
                }
            }
        }
    }
}

} // verus!
