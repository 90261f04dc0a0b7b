//! Picking out of a list what matters, in order.
use vstd::prelude::*;

verus! {

/// What is picked from the items of a list, in order.
pub open spec fn gathered<A, B>(items: Seq<A>, pick: spec_fn(A) -> Option<B>) -> Seq<B>
    decreases items.len(),
{
    if items.len() == 0 {
        seq![]
    } else {
        gathered(items.drop_last(), pick) + picked(pick(items.last()))
    }
}

/// One pick as a list.
pub open spec fn picked<B>(pick: Option<B>) -> Seq<B> {
    match pick {
        Some(item) => seq![item],
        None => seq![],
    }
}

/// What is picked from two lists in a row.
pub proof fn lemma_gathered_add<A, B>(left: Seq<A>, right: Seq<A>, pick: spec_fn(A) -> Option<B>)
    ensures
        gathered(left + right, pick) == gathered(left, pick) + gathered(right, pick),
    decreases right.len(),
{
    if right.len() == 0 {
        assert(left + right =~= left);
    } else {
        lemma_gathered_add(left, right.drop_last(), pick);
        assert((left + right).drop_last() =~= left + right.drop_last());
    }
    assert(gathered(left + right, pick) =~= gathered(left, pick) + gathered(right, pick));
}

/// A list from which nothing is picked.
pub proof fn lemma_gathered_none<A, B>(items: Seq<A>, pick: spec_fn(A) -> Option<B>)
    requires
        forall|i: int| 0 <= i < items.len() ==> pick(#[trigger] items[i]) is None,
    ensures
        gathered(items, pick) == Seq::<B>::empty(),
    decreases items.len(),
{
    if items.len() > 0 {
        lemma_gathered_none(items.drop_last(), pick);
    }
    assert(gathered(items, pick) =~= Seq::<B>::empty());
}

/// What is picked from a list of one item.
pub proof fn lemma_gathered_single<A, B>(item: A, pick: spec_fn(A) -> Option<B>)
    ensures
        gathered(seq![item], pick) == picked(pick(item)),
{
    let items = seq![item];
    assert(items.drop_last() =~= seq![]);
    assert(items.last() == item);
    assert(gathered(items.drop_last(), pick) =~= seq![]);
    assert(gathered(items, pick) =~= picked(pick(item)));
}

/// A list from which every item is picked.
pub proof fn lemma_gathered_all<A, B>(items: Seq<A>, pick: spec_fn(A) -> Option<B>)
    requires
        forall|i: int| 0 <= i < items.len() ==> pick(#[trigger] items[i]) is Some,
    ensures
        gathered(items, pick) == Seq::new(items.len(), |i: int| pick(items[i])->0),
    decreases items.len(),
{
    if items.len() > 0 {
        lemma_gathered_all(items.drop_last(), pick);
    }
    assert(gathered(items, pick) =~= Seq::new(items.len(), |i: int| pick(items[i])->0));
}

/// A list from which one item is picked.
pub proof fn lemma_gathered_one<A, B>(items: Seq<A>, place: int, pick: spec_fn(A) -> Option<B>)
    requires
        0 <= place < items.len(),
        pick(items[place]) is Some,
        forall|i: int| 0 <= i < items.len() && i != place ==> pick(#[trigger] items[i]) is None,
    ensures
        gathered(items, pick) == seq![pick(items[place])->0],
{
    let before = items.take(place);
    let item = seq![items[place]];
    let after = items.skip(place + 1);
    assert(items =~= before + item + after);
    lemma_gathered_none(before, pick);
    lemma_gathered_single(items[place], pick);
    lemma_gathered_none(after, pick);
    lemma_gathered_add(before, item, pick);
    lemma_gathered_add(before + item, after, pick);
    assert(gathered(items, pick) =~= seq![pick(items[place])->0]);
}

/// A list with one item in the middle taken out.
proof fn lemma_gathered_without<A, B>(items: Seq<A>, place: int, pick: spec_fn(A) -> Option<B>)
    requires
        0 <= place < items.len(),
    ensures
        gathered(items, pick).to_multiset() == gathered(items.remove(place), pick).to_multiset().add(
            picked(pick(items[place])).to_multiset(),
        ),
{
    let before = items.take(place);
    let item = seq![items[place]];
    let after = items.skip(place + 1);
    assert(items =~= before + item + after);
    assert(items.remove(place) =~= before + after);
    lemma_gathered_add(before, item, pick);
    lemma_gathered_add(before + item, after, pick);
    lemma_gathered_add(before, after, pick);
    lemma_gathered_single(items[place], pick);
    let b = gathered(before, pick);
    let m = picked(pick(items[place]));
    let a = gathered(after, pick);
    vstd::seq_lib::lemma_multiset_commutative(b, m);
    vstd::seq_lib::lemma_multiset_commutative(b + m, a);
    vstd::seq_lib::lemma_multiset_commutative(b, a);
    assert((b + m + a).to_multiset() =~= (b + a).to_multiset().add(m.to_multiset()));
}

/// From the same items in another order the same is picked, in another order.
pub proof fn lemma_gathered_permuted<A, B>(
    left: Seq<A>,
    right: Seq<A>,
    pick: spec_fn(A) -> Option<B>,
)
    requires
        left.to_multiset() == right.to_multiset(),
    ensures
        gathered(left, pick).to_multiset() == gathered(right, pick).to_multiset(),
    decreases left.len(),
{
    left.to_multiset_ensures();
    right.to_multiset_ensures();
    if left.len() > 0 {
        let item = left.last();
        assert(left.contains(item));
        assert(right.to_multiset().count(item) > 0);
        let place = right.index_of(item);
        assert(left.remove(left.len() - 1) =~= left.drop_last());
        assert(left.drop_last().to_multiset() == right.remove(place).to_multiset());
        lemma_gathered_permuted(left.drop_last(), right.remove(place), pick);
        lemma_gathered_without(left, left.len() - 1, pick);
        lemma_gathered_without(right, place, pick);
    } else {
        assert(left =~= right);
    }
}

} // verus!
