//! Sequences worked through item by item, where the work on an item can fail.

use vstd::prelude::*;

verus! {

/// Applies `f` to the items in order. The outcome is the sequence of what
/// `f` gave, or the failure of the first item on which `f` fails.
pub open spec fn try_map<A, B, E>(items: Seq<A>, f: spec_fn(A) -> Result<B, E>) -> Result<
    Seq<B>,
    E,
>
    decreases items.len(),
{
    if items.len() == 0 {
        Ok(Seq::empty())
    } else {
        match try_map(items.drop_last(), f) {
            Err(e) => Err(e),
            Ok(front) => match f(items.last()) {
                Err(e) => Err(e),
                Ok(b) => Ok(front.push(b)),
            },
        }
    }
}

/// The texts of a sequence, one after the other.
pub open spec fn concat_all(parts: Seq<Seq<char>>) -> Seq<char>
    decreases parts.len(),
{
    if parts.len() == 0 {
        Seq::empty()
    } else {
        concat_all(parts.drop_last()) + parts.last()
    }
}

/// One more item: the first `i + 1` items map as the first `i` do, followed
/// by item `i`.
pub proof fn lemma_try_map_step<A, B, E>(items: Seq<A>, f: spec_fn(A) -> Result<B, E>, i: int)
    requires
        0 <= i < items.len(),
    ensures
        try_map(items.take(i + 1), f) == match try_map(items.take(i), f) {
            Err(e) => Err::<Seq<B>, E>(e),
            Ok(front) => match f(items[i]) {
                Err(e) => Err(e),
                Ok(b) => Ok(front.push(b)),
            },
        },
{
    assert(items.take(i + 1).drop_last() =~= items.take(i));
    assert(items.take(i + 1).last() == items[i]);
}

/// A failure among the first `k` items is the failure of the whole.
pub proof fn lemma_try_map_fails_early<A, B, E>(
    items: Seq<A>,
    f: spec_fn(A) -> Result<B, E>,
    k: int,
)
    requires
        0 <= k <= items.len(),
        try_map(items.take(k), f) is Err,
    ensures
        try_map(items, f) == try_map(items.take(k), f),
    decreases items.len() - k,
{
    if k == items.len() {
        assert(items.take(k) =~= items);
    } else {
        lemma_try_map_step(items, f, k);
        lemma_try_map_fails_early(items, f, k + 1);
    }
}

/// Where every item maps, the outcome has one entry for each item, in the
/// items' order, and that entry is what `f` gave for the item.
pub proof fn lemma_try_map_keeps_order<A, B, E>(items: Seq<A>, f: spec_fn(A) -> Result<B, E>)
    ensures
        try_map(items, f) matches Ok(out) ==> out.len() == items.len() && forall|i: int|
            0 <= i < items.len() ==> f(#[trigger] items[i]) == Ok::<B, E>(out[i]),
    decreases items.len(),
{
    if items.len() > 0 {
        let front = items.drop_last();
        lemma_try_map_keeps_order(front, f);
        if let Ok(out) = try_map(items, f) {
            assert forall|i: int| 0 <= i < items.len() implies f(#[trigger] items[i]) == Ok::<
                B,
                E,
            >(out[i]) by {
                if i < front.len() {
                    assert(front[i] == items[i]);
                }
            }
        }
    }
}

/// One item at the end: the longer sequence maps as the shorter one does,
/// followed by the item.
pub proof fn lemma_try_map_push<A, B, E>(items: Seq<A>, f: spec_fn(A) -> Result<B, E>, last: A)
    ensures
        try_map(items.push(last), f) == match try_map(items, f) {
            Err(e) => Err::<Seq<B>, E>(e),
            Ok(front) => match f(last) {
                Err(e) => Err(e),
                Ok(b) => Ok(front.push(b)),
            },
        },
{
    assert(items.push(last).drop_last() =~= items);
}

/// One more item: of the first `i + 1` items those are kept that are kept of
/// the first `i`, and item `i` if it is one to keep.
pub proof fn lemma_filter_step<A>(items: Seq<A>, keep: spec_fn(A) -> bool, i: int)
    requires
        0 <= i < items.len(),
    ensures
        items.take(i + 1).filter(keep) == if keep(items[i]) {
            items.take(i).filter(keep).push(items[i])
        } else {
            items.take(i).filter(keep)
        },
{
    reveal(Seq::filter);
    assert(items.take(i + 1).drop_last() =~= items.take(i));
    assert(items.take(i + 1).last() == items[i]);
}

/// What is kept of the first `k` items comes first in what is kept of all.
pub proof fn lemma_filter_prefix<A>(items: Seq<A>, keep: spec_fn(A) -> bool, k: int)
    requires
        0 <= k <= items.len(),
    ensures
        items.take(k).filter(keep).len() <= items.filter(keep).len(),
        items.filter(keep).take(items.take(k).filter(keep).len() as int) == items.take(k).filter(
            keep,
        ),
{
    let front = items.take(k);
    let back = items.skip(k);
    assert(items =~= front + back);
    Seq::filter_distributes_over_add(front, back, keep);
    assert((front.filter(keep) + back.filter(keep)).take(front.filter(keep).len() as int)
        =~= front.filter(keep));
}

/// Where every item is one to keep, all are kept.
pub proof fn lemma_filter_keeps_all<A>(items: Seq<A>, keep: spec_fn(A) -> bool)
    requires
        forall|i: int| 0 <= i < items.len() ==> keep(#[trigger] items[i]),
    ensures
        items.filter(keep) == items,
    decreases items.len(),
{
    reveal(Seq::filter);
    if items.len() > 0 {
        let front = items.drop_last();
        assert forall|i: int| 0 <= i < front.len() implies keep(#[trigger] front[i]) by {
            assert(front[i] == items[i]);
        }
        lemma_filter_keeps_all(front, keep);
        assert(front.push(items.last()) =~= items);
    }
}

/// What a list of texts says.
pub open spec fn texts_view(texts: Seq<String>) -> Seq<Seq<char>> {
    Seq::new(texts.len(), |i: int| texts[i]@)
}

/// Puts the parts behind the head, in their order.
pub fn append_all(head: String, parts: &Vec<String>) -> (r: String)
    ensures
        r@ == head@ + concat_all(texts_view(parts@)),
{
    let ghost all = texts_view(parts@);
    let mut text = head;
    let mut i: usize = 0;
    assert(text@ =~= head@ + concat_all(all.take(0)));
    while i < parts.len()
        invariant
            i <= parts.len(),
            all == texts_view(parts@),
            text@ == head@ + concat_all(all.take(i as int)),
        decreases parts.len() - i,
    {
        proof {
            assert(all.take(i + 1).drop_last() =~= all.take(i as int));
            assert(head@ + concat_all(all.take(i + 1)) =~= (head@ + concat_all(all.take(i as int)))
                + parts[i as int]@);
        }
        text.append(parts[i].as_str());
        i += 1;
    }
    assert(all.take(i as int) =~= all);
    text
}

} // verus!
