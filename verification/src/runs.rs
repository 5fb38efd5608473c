//! What holds of every run of pushes onto an empty queue.
use crate::queue::{evicted, pushed};
use vstd::prelude::*;

verus! {

/// The contents of a queue of capacity `cap` that held `s`, after the
/// elements of `items` are pushed in order.
pub open spec fn pushed_all<T>(s: Seq<T>, cap: nat, items: Seq<T>) -> Seq<T>
    recommends
        cap >= 1,
    decreases items.len(),
{
    if items.len() == 0 {
        s
    } else {
        pushed(pushed_all(s, cap, items.drop_last()), cap, items.last())
    }
}

/// What the push of `items[i]` returns when `items` are pushed in order onto
/// an empty queue of capacity `cap`.
pub open spec fn eviction_at<T>(cap: nat, items: Seq<T>, i: int) -> Option<T>
    recommends
        cap >= 1,
        0 <= i < items.len(),
{
    evicted(pushed_all(Seq::empty(), cap, items.take(i)), cap)
}

/// The last `cap` elements of `items`, or all of them if there are fewer.
pub open spec fn newest<T>(cap: nat, items: Seq<T>) -> Seq<T> {
    if items.len() <= cap {
        items
    } else {
        items.subrange(items.len() - cap, items.len() as int)
    }
}

/// Pushing `items` in order onto an empty queue of capacity `cap` leaves
/// the newest `cap` of them, in the order in which they were pushed.
pub proof fn lemma_pushes_keep_newest<T>(cap: nat, items: Seq<T>)
    requires
        cap >= 1,
    ensures
        pushed_all(Seq::empty(), cap, items) == newest(cap, items),
    decreases items.len(),
{
    if items.len() > 0 {
        let front = items.drop_last();
        lemma_pushes_keep_newest(cap, front);
        assert(pushed(newest(cap, front), cap, items.last()) =~= newest(cap, items));
    }
}

/// After `items` have been pushed in order onto an empty queue of capacity
/// `cap`, position `i` holds the `i`-th of the elements that were not
/// evicted, counted from the oldest of them.
pub proof fn lemma_position_after_pushes<T>(cap: nat, items: Seq<T>, i: int)
    requires
        cap >= 1,
        0 <= i < pushed_all(Seq::empty(), cap, items).len(),
    ensures
        items.len() <= cap ==> pushed_all(Seq::empty(), cap, items)[i] == items[i],
        items.len() > cap ==> pushed_all(Seq::empty(), cap, items)[i] == items[items.len() - cap
            + i],
{
    lemma_pushes_keep_newest(cap, items);
}

/// The push of `items[i]` evicts nothing while the queue is filling, and
/// afterwards evicts the element that was pushed `cap` positions earlier.
pub proof fn lemma_eviction_at<T>(cap: nat, items: Seq<T>, i: int)
    requires
        cap >= 1,
        0 <= i < items.len(),
    ensures
        i < cap ==> eviction_at(cap, items, i).is_none(),
        i >= cap ==> eviction_at(cap, items, i) == Some(items[i - cap]),
{
    lemma_pushes_keep_newest(cap, items.take(i));
}

/// While no more than `cap` elements have been pushed onto an empty queue of
/// capacity `cap`, no push evicts anything and the queue holds every element
/// pushed.
pub proof fn lemma_fill_evicts_nothing<T>(cap: nat, items: Seq<T>)
    requires
        cap >= 1,
        items.len() <= cap,
    ensures
        forall|i: int| 0 <= i < items.len() ==> (#[trigger] eviction_at(cap, items, i)).is_none(),
        forall|n: int|
            0 <= n <= items.len() ==> #[trigger] pushed_all(Seq::empty(), cap, items.take(n))
                == items.take(n),
        pushed_all(Seq::empty(), cap, items) == items,
        pushed_all(Seq::empty(), cap, items).len() == items.len(),
{
    assert forall|i: int| 0 <= i < items.len() implies (#[trigger] eviction_at(
        cap,
        items,
        i,
    )).is_none() by {
        lemma_eviction_at(cap, items, i);
    }
    assert forall|n: int| 0 <= n <= items.len() implies #[trigger] pushed_all(
        Seq::empty(),
        cap,
        items.take(n),
    ) == items.take(n) by {
        lemma_pushes_keep_newest(cap, items.take(n));
    }
    lemma_pushes_keep_newest(cap, items);
}

/// After more than `cap` elements have been pushed onto an empty queue of
/// capacity `cap`, the queue holds exactly the last `cap` of them in the
/// order in which they were pushed; the pushes that evicted are exactly those
/// from position `cap` on, and each evicted the element pushed `cap`
/// positions before it.
pub proof fn lemma_overflow_evicts_oldest<T>(cap: nat, items: Seq<T>)
    requires
        cap >= 1,
        items.len() > cap,
    ensures
        pushed_all(Seq::empty(), cap, items) == items.subrange(
            items.len() - cap,
            items.len() as int,
        ),
        pushed_all(Seq::empty(), cap, items).len() == cap,
        forall|i: int| 0 <= i < cap ==> (#[trigger] eviction_at(cap, items, i)).is_none(),
        forall|i: int|
            cap <= i < items.len() ==> #[trigger] eviction_at(cap, items, i) == Some(
                items[i - cap],
            ),
{
    lemma_pushes_keep_newest(cap, items);
    assert forall|i: int| 0 <= i < cap implies (#[trigger] eviction_at(cap, items, i)).is_none() by {
        lemma_eviction_at(cap, items, i);
    }
    assert forall|i: int| cap <= i < items.len() implies #[trigger] eviction_at(cap, items, i)
        == Some(items[i - cap]) by {
        lemma_eviction_at(cap, items, i);
    }
}

} // verus!
