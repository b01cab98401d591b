use std::collections::VecDeque;
use vstd::prelude::*;

verus! {

broadcast use vstd::std_specs::vecdeque::group_vec_dequeue_axioms;

/// The window that results from pushing `item` into `window` with room for
/// `max_size` items: when the window is full the oldest item leaves first.
/// A window of capacity zero never counts as full.
pub open spec fn pushed<T>(window: Seq<T>, max_size: nat, item: T) -> Seq<T> {
    if window.len() == max_size && max_size > 0 {
        window.subrange(1, window.len() as int).push(item)
    } else {
        window.push(item)
    }
}

/// The window after pushing each of `items`, in order.
pub open spec fn pushed_all<T>(window: Seq<T>, max_size: nat, items: Seq<T>) -> Seq<T>
    decreases items.len(),
{
    if items.len() == 0 {
        window
    } else {
        pushed(pushed_all(window, max_size, items.drop_last()), max_size, items.last())
    }
}

/// The last `n` items of `s` (all of `s` when it is shorter).
pub open spec fn latest<T>(s: Seq<T>, n: nat) -> Seq<T> {
    if s.len() <= n {
        s
    } else {
        s.subrange(s.len() - n, s.len() as int)
    }
}

/// A bounded first-in first-out window of the most recent candles.
pub struct State<T> {
    pub candles: VecDeque<T>,
    pub max_size: usize,
}

impl<T> State<T> {
    /// The candles held, oldest first.
    pub open spec fn contents(&self) -> Seq<T> {
        self.candles@
    }

    /// An empty window with room for `size` candles.
    pub fn new(size: usize) -> (s: Self)
        ensures
            s.contents() == Seq::<T>::empty(),
            s.max_size == size,
    {
        State { candles: VecDeque::with_capacity(size), max_size: size }
    }

    /// Appends `candle`; when the window already holds `max_size` candles the
    /// oldest one is dropped first.
    pub fn push(&mut self, candle: T)
        ensures
            final(self).max_size == old(self).max_size,
            final(self).contents() == pushed(old(self).contents(), old(self).max_size as nat, candle),
    {
        if self.candles.len() == self.max_size {
            let _ = self.candles.pop_front();
        }
        self.candles.push_back(candle);
    }
}

impl<T: Clone> State<T> {
    /// A copy of the window's candles, oldest first; each element is a clone
    /// of the candle held at the same position.
    pub fn get_candles(&self) -> (v: Vec<T>)
        ensures
            v@.len() == self.contents().len(),
            forall|i: int| 0 <= i < v@.len() ==> cloned::<T>(self.contents()[i], #[trigger] v@[i]),
    {
        let n = self.candles.len();
        let mut v: Vec<T> = Vec::new();
        let mut i: usize = 0;
        while i < n
            invariant
                n == self.candles@.len(),
                i <= n,
                v@.len() == i,
                forall|j: int| 0 <= j < i ==> cloned::<T>(self.candles@[j], #[trigger] v@[j]),
            decreases n - i,
        {
            let c = self.candles[i].clone();
            v.push(c);
            i = i + 1;
        }
        v
    }
}

/// A window that never exceeds its capacity keeps that property under a push,
/// as long as the capacity is not zero.
pub proof fn law_push_respects_capacity<T>(window: Seq<T>, max_size: nat, item: T)
    requires
        max_size > 0,
        window.len() <= max_size,
    ensures
        pushed(window, max_size, item).len() <= max_size,
{
}

/// A window of capacity zero never drops a candle: every push appends.
pub proof fn law_zero_capacity_keeps_everything<T>(window: Seq<T>, item: T)
    ensures
        pushed(window, 0, item).len() == window.len() + 1,
        pushed(window, 0, item).last() == item,
        pushed(window, 0, item).drop_last() == window,
{
    assert(pushed(window, 0, item).drop_last() =~= window);
}

/// Pushing a sequence of candles into a window of nonzero capacity that is not
/// over capacity leaves exactly the most recent `max_size` of all candles seen,
/// in arrival order.
pub proof fn law_window_keeps_latest<T>(window: Seq<T>, max_size: nat, items: Seq<T>)
    requires
        max_size > 0,
        window.len() <= max_size,
    ensures
        pushed_all(window, max_size, items) == latest(window + items, max_size),
    decreases items.len(),
{
    if items.len() == 0 {
        assert(window + items =~= window);
    } else {
        let prefix = items.drop_last();
        law_window_keeps_latest(window, max_size, prefix);
        let before = latest(window + prefix, max_size);
        let all = window + items;
        assert(all =~= (window + prefix).push(items.last()));
        let after = pushed(before, max_size, items.last());
        assert(after =~= latest(all, max_size));
    }
}

} // verus!
