//! The bounded sliding window of recent prices: a fixed-capacity FIFO,
//! oldest first, mutated only through a single append-or-evict operation.

use vstd::prelude::*;

use crate::NUM_VEC_LEN;

verus! {

/// One append-or-evict step: at capacity the oldest element leaves before the
/// new one is appended at the tail.
pub open spec fn evict_append(w: Seq<u32>, value: u32) -> Seq<u32> {
    if w.len() < NUM_VEC_LEN {
        w.push(value)
    } else {
        w.drop_first().push(value)
    }
}

/// The window that results from appending `vals` in order into an empty window.
pub open spec fn window_of(vals: Seq<u32>) -> Seq<u32>
    decreases vals.len(),
{
    if vals.len() == 0 {
        Seq::empty()
    } else {
        evict_append(window_of(vals.drop_last()), vals.last())
    }
}

/// A fixed-capacity FIFO of recent fixed-point prices, oldest first.
pub struct PriceWindow {
    prices: Vec<u32>,
}

impl View for PriceWindow {
    type V = Seq<u32>;

    closed spec fn view(&self) -> Seq<u32> {
        self.prices@
    }
}

impl PriceWindow {
    /// The capacity bound holds at all times.
    pub closed spec fn wf(&self) -> bool {
        self.prices@.len() <= NUM_VEC_LEN
    }

    pub fn new() -> (w: PriceWindow)
        ensures
            w@ == Seq::<u32>::empty(),
            w.wf(),
    {
        PriceWindow { prices: Vec::new() }
    }

    /// Read access to the full ordered sequence, for observers.
    pub fn prices(&self) -> (r: &Vec<u32>)
        ensures
            r@ == self@,
    {
        &self.prices
    }

    pub fn len(&self) -> (n: usize)
        ensures
            n == self@.len(),
    {
        self.prices.len()
    }

    /// The single mutator: append at the tail, evicting the oldest element
    /// first when the window is already at capacity.
    pub fn append_or_replace_price(&mut self, price: u32)
        requires
            old(self).wf(),
        ensures
            final(self).wf(),
            final(self)@ == evict_append(old(self)@, price),
    {
        if self.prices.len() == NUM_VEC_LEN {
            self.prices.remove(0);
            proof {
                assert(self.prices@ =~= old(self)@.drop_first());
            }
        }
        self.prices.push(price);
    }
}

/// Window bound: after appending any sequence of `k` values into an empty
/// window, the window holds exactly the last `min(k, NUM_VEC_LEN)` of them,
/// in arrival order.
pub proof fn lemma_window_bound(vals: Seq<u32>)
    ensures
        window_of(vals).len() == if vals.len() <= NUM_VEC_LEN {
            vals.len() as int
        } else {
            NUM_VEC_LEN as int
        },
        window_of(vals) == vals.subrange(vals.len() - window_of(vals).len(), vals.len() as int),
    decreases vals.len(),
{
    if vals.len() == 0 {
        assert(window_of(vals) =~= vals.subrange(0, 0));
    } else {
        let prefix = vals.drop_last();
        lemma_window_bound(prefix);
        let w = window_of(prefix);
        assert(prefix =~= vals.subrange(0, vals.len() - 1));
        if w.len() < NUM_VEC_LEN {
            assert(window_of(vals) =~= vals.subrange(
                vals.len() - (w.len() + 1),
                vals.len() as int,
            ));
        } else {
            assert(window_of(vals) =~= vals.subrange(
                vals.len() - NUM_VEC_LEN,
                vals.len() as int,
            ));
        }
    }
}

} // verus!
