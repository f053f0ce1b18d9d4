use vstd::prelude::*;
use crate::errors::CgnsError;
use crate::errors::CgnsErrorKind;
use crate::errors::CgnsResult;

verus! {

/// The validated-index factory at the heart of every sibling constructor:
/// a 1-based sibling index is accepted exactly when it lies in
/// `[1, n_children]`; anything else is out of bounds, never clamped.
pub fn check_sibling_index(n_children: i32, index: i32) -> (r: CgnsResult<()>)
    ensures
        r is Ok <==> 1 <= index <= n_children,
        r matches Err(e) ==> e.kind == CgnsErrorKind::OutOfBounds,
{
    if 1 <= index && index <= n_children {
        Ok(())
    } else {
        Err(CgnsError::out_of_bounds())
    }
}

/// A lazy, finite, restartable walk over a parent's indexed children.
/// The child count is fixed once, when the walk starts; the walk then
/// yields the sibling indices `1, 2, ..., n_items` in that order.
#[derive(Clone, Copy, Debug)]
pub struct NodeIter {
    pub current: i32,
    pub n_items: i32,
}

/// The sibling indices a walk positioned at `current` out of `n_items`
/// still has to yield: `current + 1, ..., n_items`.
pub open spec fn remaining_indices(current: i32, n_items: i32) -> Seq<i32>
    decreases n_items - current,
{
    if current < n_items {
        seq![(current + 1) as i32] + remaining_indices((current + 1) as i32, n_items)
    } else {
        Seq::empty()
    }
}

/// A full walk over `n` children yields exactly `n` indices, and they are
/// `1, 2, ..., n` in that order.
pub proof fn lemma_iteration_yields_all(n: i32)
    requires
        n >= 0,
    ensures
        remaining_indices(0, n).len() == n,
        forall|i: int| 0 <= i < n ==> remaining_indices(0, n)[i] == i + 1,
{
    lemma_remaining_indices(0, n);
}

/// From any position, the rest of a walk has one index per remaining
/// child, counting up by one from just past the current position.
pub proof fn lemma_remaining_indices(current: i32, n_items: i32)
    requires
        0 <= current <= n_items,
    ensures
        remaining_indices(current, n_items).len() == n_items - current,
        forall|i: int| 0 <= i < n_items - current
            ==> remaining_indices(current, n_items)[i] == current + i + 1,
    decreases n_items - current,
{
    if current < n_items {
        lemma_remaining_indices((current + 1) as i32, n_items);
    }
}

impl NodeIter {
    /// Starts a walk over `n_items` children.
    pub fn new(n_items: i32) -> (it: NodeIter)
        ensures
            it.current == 0,
            it.n_items == n_items,
    {
        NodeIter { current: 0, n_items }
    }

    /// Yields the next sibling index, or nothing once the count fixed at
    /// the start of the walk is exhausted.
    pub fn next(&mut self) -> (r: Option<i32>)
        ensures
            old(self).current < old(self).n_items ==> (r == Some((old(self).current + 1) as i32)
                && final(self).current == old(self).current + 1
                && final(self).n_items == old(self).n_items),
            old(self).current >= old(self).n_items ==> r is None && *final(self) == *old(self),
            remaining_indices(old(self).current, old(self).n_items) == (match r {
                Option::Some(i) => seq![i] + remaining_indices(
                    final(self).current,
                    final(self).n_items,
                ),
                Option::None => Seq::<i32>::empty(),
            }),
    {
        if self.current < self.n_items {
            self.current += 1;
            Some(self.current)
        } else {
            None
        }
    }
}

} // verus!
