//! The capability every input source offers to the epoch coordinator.
use vstd::prelude::*;

use crate::model::StateBytes;

verus! {

/// What one non-blocking pull from an input source produced.
#[derive(Debug)]
pub enum Pulled<T> {
    /// No item is ready yet; try again on a later tick.
    Pending,
    /// The source is permanently exhausted.
    Done,
    /// Exactly one unit of input.
    Item(T),
}

/// A pull-based, resumable producer of items.
///
/// `next` must never block. `snapshot` may be called at any time, also right
/// after construction and after `Done`, and describes the position just after
/// the last item that was actually handed out.
pub trait InputReader<T>: Sized {
    /// What `next` returns in the reader's present state.
    spec fn next_result(&self) -> Pulled<T>;

    /// `after` is the reader's state once `next` has returned from `self`.
    spec fn next_state(&self, after: &Self) -> bool;

    /// The bytes that `snapshot` returns in the reader's present state.
    spec fn snapshot_view(&self) -> Seq<u8>;

    fn next(&mut self) -> (r: Pulled<T>)
        ensures
            r == old(self).next_result(),
            old(self).next_state(&*final(self)),
    ;

    fn snapshot(&self) -> (r: StateBytes)
        ensures
            r@ == self.snapshot_view(),
    ;
}

} // verus!
