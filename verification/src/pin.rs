//! The frame-scoped pin handle.
//!
//! A [`Pin`] is a one-shot builder bound to a single native call frame.
//! Its one mutating operation, [`Pin::pin`], converts a traced input
//! through the untraced conversion layer, links the result into the
//! registry's chain as a new pinned cell, and returns a borrowed view of
//! the pinned value.  A second write on the same handle is outside the
//! contract and rejected by `requires`, never absorbed: the handle backs
//! exactly one pinned cell.  When the frame ends — on every exit path,
//! early returns included — the handle is consumed by [`Pin::unpin`],
//! which unlinks its cell and restores the chain to exactly the state it
//! had before the cell was linked.

use crate::registry::Registry;
use crate::untraced::UntracedFrom;
use vstd::prelude::*;

verus! {

/// A one-shot pin handle: an initially empty slot that, once written,
/// remembers which cell of the registry's arena it owns.
pub struct Pin<T> {
    cell: Option<usize>,
    marker: core::marker::PhantomData<T>,
}

impl<T> Pin<T> {
    /// Whether this handle has performed its one write.
    pub closed spec fn written(self) -> bool {
        self.cell is Some
    }

    /// How many older cells sit beneath this handle's cell: the chain
    /// length as it was at the moment of the write.  Meaningful once the
    /// handle is written.
    pub closed spec fn depth(self) -> int {
        match self.cell {
            Some(i) => i as int,
            None => 0,
        }
    }

    /// Whether this handle's cell is the newest in `registry`'s chain —
    /// the position a cell holds from its creation until either it is
    /// unlinked or a deeper frame pins on top of it, and holds again
    /// once every deeper pin has been unlinked.
    pub open spec fn is_front_of(self, registry: Registry<T>) -> bool {
        self.written() && registry.chain().len() == self.depth() + 1
    }

    /// A fresh handle for one native frame, its slot still empty.
    pub fn new() -> (r: Self)
        ensures
            !r.written(),
    {
        Pin { cell: None, marker: core::marker::PhantomData }
    }

    /// The handle's one write: converts `traced` into an untraced value,
    /// links it to the front of the chain, and returns a borrowed view
    /// of the pinned value.
    pub fn pin<'a, U>(&mut self, registry: &'a mut Registry<T>, traced: U) -> (r: &'a T) where
        T: UntracedFrom<U>,

        requires
            !old(self).written(),
            old(registry).wf(),
            old(registry).initialized(),
        ensures
            final(registry).wf(),
            final(registry).initialized(),
            final(self).written(),
            final(self).is_front_of(*final(registry)),
            final(registry).chain().len() == old(registry).chain().len() + 1,
            final(registry).chain()[0].is_untraced_from(traced),
            final(registry).chain().drop_first() == old(registry).chain(),
            *r == final(registry).chain()[0],
    {
        let value = T::untraced_from(traced);
        self.pin_untraced(registry, value)
    }

    /// The write path for a value that has already left the traced
    /// graph — what scalar transfer produces, since it works through a
    /// mutable slot rather than a borrowed view.  Links the value to the
    /// front of the chain and returns a borrowed view of it.
    pub fn pin_untraced<'a>(&mut self, registry: &'a mut Registry<T>, value: T) -> (r: &'a T)
        requires
            !old(self).written(),
            old(registry).wf(),
            old(registry).initialized(),
        ensures
            final(registry).wf(),
            final(registry).initialized(),
            final(self).written(),
            final(self).is_front_of(*final(registry)),
            final(registry).chain() == seq![value] + old(registry).chain(),
            *r == value,
    {
        let idx = registry.link(value);
        self.cell = Some(idx);
        registry.front()
    }

    /// The end of the handle's frame: consumes the handle and, if it was
    /// written, unlinks its cell — which must be the newest, since
    /// frames nest strictly — restoring the chain to exactly the state
    /// it had before the write.  An unwritten handle leaves the registry
    /// untouched.
    pub fn unpin(self, registry: &mut Registry<T>)
        requires
            old(registry).wf(),
            old(registry).initialized(),
            self.written() ==> self.is_front_of(*old(registry)),
        ensures
            final(registry).wf(),
            final(registry).initialized(),
            self.written() ==> final(registry).chain() == old(registry).chain().drop_first(),
            !self.written() ==> *final(registry) == *old(registry),
    {
        match self.cell {
            Some(_) => registry.unlink(),
            None => (),
        }
    }
}

} // verus!
