//! The untraced conversion layer.
//!
//! A value that is about to be pinned must first be disconnected from the
//! collector's normal traced object graph, so that while it sits in a
//! pinned cell it is reachable through the registry alone and nowhere
//! else.  Three shapes of transfer exist:
//!
//! - *scalar transfer* ([`untraced_take`]): a traced slot is swapped with
//!   its well-defined empty state, and the original content is returned
//!   as an owned, untraced value;
//! - *sequence transfer* (the [`UntracedFrom`] impl for `Vec`): a
//!   borrowed sequence of traced elements is converted element by
//!   element, preserving order;
//! - *reference transfer* (the [`UntracedFrom`] impls for [`HeapRef`]):
//!   a borrowed view of a heap-resident object yields a new,
//!   independently owned back-reference to the same object; the source
//!   keeps its own relationship untouched.

use vstd::prelude::*;

verus! {

/// The capability to produce a well-defined "empty" value that is
/// already untraced, left behind in a slot after a scalar transfer.
pub trait UntracedDefault: Sized {
    /// Holds of the values that count as this type's empty untraced state.
    spec fn is_untraced_default(&self) -> bool;

    /// Produces the empty untraced state.
    fn untraced_default() -> (r: Self)
        ensures
            r.is_untraced_default(),
    ;
}

impl<T> UntracedDefault for Vec<T> {
    /// A sequence is empty exactly when it holds no elements.
    open spec fn is_untraced_default(&self) -> bool {
        self@.len() == 0
    }

    fn untraced_default() -> (r: Self) {
        Vec::new()
    }
}

/// The capability to build an untraced value of `Self` from a traced
/// input of type `T`.  Each impl states, through
/// [`UntracedFrom::is_untraced_from`], exactly how its result relates to
/// the input it was converted from.
pub trait UntracedFrom<T>: Sized {
    /// Holds exactly when `self` is the untraced conversion of `traced`.
    spec fn is_untraced_from(&self, traced: T) -> bool;

    /// Converts a traced input into an untraced owned value.
    fn untraced_from(traced: T) -> (r: Self)
        ensures
            r.is_untraced_from(traced),
    ;
}

/// A heap-resident object, stood for by its identity.  The objects
/// themselves — their allocation, their script-visible bindings, their
/// own traversal logic — live outside this crate; all the registry ever
/// reads of one is which object a back-reference designates.
#[derive(Clone, Copy, PartialEq, Eq, Structural)]
pub struct HeapObject {
    id: u64,
}

impl HeapObject {
    /// The identity of the designated object.
    pub closed spec fn id_spec(&self) -> u64 {
        self.id
    }

    pub fn new(id: u64) -> (r: Self)
        ensures
            r.id_spec() == id,
    {
        HeapObject { id }
    }

    pub fn id(&self) -> (r: u64)
        ensures
            r == self.id_spec(),
    {
        self.id
    }
}

/// An untraced back-reference to a heap-resident object: a new,
/// independently owned handle that designates the same object as the
/// borrowed view it was converted from.
#[derive(Clone, Copy, PartialEq, Eq, Structural)]
pub struct HeapRef {
    id: u64,
}

impl HeapRef {
    /// The identity of the designated object.
    pub closed spec fn id_spec(&self) -> u64 {
        self.id
    }

    pub fn id(&self) -> (r: u64)
        ensures
            r == self.id_spec(),
    {
        self.id
    }
}

impl<'a> UntracedFrom<&'a HeapObject> for HeapRef {
    /// Reference transfer keeps the object's identity; the source, being
    /// only borrowed, keeps its own relationship to the object.
    open spec fn is_untraced_from(&self, traced: &'a HeapObject) -> bool {
        self.id_spec() == traced.id_spec()
    }

    fn untraced_from(traced: &'a HeapObject) -> (r: Self) {
        HeapRef { id: traced.id }
    }
}

impl<'a> UntracedFrom<&'a HeapRef> for HeapRef {
    /// A borrowed back-reference converts to a second, independently
    /// owned back-reference to the same object.
    open spec fn is_untraced_from(&self, traced: &'a HeapRef) -> bool {
        self.id_spec() == traced.id_spec()
    }

    fn untraced_from(traced: &'a HeapRef) -> (r: Self) {
        HeapRef { id: traced.id }
    }
}

impl<'a, T, U> UntracedFrom<&'a [U]> for Vec<T> where T: UntracedFrom<&'a U> {
    /// Sequence transfer converts element by element and preserves both
    /// length and order.
    open spec fn is_untraced_from(&self, traced: &'a [U]) -> bool {
        &&& self@.len() == traced@.len()
        &&& forall|i: int|
            0 <= i < self@.len() ==> (#[trigger] self@[i]).is_untraced_from(&traced@[i])
    }

    fn untraced_from(traced: &'a [U]) -> (r: Self) {
        let n = traced.len();
        let mut out: Vec<T> = Vec::new();
        let mut j: usize = 0;
        while j < n
            invariant
                n == traced@.len(),
                j <= n,
                out@.len() == j,
                forall|i: int|
                    0 <= i < j ==> (#[trigger] out@[i]).is_untraced_from(&traced@[i]),
            decreases n - j,
        {
            out.push(T::untraced_from(&traced[j]));
            j = j + 1;
        }
        out
    }
}

/// Scalar transfer: moves the content of a traced slot out as an owned
/// untraced value, leaving the slot holding the empty untraced state,
/// which is always safe for the collector to visit.
pub fn untraced_take<T: UntracedDefault>(traced: &mut T) -> (r: T)
    ensures
        r == *old(traced),
        final(traced).is_untraced_default(),
{
    let mut slot = T::untraced_default();
    core::mem::swap(traced, &mut slot);
    slot
}

} // verus!
