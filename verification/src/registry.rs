//! The pinned-cell chain and its lifecycle.
//!
//! A [`Registry`] is the per-thread anchor for stack-rooted pins.  Each
//! pinned cell owns one untraced value and records, as its
//! back-reference, the chain head at the moment it was linked; the cells
//! therefore form a strictly nested (LIFO) chain, newest first.  The
//! chain is held in an arena vector whose indices play the role of the
//! back-references, so that the head always designates a live cell or is
//! empty, and unlinking restores the head to exactly the state it had
//! before the cell was linked.
//!
//! The registry starts uninitialized; [`Registry::initialize`]
//! establishes the empty chain once, and reports — never silently
//! ignores — a second initialization.  [`Registry::trace`] walks the
//! chain from the head, handing every live value, newest first, to the
//! collector's tracer.

use vstd::prelude::*;

verus! {

/// The traversal capability the collector hands to [`Registry::trace`]
/// during a collection pause.  The ghost record [`Tracer::visited`]
/// names, in order, the values the tracer has been handed so far, and
/// [`Tracer::visit`] extends that record by exactly the one value it is
/// given — so a traversal's effect is pinned down completely by how the
/// record grows.
pub trait Tracer<T> {
    /// The values this tracer has visited, in visitation order.
    spec fn visited(&self) -> Seq<T>;

    /// Visits one value.
    fn visit(&mut self, value: &T)
        ensures
            final(self).visited() == old(self).visited().push(*value),
    ;
}

/// A tracer that records the visited values, in order, for embedders
/// and tests that need to observe a traversal.
pub struct RecordingTracer<T> {
    seen: Vec<T>,
}

impl<T: Copy> RecordingTracer<T> {
    pub fn new() -> (r: Self)
        ensures
            r.visited() == Seq::<T>::empty(),
    {
        let r = RecordingTracer { seen: Vec::new() };
        proof {
            assert(r.visited() =~= Seq::<T>::empty());
        }
        r
    }

    /// The record of visited values, oldest visit first.
    pub fn values(&self) -> (r: &Vec<T>)
        ensures
            r@ == self.visited(),
    {
        &self.seen
    }
}

impl<T: Copy> Tracer<T> for RecordingTracer<T> {
    closed spec fn visited(&self) -> Seq<T> {
        self.seen@
    }

    fn visit(&mut self, value: &T) {
        self.seen.push(*value);
    }
}

/// One stack root: owns an untraced value and remembers the chain head
/// (an arena index, or none) as it was when this cell was linked.
struct PinCell<T> {
    prev: Option<usize>,
    value: T,
}

/// The chain of live pinned cells: an arena of cells plus the index of
/// the newest one, if any.
struct Chain<T> {
    cells: Vec<PinCell<T>>,
    head: Option<usize>,
}

/// The per-thread registry of stack-rooted pins.  It is `None` until it
/// is initialized, mirroring the fact that before initialization the
/// chain's backing storage does not exist.
pub struct Registry<T> {
    state: Option<Chain<T>>,
}

impl<T> Registry<T> {
    /// Whether the registry has been initialized.
    pub closed spec fn initialized(self) -> bool {
        self.state is Some
    }

    /// The live pinned values, newest first.  Meaningful once the
    /// registry is initialized.
    pub closed spec fn chain(self) -> Seq<T> {
        match self.state {
            Some(c) => Seq::new(
                c.cells@.len(),
                |k: int| c.cells@[c.cells@.len() - 1 - k].value,
            ),
            None => Seq::empty(),
        }
    }

    /// Well-formedness: the head designates the newest live cell or is
    /// empty, and every cell's back-reference is the head as it stood
    /// when that cell was linked — under strict LIFO nesting, the cell
    /// just beneath it.
    pub closed spec fn wf(self) -> bool {
        match self.state {
            None => true,
            Some(c) => {
                &&& match c.head {
                    None => c.cells@.len() == 0,
                    Some(h) => c.cells@.len() > 0 && h == c.cells@.len() - 1,
                }
                &&& forall|i: int|
                    0 <= i < c.cells@.len() ==> (#[trigger] c.cells@[i]).prev == (
                    if i == 0 {
                        None::<usize>
                    } else {
                        Some((i - 1) as usize)
                    })
            },
        }
    }

    /// A registry as a thread first sees it: not yet initialized.
    pub fn new() -> (r: Self)
        ensures
            r.wf(),
            !r.initialized(),
    {
        Registry { state: None }
    }

    /// Establishes the empty chain, once per registry.  Returns whether
    /// this call was the one that initialized it: a second call is a
    /// programming error, and is reported by returning `false` with the
    /// registry left untouched — never silently absorbed.  Embedders are
    /// expected to abort on `false`.
    pub fn initialize(&mut self) -> (ok: bool)
        requires
            old(self).wf(),
        ensures
            final(self).wf(),
            final(self).initialized(),
            ok == !old(self).initialized(),
            ok ==> final(self).chain() == Seq::<T>::empty(),
            !ok ==> *final(self) == *old(self),
    {
        if self.state.is_some() {
            false
        } else {
            self.state = Some(Chain { cells: Vec::new(), head: None });
            proof {
                assert(self.chain() =~= Seq::<T>::empty());
            }
            true
        }
    }

    /// Whether the registry has been initialized, for callers that must
    /// check before pinning or traversing.
    pub fn is_initialized(&self) -> (r: bool)
        ensures
            r == self.initialized(),
    {
        self.state.is_some()
    }

    /// Links a new cell holding `value` to the front of the chain: the
    /// cell's back-reference is the current head, and the head then
    /// designates the new cell.  Returns the new cell's arena index.
    pub(crate) fn link(&mut self, value: T) -> (idx: usize)
        requires
            old(self).wf(),
            old(self).initialized(),
        ensures
            final(self).wf(),
            final(self).initialized(),
            final(self).chain() == seq![value] + old(self).chain(),
            idx == old(self).chain().len(),
    {
        match &mut self.state {
            Some(c) => {
                let idx = c.cells.len();
                c.cells.push(PinCell { prev: c.head, value });
                c.head = Some(idx);
                proof {
                    assert(self.chain() =~= seq![value] + old(self).chain());
                }
                idx
            },
            None => unreached(),
        }
    }

    /// Unlinks the newest cell, restoring the head to that cell's
    /// back-reference: the chain returns to exactly the state it had
    /// before the cell was linked.  The cell's value is dropped.
    pub(crate) fn unlink(&mut self)
        requires
            old(self).wf(),
            old(self).initialized(),
            old(self).chain().len() > 0,
        ensures
            final(self).wf(),
            final(self).initialized(),
            final(self).chain() == old(self).chain().drop_first(),
    {
        match &mut self.state {
            Some(c) => {
                let newest = c.cells.pop();
                match newest {
                    Some(cell) => {
                        c.head = cell.prev;
                        proof {
                            assert(self.chain() =~= old(self).chain().drop_first());
                        }
                    },
                    None => unreached(),
                }
            },
            None => unreached(),
        }
    }

    /// Walks the chain from the head, handing each live pinned value to
    /// the tracer, newest first: the tracer's record grows by exactly
    /// the chain, so every live value is visited exactly once and no
    /// destroyed value is visited at all.  The walk reads the chain and
    /// never changes it, allocates nothing, and on an empty chain hands
    /// nothing over.
    #[verifier::loop_isolation(false)]
    pub fn trace<V: Tracer<T>>(&self, tracer: &mut V)
        requires
            self.wf(),
            self.initialized(),
        ensures
            final(tracer).visited() == old(tracer).visited() + self.chain(),
    {
        match &self.state {
            Some(c) => {
                let mut cur: Option<usize> = c.head;
                let ghost mut k: int = 0;
                while cur.is_some()
                    invariant
                        0 <= k <= self.chain().len(),
                        cur == (if k < self.chain().len() {
                            Some((self.chain().len() - 1 - k) as usize)
                        } else {
                            None::<usize>
                        }),
                        tracer.visited() == old(tracer).visited() + self.chain().take(k),
                    decreases self.chain().len() - k,
                {
                    let i = match cur {
                        Some(i) => i,
                        None => unreached(),
                    };
                    tracer.visit(&c.cells[i].value);
                    cur = c.cells[i].prev;
                    proof {
                        assert(self.chain().take(k + 1) =~= self.chain().take(k).push(
                            self.chain()[k],
                        ));
                        k = k + 1;
                    }
                }
                proof {
                    assert(self.chain().take(self.chain().len() as int) =~= self.chain());
                }
            },
            None => unreached(),
        }
    }

    /// A borrowed view of the newest pinned value.
    pub fn front(&self) -> (r: &T)
        requires
            self.wf(),
            self.initialized(),
            self.chain().len() > 0,
        ensures
            *r == self.chain()[0],
    {
        match &self.state {
            Some(c) => {
                let i = c.cells.len() - 1;
                &c.cells[i].value
            },
            None => unreached(),
        }
    }
}

/// The chain that results from pinning each value of `values` in order
/// (each nested frame pins on top of the pins of its callers): this is
/// how the chain evolves under [`crate::pin::Pin::pin`], one value per
/// step.
pub open spec fn chain_after_pins<T>(chain: Seq<T>, values: Seq<T>) -> Seq<T>
    decreases values.len(),
{
    if values.len() == 0 {
        chain
    } else {
        seq![values.last()] + chain_after_pins(chain, values.drop_last())
    }
}

/// The chain that results from unlinking the newest cell `count` times:
/// this is how the chain evolves under [`crate::pin::Pin::unpin`], one
/// unlink per step.
pub open spec fn chain_after_unpins<T>(chain: Seq<T>, count: nat) -> Seq<T>
    decreases count,
{
    if count == 0 {
        chain
    } else {
        chain_after_unpins(chain, (count - 1) as nat).drop_first()
    }
}

/// LIFO nesting: after any sequence of nested pins, the chain is
/// exactly the pinned values, newest first, in front of whatever was
/// live before — so a traversal at any point observes precisely the
/// still-live pinned values in newest-to-oldest order.
pub proof fn lemma_lifo_nesting<T>(chain: Seq<T>, values: Seq<T>)
    ensures
        chain_after_pins(chain, values) == values.reverse() + chain,
    decreases values.len(),
{
    if values.len() == 0 {
        assert(values.reverse() + chain =~= chain);
    } else {
        lemma_lifo_nesting(chain, values.drop_last());
        assert(seq![values.last()] + (values.drop_last().reverse() + chain) =~= values.reverse()
            + chain);
    }
}

/// Unlinking the newest cell `count` times drops exactly the `count`
/// newest values from the chain.
pub proof fn lemma_unpins_drop_newest<T>(chain: Seq<T>, count: nat)
    requires
        count <= chain.len(),
    ensures
        chain_after_unpins(chain, count) == chain.skip(count as int),
    decreases count,
{
    if count == 0 {
        assert(chain.skip(0) =~= chain);
    } else {
        lemma_unpins_drop_newest(chain, (count - 1) as nat);
        assert(chain.skip(count - 1).drop_first() =~= chain.skip(count as int));
    }
}

/// Restoration on scope exit: however a pinned scope ends — normal
/// return or an early exit partway through nested pins — once every
/// cell created in the scope has been unlinked, the chain is identical
/// to its state immediately before those cells were created.
pub proof fn lemma_restoration_on_exit<T>(chain: Seq<T>, values: Seq<T>)
    ensures
        chain_after_unpins(chain_after_pins(chain, values), values.len()) == chain,
{
    lemma_lifo_nesting(chain, values);
    lemma_unpins_drop_newest(values.reverse() + chain, values.len());
    assert((values.reverse() + chain).skip(values.len() as int) =~= chain);
}

/// Empty-chain traversal is a no-op: with no live pins,
/// [`Registry::trace`] leaves the tracer's record exactly as it was.
pub proof fn lemma_empty_traversal<T>(visited: Seq<T>)
    ensures
        visited + Seq::<T>::empty() == visited,
{
    assert(visited + Seq::<T>::empty() =~= visited);
}

} // verus!
