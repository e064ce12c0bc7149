//! Memory ordering semantics for the cell's slot operations.
//!
//! Each [`Semantics`] variant is a preset that resolves, per kind of
//! operation (read, write, read-write), to one concrete [`MemoryOrder`].
//! The mapping is a pure function: selecting a policy never allocates,
//! blocks, or keeps state.

use vstd::prelude::*;

verus! {

/// A concrete memory ordering for one atomic operation, from weakest to
/// strongest. This is the resolved form that a [`Semantics`] preset maps to.
#[derive(Debug, Hash, PartialEq, Eq, Structural, PartialOrd, Ord, Clone, Copy)]
pub enum MemoryOrder {
    /// No cross-thread ordering constraint.
    Relaxed,
    /// A read that synchronizes with a release write.
    Acquire,
    /// A write that a later acquire read synchronizes with.
    Release,
    /// Acquire and release combined, for read-modify-write operations.
    AcqRel,
    /// One global total order over all operations using this ordering.
    SeqCst,
}

/// Memory ordering semantics for the cell's operations.
///
/// Each variant is a group of compatible orderings, balancing
/// synchronization strength against overhead:
///
/// - [`Relaxed`](Semantics::Relaxed): no constraint, least overhead; for a
///   value confined to one thread or synchronized by other means.
/// - [`Coupled`](Semantics::Coupled): release on every write paired with
///   acquire on every read; a read always sees the write that
///   happens-before it. The default and typical choice.
/// - [`Ordered`](Semantics::Ordered): one global total order over all
///   operations; the strongest guarantee and the highest overhead.
#[non_exhaustive]
#[derive(Debug, Hash, PartialEq, Eq, Structural, PartialOrd, Ord, Clone, Copy)]
pub enum Semantics {
    /// No synchronization constraints and the best performance.
    Relaxed,
    /// Release-acquire coupling: a read always sees the preceding write.
    Coupled,
    /// Maximum synchronization: all operations appear in one total order.
    Ordered,
}

impl Semantics {
    /// The ordering these semantics resolve to for read-write operations.
    pub open spec fn read_write_order(self) -> MemoryOrder {
        match self {
            Semantics::Relaxed => MemoryOrder::Relaxed,
            Semantics::Coupled => MemoryOrder::AcqRel,
            Semantics::Ordered => MemoryOrder::SeqCst,
        }
    }

    /// The ordering these semantics resolve to for write operations.
    pub open spec fn write_order(self) -> MemoryOrder {
        match self {
            Semantics::Relaxed => MemoryOrder::Relaxed,
            Semantics::Coupled => MemoryOrder::Release,
            Semantics::Ordered => MemoryOrder::SeqCst,
        }
    }

    /// The ordering these semantics resolve to for read operations.
    pub open spec fn read_order(self) -> MemoryOrder {
        match self {
            Semantics::Relaxed => MemoryOrder::Relaxed,
            Semantics::Coupled => MemoryOrder::Acquire,
            Semantics::Ordered => MemoryOrder::SeqCst,
        }
    }

    /// Returns the memory ordering for read-write operations with these
    /// semantics.
    pub fn read_write(&self) -> (r: MemoryOrder)
        ensures
            r == self.read_write_order(),
    {
        match self {
            Semantics::Relaxed => MemoryOrder::Relaxed,
            Semantics::Coupled => MemoryOrder::AcqRel,
            Semantics::Ordered => MemoryOrder::SeqCst,
        }
    }

    /// Returns the memory ordering for write operations with these
    /// semantics.
    pub fn write(&self) -> (r: MemoryOrder)
        ensures
            r == self.write_order(),
    {
        match self {
            Semantics::Relaxed => MemoryOrder::Relaxed,
            Semantics::Coupled => MemoryOrder::Release,
            Semantics::Ordered => MemoryOrder::SeqCst,
        }
    }

    /// Returns the memory ordering for read operations with these
    /// semantics.
    pub fn read(&self) -> (r: MemoryOrder)
        ensures
            r == self.read_order(),
    {
        match self {
            Semantics::Relaxed => MemoryOrder::Relaxed,
            Semantics::Coupled => MemoryOrder::Acquire,
            Semantics::Ordered => MemoryOrder::SeqCst,
        }
    }
}

impl Default for Semantics {
    /// The default semantics: [`Coupled`](Semantics::Coupled).
    fn default() -> (r: Self)
        ensures
            r == Semantics::Coupled,
    {
        Semantics::Coupled
    }
}

/// Law: the `Ordered` preset resolves every kind of operation — read,
/// write, and read-write — to [`MemoryOrder::SeqCst`], the one ordering
/// that places all operations using it in a single global total order.
pub proof fn lemma_ordered_resolves_to_total_order()
    ensures
        Semantics::Ordered.read_order() == MemoryOrder::SeqCst,
        Semantics::Ordered.write_order() == MemoryOrder::SeqCst,
        Semantics::Ordered.read_write_order() == MemoryOrder::SeqCst,
{
}

} // verus!
