//! Heap indirection: moving a value into a heap slot and back out.
//!
//! `Leaked` is the handle produced by leaking a value: it is either null
//! (standing for an absent value) or it owns exactly one heap allocation
//! holding a value. Reclaiming the handle is the strict inverse of leaking.

use vstd::prelude::*;

verus! {

/// A handle to leaked heap storage: null, or the sole owner of one heap
/// allocation holding a value of type `T`.
///
/// Its view is the optional value the handle stands for: `None` for the
/// null handle, `Some(v)` for a handle owning an allocation that holds `v`.
pub struct Leaked<T> {
    inner: Option<Box<T>>,
}

impl<T> View for Leaked<T> {
    type V = Option<T>;

    closed spec fn view(&self) -> Option<T> {
        match self.inner {
            Some(b) => Some(*b),
            None => None,
        }
    }
}

impl<T> Leaked<T> {
    /// Moves `slot` onto the heap: a present value is boxed and owned by the
    /// returned handle, absence becomes the null handle.
    pub fn leak(slot: Option<T>) -> (r: Self)
        ensures
            r@ == slot,
    {
        match slot {
            Some(value) => Leaked { inner: Some(Box::new(value)) },
            None => Leaked { inner: None },
        }
    }

    /// The strict inverse of [`Leaked::leak`]: frees the backing allocation,
    /// if any, and yields the value it held.
    pub fn reclaim(self) -> (r: Option<T>)
        ensures
            r == self@,
    {
        match self.inner {
            Some(b) => Some(*b),
            None => None,
        }
    }

    /// Mutably borrows the value behind a non-null handle; the null
    /// handle yields absence.
    pub fn borrow_mut(&mut self) -> (r: Option<&mut T>)
        ensures
            (match r {
                Some(m) => old(self)@ == Some(*m) && final(self)@ == Some(*final(m)),
                None => old(self)@ is None && final(self)@ is None,
            }),
    {
        match &mut self.inner {
            Some(b) => Some(&mut **b),
            None => None,
        }
    }

    /// Whether this is the null handle, the one that stands for absence.
    pub fn is_null(&self) -> (r: bool)
        ensures
            r == (self@ is None),
    {
        match &self.inner {
            Some(_) => false,
            None => true,
        }
    }
}

/// Law: a handle is determined by the optional value it stands for — the
/// handle carries no state besides presence and the value itself, so two
/// handles with the same view are the same handle.
pub proof fn lemma_view_determines_handle<T>(a: Leaked<T>, b: Leaked<T>)
    requires
        a@ == b@,
    ensures
        a == b,
{
    match (a.inner, b.inner) {
        (Some(x), Some(y)) => {
            assert(*x == *y);
        },
        _ => {},
    }
}

/// Law: reclaiming what leaking produced yields the leaked value again, for
/// present and absent values alike. `leaked` is constrained exactly as the
/// result of [`Leaked::leak`] is, `reclaimed` exactly as the result of
/// [`Leaked::reclaim`] is.
pub proof fn lemma_leak_reclaim_round_trip<T>(slot: Option<T>, leaked: Leaked<T>, reclaimed: Option<T>)
    requires
        leaked@ == slot,
        reclaimed == leaked@,
    ensures
        reclaimed == slot,
{
}

} // verus!
