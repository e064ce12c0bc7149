//! The single-slot cell.
//!
//! [`PtrCell`] holds exactly one slot, which is either empty or owns one
//! heap allocation produced by leaking a value of type `T`; presence is
//! encoded solely by the handle's nullity, with no separate flag. Every
//! operation that displaces the slot's old handle reclaims that handle
//! exactly once, so no value is ever lost or yielded twice.
//!
//! Operations that mutate the slot demand exclusive access to the cell, so
//! each one carries an exact contract: what it returns and what the slot
//! holds afterwards are both pinned to the slot's prior content.

use vstd::prelude::*;
use vstd::multiset::Multiset;

use crate::heap::Leaked;
use crate::semantics::Semantics;

verus! {

/// The multiset of values present in a sequence of optional values:
/// every `Some` contributes its value once, every `None` nothing.
pub open spec fn present_values<T>(s: Seq<Option<T>>) -> Multiset<T>
    decreases s.len(),
{
    if s.len() == 0 {
        Multiset::empty()
    } else {
        match s.last() {
            Some(v) => present_values(s.drop_last()).insert(v),
            None => present_values(s.drop_last()),
        }
    }
}

/// The present values of a concatenation are the present values of the
/// parts, combined.
proof fn lemma_present_values_of_concat<T>(a: Seq<Option<T>>, b: Seq<Option<T>>)
    ensures
        present_values(a + b) =~= present_values(a).add(present_values(b)),
    decreases b.len(),
{
    if b.len() == 0 {
        assert(a + b =~= a);
    } else {
        lemma_present_values_of_concat(a, b.drop_last());
        assert((a + b).drop_last() =~= a + b.drop_last());
        assert((a + b).last() == b.last());
    }
}

/// A single-slot cell whose content is moved in and out whole.
///
/// The cell's view is the optional value its slot currently holds. Its
/// in-memory footprint is exactly one [`Leaked`] handle: absence is the
/// null handle, presence a handle owning one heap allocation.
pub struct PtrCell<T> {
    /// Handle to the contained value; null when the cell is empty.
    value: Leaked<T>,
}

impl<T> View for PtrCell<T> {
    type V = Option<T>;

    closed spec fn view(&self) -> Option<T> {
        self.value@
    }
}

impl<T> PtrCell<T> {
    /// Constructs a cell holding `slot`: the value, if present, is leaked
    /// into a fresh heap allocation owned by the new cell.
    pub fn new(slot: Option<T>) -> (r: Self)
        ensures
            r@ == slot,
    {
        let ptr = Self::heap_leak(slot);

        Self::from_ptr(ptr)
    }

    /// Constructs a cell that takes over ownership of leaked storage: the
    /// new cell holds whatever value `ptr` stands for.
    pub fn from_ptr(ptr: Leaked<T>) -> (r: Self)
        ensures
            r@ == ptr@,
    {
        PtrCell { value: ptr }
    }

    /// Replaces the cell's value, returning the previous one.
    ///
    /// The new value is leaked, exchanged into the slot, and the displaced
    /// handle is reclaimed and returned. Never fails: one exchange, one
    /// allocation at most, one deallocation at most.
    pub fn replace(&mut self, slot: Option<T>, order: Semantics) -> (r: Option<T>)
        ensures
            r == old(self)@,
            final(self)@ == slot,
    {
        let new_leak = Self::heap_leak(slot);

        let old_leak = self.replace_ptr(new_leak, order);
        Self::heap_reclaim(old_leak)
    }

    /// Replaces the cell's handle, returning the previous one. The caller
    /// becomes the sole owner of the returned handle and responsible for
    /// reclaiming it exactly once.
    pub fn replace_ptr(&mut self, ptr: Leaked<T>, order: Semantics) -> (r: Leaked<T>)
        ensures
            r@ == old(self)@,
            final(self)@ == ptr@,
    {
        let mut displaced = ptr;
        core::mem::swap(&mut self.value, &mut displaced);

        displaced
    }

    /// Takes out the cell's value, leaving the cell empty.
    pub fn take(&mut self, order: Semantics) -> (r: Option<T>)
        ensures
            r == old(self)@,
            final(self)@ is None,
    {
        self.replace(None, order)
    }

    /// Takes out the cell's handle, leaving the null handle behind.
    pub fn take_ptr(&mut self, order: Semantics) -> (r: Leaked<T>)
        ensures
            r@ == old(self)@,
            final(self)@ is None,
    {
        self.replace_ptr(Leaked::leak(None), order)
    }

    /// Inserts a value into the cell, reclaiming and discarding whatever
    /// the cell held before.
    pub fn set(&mut self, slot: Option<T>, order: Semantics)
        ensures
            final(self)@ == slot,
    {
        let _ = self.replace(slot, order);
    }

    /// Inserts a handle into the cell, reclaiming and discarding the
    /// displaced one.
    pub fn set_ptr(&mut self, ptr: Leaked<T>, order: Semantics)
        ensures
            final(self)@ == ptr@,
    {
        let displaced = self.replace_ptr(ptr, order);
        let _ = Self::heap_reclaim(displaced);
    }

    /// Inserts the value that `new` constructs from this cell's prior
    /// content into the cell itself.
    ///
    /// The cell's content is handed to the builder wrapped in a fresh
    /// cell; the builder decides how that old content becomes reachable
    /// from the value it returns — like the push of a linked list whose
    /// nodes each contain a `PtrCell`. The builder runs exactly once, and
    /// the slot afterwards holds exactly the value it built.
    pub fn map_owner<F: FnOnce(Self) -> T>(&mut self, new: F, order: Semantics)
        requires
            forall|inner: Self| inner@ == old(self)@ ==> call_requires(new, (inner,)),
        ensures
            exists|inner: Self, owner: T|
                inner@ == old(self)@ && #[trigger] call_ensures(new, (inner,), owner)
                    && final(self)@ == Some(owner),
    {
        let value_ptr = self.take_ptr(order);
        let value = Self::from_ptr(value_ptr);

        let owner = new(value);
        self.set(Some(owner), order);
    }

    /// Swaps the values of two cells.
    pub fn swap(&mut self, other: &mut Self, order: Semantics)
        ensures
            final(self)@ == old(other)@,
            final(other)@ == old(self)@,
    {
        let other_ptr = other.take_ptr(Semantics::Relaxed);

        let ptr = self.replace_ptr(other_ptr, order);
        other.set_ptr(ptr, Semantics::Relaxed);
    }

    /// Mutably borrows the cell's value, if any. Demands exclusive access
    /// to the cell, so no other use of the slot is possible while the
    /// borrow lives.
    pub fn get_mut(&mut self) -> (r: Option<&mut T>)
        ensures
            (match r {
                Some(m) => old(self)@ == Some(*m) && final(self)@ == Some(*final(m)),
                None => old(self)@ is None && final(self)@ is None,
            }),
    {
        self.value.borrow_mut()
    }

    /// Borrows the cell's handle without taking ownership of it.
    pub fn get_ptr(&self, order: Semantics) -> (r: &Leaked<T>)
        ensures
            r@ == self@,
    {
        &self.value
    }

    /// Determines whether this cell is empty.
    pub fn is_empty(&self, order: Semantics) -> (r: bool)
        ensures
            r == (self@ is None),
    {
        self.get_ptr(order).is_null()
    }

    /// Reclaims ownership of leaked storage: frees the allocation behind a
    /// non-null handle and yields the value it held; the null handle
    /// yields absence. The strict inverse of [`PtrCell::heap_leak`].
    pub fn heap_reclaim(ptr: Leaked<T>) -> (r: Option<T>)
        ensures
            r == ptr@,
    {
        ptr.reclaim()
    }

    /// Leaks a value to the heap: a present value moves into a fresh
    /// allocation owned by the returned handle, absence becomes the null
    /// handle.
    pub fn heap_leak(slot: Option<T>) -> (r: Leaked<T>)
        ensures
            r@ == slot,
    {
        Leaked::leak(slot)
    }
}

/// Law: no loss and no duplication across a chain of exchanges.
///
/// Consider a slot driven through a chain of exchanging operations
/// ([`PtrCell::replace`], [`PtrCell::take`], [`PtrCell::set`]): the slot
/// starts at `initial`, and the `i`-th exchange yields `extracted[i]` and
/// leaves `inserted[i]` in the slot — each step bound by exactly what
/// those operations ensure, namely that an exchange yields the slot's
/// prior content and leaves exactly the inserted value. Then the values
/// ever extracted, together with the one residue left in the slot at the
/// end, are as a multiset exactly the initial content together with the
/// values ever inserted: every value put into the slot comes out exactly
/// once (or is the one still there), never zero times and never twice.
pub proof fn lemma_exchange_conserves_values<T>(
    initial: Option<T>,
    inserted: Seq<Option<T>>,
    extracted: Seq<Option<T>>,
    residue: Option<T>,
)
    requires
        inserted.len() == extracted.len(),
        extracted.len() > 0 ==> extracted[0] == initial,
        forall|i: int| 0 < i < extracted.len() ==> extracted[i] == inserted[i - 1],
        (residue == if inserted.len() > 0 {
            inserted.last()
        } else {
            initial
        }),
    ensures
        present_values(extracted).add(present_values(seq![residue])) =~= present_values(
            seq![initial],
        ).add(present_values(inserted)),
{
    if extracted.len() > 0 {
        assert(extracted =~= seq![initial] + inserted.drop_last());
        assert(inserted =~= inserted.drop_last() + seq![residue]);
        lemma_present_values_of_concat(seq![initial], inserted.drop_last());
        lemma_present_values_of_concat(inserted.drop_last(), seq![residue]);
    }
}

/// Law: a cell is determined by the optional value it holds — its whole
/// in-memory footprint is the one handle, so two cells with the same view
/// are the same cell.
pub proof fn lemma_view_determines_cell<T>(a: PtrCell<T>, b: PtrCell<T>)
    requires
        a@ == b@,
    ensures
        a == b,
{
    crate::heap::lemma_view_determines_handle(a.value, b.value);
}

impl<T> vstd::std_specs::convert::FromSpecImpl<T> for PtrCell<T> {
    open spec fn obeys_from_spec() -> bool {
        true
    }

    open spec fn from_spec(value: T) -> Self {
        choose|c: Self| c@ == Some(value)
    }
}

impl<T> From<T> for PtrCell<T> {
    /// Constructs a cell holding `value`.
    fn from(value: T) -> (r: Self) {
        let r = Self::new(Some(value));
        proof {
            let c = choose|c: Self| c@ == Some(value);
            lemma_view_determines_cell(r, c);
        }
        r
    }
}

impl<T> Default for PtrCell<T> {
    /// Constructs an empty cell.
    fn default() -> (r: Self)
        ensures
            r@ is None,
    {
        Self::new(None)
    }
}

} // verus!
