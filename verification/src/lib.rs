//! A single-slot cell that moves optional values in and out of heap
//! storage, with every operation carrying a proved contract.
//!
//! [`PtrCell`] is for the access pattern "take the current value, compute
//! something, put a new value back": its content is moved in and out
//! whole, never mutated in place while borrowed elsewhere. Absence of a
//! value is a first-class state of the slot, not an error, and the slot's
//! whole footprint is one [`Leaked`] handle — presence is encoded solely
//! by the handle's nullity.
//!
//! Three pieces cooperate:
//!
//! - heap indirection ([`Leaked`]): leaking a value into a heap
//!   allocation and reclaiming it are strict inverses;
//! - an ordering policy ([`Semantics`]): three presets, each resolved to
//!   a concrete [`MemoryOrder`] per kind of operation;
//! - the cell ([`PtrCell`]): one slot whose operations exchange the
//!   handle and reclaim whatever they displace, exactly once, so no value
//!   is lost or yielded twice.
//!
//! Every operation that mutates the slot demands exclusive access to the
//! cell, which is what lets its contract pin both the result and the
//! slot's new content to the prior content.

mod cell;
mod heap;
mod semantics;

pub use cell::lemma_exchange_conserves_values;
pub use cell::lemma_view_determines_cell;
pub use cell::present_values;
pub use cell::PtrCell;
pub use heap::lemma_leak_reclaim_round_trip;
pub use heap::lemma_view_determines_handle;
pub use heap::Leaked;
pub use semantics::lemma_ordered_resolves_to_total_order;
pub use semantics::MemoryOrder;
pub use semantics::Semantics;
