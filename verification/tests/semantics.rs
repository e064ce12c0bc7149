use ptr_cell::{MemoryOrder, Semantics};

#[test]
fn relaxed_resolves_every_operation_to_relaxed() {
    assert_eq!(Semantics::Relaxed.read(), MemoryOrder::Relaxed);
    assert_eq!(Semantics::Relaxed.write(), MemoryOrder::Relaxed);
    assert_eq!(Semantics::Relaxed.read_write(), MemoryOrder::Relaxed);
}

#[test]
fn coupled_resolves_to_acquire_release() {
    assert_eq!(Semantics::Coupled.read(), MemoryOrder::Acquire);
    assert_eq!(Semantics::Coupled.write(), MemoryOrder::Release);
    assert_eq!(Semantics::Coupled.read_write(), MemoryOrder::AcqRel);
}

#[test]
fn ordered_resolves_every_operation_to_seq_cst() {
    assert_eq!(Semantics::Ordered.read(), MemoryOrder::SeqCst);
    assert_eq!(Semantics::Ordered.write(), MemoryOrder::SeqCst);
    assert_eq!(Semantics::Ordered.read_write(), MemoryOrder::SeqCst);
}

#[test]
fn default_semantics_is_coupled() {
    assert_eq!(Semantics::default(), Semantics::Coupled);
}
