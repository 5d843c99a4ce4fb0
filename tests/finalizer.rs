use gcmalloc::{
    AllocationMode, FinalizerOrdering, FinalizerRecord, FinalizerRegistry, ForeignFinalizer,
    GcAllocator,
};

#[test]
fn registration_installs_dispatcher_with_ordering() {
    let a = GcAllocator::new(AllocationMode::Collected);
    let mut reg = FinalizerRegistry::new();
    let h = a.register_finalizer(&mut reg, 0x100, 1, 0xaa, FinalizerOrdering::Unordered);
    assert_eq!(
        h.call,
        ForeignFinalizer { obj: 0x100, install: true, ordering: FinalizerOrdering::Unordered }
    );
    assert_eq!(h.previous, None);
    assert!(reg.is_registered(0x100));
}

#[test]
fn reregistration_returns_displaced_record() {
    let a = GcAllocator::new(AllocationMode::Collected);
    let mut reg = FinalizerRegistry::new();
    a.register_finalizer(&mut reg, 0x100, 1, 0xaa, FinalizerOrdering::Ordered);
    let h = a.register_finalizer(&mut reg, 0x100, 2, 0xbb, FinalizerOrdering::Unordered);
    assert_eq!(
        h.previous,
        Some(FinalizerRecord { finalizer: 1, client_data: 0xaa, ordering: FinalizerOrdering::Ordered })
    );
    assert_eq!(
        reg.record_of(0x100),
        Some(FinalizerRecord { finalizer: 2, client_data: 0xbb, ordering: FinalizerOrdering::Unordered })
    );
}

#[test]
fn finalizer_claimed_exactly_once() {
    let a = GcAllocator::new(AllocationMode::Collected);
    let mut reg = FinalizerRegistry::new();
    a.register_finalizer(&mut reg, 0x200, 5, 0, FinalizerOrdering::Unordered);
    let mut fired = 0;
    for _ in 0..3 {
        if reg.claim(0x200).is_some() {
            fired += 1;
        }
    }
    assert_eq!(fired, 1);
}

#[test]
fn unregistered_finalizer_never_claimed() {
    let a = GcAllocator::new(AllocationMode::Collected);
    let mut reg = FinalizerRegistry::new();
    a.register_finalizer(&mut reg, 0x300, 5, 0, FinalizerOrdering::Unordered);
    let call = a.unregister_finalizer(&mut reg, 0x300);
    assert_eq!(
        call,
        ForeignFinalizer { obj: 0x300, install: false, ordering: FinalizerOrdering::Ordered }
    );
    assert!(!reg.is_registered(0x300));
    assert_eq!(reg.claim(0x300), None);
}

#[test]
fn claim_leaves_other_objects() {
    let a = GcAllocator::new(AllocationMode::Collected);
    let mut reg = FinalizerRegistry::new();
    a.register_finalizer(&mut reg, 0x10, 1, 0, FinalizerOrdering::Unordered);
    a.register_finalizer(&mut reg, 0x20, 2, 0, FinalizerOrdering::Unordered);
    assert!(reg.claim(0x10).is_some());
    assert!(reg.is_registered(0x20));
    assert_eq!(reg.record_of(0x20).unwrap().finalizer, 2);
}
