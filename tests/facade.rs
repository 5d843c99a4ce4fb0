use gcmalloc::{
    choose_strategy, AllocationMode, Block, ForeignAlloc, ForeignRealloc, ForeignRelease,
    GcAllocator, Layout, Strategy, TypeDescriptor, TypeShape,
};

fn layout(size: usize, align: usize) -> Layout {
    Layout::from_size_align(size, align).unwrap()
}

#[test]
fn layout_accepts_supported_alignments() {
    for align in [1usize, 2, 4, 8, 16] {
        let l = layout(24, align);
        assert_eq!(l.size(), 24);
        assert_eq!(l.align(), align);
    }
}

#[test]
fn layout_rejects_zero_size_and_bad_alignment() {
    assert!(Layout::from_size_align(0, 8).is_none());
    assert!(Layout::from_size_align(8, 3).is_none());
    assert!(Layout::from_size_align(8, 0).is_none());
    assert!(Layout::from_size_align(8, 32).is_none());
}

#[test]
fn collected_mode_uses_tracing_entry_point() {
    let a = GcAllocator::new(AllocationMode::Collected);
    let l = layout(64, 8);
    assert_eq!(a.allocate(&l), ForeignAlloc::Malloc { size: 64 });
    assert_eq!(a.global_alloc(&l), ForeignAlloc::Malloc { size: 64 });
    assert_eq!(a.allocate(&l).size(), 64);
}

#[test]
fn uncollectable_mode_uses_non_tracing_entry_point() {
    let a = GcAllocator::new(AllocationMode::Uncollectable);
    let l = layout(40, 8);
    assert_eq!(a.allocate(&l), ForeignAlloc::MallocUncollectable { size: 40 });
    assert_eq!(a.global_alloc(&l), ForeignAlloc::MallocUncollectable { size: 40 });
}

#[test]
fn null_address_is_allocation_failure() {
    let l = layout(16, 8);
    assert_eq!(GcAllocator::accept_block(0, &l), None);
    assert_eq!(
        GcAllocator::accept_block(0x1000, &l),
        Some(Block { addr: 0x1000, len: 16 })
    );
}

#[test]
fn deallocate_is_noop_when_collected() {
    let a = GcAllocator::new(AllocationMode::Collected);
    let l = layout(16, 8);
    assert_eq!(a.deallocate(0x2000, &l), ForeignRelease::Nothing);
}

#[test]
fn deallocate_frees_when_uncollectable() {
    let a = GcAllocator::new(AllocationMode::Uncollectable);
    let l = layout(16, 8);
    assert_eq!(a.deallocate(0x2000, &l), ForeignRelease::Free { addr: 0x2000 });
}

#[test]
fn global_dealloc_always_frees() {
    let l = layout(16, 8);
    for mode in [AllocationMode::Collected, AllocationMode::Uncollectable] {
        let a = GcAllocator::new(mode);
        assert_eq!(a.global_dealloc(0x3000, &l), ForeignRelease::Free { addr: 0x3000 });
    }
}

#[test]
fn global_realloc_passes_new_size() {
    let a = GcAllocator::new(AllocationMode::Collected);
    let l = layout(16, 8);
    assert_eq!(
        a.global_realloc(0x4000, &l, 128),
        ForeignRealloc { addr: 0x4000, new_size: 128 }
    );
}

#[test]
fn specializer_picks_atomic_for_reference_free_type() {
    let a = GcAllocator::specialized();
    let l = layout(32, 8);
    let shape = TypeShape::NoReferences { size: 32 };
    assert_eq!(a.maybe_optimised_alloc(&l, &shape), ForeignAlloc::MallocAtomic { size: 32 });
}

#[test]
fn specializer_picks_typed_for_described_type() {
    let a = GcAllocator::specialized();
    let l = layout(32, 8);
    let d = TypeDescriptor { handle: 0x55 };
    let shape = TypeShape::Described { size: 32, descriptor: d };
    assert_eq!(
        a.maybe_optimised_alloc(&l, &shape),
        ForeignAlloc::MallocTyped { size: 32, descriptor: d }
    );
}

#[test]
fn specializer_falls_back_without_metadata() {
    let a = GcAllocator::specialized();
    let l = layout(32, 8);
    assert_eq!(a.maybe_optimised_alloc(&l, &TypeShape::Opaque), ForeignAlloc::Malloc { size: 32 });
}

#[test]
fn specializer_falls_back_on_size_mismatch() {
    let a = GcAllocator::specialized();
    let l = layout(96, 8);
    let d = TypeDescriptor { handle: 7 };
    assert_eq!(
        a.maybe_optimised_alloc(&l, &TypeShape::NoReferences { size: 32 }),
        ForeignAlloc::Malloc { size: 96 }
    );
    assert_eq!(
        a.maybe_optimised_alloc(&l, &TypeShape::Described { size: 32, descriptor: d }),
        ForeignAlloc::Malloc { size: 96 }
    );
    assert_eq!(
        choose_strategy(&TypeShape::Described { size: 32, descriptor: d }, &l),
        Strategy::Conservative
    );
}

#[test]
fn specializer_off_uses_mode_path() {
    let l = layout(32, 8);
    let shape = TypeShape::NoReferences { size: 32 };
    let a = GcAllocator::new(AllocationMode::Collected);
    assert_eq!(a.maybe_optimised_alloc(&l, &shape), ForeignAlloc::Malloc { size: 32 });
    let u = GcAllocator { mode: AllocationMode::Uncollectable, specialize: true };
    assert_eq!(
        u.maybe_optimised_alloc(&l, &shape),
        ForeignAlloc::MallocUncollectable { size: 32 }
    );
}

#[test]
fn every_path_requests_the_layout_size() {
    let a = GcAllocator::specialized();
    let l = layout(48, 16);
    let d = TypeDescriptor { handle: 3 };
    let shapes = [
        TypeShape::Opaque,
        TypeShape::NoReferences { size: 48 },
        TypeShape::Described { size: 48, descriptor: d },
    ];
    for s in shapes.iter() {
        assert_eq!(a.maybe_optimised_alloc(&l, s).size(), 48);
    }
}

#[test]
fn many_small_blocks_are_accepted_and_disjoint() {
    let a = GcAllocator::new(AllocationMode::Collected);
    let l = layout(64, 8);
    let mut blocks = Vec::new();
    for k in 0..8000usize {
        let req = a.allocate(&l);
        assert_eq!(req.size(), 64);
        let addr = 0x10_0000 + k * 64;
        blocks.push(GcAllocator::accept_block(addr, &l).unwrap());
    }
    for w in blocks.windows(2) {
        assert!(w[0].addr + w[0].len <= w[1].addr);
    }
    assert!(blocks.iter().map(|b| b.len).sum::<usize>() >= 8 * 1000 * 64);
}
