use vstd::prelude::*;
use crate::binding::{Block, ForeignAlloc, ForeignRealloc, ForeignRelease};
use crate::layout::Layout;
use crate::specializer::{choose_strategy, spec_strategy, Strategy, TypeShape};

verus! {

/// Whether the blocks of a façade are traced by the collector.
#[derive(Clone, Copy, Debug, PartialEq, Eq, Structural)]
pub enum AllocationMode {
    /// Blocks are traced and reclaimed once unreachable.
    Collected,
    /// Blocks are never traced and must be freed by their owner.
    Uncollectable,
}

/// The collector call that allocates `size` bytes under `mode`.
pub open spec fn mode_alloc(mode: AllocationMode, size: usize) -> ForeignAlloc {
    match mode {
        AllocationMode::Collected => ForeignAlloc::Malloc { size },
        AllocationMode::Uncollectable => ForeignAlloc::MallocUncollectable { size },
    }
}

/// The general-purpose allocator of the runtime. Its mode, and whether it
/// consults type metadata, are fixed when it is made.
#[derive(Clone, Copy, Debug, PartialEq, Eq, Structural)]
pub struct GcAllocator {
    pub mode: AllocationMode,
    pub specialize: bool,
}

impl GcAllocator {
    /// Whether allocations with type metadata may take the atomic or the
    /// precisely-typed path. Both hand out traced memory, so this needs the
    /// collected mode.
    pub open spec fn specializes(self) -> bool {
        self.specialize && self.mode is Collected
    }

    /// The collector call for an object of shape `shape` requested with
    /// `layout`.
    pub open spec fn optimised_alloc(self, layout: Layout, shape: TypeShape) -> ForeignAlloc {
        if self.specializes() {
            match spec_strategy(shape, layout) {
                Strategy::Atomic => ForeignAlloc::MallocAtomic { size: layout.size },
                Strategy::Typed(descriptor) => ForeignAlloc::MallocTyped {
                    size: layout.size,
                    descriptor,
                },
                Strategy::Conservative => mode_alloc(self.mode, layout.size),
            }
        } else {
            mode_alloc(self.mode, layout.size)
        }
    }

    /// A façade in `mode` that ignores type metadata.
    pub fn new(mode: AllocationMode) -> (r: GcAllocator)
        ensures
            r.mode == mode,
            !r.specialize,
    {
        GcAllocator { mode, specialize: false }
    }

    /// A façade in the collected mode that uses type metadata where it is
    /// available.
    pub fn specialized() -> (r: GcAllocator)
        ensures
            r.mode is Collected,
            r.specialize,
            r.specializes(),
    {
        GcAllocator { mode: AllocationMode::Collected, specialize: true }
    }

    /// The collector call behind a raw allocation: the tracing or the
    /// non-tracing entry point as the mode says, for exactly the requested
    /// size.
    pub fn global_alloc(&self, layout: &Layout) -> (r: ForeignAlloc)
        requires
            layout.wf(),
        ensures
            r == mode_alloc(self.mode, layout.size),
            r.requested() == layout.size,
    {
        match self.mode {
            AllocationMode::Collected => ForeignAlloc::Malloc { size: layout.size },
            AllocationMode::Uncollectable => ForeignAlloc::MallocUncollectable { size: layout.size },
        }
    }

    /// The collector call behind an allocation of the allocator interface.
    /// Its result is checked by `accept_block`.
    pub fn allocate(&self, layout: &Layout) -> (r: ForeignAlloc)
        requires
            layout.wf(),
        ensures
            r == mode_alloc(self.mode, layout.size),
            r.requested() == layout.size,
            r.is_collectable() <==> self.mode is Collected,
    {
        self.global_alloc(layout)
    }

    /// Checks the address that the collector returned for a request of
    /// `layout`. A null address is an allocation failure, which the runtime
    /// treats as fatal: `None` then, and the caller must not go on.
    pub fn accept_block(addr: usize, layout: &Layout) -> (r: Option<Block>)
        ensures
            r is None <==> addr == 0,
            r matches Some(b) ==> b.addr == addr && b.len == layout.size,
    {
        if addr == 0 {
            None
        } else {
            Some(Block { addr, len: layout.size })
        }
    }

    /// The collector call behind a raw deallocation: an explicit free of the
    /// block, whatever the mode.
    pub fn global_dealloc(&self, addr: usize, _layout: &Layout) -> (r: ForeignRelease)
        requires
            addr != 0,
        ensures
            r == (ForeignRelease::Free { addr }),
    {
        ForeignRelease::Free { addr }
    }

    /// The collector call behind a deallocation of the allocator interface.
    /// Collected memory is released by tracing alone, so nothing is done
    /// (no finalizer runs, nothing returns to the system); uncollectable
    /// memory is freed explicitly.
    pub fn deallocate(&self, addr: usize, _layout: &Layout) -> (r: ForeignRelease)
        requires
            addr != 0,
        ensures
            self.mode is Collected ==> r is Nothing,
            self.mode is Uncollectable ==> r == (ForeignRelease::Free { addr }),
    {
        match self.mode {
            AllocationMode::Collected => ForeignRelease::Nothing,
            AllocationMode::Uncollectable => ForeignRelease::Free { addr },
        }
    }

    /// The collector call that resizes the block at `addr` to `new_size`
    /// bytes. The address it returns replaces `addr`, which must not be used
    /// again.
    pub fn global_realloc(&self, addr: usize, _layout: &Layout, new_size: usize) -> (r: ForeignRealloc)
        requires
            addr != 0,
            new_size > 0,
        ensures
            r == (ForeignRealloc { addr, new_size }),
    {
        ForeignRealloc { addr, new_size }
    }

    /// The collector call for an object of shape `shape`: the atomic or the
    /// precisely-typed entry point where the façade specializes and the
    /// metadata fits the request, the ordinary path of the mode otherwise.
    pub fn maybe_optimised_alloc(&self, layout: &Layout, shape: &TypeShape) -> (r: ForeignAlloc)
        requires
            layout.wf(),
        ensures
            r == self.optimised_alloc(*layout, *shape),
            r.requested() == layout.size,
    {
        if self.specialize && self.mode == AllocationMode::Collected {
            match choose_strategy(shape, layout) {
                Strategy::Atomic => ForeignAlloc::MallocAtomic { size: layout.size },
                Strategy::Typed(descriptor) => ForeignAlloc::MallocTyped {
                    size: layout.size,
                    descriptor,
                },
                Strategy::Conservative => self.allocate(layout),
            }
        } else {
            self.allocate(layout)
        }
    }
}

/// Whichever path an allocation takes (atomic, precisely typed or
/// conservative), the collector is asked for exactly the requested number of
/// bytes and the accepted block spans exactly those bytes, so what is written
/// to an object reads back the same on every path.
pub proof fn lemma_paths_agree_on_bytes(a: GcAllocator, layout: Layout, shape: TypeShape, addr: usize)
    requires
        layout.wf(),
        addr != 0,
    ensures
        a.optimised_alloc(layout, shape).requested() == layout.size,
        a.optimised_alloc(layout, shape).requested() == mode_alloc(a.mode, layout.size).requested(),
        (Block { addr, len: layout.size }).covers(addr + layout.size - 1),
        !(Block { addr, len: layout.size }).covers(addr + layout.size),
{
}

} // verus!
