use vstd::prelude::*;

verus! {

/// Handle that the collector's descriptor constructor returns for one
/// reference bitmap. Opaque to the library; reusable for every object of the
/// same shape.
#[derive(Clone, Copy, Debug, PartialEq, Eq, Structural)]
pub struct TypeDescriptor {
    pub handle: usize,
}

/// The collector entry point that one allocation has to go through, with
/// its arguments.
#[derive(Clone, Copy, Debug, PartialEq, Eq, Structural)]
pub enum ForeignAlloc {
    /// Traced, conservatively scanned memory.
    Malloc { size: usize },
    /// Memory excluded from tracing, to be freed explicitly.
    MallocUncollectable { size: usize },
    /// Traced memory that is never scanned for references.
    MallocAtomic { size: usize },
    /// Traced memory scanned only at the words the descriptor flags.
    MallocTyped { size: usize, descriptor: TypeDescriptor },
}

impl ForeignAlloc {
    /// Number of bytes the call asks the collector for.
    pub open spec fn requested(self) -> usize {
        match self {
            ForeignAlloc::Malloc { size } => size,
            ForeignAlloc::MallocUncollectable { size } => size,
            ForeignAlloc::MallocAtomic { size } => size,
            ForeignAlloc::MallocTyped { size, .. } => size,
        }
    }

    /// Whether the collector reclaims the block by itself once unreachable.
    pub open spec fn is_collectable(self) -> bool {
        !(self is MallocUncollectable)
    }

    pub fn size(&self) -> (r: usize)
        ensures
            r == self.requested(),
    {
        match self {
            ForeignAlloc::Malloc { size } => *size,
            ForeignAlloc::MallocUncollectable { size } => *size,
            ForeignAlloc::MallocAtomic { size } => *size,
            ForeignAlloc::MallocTyped { size, .. } => *size,
        }
    }
}

/// What releasing one block takes from the collector.
#[derive(Clone, Copy, Debug, PartialEq, Eq, Structural)]
pub enum ForeignRelease {
    /// Nothing: reclaiming the block is left to tracing.
    Nothing,
    /// An explicit free of the block at `addr`.
    Free { addr: usize },
}

/// A call of the collector's reallocation entry point.
#[derive(Clone, Copy, Debug, PartialEq, Eq, Structural)]
pub struct ForeignRealloc {
    pub addr: usize,
    pub new_size: usize,
}

/// A block that the collector handed out: a non-null address and the number
/// of bytes that the caller may use from it.
#[derive(Clone, Copy, Debug, PartialEq, Eq, Structural)]
pub struct Block {
    pub addr: usize,
    pub len: usize,
}

impl Block {
    /// The byte addresses the block covers.
    pub open spec fn covers(self, a: int) -> bool {
        self.addr <= a < self.addr + self.len
    }
}

} // verus!
