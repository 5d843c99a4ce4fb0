//! Allocator façade for a language runtime whose heap is owned by an external
//! conservative garbage collector.
//!
//! The library decides; the collector's binding acts. Every operation of the
//! façade turns a request (a layout, a pointer, a type shape, a finalizer) into
//! the exact foreign call that has to be made, and turns what the collector
//! hands back (an address, a block of raw counters) into checked values.
//! Performing the foreign calls themselves is left to the embedding program.

pub mod allocator;
pub mod binding;
pub mod bitmap;
pub mod finalizer;
pub mod layout;
pub mod specializer;
pub mod stats;

pub use allocator::{AllocationMode, GcAllocator};
pub use binding::{Block, ForeignAlloc, ForeignRealloc, ForeignRelease, TypeDescriptor};
pub use bitmap::RefBitmap;
pub use finalizer::{FinalizerHandle, FinalizerOrdering, FinalizerRecord, FinalizerRegistry, ForeignFinalizer};
pub use layout::Layout;
pub use specializer::{choose_strategy, Strategy, TypeShape};
pub use stats::{GcStats, ProfileStats, Profiler};
