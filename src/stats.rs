use vstd::prelude::*;
use crate::allocator::GcAllocator;

verus! {

/// The collector's raw profiling counters, one machine word each, in the
/// order and width of the collector's own record. The embedding program
/// fills this from the collector; the library only reads it.
#[derive(Clone, Copy, Debug, PartialEq, Eq, Structural)]
pub struct ProfileStats {
    /// Heap size in bytes (including area unmapped to OS).
    pub heapsize_full: usize,
    /// Total bytes contained in free and unmapped blocks.
    pub free_bytes_full: usize,
    /// Amount of memory unmapped to OS.
    pub unmapped_bytes: usize,
    /// Number of bytes allocated since the recent collection.
    pub bytes_allocd_since_gc: usize,
    /// Number of bytes allocated before the recent collection.
    /// The value may wrap.
    pub allocd_bytes_before_gc: usize,
    /// Number of bytes not considered candidates for garbage collection.
    pub non_gc_bytes: usize,
    /// Garbage collection cycle number.
    /// The value may wrap.
    pub gc_no: usize,
    /// Number of marker threads (excluding the initiating one).
    pub markers_m1: usize,
    /// Approximate number of reclaimed bytes after recent collection.
    pub bytes_reclaimed_since_gc: usize,
    /// Approximate number of bytes reclaimed before the recent collection.
    /// The value may wrap.
    pub reclaimed_bytes_before_gc: usize,
    /// Number of bytes freed explicitly since the recent GC.
    pub expl_freed_bytes_since_gc: usize,
}

impl ProfileStats {
    /// Every counter zero.
    pub open spec fn is_zeroed(&self) -> bool {
        &&& self.heapsize_full == 0
        &&& self.free_bytes_full == 0
        &&& self.unmapped_bytes == 0
        &&& self.bytes_allocd_since_gc == 0
        &&& self.allocd_bytes_before_gc == 0
        &&& self.non_gc_bytes == 0
        &&& self.gc_no == 0
        &&& self.markers_m1 == 0
        &&& self.bytes_reclaimed_since_gc == 0
        &&& self.reclaimed_bytes_before_gc == 0
        &&& self.expl_freed_bytes_since_gc == 0
    }
}

impl Default for ProfileStats {
    fn default() -> (r: ProfileStats)
        ensures
            r.is_zeroed(),
    {
        ProfileStats {
            heapsize_full: 0,
            free_bytes_full: 0,
            unmapped_bytes: 0,
            bytes_allocd_since_gc: 0,
            allocd_bytes_before_gc: 0,
            non_gc_bytes: 0,
            gc_no: 0,
            markers_m1: 0,
            bytes_reclaimed_since_gc: 0,
            reclaimed_bytes_before_gc: 0,
            expl_freed_bytes_since_gc: 0,
        }
    }
}

/// Aggregate collection statistics derived from one profiling read.
#[derive(Clone, Copy, Debug, PartialEq, Eq, Structural)]
pub struct GcStats {
    /// Total pause time of full collections, in milliseconds.
    pub total_gc_time: usize,
    /// Number of completed collection cycles.
    pub num_collections: usize,
    /// Bytes reclaimed by the most recent cycle.
    pub total_freed: usize,
    /// Bytes allocated since the most recent cycle.
    pub total_alloced: usize,
}

/// The statistics that a profiling read of `ps`, together with the
/// collector's total pause time `total_gc_time`, stands for.
pub open spec fn derived_stats(ps: ProfileStats, total_gc_time: usize) -> GcStats {
    GcStats {
        total_gc_time,
        num_collections: ps.gc_no,
        total_freed: ps.bytes_reclaimed_since_gc,
        total_alloced: ps.bytes_allocd_since_gc,
    }
}

impl GcStats {
    /// Selects the aggregate statistics out of the raw counters `ps` and the
    /// collector's total pause time.
    pub fn from_profile(ps: &ProfileStats, total_gc_time: usize) -> (r: GcStats)
        ensures
            r == derived_stats(*ps, total_gc_time),
    {
        GcStats {
            total_gc_time,
            num_collections: ps.gc_no,
            total_freed: ps.bytes_reclaimed_since_gc,
            total_alloced: ps.bytes_allocd_since_gc,
        }
    }

    pub fn total_gc_time(&self) -> (r: usize)
        ensures
            r == self.total_gc_time,
    {
        self.total_gc_time
    }

    pub fn num_collections(&self) -> (r: usize)
        ensures
            r == self.num_collections,
    {
        self.num_collections
    }

    pub fn total_freed(&self) -> (r: usize)
        ensures
            r == self.total_freed,
    {
        self.total_freed
    }

    pub fn total_alloced(&self) -> (r: usize)
        ensures
            r == self.total_alloced,
    {
        self.total_alloced
    }
}

/// The process's profiling session. Timing instrumentation is enabled once,
/// before the first statistics are read, and stays enabled.
#[derive(Debug)]
pub struct Profiler {
    initialized: bool,
}

impl Profiler {
    /// Whether instrumentation has been enabled.
    pub closed spec fn spec_initialized(&self) -> bool {
        self.initialized
    }

    /// A session whose instrumentation is not enabled yet.
    pub fn new() -> (r: Profiler)
        ensures
            !r.spec_initialized(),
    {
        Profiler { initialized: false }
    }

    pub fn is_initialized(&self) -> (r: bool)
        ensures
            r == self.spec_initialized(),
    {
        self.initialized
    }
}

impl GcAllocator {
    /// Marks the session's instrumentation as enabled. The caller enables the
    /// collector's timing right after; doing it twice is a misuse.
    pub fn init(profiler: &mut Profiler)
        requires
            !old(profiler).spec_initialized(),
        ensures
            final(profiler).spec_initialized(),
    {
        profiler.initialized = true;
    }

    /// The statistics of one profiling read: the raw counters `ps` and the
    /// collector's total pause time. The counters are not read as one, so a
    /// read concurrent with a collection may mix states.
    pub fn get_stats(profiler: &Profiler, ps: &ProfileStats, total_gc_time: usize) -> (r: GcStats)
        requires
            profiler.spec_initialized(),
        ensures
            r == derived_stats(*ps, total_gc_time),
    {
        GcStats::from_profile(ps, total_gc_time)
    }
}

/// Deriving statistics keeps the order of the counters they come from: two
/// reads whose cycle numbers, allocation counters and pause times do not
/// decrease give statistics whose `num_collections`, `total_alloced` and
/// `total_gc_time` do not decrease either.
pub proof fn lemma_derived_stats_monotone(
    earlier: ProfileStats,
    later: ProfileStats,
    earlier_time: usize,
    later_time: usize,
)
    requires
        earlier.gc_no <= later.gc_no,
        earlier.bytes_allocd_since_gc <= later.bytes_allocd_since_gc,
        earlier_time <= later_time,
    ensures
        derived_stats(earlier, earlier_time).num_collections <= derived_stats(later, later_time).num_collections,
        derived_stats(earlier, earlier_time).total_alloced <= derived_stats(later, later_time).total_alloced,
        derived_stats(earlier, earlier_time).total_gc_time <= derived_stats(later, later_time).total_gc_time,
{
}

} // verus!
