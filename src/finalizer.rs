use vstd::prelude::*;
use std::collections::HashMap;
use crate::allocator::GcAllocator;

verus! {

broadcast use vstd::std_specs::hash::group_hash_axioms;

/// Whether the collector runs an object's finalizer before the finalizers
/// of the objects it references.
#[derive(Clone, Copy, Debug, PartialEq, Eq, Structural)]
pub enum FinalizerOrdering {
    /// Runs before the finalizers of the objects it references.
    Ordered,
    /// No sequencing against other finalizers; safe when finalizable
    /// objects reference each other.
    Unordered,
}

/// One active finalizer: the callback (by the identifier the runtime gave
/// it), the client data handed to it, and its ordering.
#[derive(Clone, Copy, Debug, PartialEq, Eq, Structural)]
pub struct FinalizerRecord {
    pub finalizer: usize,
    pub client_data: usize,
    pub ordering: FinalizerOrdering,
}

/// A call of the collector's finalizer registration entry point for the
/// object at `obj`: the ordered or the no-order entry point, installing the
/// runtime's dispatching callback (`install`) or clearing any callback.
#[derive(Clone, Copy, Debug, PartialEq, Eq, Structural)]
pub struct ForeignFinalizer {
    pub obj: usize,
    pub install: bool,
    pub ordering: FinalizerOrdering,
}

/// What a registration produced: the collector call to make, and the record
/// it displaced, so that independent registrars can compose.
#[derive(Clone, Copy, Debug, PartialEq, Eq, Structural)]
pub struct FinalizerHandle {
    pub call: ForeignFinalizer,
    pub previous: Option<FinalizerRecord>,
}

/// The active record of `obj` in `records`, if any.
pub open spec fn active_record(records: Map<usize, FinalizerRecord>, obj: usize) -> Option<FinalizerRecord> {
    if records.contains_key(obj) {
        Some(records[obj])
    } else {
        None
    }
}

/// The records after `obj` is given the finalizer `record`.
pub open spec fn after_register(
    records: Map<usize, FinalizerRecord>,
    obj: usize,
    record: FinalizerRecord,
) -> Map<usize, FinalizerRecord> {
    records.insert(obj, record)
}

/// The records after the record of `obj` is removed, by unregistration or
/// because its finalizer was handed out to run.
pub open spec fn after_remove(records: Map<usize, FinalizerRecord>, obj: usize) -> Map<usize, FinalizerRecord> {
    records.remove(obj)
}

/// The active finalizer of each object, at most one per object. The
/// collector is given a single dispatching callback; when it finalizes an
/// object, the dispatcher claims the object's record here and runs it.
#[derive(Debug)]
pub struct FinalizerRegistry {
    records: HashMap<usize, FinalizerRecord>,
}

impl View for FinalizerRegistry {
    type V = Map<usize, FinalizerRecord>;

    closed spec fn view(&self) -> Map<usize, FinalizerRecord> {
        self.records@
    }
}

impl FinalizerRegistry {
    /// A registry with no record.
    pub fn new() -> (r: FinalizerRegistry)
        ensures
            r@ == Map::<usize, FinalizerRecord>::empty(),
    {
        FinalizerRegistry { records: HashMap::new() }
    }

    /// The active record of `obj`, if any.
    pub fn record_of(&self, obj: usize) -> (r: Option<FinalizerRecord>)
        ensures
            r == active_record(self@, obj),
    {
        match self.records.get(&obj) {
            Some(rec) => Some(*rec),
            None => None,
        }
    }

    /// Whether `obj` has an active record.
    pub fn is_registered(&self, obj: usize) -> (r: bool)
        ensures
            r == self@.contains_key(obj),
    {
        self.records.contains_key(&obj)
    }

    /// Hands out the finalizer of `obj` for the collector's reclamation of
    /// it, and removes it, so that it can run only once.
    pub fn claim(&mut self, obj: usize) -> (r: Option<FinalizerRecord>)
        ensures
            r == active_record(old(self)@, obj),
            final(self)@ == after_remove(old(self)@, obj),
    {
        self.records.remove(&obj)
    }
}

impl GcAllocator {
    /// Gives the object at `obj` the finalizer `finalizer` with `client_data`,
    /// replacing any record it had. Returns the collector call that installs
    /// the dispatcher through the entry point of `ordering`, and the
    /// displaced record.
    pub fn register_finalizer(
        &self,
        registry: &mut FinalizerRegistry,
        obj: usize,
        finalizer: usize,
        client_data: usize,
        ordering: FinalizerOrdering,
    ) -> (r: FinalizerHandle)
        requires
            obj != 0,
        ensures
            final(registry)@ == after_register(
                old(registry)@,
                obj,
                FinalizerRecord { finalizer, client_data, ordering },
            ),
            r.previous == active_record(old(registry)@, obj),
            r.call == (ForeignFinalizer { obj, install: true, ordering }),
    {
        let record = FinalizerRecord { finalizer, client_data, ordering };
        let previous = registry.records.insert(obj, record);
        FinalizerHandle { call: ForeignFinalizer { obj, install: true, ordering }, previous }
    }

    /// Removes any record of the object at `obj`, so that no finalizer of it
    /// is handed out later; one already handed out still runs. Returns the
    /// collector call that clears the object's callback.
    pub fn unregister_finalizer(&self, registry: &mut FinalizerRegistry, obj: usize) -> (r: ForeignFinalizer)
        requires
            obj != 0,
        ensures
            final(registry)@ == after_remove(old(registry)@, obj),
            r == (ForeignFinalizer { obj, install: false, ordering: FinalizerOrdering::Ordered }),
    {
        let _ = registry.records.remove(&obj);
        ForeignFinalizer { obj, install: false, ordering: FinalizerOrdering::Ordered }
    }
}

/// A finalizer is handed out at most once per registration: once the record
/// of an object has been claimed, claiming it again finds nothing until the
/// object is registered anew, and the records of other objects are kept.
pub proof fn lemma_finalizer_claimed_at_most_once(records: Map<usize, FinalizerRecord>, obj: usize)
    ensures
        active_record(after_remove(records, obj), obj) is None,
        forall|other: usize|
            other != obj ==> #[trigger] active_record(after_remove(records, obj), other) == active_record(records, other),
{
}

/// Unregistering after registering leaves nothing to hand out for the
/// object, whatever was registered for it before.
pub proof fn lemma_unregistered_finalizer_never_claimed(
    records: Map<usize, FinalizerRecord>,
    obj: usize,
    record: FinalizerRecord,
)
    ensures
        active_record(after_remove(after_register(records, obj, record), obj), obj) is None,
        active_record(after_register(records, obj, record), obj) == Some(record),
{
}

} // verus!
