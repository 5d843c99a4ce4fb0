use vstd::prelude::*;
use crate::binding::TypeDescriptor;
use crate::layout::Layout;

verus! {

/// What is statically known of the type an allocation is for.
#[derive(Clone, Copy, Debug, PartialEq, Eq, Structural)]
pub enum TypeShape {
    /// Nothing is known: the type has no layout metadata.
    Opaque,
    /// A type of `size` bytes none of whose words holds a reference.
    NoReferences { size: usize },
    /// A type of `size` bytes whose reference words the descriptor flags.
    Described { size: usize, descriptor: TypeDescriptor },
}

/// How the collector is asked for an object's memory.
#[derive(Clone, Copy, Debug, PartialEq, Eq, Structural)]
pub enum Strategy {
    /// Never scanned for references.
    Atomic,
    /// Scanned only at the words the descriptor flags.
    Typed(TypeDescriptor),
    /// Every word scanned as a possible reference.
    Conservative,
}

/// The strategy for an object of shape `shape` requested with `layout`.
/// Metadata is used only when it is for exactly the requested size; a
/// request whose size differs (computed at run time, an array) falls back to
/// conservative scanning.
pub open spec fn spec_strategy(shape: TypeShape, layout: Layout) -> Strategy {
    match shape {
        TypeShape::NoReferences { size } => if size == layout.size {
            Strategy::Atomic
        } else {
            Strategy::Conservative
        },
        TypeShape::Described { size, descriptor } => if size == layout.size {
            Strategy::Typed(descriptor)
        } else {
            Strategy::Conservative
        },
        TypeShape::Opaque => Strategy::Conservative,
    }
}

/// Chooses the most precise allocation strategy that the metadata allows.
/// Missing or ineligible metadata is no error: it selects the conservative
/// path.
pub fn choose_strategy(shape: &TypeShape, layout: &Layout) -> (r: Strategy)
    ensures
        r == spec_strategy(*shape, *layout),
{
    match shape {
        TypeShape::NoReferences { size } => {
            if *size == layout.size {
                Strategy::Atomic
            } else {
                Strategy::Conservative
            }
        },
        TypeShape::Described { size, descriptor } => {
            if *size == layout.size {
                Strategy::Typed(*descriptor)
            } else {
                Strategy::Conservative
            }
        },
        TypeShape::Opaque => Strategy::Conservative,
    }
}

} // verus!
