use vstd::prelude::*;

verus! {

/// The largest alignment that the collector guarantees for every block it
/// hands out (its allocation granule).
pub const MAX_ALIGN: usize = 16;

/// True when `a` is a power of two that the collector's granule satisfies.
pub open spec fn supported_align(a: usize) -> bool {
    a == 1 || a == 2 || a == 4 || a == 8 || a == 16
}

/// Size and alignment of one allocation request.
#[derive(Clone, Copy, Debug, PartialEq, Eq, Structural)]
pub struct Layout {
    /// Requested size in bytes.
    pub size: usize,
    /// Required alignment in bytes.
    pub align: usize,
}

impl Layout {
    /// A layout that a live object may be allocated with: a non-empty size
    /// and a supported alignment.
    pub open spec fn wf(&self) -> bool {
        self.size > 0 && supported_align(self.align)
    }

    /// Builds a layout, or `None` when the size is zero or the alignment is
    /// not a power of two within what the collector guarantees.
    pub fn from_size_align(size: usize, align: usize) -> (r: Option<Layout>)
        ensures
            r is Some <==> (size > 0 && supported_align(align)),
            r matches Some(l) ==> l.size == size && l.align == align && l.wf(),
    {
        let align_ok = align == 1 || align == 2 || align == 4 || align == 8 || align == MAX_ALIGN;
        if size > 0 && align_ok {
            Some(Layout { size, align })
        } else {
            None
        }
    }

    pub fn size(&self) -> (r: usize)
        ensures
            r == self.size,
    {
        self.size
    }

    pub fn align(&self) -> (r: usize)
        ensures
            r == self.align,
    {
        self.align
    }
}

} // verus!
