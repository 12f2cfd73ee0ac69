//! Physical page frames.

use vstd::prelude::*;

verus! {

/// Size in bytes of one physical page frame in this environment.
pub const PAGE_SIZE: usize = 4096;

/// Whether a physical address is aligned to a page boundary.
pub open spec fn page_aligned(addr: u64) -> bool {
    addr % (PAGE_SIZE as u64) == 0
}

/// The page size is 4096 bytes; stated here so that callers outside this
/// module can reason with the concrete value.
pub proof fn lemma_page_size()
    ensures
        PAGE_SIZE == 4096,
{
}

/// A descriptor for one physical page frame: a page-aligned start address
/// and a fixed size of [`PAGE_SIZE`] bytes.
///
/// Every value of this type is page-aligned: the only constructors check or
/// require alignment.
#[derive(Clone, Copy, Debug, PartialEq, Eq, Structural)]
pub struct Frame {
    start: u64,
}

impl Frame {
    /// The frame's start address, as a mathematical value.
    pub closed spec fn spec_start(self) -> u64 {
        self.start
    }

    /// A frame is well formed when its start address is page-aligned.
    pub open spec fn wf(self) -> bool {
        page_aligned(self.spec_start())
    }

    /// Builds the frame starting at `start`, which the caller has shown to
    /// be page-aligned.
    pub fn new(start: u64) -> (f: Frame)
        requires
            page_aligned(start),
        ensures
            f.spec_start() == start,
            f.wf(),
    {
        Frame { start }
    }

    /// Converts a raw physical address into a frame descriptor: `Some`
    /// exactly when the address is page-aligned.
    pub fn from_start_address(start: u64) -> (r: Option<Frame>)
        ensures
            r is Some <==> page_aligned(start),
            r matches Some(f) ==> f.spec_start() == start && f.wf(),
    {
        if start % (PAGE_SIZE as u64) == 0 {
            Some(Frame { start })
        } else {
            None
        }
    }

    /// The frame's start address.
    pub fn start_address(&self) -> (a: u64)
        ensures
            a == self.spec_start(),
    {
        self.start
    }
}

} // verus!
