//! Physical memory frames.

use vstd::prelude::*;

verus! {

/// The size of a page, and of a physical frame, in bytes.
pub const PAGE_SIZE: usize = 4096;

/// A physical address.
pub type PhysicalAddress = usize;

/// A physical frame: the `number`-th page-sized block of physical memory.
#[derive(Debug, PartialEq, Eq, PartialOrd, Ord, Structural)]
pub struct Frame {
    pub number: usize,
}

impl Frame {
    /// The frame that holds the byte at `address`.
    pub fn get_containing_frame(address: usize) -> (frame: Frame)
        ensures
            frame.number == address / PAGE_SIZE,
    {
        Frame { number: address / PAGE_SIZE }
    }

    /// The address of the frame's first byte. The multiplication overflows, and panics, for a
    /// frame beyond the address space; the `requires` keeps it out.
    pub fn get_start_address(&self) -> (address: PhysicalAddress)
        requires
            self.number * PAGE_SIZE <= usize::MAX,
        ensures
            address == self.number * PAGE_SIZE,
    {
        self.number * PAGE_SIZE
    }
}

/// The frame containing an address starts at or below it, less than a page below, on a
/// page boundary.
pub proof fn lemma_containing_frame(address: usize)
    ensures
        (address / PAGE_SIZE) * PAGE_SIZE <= address < (address / PAGE_SIZE) * PAGE_SIZE
            + PAGE_SIZE,
        ((address / PAGE_SIZE) * PAGE_SIZE) % (PAGE_SIZE as int) == 0,
{
    assert(((address / 4096) * 4096) % 4096 == 0);
}

/// A frame's start address lies in that frame: the frame containing it is the frame itself.
pub proof fn lemma_start_address_in_frame(frame: Frame)
    requires
        frame.number * PAGE_SIZE <= usize::MAX,
    ensures
        (frame.number * PAGE_SIZE) / (PAGE_SIZE as int) == frame.number,
{
    assert((frame.number * 4096) / 4096 == frame.number);
}

/// The number of frames needed to hold `size` bytes.
pub fn frames_needed(size: usize) -> (frames: usize)
    ensures
        frames == (size + PAGE_SIZE - 1) / (PAGE_SIZE as int),
        frames * PAGE_SIZE >= size,
        frames * PAGE_SIZE < size + PAGE_SIZE,
{
    if size % PAGE_SIZE == 0 {
        size / PAGE_SIZE
    } else {
        size / PAGE_SIZE + 1
    }
}

/// A source of physical frames.
pub trait FrameAllocator {
    fn allocate_frame(&mut self) -> Option<Frame>;
    fn deallocate_frame(&mut self, frame: Frame);
}

} // verus!
