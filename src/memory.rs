//! Descriptions of physical memory regions and of the kernel heap.
use crate::address::PhysAddr;
use vstd::prelude::*;

verus! {

/// Size of the kernel heap in bytes.
pub const HEAP_SIZE: usize = 65536;

/// A named range of physical memory, from `start` up to but not including `end`.
#[derive(Clone, Copy, Debug)]
pub struct MemoryRegion {
    /// First address of the region.
    pub start: PhysAddr,
    /// Address just past the region.
    pub end: PhysAddr,
    /// Name of the region, for diagnostics.
    pub name: &'static str,
}

impl MemoryRegion {
    /// Number of bytes in the region.
    pub fn size(&self) -> (r: u64)
        requires
            self.start.spec_addr() <= self.end.spec_addr(),
        ensures
            r == self.end.spec_addr() - self.start.spec_addr(),
    {
        self.end.as_u64() - self.start.as_u64()
    }
}

/// Size of the kernel heap in bytes.
pub fn heap_size() -> (r: usize)
    ensures
        r == HEAP_SIZE,
{
    HEAP_SIZE
}

} // verus!
