//! Interface the underlying software (kernel or hypervisor) must implement.
//!
//! These are the host-environment callbacks the core consumes: page
//! allocation and host physical/virtual address conversion. The core states
//! nothing about them; an implementation is supplied by the embedder.

use vstd::prelude::*;

verus! {

/// Number of bytes in a 4K page.
pub const PAGE_SIZE_4K: usize = 0x1000;

/// Host-environment callbacks: page allocation and host-address conversion.
pub trait HyperCraftHal: Sized {
    /// Allocates contiguous pages, returning the host virtual address.
    fn alloc_pages(num_pages: usize) -> Option<usize>;

    /// Gives the pages starting at `va` back to the page allocator.
    fn dealloc_pages(va: usize, num_pages: usize);

    /// Converts a host physical address to a host virtual address.
    fn phys_to_virt(pa: usize) -> usize;

    /// Converts a host virtual address to a host physical address.
    fn virt_to_phys(va: usize) -> usize;

    /// Allocates a 4K-sized contiguous physical page.
    fn alloc_page() -> Option<usize> {
        Self::alloc_pages(1)
    }

    /// Deallocates the given physical page.
    fn dealloc_page(va: usize) {
        Self::dealloc_pages(va, 1)
    }

    /// Allocates a 16K-sized, 16K-aligned region, used for a root page table.
    fn alloc_16_page() -> Option<usize> {
        Self::alloc_pages(4)
    }

    /// Deallocates the given 16K-sized region.
    fn dealloc_16_page(va: usize) {
        Self::dealloc_pages(va, 4)
    }
}

} // verus!
