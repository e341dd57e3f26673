//! Kernel heap placement: where the heap lies and which pages back it.
use vstd::prelude::*;

verus! {

/// Start address of the kernel heap.
pub const HEAP_START: u64 = 0x_4444_4444_0000;

/// Size of the kernel heap: 32 MiB, enough for the 4 MiB RAM disk and the rest.
pub const HEAP_SIZE: u64 = 32 * 1024 * 1024;

/// Size of a page.
pub const PAGE_SIZE: u64 = 4096;

/// The start of the page holding `addr`.
pub open spec fn page_of(addr: u64) -> u64 {
    (addr - addr % PAGE_SIZE) as u64
}

/// The first and the last page (by start address) of the `size` bytes from
/// `start`; every page between them, inclusive, is mapped for the heap.
pub fn page_range(start: u64, size: u64) -> (r: (u64, u64))
    requires
        size > 0,
        start + size - 1 <= u64::MAX,
    ensures
        r.0 == page_of(start),
        r.1 == page_of((start + size - 1) as u64),
        r.0 <= r.1,
        r.0 % PAGE_SIZE == 0,
        r.1 % PAGE_SIZE == 0,
{
    let end = start + (size - 1);
    let first = start - start % PAGE_SIZE;
    let last = end - end % PAGE_SIZE;
    assert(first % 4096 == 0 && last % 4096 == 0 && first <= last) by (nonlinear_arith)
        requires
            first == start - start % 4096,
            last == end - end % 4096,
            start <= end,
    ;
    (first, last)
}

/// The pages of the kernel heap: from its first to its last page.
pub fn heap_pages() -> (r: (u64, u64))
    ensures
        r.0 == HEAP_START,
        r.1 == HEAP_START + HEAP_SIZE - PAGE_SIZE,
{
    assert(0x_4444_4444_0000u64 % 4096 == 0);
    page_range(HEAP_START, HEAP_SIZE)
}

} // verus!
