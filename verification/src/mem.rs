//! Kernel heap layout: the fixed heap window and the 4 KiB page starts that
//! must be mapped to back it. The actual page-table mapping and the frame
//! allocation behind it belong to the memory manager outside this crate.

use vstd::prelude::*;

verus! {

/// Virtual address the kernel heap starts at.
pub const HEAP_START: u64 = 0x4444_4444_0000;

/// Size of the kernel heap in bytes.
pub const HEAP_SIZE: u64 = 100 * 1024;

/// Size of one page in bytes.
pub const PAGE_SIZE: u64 = 4096;

/// The start addresses of the pages covering `[start, start + size)`:
/// one page every `PAGE_SIZE` bytes, from the page holding the first byte
/// through the page holding the last.
pub fn pages_covering(start: u64, size: u64) -> (r: Vec<u64>)
    requires
        size > 0,
        start % PAGE_SIZE == 0,
        start + size <= u64::MAX,
        (size - 1) / (PAGE_SIZE as int) + 1 <= usize::MAX,
    ensures
        r@.len() == (size - 1) / (PAGE_SIZE as int) + 1,
        forall|i: int| 0 <= i < r@.len() ==> r@[i] == start + (PAGE_SIZE as int) * i,
{
    let count: u64 = (size - 1) / PAGE_SIZE + 1;
    proof {
        assert((PAGE_SIZE as int) * ((size - 1) as int / (PAGE_SIZE as int)) <= size - 1)
            by (nonlinear_arith)
            requires
                size >= 1,
        ;
    }
    let mut r: Vec<u64> = Vec::new();
    let mut i: u64 = 0;
    while i < count
        invariant
            i <= count,
            count == (size - 1) / (PAGE_SIZE as int) + 1,
            start + size <= u64::MAX,
            size > 0,
            (PAGE_SIZE as int) * (count - 1) <= size - 1,
            r@.len() == i,
            forall|j: int| 0 <= j < i ==> r@[j] == start + (PAGE_SIZE as int) * j,
        decreases count - i,
    {
        proof {
            assert((PAGE_SIZE as int) * (i as int) <= (PAGE_SIZE as int) * (count - 1))
                by (nonlinear_arith)
                requires
                    i as int <= count - 1,
                    PAGE_SIZE > 0,
            ;
        }
        r.push(start + PAGE_SIZE * i);
        i = i + 1;
    }
    r
}

/// The page starts that must be mapped to back the kernel heap.
pub fn heap_pages() -> (r: Vec<u64>)
    ensures
        r@.len() == (HEAP_SIZE - 1) / (PAGE_SIZE as int) + 1,
        forall|i: int|
            0 <= i < r@.len() ==> r@[i] == HEAP_START + (PAGE_SIZE as int) * i,
{
    pages_covering(HEAP_START, HEAP_SIZE)
}

} // verus!
