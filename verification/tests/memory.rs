//! The address translator and the heap page layout.

use bringup::mem::heap_pages;
use bringup::mem::pages_covering;
use bringup::mem::HEAP_SIZE;
use bringup::mem::HEAP_START;
use bringup::time::Mapper;

#[test]
fn mapper_adds_the_linear_offset() {
    let mapper = Mapper::new(0xFFFF_8000_0000_0000);
    assert_eq!(
        mapper.phys_to_virt(0xFEE0_0000),
        0xFFFF_8000_0000_0000 + 0xFEE0_0000
    );
    assert_eq!(Mapper::new(0).phys_to_virt(0x1000), 0x1000);
}

#[test]
fn heap_window_is_covered_by_whole_pages() {
    let pages = heap_pages();
    // 100 KiB is exactly 25 pages of 4 KiB.
    assert_eq!(pages.len(), 25);
    assert_eq!(pages[0], HEAP_START);
    assert_eq!(pages[24], HEAP_START + 24 * 4096);
    assert!(pages.last().copied().unwrap() < HEAP_START + HEAP_SIZE);
}

#[test]
fn pages_covering_rounds_the_tail_page_up() {
    let pages = pages_covering(0x1000, 4097);
    assert_eq!(pages, vec![0x1000, 0x2000]);
    let one = pages_covering(0, 1);
    assert_eq!(one, vec![0]);
    let exact = pages_covering(0x8000, 8192);
    assert_eq!(exact, vec![0x8000, 0x9000]);
}
