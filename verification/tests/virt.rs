use kernel_core::mem::addr::VirtAddr;
use kernel_core::mem::virt::VirtualRegionAllocator;

const BASE: u64 = 0xffff_a000_0000_0000;

fn virt(addr: u64) -> VirtAddr {
    VirtAddr::try_new(addr).unwrap()
}

fn take(a: &mut VirtualRegionAllocator, size: usize) -> Option<u64> {
    a.virt_allocate(size).ok().map(|p| p.as_u64())
}

#[test]
fn span_must_be_aligned_and_in_one_half() {
    assert!(VirtualRegionAllocator::new(0x1000, 0x8000).is_some());
    assert!(VirtualRegionAllocator::new(0x1000, 0x1000).is_some());
    assert!(VirtualRegionAllocator::new(0, 0x8000).is_none());
    assert!(VirtualRegionAllocator::new(0x1001, 0x8000).is_none());
    assert!(VirtualRegionAllocator::new(0x1000, 0x8001).is_none());
    assert!(VirtualRegionAllocator::new(0x8000, 0x1000).is_none());
    assert!(VirtualRegionAllocator::new(0x1000, 0x8000_0000_0000).is_some());
    assert!(VirtualRegionAllocator::new(0x1000, 0x8000_0000_1000).is_none());
    assert!(VirtualRegionAllocator::new(0x8000_0000_0000, 0x8000_0000_0000).is_none());
    assert!(VirtualRegionAllocator::new(0xffff_8000_0000_0000, 0xffff_9000_0000_0000).is_none());
    assert!(VirtualRegionAllocator::new(0xffff_8000_0000_1000, 0xffff_9000_0000_0000).is_some());
    assert!(VirtualRegionAllocator::new(0x1000, 0xffff_9000_0000_0000).is_none());
}

#[test]
fn pages_are_rounded_up() {
    assert_eq!(VirtualRegionAllocator::page_count(0), 0);
    assert_eq!(VirtualRegionAllocator::page_count(1), 1);
    assert_eq!(VirtualRegionAllocator::page_count(4096), 1);
    assert_eq!(VirtualRegionAllocator::page_count(4097), 2);
    assert_eq!(VirtualRegionAllocator::page_count(usize::MAX), 0x10_0000_0000_0000);
}

#[test]
fn ranges_are_page_aligned_whatever_the_size() {
    let mut a = VirtualRegionAllocator::new(BASE, BASE + 0x10_0000).unwrap();
    assert_eq!(take(&mut a, 1), Some(BASE));
    assert_eq!(take(&mut a, 0x1001), Some(BASE + 0x1000));
    assert_eq!(take(&mut a, 0x1000), Some(BASE + 0x3000));
    assert_eq!(take(&mut a, 7), Some(BASE + 0x4000));
}

#[test]
fn exhaustion_is_an_error() {
    let mut a = VirtualRegionAllocator::new(BASE, BASE + 0x3000).unwrap();
    assert_eq!(take(&mut a, 0x3001), None);
    assert_eq!(take(&mut a, 0x2000), Some(BASE));
    assert_eq!(take(&mut a, 0x1001), None);
    assert_eq!(take(&mut a, 0x1000), Some(BASE + 0x2000));
    assert_eq!(take(&mut a, 1), None);
    let mut empty = VirtualRegionAllocator::new(BASE, BASE).unwrap();
    assert_eq!(take(&mut empty, 1), None);
}

#[test]
fn nothing_is_taken_for_no_bytes() {
    let mut a = VirtualRegionAllocator::new(BASE, BASE + 0x1000).unwrap();
    assert_eq!(take(&mut a, 0), Some(BASE));
    assert_eq!(take(&mut a, 0), Some(BASE));
    assert!(a.is_allocated(virt(BASE + 0x123), 0));
    a.virt_deallocate(virt(BASE), 0);
    assert_eq!(take(&mut a, 0x1000), Some(BASE));
}

#[test]
fn what_is_given_back_is_handed_out_first() {
    let mut a = VirtualRegionAllocator::new(BASE, BASE + 0x10_0000).unwrap();
    let first = take(&mut a, 0x2000).unwrap();
    let second = take(&mut a, 0x2000).unwrap();
    let third = take(&mut a, 0x1000).unwrap();
    assert_eq!((first, second, third), (BASE, BASE + 0x2000, BASE + 0x4000));
    a.virt_deallocate(virt(first), 0x2000);
    a.virt_deallocate(virt(third), 0x1000);
    // the range given back last is looked at first; it is too small for two pages
    assert_eq!(take(&mut a, 0x2000), Some(first));
    assert_eq!(take(&mut a, 0x1000), Some(third));
    assert_eq!(take(&mut a, 0x1000), Some(BASE + 0x5000));
}

#[test]
fn a_larger_range_is_split() {
    let mut a = VirtualRegionAllocator::new(BASE, BASE + 0x4000).unwrap();
    let whole = take(&mut a, 0x4000).unwrap();
    a.virt_deallocate(virt(whole), 0x4000);
    assert_eq!(take(&mut a, 0x1000), Some(BASE));
    assert_eq!(take(&mut a, 0x2000), Some(BASE + 0x1000));
    assert_eq!(take(&mut a, 0x2000), None);
    assert_eq!(take(&mut a, 0x1000), Some(BASE + 0x3000));
    assert_eq!(take(&mut a, 1), None);
}

#[test]
fn allocator_knows_what_is_handed_out() {
    let mut a = VirtualRegionAllocator::new(BASE, BASE + 0x10_0000).unwrap();
    let p = take(&mut a, 0x3000).unwrap();
    assert!(a.is_allocated(virt(p), 0x3000));
    assert!(a.is_allocated(virt(p + 0x1000), 0x1000));
    assert!(!a.is_allocated(virt(p + 0x1000), 0x3000));
    assert!(!a.is_allocated(virt(p + 1), 0x1000));
    assert!(!a.is_allocated(virt(BASE - 0x1000), 0x1000));
    a.virt_deallocate(virt(p + 0x1000), 0x1000);
    assert!(!a.is_allocated(virt(p), 0x3000));
    assert!(a.is_allocated(virt(p), 0x1000));
    assert!(a.is_allocated(virt(p + 0x2000), 0x1000));
    assert!(!a.is_allocated(virt(p + 0x1000), 0x1000));
}

#[test]
fn a_cycle_can_be_repeated_without_end() {
    let mut a = VirtualRegionAllocator::new(BASE, BASE + 0x8000).unwrap();
    let keep = take(&mut a, 0x3000).unwrap();
    for _ in 0..10_000 {
        let p = take(&mut a, 0x5000).unwrap();
        assert_eq!(p, keep + 0x3000);
        assert_eq!(take(&mut a, 1), None);
        a.virt_deallocate(virt(p), 0x5000);
    }
}
