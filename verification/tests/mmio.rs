use kernel_core::alloc_interface::AllocError;
use kernel_core::alloc_interface::MmioAlloc;
use kernel_core::alloc_interface::FLAG_NO_CACHE;
use kernel_core::alloc_interface::FLAG_NO_EXECUTE;
use kernel_core::alloc_interface::FLAG_PRESENT;
use kernel_core::alloc_interface::FLAG_WRITABLE;
use kernel_core::alloc_interface::MMIO_FLAGS;
use kernel_core::mem::addr::PhysAddr;
use kernel_core::mem::addr::VirtAddr;
use kernel_core::mem::virt::VirtualRegionAllocator;
use x86_64::structures::paging::PageTableFlags;

fn virt(addr: u64) -> VirtAddr {
    VirtAddr::try_new(addr).unwrap()
}

const BASE: u64 = 0xffff_9000_0000_0000;

#[test]
fn mmio_flags_are_present_writable_uncached_no_execute() {
    assert_eq!(MMIO_FLAGS, FLAG_PRESENT | FLAG_WRITABLE | FLAG_NO_CACHE | FLAG_NO_EXECUTE);
}

#[test]
fn mmio_alloc_knows_its_address() {
    let a = MmioAlloc::new(0xfee0_0000);
    assert!(a.has_phys_addr());
    assert_eq!(a.as_phys_addr().as_u64(), 0xfee0_0000);
    let b = MmioAlloc::new_from_phys_addr(PhysAddr::try_new(0x1234).unwrap());
    assert_eq!(b.as_phys_addr().as_u64(), 0x1234);
    assert_eq!(a, MmioAlloc::new(0xfee0_0000));
    assert!(!MmioAlloc::new(0x10_0000_0000_0000).has_phys_addr());
}

#[test]
fn mmio_maps_each_page_to_the_next_frame() {
    let a = MmioAlloc::new(0xfee0_0000);
    assert!(a.can_map(0x3000, virt(BASE)));
    let m = a.map_at(0x3000, Ok(virt(BASE))).ok().unwrap();
    assert_eq!(m.address(), BASE);
    assert_eq!(m.size(), 0x3000);
    assert_eq!(m.page_flags(), MMIO_FLAGS);
    assert_eq!(m.page_range().len(), 3);
    let pairs: Vec<(u64, u64)> = (0..4).filter_map(|i| m.mapping(i)).map(|(p, f)| (p.as_u64(), f.as_u64())).collect();
    assert_eq!(
        pairs,
        vec![(BASE, 0xfee0_0000), (BASE + 0x1000, 0xfee0_1000), (BASE + 0x2000, 0xfee0_2000)]
    );
}

#[test]
fn mmio_keeps_the_offset_within_the_page() {
    let a = MmioAlloc::new(0xfed0_0a10);
    let m = a.map_at(0x20, Ok(virt(BASE))).ok().unwrap();
    assert_eq!(m.address(), BASE + 0xa10);
    assert_eq!(m.size(), 0x20);
    assert_eq!(m.page_range().len(), 1);
    let (page, frame) = m.mapping(0).unwrap();
    assert_eq!(page.as_u64(), BASE);
    assert_eq!(frame.as_u64(), 0xfed0_0000);
    assert!(m.mapping(1).is_none());
}

#[test]
fn mmio_passes_failure_on() {
    let a = MmioAlloc::new(0xfee0_0000);
    assert!(matches!(a.map_at(0x1000, Err(AllocError)), Err(AllocError)));
}

#[test]
fn mmio_mapping_of_nothing_maps_nothing() {
    let a = MmioAlloc::new(0xfee0_0000);
    let m = a.map_at(0, Ok(virt(BASE + 0x1000))).ok().unwrap();
    assert!(m.page_range().is_empty());
    assert!(m.mapping(0).is_none());
    assert_eq!(m.size(), 0);
}

#[test]
fn mmio_page_range_spans_the_bytes() {
    let r = MmioAlloc::get_page_range(1, virt(BASE + 0xfff));
    assert_eq!((r.start().as_u64(), r.end().as_u64()), (BASE, BASE));
    let r = MmioAlloc::get_page_range(2, virt(BASE + 0xfff));
    assert_eq!((r.start().as_u64(), r.end().as_u64()), (BASE, BASE + 0x1000));
    let r = MmioAlloc::get_page_range(0x1000, virt(BASE));
    assert_eq!((r.start().as_u64(), r.end().as_u64()), (BASE, BASE));
    let r = MmioAlloc::get_page_range(0x1001, virt(BASE));
    assert_eq!((r.start().as_u64(), r.end().as_u64()), (BASE, BASE + 0x1000));
}

#[test]
fn mmio_offset_addr_adds_the_frame_offset() {
    let a = MmioAlloc::new(0xfed0_0123);
    assert_eq!(a.offset_addr(virt(BASE), 77), (BASE + 0x123, 77));
}

#[test]
fn mmio_unmapping_gives_back_what_mapping_took() {
    let a = MmioAlloc::new(0xfed0_0a10);
    for _ in 0..3 {
        let m = a.map_at(0x1500, Ok(virt(BASE))).ok().unwrap();
        let u = a.unmap_at(virt(m.address()), 0x1500);
        assert_eq!(u.base, BASE);
        assert_eq!(u.pages, m.page_range());
        assert_eq!(u.pages.len(), 2);
    }
    let aligned = MmioAlloc::new(0xfed0_0000);
    let m = aligned.map_at(0x3000, Ok(virt(BASE))).ok().unwrap();
    let u = aligned.unmap_at(virt(m.address()), 0x3000);
    assert_eq!(u.base, BASE);
    assert_eq!(u.pages, m.page_range());
}

#[test]
fn mmio_unmapping_follows_the_pointer_it_is_given() {
    // the offset carries the last byte into a page that the allocation did not count
    let a = MmioAlloc::new(0xfed0_0a10);
    let m = a.map_at(0x1800, Ok(virt(BASE))).ok().unwrap();
    assert_eq!(m.page_range().len(), 2);
    let u = a.unmap_at(virt(m.address()), 0x1800);
    assert_eq!(u.base, BASE);
    assert_eq!(u.pages.start(), m.page_range().start());
    assert_eq!(u.pages.len(), 3);
}

#[test]
fn mmio_unmapping_aligns_down() {
    let a = MmioAlloc::new(0);
    let u = a.unmap_at(virt(BASE + 0x2abc), 0x10);
    assert_eq!(u.base, BASE + 0x2000);
    assert_eq!((u.pages.start().as_u64(), u.pages.end().as_u64()), (BASE + 0x2000, BASE + 0x2000));
}

fn ranges() -> VirtualRegionAllocator {
    VirtualRegionAllocator::new(BASE, BASE + 0x10_0000).unwrap()
}

#[test]
fn mmio_allocate_takes_a_range_and_maps_it() {
    let a = MmioAlloc::new(0xfee0_0a10);
    let mut r = ranges();
    assert!(a.fits(0x1500));
    let m = a.allocate(&mut r, 0x1500).ok().unwrap();
    assert_eq!(m.address(), BASE + 0xa10);
    assert_eq!(m.size(), 0x1500);
    assert_eq!(m.page_flags(), MMIO_FLAGS);
    assert_eq!(m.page_range().len(), 2);
    assert_eq!(m.mapping(1).map(|(p, f)| (p.as_u64(), f.as_u64())), Some((BASE + 0x1000, 0xfee0_1000)));
    // the next allocation lies behind the pages of the first
    let n = a.allocate(&mut r, 1).ok().unwrap();
    assert_eq!(n.address(), BASE + 0x2a10);
}

#[test]
fn mmio_allocate_fails_when_virtual_ranges_run_out() {
    let a = MmioAlloc::new(0xfee0_0000);
    let mut r = VirtualRegionAllocator::new(BASE, BASE + 0x2000).unwrap();
    assert!(a.allocate(&mut r, 0x2001).is_err());
    assert!(a.allocate(&mut r, 0x2000).is_ok());
    assert!(a.allocate(&mut r, 1).is_err());
}

#[test]
fn mmio_allocate_and_deallocate_can_go_on_for_ever() {
    let a = MmioAlloc::new(0xfee0_0a10);
    // room for exactly one allocation of this size
    let mut r = VirtualRegionAllocator::new(BASE, BASE + 0x3000).unwrap();
    for _ in 0..1000 {
        let m = a.allocate(&mut r, 0x2100).ok().unwrap();
        assert_eq!(m.address(), BASE + 0xa10);
        assert!(a.allocate(&mut r, 1).is_err());
        assert!(MmioAlloc::can_release(&r, 0x2100, virt(m.address())));
        let u = a.deallocate(&mut r, virt(m.address()), 0x2100);
        assert_eq!(u.base, BASE);
        assert_eq!(u.pages, m.page_range());
    }
}

#[test]
fn mmio_deallocate_wants_what_was_allocated() {
    let a = MmioAlloc::new(0xfee0_0000);
    let mut r = ranges();
    let m = a.allocate(&mut r, 0x2000).ok().unwrap();
    assert!(!MmioAlloc::can_release(&r, 0x2000, virt(BASE + 0x5000)));
    assert!(!MmioAlloc::can_release(&r, 0x3000, virt(m.address())));
    assert!(MmioAlloc::can_release(&r, 0x2000, virt(m.address())));
    a.deallocate(&mut r, virt(m.address()), 0x2000);
    // given back already
    assert!(!MmioAlloc::can_release(&r, 0x2000, virt(m.address())));
}

#[test]
fn mmio_grow_and_shrink_remap() {
    let a = MmioAlloc::new(0xfee0_0000);
    let mut r = ranges();
    let m = a.allocate(&mut r, 0x1000).ok().unwrap();
    let other = a.allocate(&mut r, 0x1000).ok().unwrap();
    assert_eq!(other.address(), BASE + 0x1000);
    let (released, mapped) = a.grow(&mut r, virt(m.address()), 0x1000, 0x3000);
    assert_eq!(released.base, BASE);
    assert_eq!(released.pages.len(), 1);
    let mapped = mapped.ok().unwrap();
    // the page that was given back is too small, so new ground is broken
    assert_eq!(mapped.address(), BASE + 0x2000);
    assert_eq!(mapped.page_range().len(), 3);
    assert_eq!(mapped.mapping(0).unwrap().1.as_u64(), 0xfee0_0000);
    let (released, mapped) = a.shrink(&mut r, virt(mapped.address()), 0x3000, 0x800);
    assert_eq!(released.base, BASE + 0x2000);
    assert_eq!(released.pages.len(), 3);
    let mapped = mapped.ok().unwrap();
    // what was just given back is taken first
    assert_eq!(mapped.address(), BASE + 0x2000);
    assert_eq!(mapped.page_range().len(), 1);
}

#[test]
fn mmio_grow_fails_when_virtual_ranges_run_out() {
    let a = MmioAlloc::new(0xfee0_0000);
    let mut r = VirtualRegionAllocator::new(BASE, BASE + 0x2000).unwrap();
    let m = a.allocate(&mut r, 0x1000).ok().unwrap();
    let (released, mapped) = a.grow(&mut r, virt(m.address()), 0x1000, 0x3000);
    assert_eq!(released.base, BASE);
    assert!(mapped.is_err());
    // the old range was given back all the same
    assert_eq!(a.allocate(&mut r, 0x1000).ok().unwrap().address(), BASE);
    assert_eq!(a.allocate(&mut r, 0x1000).ok().unwrap().address(), BASE + 0x1000);
}

#[test]
fn mmio_device_must_have_frames_for_its_pages() {
    assert!(MmioAlloc::new(0xf_ffff_ffff_f000).fits(0x1000));
    assert!(!MmioAlloc::new(0xf_ffff_ffff_f000).fits(0x1001));
    assert!(!MmioAlloc::new(0x10_0000_0000_0000).fits(0));
    assert!(MmioAlloc::new(0).fits(0));
}

#[test]
fn mmio_can_map_refuses_what_cannot_be_mapped() {
    let a = MmioAlloc::new(0xfee0_0000);
    assert!(a.can_map(0x1000, virt(BASE)));
    // reaches past the end of the address space
    assert!(!a.can_map(0x2000, virt(0xffff_ffff_ffff_f000)));
    assert!(a.can_map(0x1000, virt(0xffff_ffff_ffff_f000)));
    // reaches from the lower half into the gap
    assert!(!a.can_map(0x2000, virt(0x7fff_ffff_f000)));
    assert!(a.can_map(0x1000, virt(0x7fff_ffff_f000)));
    // would hand out a null pointer
    assert!(!a.can_map(0x1000, virt(0)));
    assert!(MmioAlloc::new(0xfee0_0010).can_map(0x1000, virt(0)));
    // not a physical address
    assert!(!MmioAlloc::new(0x10_0000_0000_0000).can_map(0x1000, virt(BASE)));
    // the frames run past the end of physical memory
    assert!(!MmioAlloc::new(0xf_ffff_ffff_f000).can_map(0x1001, virt(BASE)));
    assert!(MmioAlloc::new(0xf_ffff_ffff_f000).can_map(0x1000, virt(BASE)));
    assert!(MmioAlloc::range_is_addressable(0, virt(BASE + 1)));
    assert!(!MmioAlloc::range_is_addressable(0, virt(0)));
    assert!(!MmioAlloc::range_is_addressable(0, virt(0xffff_8000_0000_0000)));
}

#[test]
fn flags_agree_with_x86_64() {
    assert_eq!(FLAG_PRESENT, PageTableFlags::PRESENT.bits());
    assert_eq!(FLAG_WRITABLE, PageTableFlags::WRITABLE.bits());
    assert_eq!(FLAG_NO_CACHE, PageTableFlags::NO_CACHE.bits());
    assert_eq!(FLAG_NO_EXECUTE, PageTableFlags::NO_EXECUTE.bits());
    assert_eq!(
        kernel_core::mem::frame_alloc::READ_ONLY_FLAGS,
        (PageTableFlags::PRESENT | PageTableFlags::NO_EXECUTE).bits()
    );
}
