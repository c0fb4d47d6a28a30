use kernel_core::mem::addr::PhysAddr;
use kernel_core::mem::frame_alloc::BootInfoFrameAllocator;
use kernel_core::mem::frame_alloc::MemoryRegion;
use kernel_core::mem::frame_alloc::MemoryRegionKind;
use kernel_core::mem::frame_alloc::VeryUnsafeFrameAllocator;
use kernel_core::mem::frame_alloc::READ_ONLY_FLAGS;

fn region(start: u64, end: u64, kind: MemoryRegionKind) -> MemoryRegion {
    MemoryRegion { start, end, kind }
}

fn sample_map() -> Vec<MemoryRegion> {
    vec![
        region(0x0, 0x1000, MemoryRegionKind::Bootloader),
        region(0x1000, 0x3000, MemoryRegionKind::Usable),
        region(0x3000, 0x8000, MemoryRegionKind::UnknownBios(2)),
        region(0x9000, 0x9000, MemoryRegionKind::Usable),
        region(0x10_0800, 0x10_2000, MemoryRegionKind::Usable),
        region(0x20_0000, 0x30_0000, MemoryRegionKind::UnknownUefi(9)),
    ]
}

#[test]
fn boot_allocator_hands_out_usable_frames_in_order() {
    let mut a = BootInfoFrameAllocator::init(sample_map());
    let got: Vec<u64> = (0..4).map(|_| a.allocate_frame().unwrap().as_u64()).collect();
    assert_eq!(got, vec![0x1000, 0x2000, 0x10_0000, 0x10_1000]);
    assert!(a.allocate_frame().is_none());
    assert!(a.allocate_frame().is_none());
}

#[test]
fn boot_allocator_nth_frame() {
    let a = BootInfoFrameAllocator::init(sample_map());
    assert_eq!(a.usable_frame(0).map(|f| f.as_u64()), Some(0x1000));
    assert_eq!(a.usable_frame(3).map(|f| f.as_u64()), Some(0x10_1000));
    assert_eq!(a.usable_frame(4).map(|f| f.as_u64()), None);
    assert_eq!(a.usable_frame(usize::MAX).map(|f| f.as_u64()), None);
}

#[test]
fn boot_allocator_with_nothing_usable() {
    let mut a = BootInfoFrameAllocator::init(vec![region(0, 0x10_0000, MemoryRegionKind::Bootloader)]);
    assert!(a.allocate_frame().is_none());
    let mut b = BootInfoFrameAllocator::init(vec![]);
    assert!(b.allocate_frame().is_none());
}

#[test]
fn frames_of_a_region() {
    assert_eq!(BootInfoFrameAllocator::frames_in(&region(0x1000, 0x3000, MemoryRegionKind::Usable)), 2);
    assert_eq!(BootInfoFrameAllocator::frames_in(&region(0x1000, 0x3001, MemoryRegionKind::Usable)), 3);
    assert_eq!(BootInfoFrameAllocator::frames_in(&region(0x1800, 0x1801, MemoryRegionKind::Usable)), 1);
    assert_eq!(BootInfoFrameAllocator::frames_in(&region(0x3000, 0x1000, MemoryRegionKind::Usable)), 0);
    assert_eq!(BootInfoFrameAllocator::frames_in(&region(0x1000, 0x3000, MemoryRegionKind::Bootloader)), 0);
}

#[test]
fn memory_map_must_lie_in_physical_memory() {
    assert!(BootInfoFrameAllocator::is_valid_map(&sample_map()));
    assert!(BootInfoFrameAllocator::is_valid_map(&vec![region(0, 0x10_0000_0000_0000, MemoryRegionKind::Usable)]));
    assert!(!BootInfoFrameAllocator::is_valid_map(&vec![region(0, 0x10_0000_0000_0001, MemoryRegionKind::Usable)]));
    assert!(BootInfoFrameAllocator::is_valid_map(&vec![region(0, u64::MAX, MemoryRegionKind::Bootloader)]));
}

#[test]
fn unsafe_allocator_counts_frames_from_its_address() {
    let mut a = VeryUnsafeFrameAllocator::new();
    assert!(!a.has_geom());
    assert!(!a.is_ready());
    assert_eq!(a.get_advance(), 0);
    a.set_geom(PhysAddr::try_new(0x8_0123).unwrap(), 2);
    assert!(a.has_geom());
    assert!(a.is_ready());
    assert_eq!(a.get_advance(), 2);
    assert_eq!(a.allocate_frame().unwrap().as_u64(), 0x8_2000);
    assert_eq!(a.allocate_frame().unwrap().as_u64(), 0x8_3000);
    assert_eq!(a.get_advance(), 4);
}

#[test]
fn unsafe_allocator_stops_at_the_end_of_physical_memory() {
    let mut a = VeryUnsafeFrameAllocator::new();
    a.set_geom(PhysAddr::try_new(0xf_ffff_ffff_e000).unwrap(), 1);
    assert!(a.is_ready());
    assert_eq!(a.allocate_frame().unwrap().as_u64(), 0xf_ffff_ffff_f000);
    assert!(!a.is_ready());
}

#[test]
fn first_unused_entry_from_255_on() {
    let mut unused = [false; 512];
    assert!(VeryUnsafeFrameAllocator::find_unused_high_half(&unused).is_none());
    unused[3] = true;
    unused[254] = true;
    assert!(VeryUnsafeFrameAllocator::find_unused_high_half(&unused).is_none());
    unused[300] = true;
    unused[400] = true;
    assert_eq!(
        VeryUnsafeFrameAllocator::find_unused_high_half(&unused).unwrap().as_u64(),
        0xffff_0000_0000_0000 + (300u64 << 39)
    );
    unused[255] = true;
    assert_eq!(VeryUnsafeFrameAllocator::find_unused_high_half(&unused).unwrap().as_u64(), 255u64 << 39);
    assert!(VeryUnsafeFrameAllocator::find_unused_high_half(&unused[..200]).is_none());
}

#[test]
fn advance_maps_read_only_and_forgets_the_address() {
    let mut unused = [false; 512];
    unused[256] = true;
    let mut a = VeryUnsafeFrameAllocator::new();
    a.set_geom(PhysAddr::try_new(0x7000).unwrap(), 0);
    let m = a.advance(PhysAddr::try_new(0x7abc).unwrap(), &unused).unwrap();
    assert_eq!(m.page.as_u64(), 0xffff_8000_0000_0000);
    assert_eq!(m.frame.as_u64(), 0x7000);
    assert_eq!(m.flags, READ_ONLY_FLAGS);
    assert_eq!(m.flags, 0x8000_0000_0000_0001);
    // frames for page tables come from the address until the mapping is made
    assert!(a.has_geom());
    assert_eq!(a.allocate_frame().unwrap().as_u64(), 0x7000);
    assert_eq!(a.complete_advance(&m).as_u64(), 0xffff_8000_0000_0000);
    assert!(!a.has_geom());
    assert_eq!(a.get_advance(), 1);
    a.set_geom(PhysAddr::try_new(0x9000).unwrap(), 5);
    assert!(a.advance(PhysAddr::try_new(0x9000).unwrap(), &[false; 512]).is_none());
    assert!(a.has_geom());
    assert_eq!(a.get_advance(), 5);
}

#[test]
fn get_frame_sets_the_address_and_asks_for_the_mapping() {
    let mut unused = [false; 512];
    unused[257] = true;
    let mut a = VeryUnsafeFrameAllocator::new();
    let m = a.get_frame(PhysAddr::try_new(0x5_4321).unwrap(), &unused).unwrap();
    assert_eq!(m.page.as_u64(), 0xffff_8080_0000_0000);
    assert_eq!(m.frame.as_u64(), 0x5_4000);
    assert_eq!(m.flags, READ_ONLY_FLAGS);
    assert!(a.has_geom());
    assert_eq!(a.get_advance(), 0);
    assert_eq!(a.allocate_frame().unwrap().as_u64(), 0x5_4000);
}
