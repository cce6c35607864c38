use pantheros::address::{PhysAddr, VirtAddr};
use pantheros::frame::{FrameAllocator, FrameError, FRAME_START, MAX_FRAMES};
use pantheros::mapper::{
    init_kernel_page_tables, map_kernel_page, unmap_kernel_page, BootPageTables, KernelPageTable,
};
use pantheros::memory::{heap_size, MemoryRegion};
use pantheros::paging::{
    MappingError, PageFlags, PageTable, PageTableEntry, KERNEL_CODE, KERNEL_DATA, KERNEL_DEVICE, TABLE_ENTRY,
    USER_DATA,
};

#[test]
fn page_entry_keeps_address_and_flags() {
    let p = PhysAddr::new(0x4008_3000);
    let e = PageTableEntry::page(p, PageFlags::from_bits_unchecked(KERNEL_DATA));
    assert_eq!(e.addr().as_u64(), 0x4008_3000);
    assert_eq!(e.flags().bits(), KERNEL_DATA);
    assert!(e.is_valid());
    assert!(e.is_table());
    assert_eq!(e.as_u64(), 0x4008_3000 | KERNEL_DATA);
}

#[test]
fn table_entry_points_to_next_level() {
    let e = PageTableEntry::table(PhysAddr::new(0x4100_0000));
    assert_eq!(e.as_u64(), 0x4100_0000 | TABLE_ENTRY);
    assert!(e.is_table());
    let mut e = e;
    e.clear();
    assert!(!e.is_valid());
    assert_eq!(PageTableEntry::invalid().as_u64(), 0);
}

#[test]
fn page_flags_queries() {
    let code = PageFlags::from_bits_unchecked(KERNEL_CODE);
    assert!(code.is_valid());
    assert!(code.is_page());
    assert!(!code.is_table());
    let table = PageFlags::from_bits_unchecked(TABLE_ENTRY);
    assert!(table.is_table());
    assert!(!PageFlags::empty().is_valid());
    assert_eq!(PageFlags::empty().bits(), 0);
    let u = PageFlags::from_bits_unchecked(USER_DATA);
    assert!(u.union(code).contains(code));
    assert!(!code.contains(u));
}

#[test]
fn page_table_get_set_and_clear() {
    let mut t = PageTable::new();
    assert!(t.get(512).is_none());
    assert_eq!(t.get(3).unwrap().as_u64(), 0);
    *t.get_mut(3).unwrap() = PageTableEntry::table(PhysAddr::new(0x4000_0000));
    *t.get_mut(511).unwrap() = PageTableEntry::page(PhysAddr::new(0x5000), PageFlags::from_bits_unchecked(KERNEL_DATA));
    assert!(t.get_mut(600).is_none());
    assert!(t.get(3).unwrap().is_valid());
    assert_eq!(t.iter().len(), 512);
    let valid = t.iter_valid();
    assert_eq!(valid.len(), 2);
    assert_eq!(valid[0].0, 3);
    assert_eq!(valid[1].0, 511);
    t.clear();
    assert!(t.iter_valid().is_empty());
    assert!(PageTable::default().iter_valid().is_empty());
}

#[test]
fn boot_tables_map_kernel_and_console() {
    let mut root = KernelPageTable::new();
    let mut boot = BootPageTables::new();
    init_kernel_page_tables(
        &mut root,
        &mut boot,
        PhysAddr::new(0x4100_0000),
        PhysAddr::new(0x4100_1000),
        PhysAddr::new(0x4100_2000),
        PhysAddr::new(0x4100_3000),
    );
    assert_eq!(root.l0.get(0).unwrap().addr().as_u64(), 0x4100_0000);
    assert_eq!(boot.l1.get(1).unwrap().addr().as_u64(), 0x4100_1000);
    assert_eq!(boot.l1.get(0).unwrap().addr().as_u64(), 0x4100_1000);
    assert_eq!(boot.l2.get(0).unwrap().addr().as_u64(), 0x4100_2000);
    assert_eq!(boot.l2.get(4).unwrap().addr().as_u64(), 0x4100_3000);
    let first = *boot.l3_kernel.get(0).unwrap();
    assert_eq!(first.as_u64(), 0x4008_0000 | KERNEL_CODE);
    assert_eq!(boot.l3_kernel.get(64).unwrap().as_u64(), 0x400C_0000 | KERNEL_DATA);
    assert_eq!(boot.l3_kernel.get(511).unwrap().addr().as_u64(), 0x4027_F000);
    assert_eq!(boot.l3_mmio.get(0).unwrap().as_u64(), 0x0900_0000 | KERNEL_DEVICE);
    assert_eq!(boot.l3_mmio.iter_valid().len(), 1);
}

#[test]
fn kernel_mapping_checks() {
    let kv = VirtAddr::new(0xFFFF_0000_4010_0000);
    assert_eq!(map_kernel_page(kv, PhysAddr::new(0x4010_0000), PageFlags::from_bits_unchecked(KERNEL_DATA)), Ok(()));
    assert_eq!(
        map_kernel_page(VirtAddr::new(0x4010_0000), PhysAddr::new(0x4010_0000), PageFlags::empty()),
        Err(MappingError::InvalidPermissions)
    );
    assert_eq!(
        map_kernel_page(VirtAddr::new(0xFFFF_0000_4010_0010), PhysAddr::new(0x4010_0000), PageFlags::empty()),
        Err(MappingError::MisalignedAddress)
    );
    assert_eq!(
        map_kernel_page(kv, PhysAddr::new(0x4010_0001), PageFlags::empty()),
        Err(MappingError::MisalignedAddress)
    );
    assert_eq!(unmap_kernel_page(kv), Ok(()));
    assert_eq!(unmap_kernel_page(VirtAddr::new(0x1000)), Err(MappingError::InvalidPermissions));
}

#[test]
fn frames_are_handed_out_lowest_first() {
    let mut fa = FrameAllocator::new();
    assert!(fa.allocate().is_none());
    assert_eq!(fa.init(PhysAddr::new(0x4020_2000), PhysAddr::new(0x4020_6000)), Ok(()));
    assert_eq!(fa.free_frames(), 4);
    assert_eq!(fa.allocate().unwrap().as_u64(), FRAME_START + 0x2000);
    assert_eq!(fa.allocate().unwrap().as_u64(), FRAME_START + 0x3000);
    assert_eq!(fa.free_frames(), 2);
    assert_eq!(fa.free(PhysAddr::new(0x4020_2000)), Ok(()));
    assert_eq!(fa.free_frames(), 3);
    assert_eq!(fa.allocate().unwrap().as_u64(), FRAME_START + 0x2000);
}

#[test]
fn frame_count_bounds_allocation() {
    let mut fa = FrameAllocator::new();
    fa.init(PhysAddr::new(0x4020_0000), PhysAddr::new(0x4020_2000)).unwrap();
    assert!(fa.allocate().is_some());
    assert!(fa.allocate().is_some());
    assert!(fa.allocate().is_none());
    assert_eq!(fa.free_frames(), 0);
}

#[test]
fn bad_frees_are_reported() {
    let mut fa = FrameAllocator::new();
    assert_eq!(fa.free(PhysAddr::new(0x4020_0001)), Ok(()));
    fa.init(PhysAddr::new(0x4020_0000), PhysAddr::new(0x4820_0000)).unwrap();
    assert_eq!(fa.free_frames(), MAX_FRAMES);
    assert_eq!(fa.free(PhysAddr::new(0x4020_0001)), Err(FrameError::Unaligned));
    assert_eq!(fa.free(PhysAddr::new(0x1000)), Err(FrameError::OutOfRange));
    assert_eq!(fa.free(PhysAddr::new(0x4820_0000)), Err(FrameError::OutOfRange));
    assert_eq!(fa.free(PhysAddr::new(0x4020_0000)), Err(FrameError::DoubleFree));
}

#[test]
fn init_refuses_empty_range_and_runs_once() {
    let mut fa = FrameAllocator::new();
    assert_eq!(fa.init(PhysAddr::new(0x4030_0000), PhysAddr::new(0x4030_0000)), Err(FrameError::InvalidRange));
    assert_eq!(fa.init(PhysAddr::new(0x4020_0000), PhysAddr::new(0x4020_1000)), Ok(()));
    assert_eq!(fa.init(PhysAddr::new(0x4020_0000), PhysAddr::new(0x4030_0000)), Ok(()));
    assert_eq!(fa.free_frames(), 1);
}

#[test]
fn memory_region_size_and_heap() {
    let r = MemoryRegion { start: PhysAddr::new(0x4020_0000), end: PhysAddr::new(0x4800_0000), name: "ram" };
    assert_eq!(r.size(), 0x07E0_0000);
    assert_eq!(heap_size(), 64 * 1024);
}

#[test]
fn mapping_error_messages() {
    assert_eq!(MappingError::OutOfMemory.message(), "out of memory for page tables");
    assert_eq!(MappingError::MisalignedAddress.message(), "address not properly aligned");
}
