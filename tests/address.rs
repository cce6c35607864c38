use pantheros::address::{
    kernel_virt_to_phys, phys_to_kernel_virt, PhysAddr, VirtAddr, KERNEL_VIRT_BASE,
};

#[test]
fn test_canonical_address() {
    let user = VirtAddr::new(0x0000_0001_0000_0000);
    assert!(user.is_user());

    let kernel = VirtAddr::new(0xFFFF_0000_4008_0000);
    assert!(kernel.is_kernel());
}

#[test]
fn test_page_alignment() {
    let addr = PhysAddr::new(0x4008_1234);
    assert!(!addr.is_aligned());
    assert_eq!(addr.align_down().as_usize(), 0x4008_1000);
    assert_eq!(addr.align_up().as_usize(), 0x4008_2000);
}

#[test]
fn canonical_form_follows_bit_63() {
    assert_eq!(VirtAddr::new(0x0000_8000_0000_0000).as_u64(), 0x0000_8000_0000_0000);
    assert_eq!(VirtAddr::new(0x8000_1234_5678_9000).as_u64(), 0xFFFF_1234_5678_9000);
    assert_eq!(VirtAddr::new(0x1234_7FFF_FFFF_F000).as_u64(), 0x0000_7FFF_FFFF_F000);
    assert_eq!(VirtAddr::new(0xFFFF_0000_4008_0000).as_u64(), 0xFFFF_0000_4008_0000);
}

#[test]
fn page_table_indices_split_the_address() {
    let v = VirtAddr::new(0xFFFF_0000_4008_1234);
    assert_eq!(v.page_table_indices(), (0, 1, 0, 0x81));
    assert_eq!(v.page_offset(), 0x234);
    let w = VirtAddr::new(0x0000_0080_4020_3000);
    assert_eq!(w.page_table_indices(), (1, 1, 1, 3));
}

#[test]
fn aligned_addresses_stay_put() {
    let a = PhysAddr::new(0x4008_2000);
    assert!(a.is_aligned());
    assert_eq!(a.align_down().as_u64(), 0x4008_2000);
    assert_eq!(a.align_up().as_u64(), 0x4008_2000);
    let v = VirtAddr::new(0x1000);
    assert!(v.is_aligned());
    assert_eq!(VirtAddr::new(0x1001).align_up().as_u64(), 0x2000);
    assert_eq!(VirtAddr::new(0x1fff).align_down().as_u64(), 0x1000);
}

#[test]
fn page_frame_numbers_round_trip() {
    let a = PhysAddr::new(0x4008_1234);
    assert_eq!(a.page_frame_number(), 0x40081);
    assert_eq!(PhysAddr::from_page_frame_number(0x40081).as_u64(), 0x4008_1000);
    assert_eq!(a.add(0x10).as_u64(), 0x4008_1244);
}

#[test]
fn virtual_add_wraps_and_canonicalizes() {
    let v = VirtAddr::new(0x0000_FFFF_FFFF_FFFF);
    assert_eq!(v.add(1).as_u64(), 0);
    let k = VirtAddr::new(0xFFFF_0000_4008_0000);
    assert_eq!(k.add(0x1000).as_u64(), 0xFFFF_0000_4008_1000);
    let top = VirtAddr::new_unchecked(usize::MAX);
    assert_eq!(top.add(2).as_u64(), 1);
}

#[test]
fn kernel_direct_map_conversions() {
    let v = VirtAddr::new(0xFFFF_0000_0000_1000);
    assert_eq!(kernel_virt_to_phys(v).as_u64(), 0x4000_1000);
    let p = PhysAddr::new(0x4000_2000);
    assert_eq!(phys_to_kernel_virt(p).as_u64(), KERNEL_VIRT_BASE + 0x2000);
    assert!(phys_to_kernel_virt(p).is_kernel());
}
