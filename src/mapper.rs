//! The kernel's boot-time translation tables and checks on kernel mappings.
//!
//! The kernel is mapped into the upper half of the address space at
//! `KERNEL_VIRT_BASE` plus its physical address, and the console registers
//! at `KERNEL_VIRT_BASE` plus their physical address.
use crate::address::{PhysAddr, VirtAddr, KERNEL_PHYS_BASE, KERNEL_VIRT_BASE, MMIO_BASE, PHYS_ADDR_MAX};
use crate::paging::{
    MappingError, PageFlags, PageTable, PageTableEntry, ADDR_MASK, KERNEL_CODE, KERNEL_DATA, KERNEL_DEVICE, TABLE_ENTRY,
};
use vstd::prelude::*;

verus! {

/// Number of kernel pages mapped at boot.
pub const KERNEL_BOOT_PAGES: usize = 512;

/// Number of leading kernel pages mapped as code; the rest are data.
pub const KERNEL_CODE_PAGES: usize = 64;

/// Index in the second-level table under which the console page table is hung.
pub const MMIO_L2_INDEX: usize = 4;

/// The root translation table of the kernel half.
pub struct KernelPageTable {
    /// The root level.
    pub l0: PageTable,
}

/// The lower-level tables used for the boot mapping.
pub struct BootPageTables {
    /// Second level.
    pub l1: PageTable,
    /// Third level.
    pub l2: PageTable,
    /// Last level for the kernel image.
    pub l3_kernel: PageTable,
    /// Last level for the console registers.
    pub l3_mmio: PageTable,
}

impl KernelPageTable {
    /// A root table with no entries.
    pub fn new() -> (r: KernelPageTable)
        ensures
            r.l0@.len() == 512,
            forall|i: int| 0 <= i < 512 ==> (#[trigger] r.l0@[i]).spec_bits() == 0,
    {
        KernelPageTable { l0: PageTable::new() }
    }
}

impl BootPageTables {
    /// Boot tables with no entries.
    pub fn new() -> (r: BootPageTables)
        ensures
            r.l1@.len() == 512 && r.l2@.len() == 512 && r.l3_kernel@.len() == 512 && r.l3_mmio@.len() == 512,
    {
        BootPageTables {
            l1: PageTable::new(),
            l2: PageTable::new(),
            l3_kernel: PageTable::new(),
            l3_mmio: PageTable::new(),
        }
    }
}

/// A descriptor that points to the next-level table at `phys`.
pub open spec fn table_bits(phys: u64) -> u64 {
    (phys & ADDR_MASK) | TABLE_ENTRY
}

/// The descriptor of kernel page `i` of the boot mapping.
pub open spec fn kernel_page_bits(i: int) -> u64 {
    ((KERNEL_PHYS_BASE + i * 0x1000) as u64 & ADDR_MASK) | (if i < KERNEL_CODE_PAGES {
        KERNEL_CODE
    } else {
        KERNEL_DATA
    })
}

/// A table address that can be written into a descriptor.
pub open spec fn table_addr_ok(p: PhysAddr) -> bool {
    p.spec_addr() % 4096 == 0 && p.spec_addr() <= PHYS_ADDR_MAX
}

/// Write `e` at `index` of `t`.
fn set_entry(t: &mut PageTable, index: usize, e: PageTableEntry)
    requires
        index < 512,
    ensures
        final(t)@ == old(t)@.update(index as int, e),
{
    t.entries[index] = e;
}

/// Fill the boot tables: the kernel image, 512 pages from its load address of
/// which the first 64 are code, and the console page.
///
/// The `*_phys` arguments are the physical addresses of the tables in `boot`.
pub fn init_kernel_page_tables(
    root: &mut KernelPageTable,
    boot: &mut BootPageTables,
    l1_phys: PhysAddr,
    l2_phys: PhysAddr,
    l3_kernel_phys: PhysAddr,
    l3_mmio_phys: PhysAddr,
)
    requires
        table_addr_ok(l1_phys),
        table_addr_ok(l2_phys),
        table_addr_ok(l3_kernel_phys),
        table_addr_ok(l3_mmio_phys),
    ensures
        final(root).l0@ == old(root).l0@.update(0, final(root).l0@[0]),
        final(root).l0@[0].spec_bits() == table_bits(l1_phys.spec_addr()),
        final(boot).l1@ == old(boot).l1@.update(1, final(boot).l1@[1]).update(0, final(boot).l1@[0]),
        final(boot).l1@[1].spec_bits() == table_bits(l2_phys.spec_addr()),
        final(boot).l1@[0].spec_bits() == table_bits(l2_phys.spec_addr()),
        final(boot).l2@ == old(boot).l2@.update(0, final(boot).l2@[0]).update(4, final(boot).l2@[4]),
        final(boot).l2@[0].spec_bits() == table_bits(l3_kernel_phys.spec_addr()),
        final(boot).l2@[4].spec_bits() == table_bits(l3_mmio_phys.spec_addr()),
        final(boot).l3_kernel@.len() == 512,
        forall|i: int| 0 <= i < 512 ==> (#[trigger] final(boot).l3_kernel@[i]).spec_bits() == kernel_page_bits(i),
        final(boot).l3_mmio@ == old(boot).l3_mmio@.update(0, final(boot).l3_mmio@[0]),
        final(boot).l3_mmio@[0].spec_bits() == (MMIO_BASE & ADDR_MASK) | KERNEL_DEVICE,
{
    let kernel_virt = VirtAddr(VirtAddr::make_canonical(KERNEL_VIRT_BASE + KERNEL_PHYS_BASE));
    let (l0_idx, l1_idx, l2_idx, _) = kernel_virt.page_table_indices();
    assert(l0_idx == 0 && l1_idx == 1 && l2_idx == 0);

    set_entry(&mut root.l0, l0_idx, PageTableEntry::table(l1_phys));
    set_entry(&mut boot.l1, l1_idx, PageTableEntry::table(l2_phys));
    set_entry(&mut boot.l2, l2_idx, PageTableEntry::table(l3_kernel_phys));
    let ghost l1_mid = boot.l1@;
    let ghost l2_mid = boot.l2@;

    let mut i: usize = 0;
    while i < KERNEL_BOOT_PAGES
        invariant
            i <= KERNEL_BOOT_PAGES,
            boot.l3_kernel@.len() == 512,
            boot.l1@ == l1_mid,
            boot.l2@ == l2_mid,
            boot.l3_mmio@ == old(boot).l3_mmio@,
            forall|j: int| 0 <= j < i ==> (#[trigger] boot.l3_kernel@[j]).spec_bits() == kernel_page_bits(j),
        decreases KERNEL_BOOT_PAGES - i,
    {
        let phys = PhysAddr::new(0x4008_0000 + i * 0x1000);
        let flags = if i < KERNEL_CODE_PAGES {
            PageFlags::from_bits_unchecked(KERNEL_CODE)
        } else {
            PageFlags::from_bits_unchecked(KERNEL_DATA)
        };
        assert((0x4008_0000 + i * 0x1000) % 4096 == 0);
        set_entry(&mut boot.l3_kernel, i, PageTableEntry::page(phys, flags));
        i = i + 1;
    }

    let mmio_virt = VirtAddr(VirtAddr::make_canonical(KERNEL_VIRT_BASE + MMIO_BASE));
    let (_, mmio_l1_idx, _, _) = mmio_virt.page_table_indices();
    assert(mmio_l1_idx == 0);
    if mmio_l1_idx != l1_idx {
        set_entry(&mut boot.l1, mmio_l1_idx, PageTableEntry::table(l2_phys));
    }
    assert(boot.l1@ =~= old(boot).l1@.update(1, boot.l1@[1]).update(0, boot.l1@[0]));
    assert(boot.l1@[1] == l1_mid[1]);
    set_entry(&mut boot.l2, MMIO_L2_INDEX, PageTableEntry::table(l3_mmio_phys));
    set_entry(
        &mut boot.l3_mmio,
        0,
        PageTableEntry::page(PhysAddr::new(0x0900_0000), PageFlags::from_bits_unchecked(KERNEL_DEVICE)),
    );
}

/// What `map_kernel_page` reports: the virtual address must lie in the
/// kernel half, and both addresses must be page-aligned.
pub open spec fn map_check(virt: VirtAddr, phys: PhysAddr) -> Result<(), MappingError> {
    if virt.spec_addr() < KERNEL_VIRT_BASE {
        Err(MappingError::InvalidPermissions)
    } else if virt.spec_addr() % 4096 != 0 || phys.spec_addr() % 4096 != 0 {
        Err(MappingError::MisalignedAddress)
    } else {
        Ok(())
    }
}

/// Check a request to map one kernel page; only the boot mapping exists, so
/// an accepted request changes nothing.
pub fn map_kernel_page(virt: VirtAddr, phys: PhysAddr, flags: PageFlags) -> (r: Result<(), MappingError>)
    ensures
        r == map_check(virt, phys),
{
    if !virt.is_kernel() {
        return Err(MappingError::InvalidPermissions);
    }
    if !virt.is_aligned() || !phys.is_aligned() {
        return Err(MappingError::MisalignedAddress);
    }
    let _ = flags;
    Ok(())
}

/// Check a request to unmap one kernel page: the address must lie in the
/// kernel half.
pub fn unmap_kernel_page(virt: VirtAddr) -> (r: Result<(), MappingError>)
    ensures
        r is Ok <==> virt.spec_addr() >= KERNEL_VIRT_BASE,
        r is Err ==> r->Err_0 == MappingError::InvalidPermissions,
{
    if !virt.is_kernel() {
        return Err(MappingError::InvalidPermissions);
    }
    Ok(())
}

} // verus!
