//! Physical and virtual addresses as distinct types.
//!
//! Virtual addresses are kept in canonical form for a split 48-bit address
//! space: the kernel half has bits 48 to 63 all set, the user half all
//! clear, and bit 63 says which half an address belongs to. Both kinds are held as 64-bit words,
//! whatever the width of `usize`.
use vstd::prelude::*;

verus! {

/// Size of a page in bytes.
pub const PAGE_SIZE: usize = 4096;

/// Mask of the offset bits inside a page.
pub const PAGE_MASK: usize = 4095;

/// Number of offset bits inside a page.
pub const PAGE_SHIFT: usize = 12;

/// Entries in one page table.
pub const ENTRIES_PER_TABLE: usize = 512;

/// Lowest address of the kernel half of the virtual address space.
pub const KERNEL_VIRT_BASE: u64 = 0xFFFF_0000_0000_0000;

/// Start of physical memory.
pub const PHYS_MEM_BASE: u64 = 0x4000_0000;

/// Physical address at which the kernel is loaded.
pub const KERNEL_PHYS_BASE: u64 = 0x4008_0000;

/// Physical base of the device registers.
pub const MMIO_BASE: u64 = 0x0900_0000;

/// Largest physical address of a 48-bit address space.
pub const PHYS_ADDR_MAX: u64 = 0x0000_FFFF_FFFF_FFFF;

/// Size of the 48-bit address space.
pub const ADDR_SPACE_SIZE: u64 = 0x1_0000_0000_0000;

/// `a` rounded down to a multiple of the page size.
pub open spec fn page_floor(a: int) -> int {
    a - a % (PAGE_SIZE as int)
}

/// `a` rounded up to a multiple of the page size.
pub open spec fn page_ceil(a: int) -> int {
    page_floor(a + PAGE_MASK)
}

/// `a` in canonical form: its low 48 bits, with bits 48 to 63 all set when
/// bit 63 of `a` is set and all clear otherwise.
pub open spec fn canonical(a: u64) -> u64 {
    let low = a as int % (ADDR_SPACE_SIZE as int);
    if a < 0x8000_0000_0000_0000 {
        low as u64
    } else {
        (low + KERNEL_VIRT_BASE) as u64
    }
}

/// Bytes that one entry of a page table at `level` (0 the root, 3 the last) covers.
pub open spec fn level_span(level: int) -> int {
    if level == 0 {
        0x80_0000_0000
    } else if level == 1 {
        0x4000_0000
    } else if level == 2 {
        0x20_0000
    } else {
        0x1000
    }
}

/// Index into the page table of `level` for address `a`.
pub open spec fn table_index(a: u64, level: int) -> int {
    (a as int / level_span(level)) % (ENTRIES_PER_TABLE as int)
}

proof fn lemma_page_bits(a: u64)
    ensures
        a & 4095 == a % 4096,
        a & !4095u64 == a - a % 4096,
        a >> 12 == a / 4096,
{
    assert(a & 4095 == a % 4096) by (bit_vector);
    assert(a & !4095u64 == a - a % 4096) by (bit_vector);
    assert(a >> 12 == a / 4096) by (bit_vector);
}

/// A physical memory address; it cannot be dereferenced.
#[derive(Clone, Copy, PartialEq, Eq, PartialOrd, Ord, Hash, Debug, Structural)]
pub struct PhysAddr(pub(crate) u64);

impl PhysAddr {
    /// The numeric value of this address.
    pub open(crate) spec fn spec_addr(self) -> u64 {
        self.0
    }

    /// The address `addr`, which must fit in 48 bits.
    pub fn new(addr: usize) -> (r: PhysAddr)
        requires
            addr <= PHYS_ADDR_MAX,
        ensures
            r.spec_addr() == addr,
    {
        PhysAddr(addr as u64)
    }

    /// The address `addr`, unchecked.
    pub fn new_unchecked(addr: usize) -> (r: PhysAddr)
        ensures
            r.spec_addr() == addr,
    {
        PhysAddr(addr as u64)
    }

    /// The numeric value of this address as a machine word.
    pub fn as_usize(self) -> (r: usize)
        ensures
            r == self.spec_addr() as usize,
    {
        self.0 as usize
    }

    /// The numeric value of this address as a 64-bit word.
    pub fn as_u64(self) -> (r: u64)
        ensures
            r == self.spec_addr(),
    {
        self.0
    }

    /// Whether the address lies on a page boundary.
    pub fn is_aligned(self) -> (r: bool)
        ensures
            r == (self.spec_addr() % PAGE_SIZE as u64 == 0),
    {
        proof {
            lemma_page_bits(self.0);
        }
        self.0 & 4095 == 0
    }

    /// The page boundary at or below this address.
    pub fn align_down(self) -> (r: PhysAddr)
        ensures
            r.spec_addr() == page_floor(self.spec_addr() as int),
    {
        proof {
            lemma_page_bits(self.0);
        }
        PhysAddr(self.0 & !4095u64)
    }

    /// The page boundary at or above this address.
    pub fn align_up(self) -> (r: PhysAddr)
        requires
            self.spec_addr() + PAGE_MASK <= u64::MAX,
        ensures
            r.spec_addr() == page_ceil(self.spec_addr() as int),
    {
        let a = self.0 + 4095;
        proof {
            lemma_page_bits(a);
        }
        PhysAddr(a & !4095u64)
    }

    /// The number of the page that holds this address.
    pub fn page_frame_number(self) -> (r: usize)
        ensures
            r == (self.spec_addr() / PAGE_SIZE as u64) as usize,
    {
        proof {
            lemma_page_bits(self.0);
        }
        (self.0 >> 12) as usize
    }

    /// The first address of page number `pfn`.
    pub fn from_page_frame_number(pfn: usize) -> (r: PhysAddr)
        requires
            pfn * PAGE_SIZE <= u64::MAX,
        ensures
            r.spec_addr() == pfn * PAGE_SIZE,
    {
        let p = pfn as u64;
        assert(p << 12 == p * 4096) by (bit_vector)
            requires
                p * 4096 <= u64::MAX,
        ;
        PhysAddr(p << 12)
    }

    /// This address moved forward by `offset` bytes.
    pub fn add(self, offset: usize) -> (r: PhysAddr)
        requires
            self.spec_addr() + offset <= u64::MAX,
        ensures
            r.spec_addr() == self.spec_addr() + offset,
    {
        PhysAddr(self.0 + offset as u64)
    }
}

/// A virtual memory address in canonical form.
#[derive(Clone, Copy, PartialEq, Eq, PartialOrd, Ord, Hash, Debug, Structural)]
pub struct VirtAddr(pub(crate) u64);

impl VirtAddr {
    /// The numeric value of this address.
    pub open(crate) spec fn spec_addr(self) -> u64 {
        self.0
    }

    /// The address `addr` brought into canonical form.
    pub fn new(addr: usize) -> (r: VirtAddr)
        ensures
            r.spec_addr() == canonical(addr as u64),
    {
        VirtAddr(Self::make_canonical(addr as u64))
    }

    /// The address `addr` as it is, canonical or not.
    pub fn new_unchecked(addr: usize) -> (r: VirtAddr)
        ensures
            r.spec_addr() == addr,
    {
        VirtAddr(addr as u64)
    }

    /// Extend bit 63 of `addr` over bits 48 to 62.
    pub(crate) fn make_canonical(addr: u64) -> (r: u64)
        ensures
            r == canonical(addr),
    {
        let top = addr >> 63;
        assert((addr >> 63 == 1) == (addr >= 0x8000_0000_0000_0000)) by (bit_vector);
        if top == 1 {
            assert(addr | 0xFFFF_0000_0000_0000 == addr % 0x1_0000_0000_0000 + 0xFFFF_0000_0000_0000)
                by (bit_vector);
            addr | 0xFFFF_0000_0000_0000
        } else {
            assert(addr & 0x0000_FFFF_FFFF_FFFF == addr % 0x1_0000_0000_0000) by (bit_vector);
            addr & 0x0000_FFFF_FFFF_FFFF
        }
    }

    /// The numeric value of this address as a machine word.
    pub fn as_usize(self) -> (r: usize)
        ensures
            r == self.spec_addr() as usize,
    {
        self.0 as usize
    }

    /// The numeric value of this address as a 64-bit word.
    pub fn as_u64(self) -> (r: u64)
        ensures
            r == self.spec_addr(),
    {
        self.0
    }

    /// Whether the address lies on a page boundary.
    pub fn is_aligned(self) -> (r: bool)
        ensures
            r == (self.spec_addr() % PAGE_SIZE as u64 == 0),
    {
        proof {
            lemma_page_bits(self.0);
        }
        self.0 & 4095 == 0
    }

    /// The page boundary at or below this address, in canonical form.
    pub fn align_down(self) -> (r: VirtAddr)
        ensures
            r.spec_addr() == canonical(page_floor(self.spec_addr() as int) as u64),
    {
        proof {
            lemma_page_bits(self.0);
        }
        VirtAddr(Self::make_canonical(self.0 & !4095u64))
    }

    /// The page boundary at or above this address, in canonical form.
    pub fn align_up(self) -> (r: VirtAddr)
        requires
            self.spec_addr() + PAGE_MASK <= u64::MAX,
        ensures
            r.spec_addr() == canonical(page_ceil(self.spec_addr() as int) as u64),
    {
        let a = self.0 + 4095;
        proof {
            lemma_page_bits(a);
        }
        VirtAddr(Self::make_canonical(a & !4095u64))
    }

    /// The indices into the four levels of page tables for this address,
    /// root level first.
    pub fn page_table_indices(self) -> (r: (usize, usize, usize, usize))
        ensures
            r.0 == table_index(self.spec_addr(), 0),
            r.1 == table_index(self.spec_addr(), 1),
            r.2 == table_index(self.spec_addr(), 2),
            r.3 == table_index(self.spec_addr(), 3),
    {
        let addr = self.0;
        let l0 = (addr >> 39) & 0x1FF;
        let l1 = (addr >> 30) & 0x1FF;
        let l2 = (addr >> 21) & 0x1FF;
        let l3 = (addr >> 12) & 0x1FF;
        assert((addr >> 39) & 0x1FF == (addr / 0x80_0000_0000) % 512) by (bit_vector);
        assert((addr >> 30) & 0x1FF == (addr / 0x4000_0000) % 512) by (bit_vector);
        assert((addr >> 21) & 0x1FF == (addr / 0x20_0000) % 512) by (bit_vector);
        assert((addr >> 12) & 0x1FF == (addr / 0x1000) % 512) by (bit_vector);
        (l0 as usize, l1 as usize, l2 as usize, l3 as usize)
    }

    /// The offset of this address inside its page.
    pub fn page_offset(self) -> (r: usize)
        ensures
            r == self.spec_addr() % PAGE_SIZE as u64,
    {
        proof {
            lemma_page_bits(self.0);
        }
        (self.0 & 4095) as usize
    }

    /// This address moved forward by `offset` bytes, wrapping around the
    /// 64-bit word and brought into canonical form.
    pub fn add(self, offset: usize) -> (r: VirtAddr)
        ensures
            r.spec_addr() == canonical(((self.spec_addr() + offset) % 0x1_0000_0000_0000_0000) as u64),
    {
        VirtAddr(Self::make_canonical(self.0.wrapping_add(offset as u64)))
    }

    /// Whether the address lies in the kernel half.
    pub fn is_kernel(self) -> (r: bool)
        ensures
            r == (self.spec_addr() >= KERNEL_VIRT_BASE),
    {
        self.0 >= KERNEL_VIRT_BASE
    }

    /// Whether the address lies in the user half.
    pub fn is_user(self) -> (r: bool)
        ensures
            r == (self.spec_addr() < KERNEL_VIRT_BASE),
    {
        self.0 < KERNEL_VIRT_BASE
    }
}

/// The physical address behind a kernel virtual address of the direct map.
pub fn kernel_virt_to_phys(virt: VirtAddr) -> (r: PhysAddr)
    requires
        virt.spec_addr() >= KERNEL_VIRT_BASE,
    ensures
        r.spec_addr() == virt.spec_addr() - KERNEL_VIRT_BASE + PHYS_MEM_BASE,
{
    PhysAddr(virt.as_u64() - KERNEL_VIRT_BASE + PHYS_MEM_BASE)
}

/// The kernel virtual address of the direct map that shows a physical address.
pub fn phys_to_kernel_virt(phys: PhysAddr) -> (r: VirtAddr)
    requires
        PHYS_MEM_BASE <= phys.spec_addr() <= PHYS_MEM_BASE + (u64::MAX - KERNEL_VIRT_BASE),
    ensures
        r.spec_addr() == canonical((phys.spec_addr() - PHYS_MEM_BASE + KERNEL_VIRT_BASE) as u64),
{
    VirtAddr(VirtAddr::make_canonical(phys.as_u64() - PHYS_MEM_BASE + KERNEL_VIRT_BASE))
}

} // verus!
