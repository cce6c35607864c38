//! Page table entries and tables of the four-level translation scheme.
//!
//! An entry is a 64-bit descriptor: bits 0 and 1 give its kind, bits 12 to
//! 47 the physical address it points to, and the remaining bits its
//! attributes.
use crate::address::PhysAddr;
use vstd::prelude::*;

verus! {

/// Descriptor of an absent entry.
pub const FLAG_INVALID: u64 = 0;

/// Block descriptor, which maps a large page.
pub const FLAG_BLOCK: u64 = 0b01;

/// Table descriptor, which points to the next level.
pub const FLAG_TABLE: u64 = 0b11;

/// Page descriptor of the last level.
pub const FLAG_PAGE: u64 = 0b11;

/// Attribute index of normal memory.
pub const FLAG_ATTR_NORMAL: u64 = 0;

/// Attribute index of device memory.
pub const FLAG_ATTR_DEVICE: u64 = 4;

/// Attribute index of non-cacheable memory.
pub const FLAG_ATTR_NC: u64 = 8;

/// Non-secure bit.
pub const FLAG_NS: u64 = 0x20;

/// Read/write for the kernel, no access for user code.
pub const FLAG_AP_RW_EL1: u64 = 0;

/// Read/write for kernel and user code.
pub const FLAG_AP_RW_ALL: u64 = 0x40;

/// Read-only for the kernel, no access for user code.
pub const FLAG_AP_RO_EL1: u64 = 0x80;

/// Read-only for kernel and user code.
pub const FLAG_AP_RO_ALL: u64 = 0xC0;

/// Non-shareable.
pub const FLAG_SH_NON: u64 = 0;

/// Outer shareable.
pub const FLAG_SH_OUTER: u64 = 0x200;

/// Inner shareable.
pub const FLAG_SH_INNER: u64 = 0x300;

/// Access flag.
pub const FLAG_AF: u64 = 0x400;

/// Not global: the entry is tagged with an address-space identifier.
pub const FLAG_NG: u64 = 0x800;

/// Contiguous hint.
pub const FLAG_CONTIGUOUS: u64 = 0x10_0000_0000_0000;

/// No execution by the kernel.
pub const FLAG_PXN: u64 = 0x20_0000_0000_0000;

/// No execution by user code.
pub const FLAG_UXN: u64 = 0x40_0000_0000_0000;

/// Software bit 0.
pub const FLAG_SW0: u64 = 0x80_0000_0000_0000;

/// Software bit 1.
pub const FLAG_SW1: u64 = 0x100_0000_0000_0000;

/// Software bit 2.
pub const FLAG_SW2: u64 = 0x200_0000_0000_0000;

/// Software bit 3.
pub const FLAG_SW3: u64 = 0x400_0000_0000_0000;

/// Kernel code: read-only, executable by the kernel only.
pub const KERNEL_CODE: u64 = FLAG_PAGE | FLAG_AF | FLAG_SH_INNER | FLAG_ATTR_NORMAL | FLAG_AP_RO_EL1 | FLAG_UXN;

/// Kernel data: read/write, not executable.
pub const KERNEL_DATA: u64 = FLAG_PAGE | FLAG_AF | FLAG_SH_INNER | FLAG_ATTR_NORMAL | FLAG_AP_RW_EL1 | FLAG_PXN
    | FLAG_UXN;

/// Kernel read-only data: not executable.
pub const KERNEL_RODATA: u64 = FLAG_PAGE | FLAG_AF | FLAG_SH_INNER | FLAG_ATTR_NORMAL | FLAG_AP_RO_EL1 | FLAG_PXN
    | FLAG_UXN;

/// Device registers: uncached, not executable.
pub const KERNEL_DEVICE: u64 = FLAG_PAGE | FLAG_AF | FLAG_ATTR_DEVICE | FLAG_AP_RW_EL1 | FLAG_PXN | FLAG_UXN;

/// User code: read-only, executable by user code.
pub const USER_CODE: u64 = FLAG_PAGE | FLAG_AF | FLAG_SH_INNER | FLAG_ATTR_NORMAL | FLAG_AP_RO_ALL | FLAG_PXN
    | FLAG_NG;

/// User data: read/write for user code, not executable.
pub const USER_DATA: u64 = FLAG_PAGE | FLAG_AF | FLAG_SH_INNER | FLAG_ATTR_NORMAL | FLAG_AP_RW_ALL | FLAG_PXN
    | FLAG_UXN | FLAG_NG;

/// An entry that points to a next-level table.
pub const TABLE_ENTRY: u64 = FLAG_TABLE | FLAG_AF;

/// Bits 12 to 47 of a descriptor: the physical address.
pub const ADDR_MASK: u64 = 0x0000_FFFF_FFFF_F000;

/// Attribute bits of a page table entry.
#[derive(Clone, Copy, PartialEq, Eq, Debug, Structural)]
pub struct PageFlags(pub(crate) u64);

impl PageFlags {
    /// The bits that these flags hold.
    pub open(crate) spec fn spec_bits(self) -> u64 {
        self.0
    }

    /// No flags: an absent entry.
    pub fn empty() -> (r: PageFlags)
        ensures
            r.spec_bits() == 0,
    {
        PageFlags(0)
    }

    /// The raw bits.
    pub fn bits(self) -> (r: u64)
        ensures
            r == self.spec_bits(),
    {
        self.0
    }

    /// Flags with exactly these bits; the caller vouches that they form a
    /// sensible combination.
    pub fn from_bits_unchecked(bits: u64) -> (r: PageFlags)
        ensures
            r.spec_bits() == bits,
    {
        PageFlags(bits)
    }

    /// Whether the present bit is set.
    pub fn is_valid(self) -> (r: bool)
        ensures
            r == (self.spec_bits() & 1 != 0),
    {
        self.0 & 0b01 != 0
    }

    /// Whether these flags describe a table: both kind bits set and neither
    /// execute-never bit.
    pub fn is_table(self) -> (r: bool)
        ensures
            r == (self.spec_bits() & 3 == 3 && self.spec_bits() & (FLAG_PXN | FLAG_UXN) == 0),
    {
        self.0 & 0b11 == 0b11 && self.0 & (FLAG_PXN | FLAG_UXN) == 0
    }

    /// Whether these flags describe a page: both kind bits set.
    pub fn is_page(self) -> (r: bool)
        ensures
            r == (self.spec_bits() & 3 == 3),
    {
        self.0 & 0b11 == 0b11
    }

    /// The flags of either set.
    pub fn union(self, other: PageFlags) -> (r: PageFlags)
        ensures
            r.spec_bits() == self.spec_bits() | other.spec_bits(),
    {
        PageFlags(self.0 | other.0)
    }

    /// Whether every flag of `other` is set here.
    pub fn contains(self, other: PageFlags) -> (r: bool)
        ensures
            r == (self.spec_bits() & other.spec_bits() == other.spec_bits()),
    {
        self.0 & other.0 == other.0
    }
}

/// One 64-bit descriptor of a page table.
#[derive(Clone, Copy, PartialEq, Eq, Debug, Structural)]
pub struct PageTableEntry(pub(crate) u64);

impl PageTableEntry {
    /// The descriptor word.
    pub open(crate) spec fn spec_bits(self) -> u64 {
        self.0
    }

    /// An absent entry.
    pub fn invalid() -> (r: PageTableEntry)
        ensures
            r.spec_bits() == 0,
    {
        PageTableEntry(0)
    }

    /// An entry that points to the page-aligned next-level table at `next_table_phys`.
    pub fn table(next_table_phys: PhysAddr) -> (r: PageTableEntry)
        requires
            next_table_phys.spec_addr() % 4096 == 0,
        ensures
            r.spec_bits() == (next_table_phys.spec_addr() & ADDR_MASK) | TABLE_ENTRY,
    {
        PageTableEntry((next_table_phys.as_u64() & ADDR_MASK) | TABLE_ENTRY)
    }

    /// An entry that maps the page-aligned frame at `phys` with `flags`.
    pub fn page(phys: PhysAddr, flags: PageFlags) -> (r: PageTableEntry)
        requires
            phys.spec_addr() % 4096 == 0,
        ensures
            r.spec_bits() == (phys.spec_addr() & ADDR_MASK) | flags.spec_bits(),
    {
        PageTableEntry((phys.as_u64() & ADDR_MASK) | flags.bits())
    }

    /// Whether the present bit is set.
    pub fn is_valid(self) -> (r: bool)
        ensures
            r == (self.spec_bits() & 1 != 0),
    {
        self.0 & 0b01 != 0
    }

    /// Whether the entry is present and points to a next-level table.
    pub fn is_table(self) -> (r: bool)
        ensures
            r == (self.spec_bits() & 1 != 0 && self.spec_bits() & 2 != 0),
    {
        self.is_valid() && (self.0 & 0b10 != 0)
    }

    /// The physical address held in bits 12 to 47.
    pub fn addr(self) -> (r: PhysAddr)
        ensures
            r.spec_addr() == self.spec_bits() & ADDR_MASK,
    {
        PhysAddr(self.0 & ADDR_MASK)
    }

    /// The attribute bits: all bits outside the address.
    pub fn flags(self) -> (r: PageFlags)
        ensures
            r.spec_bits() == self.spec_bits() & !ADDR_MASK,
    {
        PageFlags(self.0 & !ADDR_MASK)
    }

    /// The descriptor word.
    pub fn as_u64(self) -> (r: u64)
        ensures
            r == self.spec_bits(),
    {
        self.0
    }

    /// Make the entry absent.
    pub fn clear(&mut self)
        ensures
            final(self).spec_bits() == 0,
    {
        self.0 = 0;
    }
}

/// A page-aligned frame and flags map back to the same frame and flags,
/// as long as the frame lies in the 48-bit space and the flags stay out of
/// the address bits.
pub proof fn lemma_page_entry_round_trip(phys: u64, flags: u64)
    requires
        phys % 4096 == 0,
        phys < 0x1_0000_0000_0000,
        flags & ADDR_MASK == 0,
    ensures
        ((phys & ADDR_MASK) | flags) & ADDR_MASK == phys,
        ((phys & ADDR_MASK) | flags) & !ADDR_MASK == flags,
{
    assert(((phys & 0x0000_FFFF_FFFF_F000) | flags) & 0x0000_FFFF_FFFF_F000 == phys) by (bit_vector)
        requires
            phys % 4096 == 0,
            phys < 0x1_0000_0000_0000,
            flags & 0x0000_FFFF_FFFF_F000 == 0,
    ;
    assert(((phys & 0x0000_FFFF_FFFF_F000) | flags) & !0x0000_FFFF_FFFF_F000u64 == flags) by (bit_vector)
        requires
            flags & 0x0000_FFFF_FFFF_F000 == 0,
    ;
}

/// The entries of a page table whose present bit is set, each with its index,
/// among the first `n`.
pub open spec fn valid_prefix(entries: Seq<PageTableEntry>, n: int) -> Seq<(usize, PageTableEntry)>
    decreases n,
{
    if n <= 0 {
        Seq::empty()
    } else if entries[n - 1].spec_bits() & 1 != 0 {
        valid_prefix(entries, n - 1).push(((n - 1) as usize, entries[n - 1]))
    } else {
        valid_prefix(entries, n - 1)
    }
}

/// One level of the translation tables: 512 entries.
pub struct PageTable {
    pub(crate) entries: [PageTableEntry; 512],
}

impl View for PageTable {
    type V = Seq<PageTableEntry>;

    open(crate) spec fn view(&self) -> Seq<PageTableEntry> {
        self.entries@
    }
}

impl PageTable {
    /// A table whose entries are all absent.
    pub fn new() -> (r: PageTable)
        ensures
            r@.len() == 512,
            forall|i: int| 0 <= i < 512 ==> (#[trigger] r@[i]).spec_bits() == 0,
    {
        PageTable { entries: [PageTableEntry(0); 512] }
    }

    /// The entry at `index`, or nothing if the index is outside the table.
    pub fn get(&self, index: usize) -> (r: Option<&PageTableEntry>)
        ensures
            r is Some <==> index < 512,
            r is Some ==> *r->Some_0 == self@[index as int],
    {
        if index < 512 {
            Some(&self.entries[index])
        } else {
            None
        }
    }

    /// The entry at `index` for writing, or nothing if the index is outside the table.
    pub fn get_mut(&mut self, index: usize) -> (r: Option<&mut PageTableEntry>)
        ensures
            r is Some <==> index < 512,
            (match r {
                Some(e) => *e == old(self)@[index as int] && final(self)@ == old(self)@.update(
                    index as int,
                    *final(e),
                ),
                None => final(self)@ == old(self)@,
            }),
    {
        if index < 512 {
            Some(&mut self.entries[index])
        } else {
            None
        }
    }

    /// All 512 entries in order.
    pub fn iter(&self) -> (r: &[PageTableEntry])
        ensures
            r@ == self@,
    {
        self.entries.as_slice()
    }

    /// The present entries, each with its index, in order of index.
    pub fn iter_valid(&self) -> (r: Vec<(usize, PageTableEntry)>)
        ensures
            r@ == valid_prefix(self@, 512),
    {
        let mut out: Vec<(usize, PageTableEntry)> = Vec::new();
        let mut i: usize = 0;
        while i < 512
            invariant
                i <= 512,
                self@.len() == 512,
                out@ == valid_prefix(self@, i as int),
            decreases 512 - i,
        {
            let e = self.entries[i];
            if e.is_valid() {
                out.push((i, e));
            }
            i = i + 1;
        }
        out
    }

    /// Make every entry absent.
    pub fn clear(&mut self)
        ensures
            final(self)@.len() == 512,
            forall|i: int| 0 <= i < 512 ==> (#[trigger] final(self)@[i]).spec_bits() == 0,
    {
        let mut i: usize = 0;
        while i < 512
            invariant
                i <= 512,
                self@.len() == 512,
                forall|j: int| 0 <= j < i ==> (#[trigger] self@[j]).spec_bits() == 0,
            decreases 512 - i,
        {
            self.entries[i].clear();
            i = i + 1;
        }
    }
}

impl Default for PageTable {
    fn default() -> (r: PageTable)
        ensures
            r@.len() == 512,
            forall|i: int| 0 <= i < 512 ==> (#[trigger] r@[i]).spec_bits() == 0,
    {
        PageTable::new()
    }
}

/// Errors of mapping and unmapping pages.
#[derive(Clone, Copy, PartialEq, Eq, Debug, Structural)]
pub enum MappingError {
    /// The virtual address is mapped already.
    AlreadyMapped,
    /// The virtual address is not mapped.
    NotMapped,
    /// No physical frame is left for a page table.
    OutOfMemory,
    /// An address is not page-aligned.
    MisalignedAddress,
    /// The permissions do not fit the address.
    InvalidPermissions,
}

/// The text that describes each error.
pub open spec fn mapping_error_text(e: MappingError) -> Seq<char> {
    match e {
        MappingError::AlreadyMapped => "virtual address already mapped"@,
        MappingError::NotMapped => "virtual address not mapped"@,
        MappingError::OutOfMemory => "out of memory for page tables"@,
        MappingError::MisalignedAddress => "address not properly aligned"@,
        MappingError::InvalidPermissions => "invalid permission combination"@,
    }
}

impl MappingError {
    /// A short description of the error.
    pub fn message(&self) -> (r: &'static str)
        ensures
            r@ == mapping_error_text(*self),
    {
        match self {
            MappingError::AlreadyMapped => "virtual address already mapped",
            MappingError::NotMapped => "virtual address not mapped",
            MappingError::OutOfMemory => "out of memory for page tables",
            MappingError::MisalignedAddress => "address not properly aligned",
            MappingError::InvalidPermissions => "invalid permission combination",
        }
    }
}

} // verus!
