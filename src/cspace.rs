//! The capability space of a process: a fixed table of capability slots.
//!
//! Every slot is either empty (its entry has the null kind) or holds one
//! capability. Each operation either writes exactly one slot or leaves the
//! whole table as it was.
use crate::capability::{CapabilityType, Rights, GRANT_BIT};
use vstd::prelude::*;

verus! {

/// Number of slots in a capability space.
pub const CSPACE_SIZE: usize = 64;

/// Reserved slot that always stays null.
pub const NULL_SLOT: u32 = 0;

/// Reserved slot for the reply capability.
pub const REPLY_SLOT: u32 = 1;

/// Reserved slot for the caller capability.
pub const CALLER_SLOT: u32 = 2;

/// First slot that user code may fill.
pub const FIRST_USER_SLOT: u32 = 3;

/// A slot index that is known to lie inside the table.
#[derive(Clone, Copy, PartialEq, Eq, Debug, Structural)]
pub struct CapSlot(pub(crate) u32);

impl CapSlot {
    #[verifier::type_invariant]
    pub(crate) closed spec fn in_range(self) -> bool {
        self.0 < CSPACE_SIZE
    }

    /// The index that this slot names.
    pub open(crate) spec fn spec_index(self) -> int {
        self.0 as int
    }

    /// The slot with this index, or nothing if the index is outside the table.
    pub fn new(index: u32) -> (r: Option<CapSlot>)
        ensures
            r is Some <==> index < CSPACE_SIZE,
            r is Some ==> r->Some_0.spec_index() == index,
    {
        if (index as usize) < CSPACE_SIZE {
            Some(CapSlot(index))
        } else {
            None
        }
    }

    /// The slot with this index; the caller vouches that it lies inside the table.
    pub fn new_unchecked(index: u32) -> (r: CapSlot)
        requires
            index < CSPACE_SIZE,
        ensures
            r.spec_index() == index,
    {
        CapSlot(index)
    }

    /// The index that this slot names.
    pub fn index(self) -> (r: usize)
        ensures
            r == self.spec_index(),
            r < CSPACE_SIZE,
    {
        proof {
            use_type_invariant(&self);
        }
        self.0 as usize
    }
}

/// Errors of the capability-space operations.
#[derive(Clone, Copy, PartialEq, Eq, Debug, Structural)]
pub enum CSpaceError {
    /// The slot index lies outside the table.
    InvalidSlot,
    /// The slot already holds a capability.
    SlotOccupied,
    /// The slot holds no capability.
    SlotEmpty,
    /// The capability lacks a right that the operation needs.
    InsufficientRights,
    /// The capability is of another kind than expected.
    TypeMismatch,
}

/// The text that describes each error.
pub open spec fn cspace_error_text(e: CSpaceError) -> Seq<char> {
    match e {
        CSpaceError::InvalidSlot => "invalid slot index"@,
        CSpaceError::SlotOccupied => "slot already occupied"@,
        CSpaceError::SlotEmpty => "slot is empty"@,
        CSpaceError::InsufficientRights => "insufficient rights"@,
        CSpaceError::TypeMismatch => "capability type mismatch"@,
    }
}

impl CSpaceError {
    /// A short description of the error.
    pub fn message(&self) -> (r: &'static str)
        ensures
            r@ == cspace_error_text(*self),
    {
        match self {
            CSpaceError::InvalidSlot => "invalid slot index",
            CSpaceError::SlotOccupied => "slot already occupied",
            CSpaceError::SlotEmpty => "slot is empty",
            CSpaceError::InsufficientRights => "insufficient rights",
            CSpaceError::TypeMismatch => "capability type mismatch",
        }
    }
}

/// A capability of any kind, as stored in a table slot.
#[derive(Clone, Copy, PartialEq, Eq, Debug, Structural)]
pub struct RawCapability {
    /// Kind of the referenced object; `Null` marks an empty slot.
    pub cap_type: CapabilityType,
    /// Opaque handle of the referenced object.
    pub object_ptr: usize,
    /// Rights that this capability permits.
    pub rights: Rights,
    /// Identifier chosen when the capability was minted or derived.
    pub badge: u64,
    /// Revocation epoch, copied on every derivation.
    pub generation: u32,
}

/// The entry of an empty slot.
pub open spec fn null_entry() -> RawCapability {
    RawCapability {
        cap_type: CapabilityType::Null,
        object_ptr: 0,
        rights: Rights::from_mask(0),
        badge: 0,
        generation: 0,
    }
}

/// Whether this entry marks an empty slot.
pub open spec fn is_empty_entry(c: RawCapability) -> bool {
    c.cap_type == CapabilityType::Null
}

/// The entry that derivation writes: kind, object and generation of `src`,
/// with the requested rights and badge.
pub open spec fn derived_entry(src: RawCapability, new_rights: Rights, new_badge: u64) -> RawCapability {
    RawCapability { rights: new_rights, badge: new_badge, ..src }
}

/// What `lookup` gives on a table.
pub open spec fn lookup_result(slots: Seq<RawCapability>, i: int) -> Result<RawCapability, CSpaceError> {
    if is_empty_entry(slots[i]) {
        Err(CSpaceError::SlotEmpty)
    } else {
        Ok(slots[i])
    }
}

/// What `lookup_typed` gives on a table.
pub open spec fn lookup_typed_result(
    slots: Seq<RawCapability>,
    i: int,
    expected: CapabilityType,
) -> Result<RawCapability, CSpaceError> {
    if is_empty_entry(slots[i]) {
        Err(CSpaceError::SlotEmpty)
    } else if slots[i].cap_type != expected {
        Err(CSpaceError::TypeMismatch)
    } else {
        Ok(slots[i])
    }
}

/// What `insert` reports on a table.
pub open spec fn insert_result(slots: Seq<RawCapability>, i: int) -> Result<(), CSpaceError> {
    if is_empty_entry(slots[i]) {
        Ok(())
    } else {
        Err(CSpaceError::SlotOccupied)
    }
}

/// The table after `insert`: only an empty slot is written.
pub open spec fn after_insert(slots: Seq<RawCapability>, i: int, cap: RawCapability) -> Seq<RawCapability> {
    if is_empty_entry(slots[i]) {
        slots.update(i, cap)
    } else {
        slots
    }
}

/// What `check_rights` reports on a table.
pub open spec fn check_rights_result(slots: Seq<RawCapability>, i: int, required: Rights) -> Result<(), CSpaceError> {
    if is_empty_entry(slots[i]) {
        Err(CSpaceError::SlotEmpty)
    } else if slots[i].rights.has(required) {
        Ok(())
    } else {
        Err(CSpaceError::InsufficientRights)
    }
}

/// What `derive` reports on a table, checking in order: the source is
/// occupied, it holds the grant right, the new rights are a subset of its
/// rights, and the destination is empty.
pub open spec fn derive_result(
    slots: Seq<RawCapability>,
    src: int,
    dst: int,
    new_rights: Rights,
) -> Result<(), CSpaceError> {
    if is_empty_entry(slots[src]) {
        Err(CSpaceError::SlotEmpty)
    } else if !slots[src].rights.has_bits(GRANT_BIT) {
        Err(CSpaceError::InsufficientRights)
    } else if !slots[src].rights.has(new_rights) {
        Err(CSpaceError::InsufficientRights)
    } else if !is_empty_entry(slots[dst]) {
        Err(CSpaceError::SlotOccupied)
    } else {
        Ok(())
    }
}

impl RawCapability {
    /// The entry of an empty slot.
    pub fn null() -> (r: RawCapability)
        ensures
            r == null_entry(),
    {
        RawCapability {
            cap_type: CapabilityType::Null,
            object_ptr: 0,
            rights: Rights(0),
            badge: 0,
            generation: 0,
        }
    }

    /// Whether this entry marks an empty slot.
    pub fn is_null(&self) -> (r: bool)
        ensures
            r == is_empty_entry(*self),
    {
        matches!(self.cap_type, CapabilityType::Null)
    }

    /// Whether this entry holds a capability.
    pub fn is_valid(&self) -> (r: bool)
        ensures
            r == !is_empty_entry(*self),
    {
        !self.is_null()
    }
}

impl Default for RawCapability {
    fn default() -> (r: RawCapability)
        ensures
            r == null_entry(),
    {
        RawCapability::null()
    }
}

/// The capability table of one process.
#[derive(Debug)]
pub struct CSpace {
    pub(crate) slots: [RawCapability; CSPACE_SIZE],
}

impl View for CSpace {
    type V = Seq<RawCapability>;

    closed spec fn view(&self) -> Seq<RawCapability> {
        self.slots@
    }
}

impl CSpace {
    /// A table whose slots are all empty.
    pub fn new() -> (r: CSpace)
        ensures
            r@.len() == CSPACE_SIZE,
            forall|i: int| 0 <= i < CSPACE_SIZE ==> #[trigger] r@[i] == null_entry(),
    {
        let null = RawCapability::null();
        CSpace { slots: [null; CSPACE_SIZE] }
    }

    /// The capability in `slot`, or `SlotEmpty`.
    pub fn lookup(&self, slot: CapSlot) -> (r: Result<&RawCapability, CSpaceError>)
        ensures
            (match r {
                Ok(c) => lookup_result(self@, slot.spec_index()) == Ok::<RawCapability, CSpaceError>(*c),
                Err(e) => lookup_result(self@, slot.spec_index()) == Err::<RawCapability, CSpaceError>(e),
            }),
    {
        let i = slot.index();
        let cap = &self.slots[i];
        if cap.is_null() {
            Err(CSpaceError::SlotEmpty)
        } else {
            Ok(cap)
        }
    }

    /// The capability in `slot` if it is of kind `expected_type`.
    pub fn lookup_typed(&self, slot: CapSlot, expected_type: CapabilityType) -> (r: Result<&RawCapability, CSpaceError>)
        ensures
            (match r {
                Ok(c) => lookup_typed_result(self@, slot.spec_index(), expected_type)
                    == Ok::<RawCapability, CSpaceError>(*c),
                Err(e) => lookup_typed_result(self@, slot.spec_index(), expected_type)
                    == Err::<RawCapability, CSpaceError>(e),
            }),
    {
        let cap = self.lookup(slot)?;
        if cap.cap_type != expected_type {
            return Err(CSpaceError::TypeMismatch);
        }
        Ok(cap)
    }

    /// Put `cap` into `slot` if the slot is empty; an occupied slot is left as it was.
    pub fn insert(&mut self, slot: CapSlot, cap: RawCapability) -> (r: Result<(), CSpaceError>)
        ensures
            r == insert_result(old(self)@, slot.spec_index()),
            final(self)@ == after_insert(old(self)@, slot.spec_index(), cap),
    {
        let i = slot.index();
        if !self.slots[i].is_null() {
            return Err(CSpaceError::SlotOccupied);
        }
        self.slots[i] = cap;
        Ok(())
    }

    /// Overwrite `slot` with `cap` and hand back what it held before.
    pub fn replace(&mut self, slot: CapSlot, cap: RawCapability) -> (r: RawCapability)
        ensures
            r == old(self)@[slot.spec_index()],
            final(self)@ == old(self)@.update(slot.spec_index(), cap),
    {
        let i = slot.index();
        let prev = self.slots[i];
        self.slots[i] = cap;
        prev
    }

    /// Empty `slot` and hand back the capability that it held, or `SlotEmpty`.
    pub fn delete(&mut self, slot: CapSlot) -> (r: Result<RawCapability, CSpaceError>)
        ensures
            r == lookup_result(old(self)@, slot.spec_index()),
            r is Ok ==> final(self)@ == old(self)@.update(slot.spec_index(), null_entry()),
            r is Err ==> final(self)@ == old(self)@,
    {
        let i = slot.index();
        if self.slots[i].is_null() {
            return Err(CSpaceError::SlotEmpty);
        }
        let prev = self.slots[i];
        self.slots[i] = RawCapability::null();
        Ok(prev)
    }

    /// The lowest empty slot at or after `start_from`, or nothing if every such slot is occupied.
    pub fn find_free(&self, start_from: CapSlot) -> (r: Option<CapSlot>)
        ensures
            (match r {
                Some(s) => {
                    &&& start_from.spec_index() <= s.spec_index() < CSPACE_SIZE
                    &&& is_empty_entry(self@[s.spec_index()])
                    &&& forall|j: int|
                        start_from.spec_index() <= j < s.spec_index() ==> !is_empty_entry(#[trigger] self@[j])
                },
                None => forall|j: int|
                    start_from.spec_index() <= j < CSPACE_SIZE ==> !is_empty_entry(#[trigger] self@[j]),
            }),
    {
        let mut i: usize = start_from.index();
        while i < CSPACE_SIZE
            invariant
                start_from.spec_index() <= i <= CSPACE_SIZE,
                forall|j: int| start_from.spec_index() <= j < i ==> !is_empty_entry(#[trigger] self@[j]),
            decreases CSPACE_SIZE - i,
        {
            if self.slots[i].is_null() {
                return Some(CapSlot(i as u32));
            }
            i = i + 1;
        }
        None
    }

    /// Write into `dst_slot` a copy of the capability in `src_slot` with
    /// `new_rights` and `new_badge`.
    ///
    /// The source must be occupied and hold the grant right, `new_rights`
    /// must be a subset of its rights, and the destination must be empty;
    /// otherwise neither slot changes.
    pub fn derive(&mut self, src_slot: CapSlot, dst_slot: CapSlot, new_rights: Rights, new_badge: u64) -> (r:
        Result<(), CSpaceError>)
        ensures
            r == derive_result(old(self)@, src_slot.spec_index(), dst_slot.spec_index(), new_rights),
            r is Ok ==> final(self)@ == old(self)@.update(
                dst_slot.spec_index(),
                derived_entry(old(self)@[src_slot.spec_index()], new_rights, new_badge),
            ),
            r is Err ==> final(self)@ == old(self)@,
    {
        let src = *self.lookup(src_slot)?;
        if !src.rights.contains(Rights(GRANT_BIT)) {
            return Err(CSpaceError::InsufficientRights);
        }
        if !src.rights.contains(new_rights) {
            return Err(CSpaceError::InsufficientRights);
        }
        let d = dst_slot.index();
        if !self.slots[d].is_null() {
            return Err(CSpaceError::SlotOccupied);
        }
        let derived = RawCapability {
            cap_type: src.cap_type,
            object_ptr: src.object_ptr,
            rights: new_rights,
            badge: new_badge,
            generation: src.generation,
        };
        self.slots[d] = derived;
        Ok(())
    }

    /// `Ok` if `slot` holds a capability with every right of `required`.
    pub fn check_rights(&self, slot: CapSlot, required: Rights) -> (r: Result<(), CSpaceError>)
        ensures
            r == check_rights_result(self@, slot.spec_index(), required),
    {
        let cap = self.lookup(slot)?;
        if cap.rights.contains(required) {
            Ok(())
        } else {
            Err(CSpaceError::InsufficientRights)
        }
    }
}

impl Default for CSpace {
    fn default() -> (r: CSpace)
        ensures
            r@.len() == CSPACE_SIZE,
            forall|i: int| 0 <= i < CSPACE_SIZE ==> #[trigger] r@[i] == null_entry(),
    {
        CSpace::new()
    }
}

/// Inserting a capability into an empty slot and then looking the slot up
/// gives back that capability with every field unchanged.
pub proof fn lemma_insert_then_lookup(slots: Seq<RawCapability>, i: int, cap: RawCapability)
    requires
        0 <= i < slots.len(),
        is_empty_entry(slots[i]),
        !is_empty_entry(cap),
    ensures
        insert_result(slots, i) is Ok,
        lookup_result(after_insert(slots, i, cap), i) == Ok::<RawCapability, CSpaceError>(cap),
{
}

/// On an empty slot, looking up (typed or not), checking rights and
/// deleting all report `SlotEmpty`; deleting then leaves the table as it was.
pub proof fn lemma_empty_slot_errors(slots: Seq<RawCapability>, i: int, expected: CapabilityType, required: Rights)
    requires
        0 <= i < slots.len(),
        is_empty_entry(slots[i]),
    ensures
        lookup_result(slots, i) == Err::<RawCapability, CSpaceError>(CSpaceError::SlotEmpty),
        lookup_typed_result(slots, i, expected) == Err::<RawCapability, CSpaceError>(CSpaceError::SlotEmpty),
        check_rights_result(slots, i, required) == Err::<(), CSpaceError>(CSpaceError::SlotEmpty),
{
}

/// Inserting into an occupied slot reports `SlotOccupied` and leaves the table unchanged.
pub proof fn lemma_insert_occupied(slots: Seq<RawCapability>, i: int, cap: RawCapability)
    requires
        0 <= i < slots.len(),
        !is_empty_entry(slots[i]),
    ensures
        insert_result(slots, i) == Err::<(), CSpaceError>(CSpaceError::SlotOccupied),
        after_insert(slots, i, cap) == slots,
{
}

/// A successful derivation writes an entry whose rights are exactly the
/// requested ones and a subset of the source's, for the same object.
pub proof fn lemma_derive_never_escalates(slots: Seq<RawCapability>, src: int, dst: int, new_rights: Rights, badge: u64)
    requires
        derive_result(slots, src, dst, new_rights) is Ok,
    ensures
        slots[src].rights.has_bits(GRANT_BIT),
        slots[src].rights.has(derived_entry(slots[src], new_rights, badge).rights),
        derived_entry(slots[src], new_rights, badge).rights == new_rights,
        derived_entry(slots[src], new_rights, badge).object_ptr == slots[src].object_ptr,
        derived_entry(slots[src], new_rights, badge).cap_type == slots[src].cap_type,
        derived_entry(slots[src], new_rights, badge).generation == slots[src].generation,
{
}

} // verus!
