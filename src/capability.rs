//! Capability values and the rights they carry.
//!
//! A capability names one kernel object and the operations permitted on it.
//! Rights can only shrink: a capability holding the grant right may derive a
//! copy of itself with a subset of its rights, and nothing else ever adds a
//! right to an existing capability.
use core::marker::PhantomData;
use vstd::prelude::*;

verus! {

/// Set of operations that a capability permits, as a bitmask over five rights.
#[derive(Clone, Copy, PartialEq, Eq, Debug, Structural)]
pub struct Rights(pub(crate) u32);

/// Bit of the read right.
pub const READ_BIT: u32 = 1;

/// Bit of the write right.
pub const WRITE_BIT: u32 = 2;

/// Bit of the execute right.
pub const EXECUTE_BIT: u32 = 4;

/// Bit of the grant right, which allows deriving new capabilities.
pub const GRANT_BIT: u32 = 8;

/// Bit of the revoke right.
pub const REVOKE_BIT: u32 = 16;

/// The five valid right bits together.
pub const RIGHTS_MASK: u32 = 0x1f;

impl Rights {
    /// The bitmask that this value holds.
    pub open(crate) spec fn mask(self) -> u32 {
        self.0
    }

    /// The rights whose bitmask is `m`.
    pub open(crate) spec fn from_mask(m: u32) -> Rights {
        Rights(m)
    }

    /// Every bit of `bits` is set in this mask.
    pub open spec fn has_bits(self, bits: u32) -> bool {
        self.mask() & bits == bits
    }

    /// Every right of `other` is also a right of `self`.
    pub open spec fn has(self, other: Rights) -> bool {
        self.has_bits(other.mask())
    }

    /// Build a set of rights from raw bits; bits outside the five rights are masked off.
    pub fn from_bits(bits: u32) -> (r: Rights)
        ensures
            r.mask() == bits & RIGHTS_MASK,
    {
        Rights(bits & RIGHTS_MASK)
    }

    /// The raw bitmask.
    pub fn bits(self) -> (r: u32)
        ensures
            r == self.mask(),
    {
        self.0
    }

    /// Whether these rights include all of `other`.
    pub fn contains(self, other: Rights) -> (r: bool)
        ensures
            r == self.has(other),
    {
        self.0 & other.0 == other.0
    }

    /// The rights held by either set.
    pub fn union(self, other: Rights) -> (r: Rights)
        ensures
            r.mask() == self.mask() | other.mask(),
    {
        Rights(self.0 | other.0)
    }

    /// The rights held by both sets.
    pub fn intersect(self, other: Rights) -> (r: Rights)
        ensures
            r.mask() == self.mask() & other.mask(),
    {
        Rights(self.0 & other.0)
    }

    /// These rights without any of `other`.
    pub fn remove(self, other: Rights) -> (r: Rights)
        ensures
            r.mask() == self.mask() & !other.mask(),
    {
        Rights(self.0 & !other.0)
    }

    /// Whether no right is held.
    pub fn is_empty(self) -> (r: bool)
        ensures
            r == (self.mask() == 0),
    {
        self.0 == 0
    }
}

/// The kinds of kernel object that a capability can refer to.
#[derive(Clone, Copy, PartialEq, Eq, Debug, Structural)]
pub enum CapabilityType {
    /// No capability.
    Null,
    /// Endpoint for message passing.
    Endpoint,
    /// Notification object.
    Notification,
    /// One-shot reply capability.
    Reply,
    /// Capability-space node.
    CNode,
    /// Thread control block.
    Thread,
    /// Virtual address space.
    VSpace,
    /// Physical memory frame.
    Frame,
    /// Page table.
    PageTable,
    /// Interrupt handler.
    IRQ,
    /// Untyped memory.
    Untyped,
}

/// Marker for endpoint objects.
#[derive(Debug)]
pub struct Endpoint;

/// Marker for notification objects.
#[derive(Debug)]
pub struct Notification;

/// Marker for physical frames.
#[derive(Debug)]
pub struct Frame;

/// Marker for thread control blocks.
#[derive(Debug)]
pub struct Thread;

/// Marker for address spaces.
#[derive(Debug)]
pub struct VSpace;

/// An unforgeable handle on a kernel object of kind `T`.
///
/// Only the kernel itself can mint a capability from nothing (`new` is
/// crate-private); everyone else obtains one by deriving from a capability
/// already held.
#[derive(Debug)]
pub struct Capability<T> {
    pub(crate) cap_type: CapabilityType,
    pub(crate) object_ptr: usize,
    pub(crate) rights: Rights,
    pub(crate) badge: u64,
    pub(crate) generation: u32,
    pub(crate) _phantom: PhantomData<T>,
}

impl<T> Capability<T> {
    /// Kind of the referenced object.
    pub open(crate) spec fn spec_cap_type(&self) -> CapabilityType {
        self.cap_type
    }

    /// Opaque handle of the referenced object.
    pub open(crate) spec fn spec_object(&self) -> usize {
        self.object_ptr
    }

    /// Rights carried by this capability.
    pub open(crate) spec fn spec_rights(&self) -> Rights {
        self.rights
    }

    /// Badge carried by this capability.
    pub open(crate) spec fn spec_badge(&self) -> u64 {
        self.badge
    }

    /// Revocation epoch carried by this capability.
    pub open(crate) spec fn spec_generation(&self) -> u32 {
        self.generation
    }

    /// The capability that `derive(new_rights, new_badge)` yields, if any:
    /// one exists only when the grant right is held and `new_rights` is a
    /// subset of the current rights; it keeps kind, object and generation.
    pub open spec fn derived(&self, new_rights: Rights, new_badge: u64) -> Option<Capability<T>> {
        if self.spec_rights().has_bits(GRANT_BIT) && self.spec_rights().has(new_rights) {
            Some(Capability::<T>::with_parts(
                self.spec_cap_type(),
                self.spec_object(),
                new_rights,
                new_badge,
                self.spec_generation(),
            ))
        } else {
            None
        }
    }

    /// Every field holds its zero value: the null kind, no object, no rights.
    pub open spec fn is_null_value(&self) -> bool {
        &&& self.spec_cap_type() == CapabilityType::Null
        &&& self.spec_object() == 0
        &&& self.spec_rights().mask() == 0
        &&& self.spec_badge() == 0
        &&& self.spec_generation() == 0
    }

    /// The capability whose fields are the given values.
    pub open(crate) spec fn with_parts(
        cap_type: CapabilityType,
        object: usize,
        rights: Rights,
        badge: u64,
        generation: u32,
    ) -> Capability<T> {
        Capability { cap_type, object_ptr: object, rights, badge, generation, _phantom: PhantomData }
    }

    /// The null capability: no object and no rights.
    pub fn null() -> (r: Capability<T>)
        ensures
            r.is_null_value(),
    {
        Capability {
            cap_type: CapabilityType::Null,
            object_ptr: 0,
            rights: Rights(0),
            badge: 0,
            generation: 0,
            _phantom: PhantomData,
        }
    }

    /// Mint a capability for an object; only the kernel may call this.
    pub(crate) fn new(
        cap_type: CapabilityType,
        object: usize,
        rights: Rights,
        badge: u64,
        generation: u32,
    ) -> (r: Capability<T>)
        ensures
            r == Capability::<T>::with_parts(cap_type, object, rights, badge, generation),
    {
        Capability { cap_type, object_ptr: object, rights, badge, generation, _phantom: PhantomData }
    }

    /// Whether this is the null capability.
    pub fn is_null(&self) -> (r: bool)
        ensures
            r == (self.spec_cap_type() == CapabilityType::Null),
    {
        matches!(self.cap_type, CapabilityType::Null)
    }

    /// Whether this capability refers to an object.
    pub fn is_valid(&self) -> (r: bool)
        ensures
            r == (self.spec_cap_type() != CapabilityType::Null),
    {
        !self.is_null()
    }

    /// Kind of the referenced object.
    pub fn cap_type(&self) -> (r: CapabilityType)
        ensures
            r == self.spec_cap_type(),
    {
        self.cap_type
    }

    /// Rights carried by this capability.
    pub fn rights(&self) -> (r: Rights)
        ensures
            r == self.spec_rights(),
    {
        self.rights
    }

    /// Badge carried by this capability.
    pub fn badge(&self) -> (r: u64)
        ensures
            r == self.spec_badge(),
    {
        self.badge
    }

    /// Revocation epoch carried by this capability.
    pub fn generation(&self) -> (r: u32)
        ensures
            r == self.spec_generation(),
    {
        self.generation
    }

    /// Whether this capability holds every right of `required`.
    pub fn has_rights(&self, required: Rights) -> (r: bool)
        ensures
            r == self.spec_rights().has(required),
    {
        self.rights.contains(required)
    }

    /// Derive a capability for the same object with `new_rights` and `new_badge`.
    ///
    /// Nothing comes back unless this capability holds the grant right and
    /// `new_rights` is a subset of its rights.
    pub fn derive(&self, new_rights: Rights, new_badge: u64) -> (r: Option<Capability<T>>)
        ensures
            r == self.derived(new_rights, new_badge),
    {
        if !self.has_rights(Rights(GRANT_BIT)) {
            return None;
        }
        if !self.rights.contains(new_rights) {
            return None;
        }
        Some(Capability {
            cap_type: self.cap_type,
            object_ptr: self.object_ptr,
            rights: new_rights,
            badge: new_badge,
            generation: self.generation,
            _phantom: PhantomData,
        })
    }
}

impl<T> Clone for Capability<T> {
    fn clone(&self) -> (r: Capability<T>)
        ensures
            r == *self,
    {
        Capability {
            cap_type: self.cap_type,
            object_ptr: self.object_ptr,
            rights: self.rights,
            badge: self.badge,
            generation: self.generation,
            _phantom: PhantomData,
        }
    }
}

impl<T> Copy for Capability<T> {

}

impl<T> Default for Capability<T> {
    fn default() -> (r: Capability<T>)
        ensures
            r.is_null_value(),
    {
        Capability::null()
    }
}

/// A capability holding the grant right derives, for every subset `r` of its
/// rights, a capability whose rights are exactly `r` and therefore no more
/// than its own.
pub proof fn lemma_derive_monotone<T>(c: Capability<T>, r: Rights, badge: u64)
    requires
        c.spec_rights().has_bits(GRANT_BIT),
        c.spec_rights().has(r),
    ensures
        c.derived(r, badge) is Some,
        c.derived(r, badge)->Some_0.spec_rights() == r,
        c.spec_rights().has(c.derived(r, badge)->Some_0.spec_rights()),
{
}

/// Without the grant right nothing can be derived, whatever rights are asked for.
pub proof fn lemma_derive_needs_grant<T>(c: Capability<T>, r: Rights, badge: u64)
    requires
        !c.spec_rights().has_bits(GRANT_BIT),
    ensures
        c.derived(r, badge) is None,
{
}

/// Asking for a right that the capability does not hold derives nothing,
/// even when the grant right is held.
pub proof fn lemma_derive_needs_subset<T>(c: Capability<T>, r: Rights, badge: u64)
    requires
        !c.spec_rights().has(r),
    ensures
        c.derived(r, badge) is None,
{
}

} // verus!
