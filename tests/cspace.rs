use pantheros::capability::{
    Capability, CapabilityType, Endpoint, Rights, GRANT_BIT, READ_BIT, REVOKE_BIT, WRITE_BIT,
};
use pantheros::cspace::{CSpace, CSpaceError, CapSlot, RawCapability, CSPACE_SIZE, FIRST_USER_SLOT};

fn slot(i: u32) -> CapSlot {
    CapSlot::new(i).unwrap()
}

fn endpoint(rights: u32, badge: u64) -> RawCapability {
    RawCapability {
        cap_type: CapabilityType::Endpoint,
        object_ptr: 0xdead_0000,
        rights: Rights::from_bits(rights),
        badge,
        generation: 7,
    }
}

#[test]
fn insert_then_lookup_returns_the_entry() {
    let mut cs = CSpace::new();
    let cap = endpoint(READ_BIT | WRITE_BIT | GRANT_BIT, 0);
    assert_eq!(cs.insert(slot(3), cap), Ok(()));
    assert_eq!(*cs.lookup(slot(3)).unwrap(), cap);
}

#[test]
fn derive_writes_weaker_copy() {
    let mut cs = CSpace::new();
    let cap = endpoint(READ_BIT | WRITE_BIT | GRANT_BIT, 0);
    cs.insert(slot(3), cap).unwrap();
    assert_eq!(cs.derive(slot(3), slot(4), Rights::from_bits(READ_BIT), 42), Ok(()));
    let d = *cs.lookup(slot(4)).unwrap();
    assert_eq!(d.cap_type, CapabilityType::Endpoint);
    assert_eq!(d.rights.bits(), READ_BIT);
    assert_eq!(d.badge, 42);
    assert_eq!(d.object_ptr, cap.object_ptr);
    assert_eq!(d.generation, cap.generation);
    assert_eq!(*cs.lookup(slot(3)).unwrap(), cap);
}

#[test]
fn derive_without_grant_is_refused() {
    let mut cs = CSpace::new();
    cs.insert(slot(3), endpoint(READ_BIT, 0)).unwrap();
    assert_eq!(cs.derive(slot(3), slot(4), Rights::from_bits(READ_BIT), 0), Err(CSpaceError::InsufficientRights));
    assert_eq!(cs.lookup(slot(4)).unwrap_err(), CSpaceError::SlotEmpty);
}

#[test]
fn derive_of_missing_right_is_refused() {
    let mut cs = CSpace::new();
    let cap = endpoint(READ_BIT | GRANT_BIT, 0);
    cs.insert(slot(3), cap).unwrap();
    assert_eq!(cs.derive(slot(3), slot(4), Rights::from_bits(WRITE_BIT), 0), Err(CSpaceError::InsufficientRights));
    assert_eq!(*cs.lookup(slot(3)).unwrap(), cap);
    assert!(cs.lookup(slot(4)).is_err());
}

#[test]
fn derive_into_occupied_or_from_empty_slot_fails() {
    let mut cs = CSpace::new();
    let a = endpoint(READ_BIT | GRANT_BIT, 1);
    let b = endpoint(WRITE_BIT, 2);
    cs.insert(slot(3), a).unwrap();
    cs.insert(slot(4), b).unwrap();
    assert_eq!(cs.derive(slot(3), slot(4), Rights::from_bits(READ_BIT), 9), Err(CSpaceError::SlotOccupied));
    assert_eq!(*cs.lookup(slot(4)).unwrap(), b);
    assert_eq!(cs.derive(slot(10), slot(11), Rights::from_bits(0), 0), Err(CSpaceError::SlotEmpty));
    assert_eq!(cs.derive(slot(3), slot(3), Rights::from_bits(READ_BIT), 0), Err(CSpaceError::SlotOccupied));
}

#[test]
fn derive_with_equal_rights_keeps_them() {
    let mut cs = CSpace::new();
    cs.insert(slot(3), endpoint(READ_BIT | GRANT_BIT, 0)).unwrap();
    cs.derive(slot(3), slot(5), Rights::from_bits(READ_BIT | GRANT_BIT), 3).unwrap();
    assert_eq!(cs.lookup(slot(5)).unwrap().rights.bits(), READ_BIT | GRANT_BIT);
}

#[test]
fn second_insert_into_slot_is_refused() {
    let mut cs = CSpace::new();
    let a = endpoint(READ_BIT, 1);
    let b = endpoint(WRITE_BIT, 2);
    assert_eq!(cs.insert(slot(3), a), Ok(()));
    assert_eq!(cs.insert(slot(3), b), Err(CSpaceError::SlotOccupied));
    assert_eq!(*cs.lookup(slot(3)).unwrap(), a);
}

#[test]
fn delete_of_empty_slot_reports_slot_empty() {
    let mut cs = CSpace::new();
    assert_eq!(cs.delete(slot(5)), Err(CSpaceError::SlotEmpty));
    assert_eq!(cs.check_rights(slot(5), Rights::from_bits(0)), Err(CSpaceError::SlotEmpty));
    assert_eq!(cs.lookup(slot(5)).unwrap_err(), CSpaceError::SlotEmpty);
}

#[test]
fn delete_empties_the_slot() {
    let mut cs = CSpace::new();
    let a = endpoint(READ_BIT, 1);
    cs.insert(slot(6), a).unwrap();
    assert_eq!(cs.delete(slot(6)), Ok(a));
    assert!(cs.lookup(slot(6)).is_err());
    assert_eq!(cs.delete(slot(6)), Err(CSpaceError::SlotEmpty));
}

#[test]
fn find_free_returns_lowest_empty_slot() {
    let mut cs = CSpace::new();
    let first = CapSlot::new(FIRST_USER_SLOT).unwrap();
    assert_eq!(cs.find_free(first).unwrap().index(), 3);
    for i in 3..=10 {
        cs.insert(slot(i), endpoint(READ_BIT, i as u64)).unwrap();
    }
    assert_eq!(cs.find_free(first).unwrap().index(), 11);
}

#[test]
fn find_free_on_full_tail_gives_nothing() {
    let mut cs = CSpace::new();
    for i in 60..64 {
        cs.insert(slot(i), endpoint(READ_BIT, 0)).unwrap();
    }
    assert!(cs.find_free(slot(60)).is_none());
    assert_eq!(cs.find_free(slot(59)).unwrap().index(), 59);
    assert_eq!(cs.find_free(slot(0)).unwrap().index(), 0);
}

#[test]
fn replace_returns_previous_entry() {
    let mut cs = CSpace::new();
    let a = endpoint(READ_BIT, 1);
    let b = endpoint(WRITE_BIT, 2);
    assert!(cs.replace(slot(7), a).is_null());
    assert_eq!(cs.replace(slot(7), b), a);
    assert_eq!(*cs.lookup(slot(7)).unwrap(), b);
}

#[test]
fn lookup_typed_checks_the_kind() {
    let mut cs = CSpace::new();
    let a = endpoint(READ_BIT, 1);
    cs.insert(slot(8), a).unwrap();
    assert_eq!(*cs.lookup_typed(slot(8), CapabilityType::Endpoint).unwrap(), a);
    assert_eq!(cs.lookup_typed(slot(8), CapabilityType::Frame).unwrap_err(), CSpaceError::TypeMismatch);
    assert_eq!(cs.lookup_typed(slot(9), CapabilityType::Frame).unwrap_err(), CSpaceError::SlotEmpty);
}

#[test]
fn check_rights_reports_missing_rights() {
    let mut cs = CSpace::new();
    cs.insert(slot(3), endpoint(READ_BIT | WRITE_BIT, 0)).unwrap();
    assert_eq!(cs.check_rights(slot(3), Rights::from_bits(READ_BIT)), Ok(()));
    assert_eq!(cs.check_rights(slot(3), Rights::from_bits(READ_BIT | WRITE_BIT)), Ok(()));
    assert_eq!(cs.check_rights(slot(3), Rights::from_bits(GRANT_BIT)), Err(CSpaceError::InsufficientRights));
}

#[test]
fn slot_indices_are_bounded() {
    assert!(CapSlot::new(CSPACE_SIZE as u32).is_none());
    assert_eq!(CapSlot::new(63).unwrap().index(), 63);
    assert_eq!(CapSlot::new_unchecked(5).index(), 5);
}

#[test]
fn raw_null_entry_is_empty() {
    let n = RawCapability::null();
    assert!(n.is_null());
    assert!(!n.is_valid());
    assert_eq!(n.rights.bits(), 0);
    assert!(RawCapability::default().is_null());
    assert!(endpoint(READ_BIT, 0).is_valid());
}

#[test]
fn rights_set_algebra() {
    let rw = Rights::from_bits(READ_BIT | WRITE_BIT);
    let g = Rights::from_bits(GRANT_BIT);
    assert_eq!(Rights::from_bits(0xFF).bits(), 0x1F);
    assert_eq!(rw.union(g).bits(), READ_BIT | WRITE_BIT | GRANT_BIT);
    assert_eq!(rw.intersect(Rights::from_bits(WRITE_BIT | REVOKE_BIT)).bits(), WRITE_BIT);
    assert_eq!(rw.remove(Rights::from_bits(READ_BIT)).bits(), WRITE_BIT);
    assert!(rw.contains(Rights::from_bits(READ_BIT)));
    assert!(!rw.contains(g));
    assert!(rw.contains(Rights::from_bits(0)));
    assert!(Rights::from_bits(0).is_empty());
    assert!(!rw.is_empty());
}

#[test]
fn null_capability_derives_nothing() {
    let c: Capability<Endpoint> = Capability::null();
    assert!(c.is_null());
    assert!(!c.is_valid());
    assert_eq!(c.cap_type(), CapabilityType::Null);
    assert_eq!(c.rights().bits(), 0);
    assert_eq!(c.badge(), 0);
    assert_eq!(c.generation(), 0);
    assert!(c.has_rights(Rights::from_bits(0)));
    assert!(!c.has_rights(Rights::from_bits(READ_BIT)));
    assert!(c.derive(Rights::from_bits(0), 5).is_none());
    let d: Capability<Endpoint> = Capability::default();
    assert!(d.is_null());
    let e = d;
    assert!(e.clone().is_null());
}

#[test]
fn error_messages_describe_the_error() {
    assert_eq!(CSpaceError::SlotEmpty.message(), "slot is empty");
    assert_eq!(CSpaceError::InvalidSlot.message(), "invalid slot index");
    assert_eq!(CSpaceError::TypeMismatch.message(), "capability type mismatch");
}
