//! The certificate store.

use auto_id::error::RegistryError;
use auto_id::record::{CertificateRecord, Status};
use auto_id::store::CertificateStore;

fn record(mark: u8) -> CertificateRecord {
    CertificateRecord {
        subject_public_key_info: vec![mark, 1],
        subject_common_identifier: Some(vec![mark, 2]),
        issuer_identifier: 0,
        serial: vec![mark, 3],
        certificate_body: vec![mark, 4],
        signature_algorithm: vec![mark, 5],
        signature: vec![mark, 6],
        status: Status::Active,
    }
}

#[test]
fn new_store_is_empty() {
    let store = CertificateStore::new();
    assert!(!store.contains(0));
    assert_eq!(store.get(0), Err(RegistryError::RecordNotFound));
}

#[test]
fn insert_then_get() {
    let mut store = CertificateStore::new();
    assert_eq!(store.insert(3, record(1)), Ok(()));
    assert!(store.contains(3));
    assert_eq!(store.get(3), Ok(&record(1)));
    assert_eq!(store.get(4), Err(RegistryError::RecordNotFound));
}

#[test]
fn insert_refuses_an_occupied_identifier() {
    let mut store = CertificateStore::new();
    assert_eq!(store.insert(3, record(1)), Ok(()));
    assert_eq!(store.insert(3, record(2)), Err(RegistryError::AlreadyExists));
    assert_eq!(store.get(3), Ok(&record(1)));
}

#[test]
fn mark_revoked_changes_the_status_only() {
    let mut store = CertificateStore::new();
    store.insert(3, record(1)).unwrap();
    store.insert(4, record(2)).unwrap();
    assert_eq!(store.mark_revoked(3, 9), Ok(()));
    let expected = CertificateRecord { status: Status::Revoked { at: 9 }, ..record(1) };
    assert_eq!(store.get(3), Ok(&expected));
    assert!(store.get(3).unwrap().is_revoked());
    assert!(!store.get(3).unwrap().is_active());
    assert_eq!(store.get(4), Ok(&record(2)));
}

#[test]
fn mark_revoked_leaves_a_revoked_record_as_it_is() {
    let mut store = CertificateStore::new();
    store.insert(3, record(1)).unwrap();
    assert_eq!(store.mark_revoked(3, 9), Ok(()));
    assert_eq!(store.mark_revoked(3, 12), Ok(()));
    assert_eq!(store.get(3).unwrap().status, Status::Revoked { at: 9 });
}

#[test]
fn mark_revoked_of_an_absent_record_fails() {
    let mut store = CertificateStore::new();
    assert_eq!(store.mark_revoked(3, 9), Err(RegistryError::RecordNotFound));
    assert!(!store.contains(3));
}

#[test]
fn remove_erases_the_record() {
    let mut store = CertificateStore::new();
    store.insert(3, record(1)).unwrap();
    store.insert(4, record(2)).unwrap();
    assert_eq!(store.remove(3), Ok(()));
    assert!(!store.contains(3));
    assert_eq!(store.get(3), Err(RegistryError::RecordNotFound));
    assert_eq!(store.get(4), Ok(&record(2)));
    assert_eq!(store.remove(3), Err(RegistryError::RecordNotFound));
}

#[test]
fn removed_identifier_can_be_filled_again_in_the_store() {
    let mut store = CertificateStore::new();
    store.insert(3, record(1)).unwrap();
    store.remove(3).unwrap();
    assert_eq!(store.insert(3, record(2)), Ok(()));
    assert_eq!(store.get(3), Ok(&record(2)));
}
