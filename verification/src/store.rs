//! The records of the registry, by identifier.

use crate::error::RegistryError;
use crate::identifier::Identifier;
use crate::record::{CertificateRecord, RecordModel, Status};
use std::collections::HashMap;
use vstd::prelude::*;

verus! {

/// A mapping from identifier to certificate record.
///
/// The store keeps what it is given. It checks no signature and no linkage;
/// that is the work of the registry that owns it.
pub struct CertificateStore {
    records: HashMap<Identifier, CertificateRecord>,
}

impl View for CertificateStore {
    type V = Map<Identifier, RecordModel>;

    closed spec fn view(&self) -> Map<Identifier, RecordModel> {
        self.records@.map_values(|record: CertificateRecord| record@)
    }
}

impl CertificateStore {
    /// A store that holds no record.
    pub fn new() -> (store: Self)
        ensures
            store@ == Map::<Identifier, RecordModel>::empty(),
    {
        let store = CertificateStore { records: HashMap::new() };
        assert(store@ =~= Map::<Identifier, RecordModel>::empty());
        store
    }

    /// Whether a record is stored under `id`.
    pub fn contains(&self, id: Identifier) -> (present: bool)
        ensures
            present == self@.contains_key(id),
    {
        self.records.contains_key(&id)
    }

    /// The record stored under `id`.
    pub fn get(&self, id: Identifier) -> (res: Result<&CertificateRecord, RegistryError>)
        ensures
            match res {
                Ok(record) => self@.contains_key(id) && record@ == self@[id],
                Err(e) => e == RegistryError::RecordNotFound && !self@.contains_key(id),
            },
    {
        match self.records.get(&id) {
            Some(record) => Ok(record),
            None => Err(RegistryError::RecordNotFound),
        }
    }

    /// Stores `record` under `id`, unless a record is stored there already.
    pub fn insert(&mut self, id: Identifier, record: CertificateRecord) -> (res: Result<
        (),
        RegistryError,
    >)
        ensures
            match res {
                Ok(_) => !old(self)@.contains_key(id) && final(self)@ == old(self)@.insert(
                    id,
                    record@,
                ),
                Err(e) => e == RegistryError::AlreadyExists && old(self)@.contains_key(id)
                    && final(self)@ == old(self)@,
            },
    {
        if self.records.contains_key(&id) {
            return Err(RegistryError::AlreadyExists);
        }
        self.records.insert(id, record);
        assert(self@ =~= old(self)@.insert(id, record@));
        Ok(())
    }

    /// Marks the record under `id` as revoked at `at`. A record that is
    /// revoked already is left as it is.
    pub fn mark_revoked(&mut self, id: Identifier, at: Identifier) -> (res: Result<
        (),
        RegistryError,
    >)
        ensures
            match res {
                Ok(_) => old(self)@.contains_key(id) && final(self)@ == old(self)@.insert(
                    id,
                    old(self)@[id].revoked(at),
                ),
                Err(e) => e == RegistryError::RecordNotFound && !old(self)@.contains_key(id)
                    && final(self)@ == old(self)@,
            },
    {
        match self.records.remove(&id) {
            None => {
                assert(self@ =~= old(self)@);
                Err(RegistryError::RecordNotFound)
            },
            Some(mut record) => {
                let ghost before = record@;
                if record.is_active() {
                    record.status = Status::Revoked { at };
                }
                assert(record@ == before.revoked(at));
                self.records.insert(id, record);
                assert(self@ =~= old(self)@.insert(id, old(self)@[id].revoked(at)));
                Ok(())
            },
        }
    }

    /// Erases the record under `id`.
    pub fn remove(&mut self, id: Identifier) -> (res: Result<(), RegistryError>)
        ensures
            match res {
                Ok(_) => old(self)@.contains_key(id) && final(self)@ == old(self)@.remove(id),
                Err(e) => e == RegistryError::RecordNotFound && !old(self)@.contains_key(id)
                    && final(self)@ == old(self)@,
            },
    {
        match self.records.remove(&id) {
            None => {
                assert(self@ =~= old(self)@);
                Err(RegistryError::RecordNotFound)
            },
            Some(_) => {
                assert(self@ =~= old(self)@.remove(id));
                Ok(())
            },
        }
    }
}

} // verus!
