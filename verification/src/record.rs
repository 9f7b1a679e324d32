//! What the registry keeps of one certificate.

use crate::certificate::name_view;
use crate::identifier::Identifier;
use vstd::prelude::*;

verus! {

/// Where a certificate stands in its life.
///
/// A certificate is registered as active. It can be revoked, and it can be
/// deactivated from either state. Nothing leads back.
#[derive(Clone, Copy, Debug, PartialEq, Eq, Structural)]
pub enum Status {
    /// Registered and trusted.
    Active,
    /// Still on record, but no longer trusted.
    Revoked {
        /// The identifier that was next to be handed out when the
        /// certificate was revoked.
        at: Identifier,
    },
    /// Taken off the record. No stored record is in this state.
    Deactivated,
}

/// One registered certificate.
#[derive(Clone, Debug, PartialEq, Eq)]
pub struct CertificateRecord {
    /// The subject's public key information, as DER. Signatures that
    /// authorize changes to this record are verified under this key.
    pub subject_public_key_info: Vec<u8>,
    /// The subject's common name, where the certificate gives one. Read by
    /// people, never by a trust decision.
    pub subject_common_identifier: Option<Vec<u8>>,
    /// The identifier of the issuer's record; for a root, its own identifier.
    pub issuer_identifier: Identifier,
    /// The serial number, as the big-endian octets of the certificate.
    pub serial: Vec<u8>,
    /// The to-be-signed body, as DER, exactly as it was presented.
    pub certificate_body: Vec<u8>,
    /// The algorithm under which the certificate was signed, in canonical DER.
    pub signature_algorithm: Vec<u8>,
    /// The issuer's signature over the body.
    pub signature: Vec<u8>,
    /// Where the certificate stands in its life.
    pub status: Status,
}

/// What a [`CertificateRecord`] stands for.
pub struct RecordModel {
    pub subject_public_key_info: Seq<u8>,
    pub subject_common_identifier: Option<Seq<u8>>,
    pub issuer_identifier: Identifier,
    pub serial: Seq<u8>,
    pub certificate_body: Seq<u8>,
    pub signature_algorithm: Seq<u8>,
    pub signature: Seq<u8>,
    pub status: Status,
}

impl View for CertificateRecord {
    type V = RecordModel;

    open spec fn view(&self) -> RecordModel {
        RecordModel {
            subject_public_key_info: self.subject_public_key_info@,
            subject_common_identifier: name_view(self.subject_common_identifier),
            issuer_identifier: self.issuer_identifier,
            serial: self.serial@,
            certificate_body: self.certificate_body@,
            signature_algorithm: self.signature_algorithm@,
            signature: self.signature@,
            status: self.status,
        }
    }
}

/// The status after a revocation at `at`: an active certificate becomes
/// revoked, any other keeps its status.
pub open spec fn revoked_status(status: Status, at: Identifier) -> Status {
    match status {
        Status::Active => Status::Revoked { at },
        other => other,
    }
}

impl RecordModel {
    /// The record with its status after a revocation at `at`.
    pub open spec fn revoked(self, at: Identifier) -> RecordModel {
        RecordModel { status: revoked_status(self.status, at), ..self }
    }
}

impl CertificateRecord {
    /// Whether the certificate is registered and trusted.
    pub fn is_active(&self) -> (active: bool)
        ensures
            active == (self.status is Active),
    {
        match self.status {
            Status::Active => true,
            _ => false,
        }
    }

    /// Whether the certificate has been revoked.
    pub fn is_revoked(&self) -> (revoked: bool)
        ensures
            revoked == (self.status is Revoked),
    {
        match self.status {
            Status::Revoked { .. } => true,
            _ => false,
        }
    }
}

} // verus!
