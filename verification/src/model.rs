//! The registry as a mathematical state, and its operations as functions
//! from one state to the next.
//!
//! What the parsing and verification libraries answer enters these functions
//! as arguments, so that each operation is defined for every answer.

use crate::certificate::FieldsModel;
use crate::error::RegistryError;
use crate::identifier::Identifier;
use crate::record::{RecordModel, Status};
use crate::signature::{preimage, signature_verifies};
use vstd::prelude::*;

verus! {

/// What a registration request stands for.
pub enum RequestModel {
    Root { certificate_body: Seq<u8>, signature_algorithm: Seq<u8>, signature: Seq<u8> },
    Leaf {
        issuer_identifier: Identifier,
        certificate_body: Seq<u8>,
        signature_algorithm: Seq<u8>,
        signature: Seq<u8>,
    },
}

impl RequestModel {
    /// The to-be-signed body that the request presents.
    pub open spec fn certificate_body(self) -> Seq<u8> {
        match self {
            RequestModel::Root { certificate_body, .. } => certificate_body,
            RequestModel::Leaf { certificate_body, .. } => certificate_body,
        }
    }

    /// The algorithm identifier that the request presents.
    pub open spec fn signature_algorithm(self) -> Seq<u8> {
        match self {
            RequestModel::Root { signature_algorithm, .. } => signature_algorithm,
            RequestModel::Leaf { signature_algorithm, .. } => signature_algorithm,
        }
    }

    /// The issuer's signature that the request presents.
    pub open spec fn signature(self) -> Seq<u8> {
        match self {
            RequestModel::Root { signature, .. } => signature,
            RequestModel::Leaf { signature, .. } => signature,
        }
    }

    /// The issuer that a leaf names; none for a root.
    pub open spec fn issuer(self) -> Option<Identifier> {
        match self {
            RequestModel::Root { .. } => None,
            RequestModel::Leaf { issuer_identifier, .. } => Some(issuer_identifier),
        }
    }

    /// Whether body, algorithm and signature are all non-empty.
    pub open spec fn filled(self) -> bool {
        &&& self.certificate_body().len() > 0
        &&& self.signature_algorithm().len() > 0
        &&& self.signature().len() > 0
    }
}

/// The state of a registry: the first identifier it had to hand out, the
/// identifier to hand out next, and the records on file.
#[verifier::ext_equal]
pub struct RegistryModel {
    pub first: Identifier,
    pub next: Identifier,
    pub records: Map<Identifier, RecordModel>,
}

impl RegistryModel {
    /// The empty registry whose first identifier is `first`.
    pub open spec fn genesis(first: Identifier) -> RegistryModel {
        RegistryModel { first, next: first, records: Map::empty() }
    }

    /// Whether `id` was handed out: it lies between the first identifier and
    /// the counter.
    pub open spec fn handed_out(self, id: Identifier) -> bool {
        self.first <= id < self.next
    }

    /// What holds of every registry: the counter has not fallen below the
    /// first identifier, and each record on file stands under an identifier
    /// that was handed out, names an issuer that is itself or was handed out
    /// before it, and is not deactivated.
    pub open spec fn wf(self) -> bool {
        &&& self.first <= self.next
        &&& forall|id: Identifier| #[trigger]
            self.records.contains_key(id) ==> {
                &&& self.handed_out(id)
                &&& self.first <= self.records[id].issuer_identifier <= id
                &&& !(self.records[id].status is Deactivated)
            }
    }

    /// Whether the counter stands at the largest identifier, so that no
    /// further certificate can be registered.
    pub open spec fn exhausted(self) -> bool {
        self.next == Identifier::MAX
    }

    /// The record on file under `id`.
    pub open spec fn lookup(self, id: Identifier) -> Result<RecordModel, RegistryError> {
        if self.records.contains_key(id) {
            Ok(self.records[id])
        } else {
            Err(RegistryError::RecordNotFound)
        }
    }

    /// Where the certificate `id` stands in its life: as its record says
    /// while it is on file; deactivated once an identifier that was handed
    /// out has no record any more; nothing for an identifier that was never
    /// handed out.
    pub open spec fn status(self, id: Identifier) -> Option<Status> {
        if self.records.contains_key(id) {
            Some(self.records[id].status)
        } else if self.handed_out(id) {
            Some(Status::Deactivated)
        } else {
            None
        }
    }

    /// Whether `id` can stand as the issuer of a new leaf: its record is on
    /// file and active.
    pub open spec fn sponsors(self, id: Identifier) -> bool {
        self.records.contains_key(id) && self.records[id].status is Active
    }

    /// The checks that a registration passes through, in their order, with
    /// the failure of the first that fails. `fields` is what the parser read
    /// from the body, `canonical` the re-encoded algorithm identifier.
    pub open spec fn check(
        self,
        request: RequestModel,
        fields: Option<FieldsModel>,
        canonical: Result<Seq<u8>, RegistryError>,
    ) -> Result<(), RegistryError> {
        if !request.filled() {
            Err(RegistryError::MalformedRequest)
        } else if request.issuer() matches Some(issuer) && !self.sponsors(issuer) {
            Err(RegistryError::IssuerNotFound)
        } else if fields is None {
            Err(RegistryError::MalformedRequest)
        } else if canonical is Err {
            Err(canonical->Err_0)
        } else if self.records.contains_key(self.next) {
            Err(RegistryError::AlreadyExists)
        } else {
            Ok(())
        }
    }

    /// The record that a registration files under the identifier `self.next`.
    pub open spec fn new_record(
        self,
        request: RequestModel,
        fields: FieldsModel,
        canonical: Seq<u8>,
    ) -> RecordModel {
        RecordModel {
            subject_public_key_info: fields.subject_public_key_info,
            subject_common_identifier: fields.subject_common_identifier,
            issuer_identifier: match request.issuer() {
                Some(issuer) => issuer,
                None => self.next,
            },
            serial: fields.serial,
            certificate_body: request.certificate_body(),
            signature_algorithm: canonical,
            signature: request.signature(),
            status: Status::Active,
        }
    }

    /// Registration: where every check passes, the record is filed under the
    /// next identifier and the counter advances by one; otherwise nothing
    /// changes.
    pub open spec fn register(
        self,
        request: RequestModel,
        fields: Option<FieldsModel>,
        canonical: Result<Seq<u8>, RegistryError>,
    ) -> (Result<Identifier, RegistryError>, RegistryModel) {
        match self.check(request, fields, canonical) {
            Err(e) => (Err(e), self),
            Ok(_) => (
                Ok(self.next),
                RegistryModel {
                    first: self.first,
                    next: (self.next + 1) as Identifier,
                    records: self.records.insert(
                        self.next,
                        self.new_record(request, fields->Some_0, canonical->Ok_0),
                    ),
                },
            ),
        }
    }

    /// Whether `signature` proves possession of the key of certificate `id`:
    /// the record is on file, and the signature verifies over the preimage of
    /// `id` under the record's own public key and algorithm.
    pub open spec fn authorizes(self, id: Identifier, signature: Seq<u8>) -> bool {
        &&& self.records.contains_key(id)
        &&& signature_verifies(
            self.records[id].subject_public_key_info,
            self.records[id].signature_algorithm,
            preimage(id),
            signature,
        )
    }

    /// Revocation, given whether the signature was verified: an active record
    /// becomes revoked at the present counter value, a revoked one stays as
    /// it is.
    pub open spec fn revoke(self, id: Identifier, verified: bool) -> (
        Result<(), RegistryError>,
        RegistryModel,
    ) {
        if !self.records.contains_key(id) {
            (Err(RegistryError::RecordNotFound), self)
        } else if !verified {
            (Err(RegistryError::InvalidSignature), self)
        } else {
            (
                Ok(()),
                RegistryModel {
                    first: self.first,
                    next: self.next,
                    records: self.records.insert(id, self.records[id].revoked(self.next)),
                },
            )
        }
    }

    /// Deactivation, given whether the signature was verified: the record is
    /// taken off file.
    pub open spec fn deactivate(self, id: Identifier, verified: bool) -> (
        Result<(), RegistryError>,
        RegistryModel,
    ) {
        if !self.records.contains_key(id) {
            (Err(RegistryError::RecordNotFound), self)
        } else if !verified {
            (Err(RegistryError::InvalidSignature), self)
        } else {
            (
                Ok(()),
                RegistryModel {
                    first: self.first,
                    next: self.next,
                    records: self.records.remove(id),
                },
            )
        }
    }
}

} // verus!
