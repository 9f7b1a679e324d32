//! The registry: registration of certificates and the changes that their
//! holders authorize.

use crate::certificate::{fields_view, parsed_certificate, read_certificate_body, CertificateFields};
use crate::der::{bytes_view, canonical_algorithm, canonicalize_algorithm};
use crate::error::RegistryError;
use crate::identifier::{Identifier, IdentifierAllocator};
use crate::model::{RegistryModel, RequestModel};
use crate::record::{CertificateRecord, RecordModel, Status};
use crate::signature::{identifier_preimage, verify_signature};
use crate::store::CertificateStore;
use vstd::prelude::*;

verus! {

/// A request to register a certificate.
#[derive(Clone, Debug, PartialEq, Eq)]
pub enum RegistrationRequest {
    /// A self-issued certificate. Its record names itself as issuer.
    Root {
        /// The to-be-signed body, as DER.
        certificate_body: Vec<u8>,
        /// The algorithm identifier of the signature, as DER.
        signature_algorithm: Vec<u8>,
        /// The signature over the body.
        signature: Vec<u8>,
    },
    /// A certificate issued by one that is registered already.
    Leaf {
        /// The identifier of the issuer's record.
        issuer_identifier: Identifier,
        /// The to-be-signed body, as DER.
        certificate_body: Vec<u8>,
        /// The algorithm identifier of the signature, as DER.
        signature_algorithm: Vec<u8>,
        /// The issuer's signature over the body.
        signature: Vec<u8>,
    },
}

impl View for RegistrationRequest {
    type V = RequestModel;

    open spec fn view(&self) -> RequestModel {
        match *self {
            RegistrationRequest::Root { certificate_body, signature_algorithm, signature } => {
                RequestModel::Root {
                    certificate_body: certificate_body@,
                    signature_algorithm: signature_algorithm@,
                    signature: signature@,
                }
            },
            RegistrationRequest::Leaf {
                issuer_identifier,
                certificate_body,
                signature_algorithm,
                signature,
            } => RequestModel::Leaf {
                issuer_identifier,
                certificate_body: certificate_body@,
                signature_algorithm: signature_algorithm@,
                signature: signature@,
            },
        }
    }
}

impl RegistrationRequest {
    /// The to-be-signed body that the request presents.
    pub fn certificate_body(&self) -> (body: &Vec<u8>)
        ensures
            body@ == self@.certificate_body(),
    {
        match self {
            RegistrationRequest::Root { certificate_body, .. } => certificate_body,
            RegistrationRequest::Leaf { certificate_body, .. } => certificate_body,
        }
    }

    /// The algorithm identifier that the request presents.
    pub fn signature_algorithm(&self) -> (algorithm: &Vec<u8>)
        ensures
            algorithm@ == self@.signature_algorithm(),
    {
        match self {
            RegistrationRequest::Root { signature_algorithm, .. } => signature_algorithm,
            RegistrationRequest::Leaf { signature_algorithm, .. } => signature_algorithm,
        }
    }
}

/// A certificate registry: the counter of identifiers and the records on
/// file.
pub struct Registry {
    first: Identifier,
    allocator: IdentifierAllocator,
    store: CertificateStore,
}

impl View for Registry {
    type V = RegistryModel;

    closed spec fn view(&self) -> RegistryModel {
        RegistryModel { first: self.first, next: self.allocator@, records: self.store@ }
    }
}

impl Registry {
    #[verifier::type_invariant]
    spec fn well_formed(&self) -> bool {
        self@.wf()
    }

    /// An empty registry whose first identifier is `genesis`.
    pub fn new(genesis: Identifier) -> (registry: Self)
        ensures
            registry@ == RegistryModel::genesis(genesis),
            registry@.wf(),
    {
        Registry {
            first: genesis,
            allocator: IdentifierAllocator::new(genesis),
            store: CertificateStore::new(),
        }
    }

    /// The first identifier that this registry had to hand out.
    pub fn first_identifier(&self) -> (id: Identifier)
        ensures
            id == self@.first,
            self@.wf(),
    {
        proof {
            use_type_invariant(self);
        }
        self.first
    }

    /// The identifier that the next successful registration returns.
    pub fn next_identifier(&self) -> (id: Identifier)
        ensures
            id == self@.next,
            self@.wf(),
    {
        proof {
            use_type_invariant(self);
        }
        self.allocator.peek()
    }

    /// Whether the counter has run out, so that `register` cannot be called.
    pub fn is_exhausted(&self) -> (exhausted: bool)
        ensures
            exhausted == self@.exhausted(),
            self@.wf(),
    {
        proof {
            use_type_invariant(self);
        }
        self.allocator.is_exhausted()
    }

    /// The record on file under `id`.
    pub fn get(&self, id: Identifier) -> (res: Result<&CertificateRecord, RegistryError>)
        ensures
            match res {
                Ok(record) => self@.lookup(id) == Ok::<_, RegistryError>(record@),
                Err(e) => self@.lookup(id) == Err::<RecordModel, _>(e),
            },
            self@.wf(),
    {
        proof {
            use_type_invariant(self);
        }
        self.store.get(id)
    }

    /// Where the certificate `id` stands in its life.
    pub fn status(&self, id: Identifier) -> (status: Option<Status>)
        ensures
            status == self@.status(id),
            self@.wf(),
    {
        proof {
            use_type_invariant(self);
        }
        match self.store.get(id) {
            Ok(record) => Some(record.status),
            Err(_) => {
                if self.first <= id && id < self.allocator.peek() {
                    Some(Status::Deactivated)
                } else {
                    None
                }
            },
        }
    }

    /// Registers a certificate and returns its identifier.
    ///
    /// The request is checked in this order. Body, algorithm and signature
    /// must be non-empty (`MalformedRequest`). The issuer of a leaf must be on
    /// file and active (`IssuerNotFound`). The body must parse as a
    /// to-be-signed certificate (`MalformedRequest`); a subject without a
    /// common name is no obstacle. The algorithm
    /// identifier must parse (`MalformedRequest`) and encode anew
    /// (`EncodingError`). Then the record is filed under the next identifier,
    /// with the re-encoded algorithm identifier in place of the caller's
    /// bytes. No signature is verified here. A request that fails a check
    /// changes nothing, and takes no identifier.
    pub fn register(&mut self, request: RegistrationRequest) -> (res: Result<
        Identifier,
        RegistryError,
    >)
        requires
            !old(self)@.exhausted(),
        ensures
            res == old(self)@.register(
                request@,
                parsed_certificate(request@.certificate_body()),
                canonical_algorithm(request@.signature_algorithm()),
            ).0,
            final(self)@ == old(self)@.register(
                request@,
                parsed_certificate(request@.certificate_body()),
                canonical_algorithm(request@.signature_algorithm()),
            ).1,
            final(self)@.wf(),
    {
        let fields = read_certificate_body(request.certificate_body().as_slice());
        let canonical = canonicalize_algorithm(request.signature_algorithm().as_slice());
        self.register_decoded(request, fields, canonical)
    }

    /// Registers a certificate, given what was read from its request:
    /// `fields` from the body, `canonical` as the re-encoded algorithm
    /// identifier. `register` reads both and then does this.
    pub fn register_decoded(
        &mut self,
        request: RegistrationRequest,
        fields: Option<CertificateFields>,
        canonical: Result<Vec<u8>, RegistryError>,
    ) -> (res: Result<Identifier, RegistryError>)
        requires
            !old(self)@.exhausted(),
        ensures
            res == old(self)@.register(request@, fields_view(fields), bytes_view(canonical)).0,
            final(self)@ == old(self)@.register(
                request@,
                fields_view(fields),
                bytes_view(canonical),
            ).1,
            final(self)@.wf(),
    {
        proof {
            use_type_invariant(&*self);
        }
        let (issuer, certificate_body, signature_algorithm, signature) = match request {
            RegistrationRequest::Root { certificate_body, signature_algorithm, signature } => (
                None,
                certificate_body,
                signature_algorithm,
                signature,
            ),
            RegistrationRequest::Leaf {
                issuer_identifier,
                certificate_body,
                signature_algorithm,
                signature,
            } => (Some(issuer_identifier), certificate_body, signature_algorithm, signature),
        };
        if certificate_body.len() == 0 || signature_algorithm.len() == 0 || signature.len() == 0 {
            return Err(RegistryError::MalformedRequest);
        }
        if let Some(issuer_identifier) = issuer {
            match self.store.get(issuer_identifier) {
                Ok(record) => {
                    if !record.is_active() {
                        return Err(RegistryError::IssuerNotFound);
                    }
                },
                Err(_) => {
                    return Err(RegistryError::IssuerNotFound);
                },
            }
        }
        let fields = match fields {
            Some(fields) => fields,
            None => {
                return Err(RegistryError::MalformedRequest);
            },
        };
        let canonical = match canonical {
            Ok(canonical) => canonical,
            Err(e) => {
                return Err(e);
            },
        };
        if self.store.contains(self.allocator.peek()) {
            return Err(RegistryError::AlreadyExists);
        }
        let mut store = CertificateStore::new();
        std::mem::swap(&mut store, &mut self.store);
        let id: Identifier = self.allocator.next();
        let record = CertificateRecord {
            subject_public_key_info: fields.subject_public_key_info,
            subject_common_identifier: fields.subject_common_identifier,
            issuer_identifier: match issuer {
                Some(issuer_identifier) => issuer_identifier,
                None => id,
            },
            serial: fields.serial,
            certificate_body,
            signature_algorithm: canonical,
            signature,
            status: Status::Active,
        };
        let _ = store.insert(id, record);
        self.store = store;
        Ok(id)
    }

    /// Whether `signature` proves possession of the key of certificate `id`:
    /// whether it verifies over the preimage of `id` under the public key and
    /// the algorithm of the record on file.
    pub fn authorizes(&self, id: Identifier, signature: &[u8]) -> (verified: bool)
        ensures
            verified == self@.authorizes(id, signature@),
            self@.wf(),
    {
        proof {
            use_type_invariant(self);
        }
        match self.store.get(id) {
            Err(_) => false,
            Ok(record) => {
                let message = identifier_preimage(id);
                verify_signature(
                    record.subject_public_key_info.as_slice(),
                    record.signature_algorithm.as_slice(),
                    message.as_slice(),
                    signature,
                )
            },
        }
    }

    /// Revokes the certificate `id` on the word of its holder.
    ///
    /// Fails with `RecordNotFound` where no record is on file, and with
    /// `InvalidSignature` where `signature` does not verify over the preimage
    /// of `id` under the record's own key; neither changes anything.
    /// Otherwise the record stays on file as revoked. Revoking a revoked
    /// certificate succeeds and changes nothing.
    pub fn revoke(&mut self, id: Identifier, signature: &[u8]) -> (res: Result<(), RegistryError>)
        ensures
            res == old(self)@.revoke(id, old(self)@.authorizes(id, signature@)).0,
            final(self)@ == old(self)@.revoke(id, old(self)@.authorizes(id, signature@)).1,
            final(self)@.wf(),
    {
        let verified = self.authorizes(id, signature);
        self.conclude_revoke(id, verified)
    }

    /// Revokes the certificate `id`, given whether its holder's signature was
    /// verified. `revoke` verifies the signature and then does this.
    pub fn conclude_revoke(&mut self, id: Identifier, verified: bool) -> (res: Result<
        (),
        RegistryError,
    >)
        ensures
            res == old(self)@.revoke(id, verified).0,
            final(self)@ == old(self)@.revoke(id, verified).1,
            final(self)@.wf(),
    {
        proof {
            use_type_invariant(&*self);
        }
        if !self.store.contains(id) {
            return Err(RegistryError::RecordNotFound);
        }
        if !verified {
            return Err(RegistryError::InvalidSignature);
        }
        let at: Identifier = self.allocator.peek();
        let mut store = CertificateStore::new();
        std::mem::swap(&mut store, &mut self.store);
        let _ = store.mark_revoked(id, at);
        self.store = store;
        Ok(())
    }

    /// Deactivates the certificate `id` on the word of its holder.
    ///
    /// Fails with `RecordNotFound` where no record is on file, and with
    /// `InvalidSignature` where `signature` does not verify over the preimage
    /// of `id` under the record's own key; neither changes anything.
    /// Otherwise the record is taken off file, whether it was active or
    /// revoked.
    pub fn deactivate(&mut self, id: Identifier, signature: &[u8]) -> (res: Result<
        (),
        RegistryError,
    >)
        ensures
            res == old(self)@.deactivate(id, old(self)@.authorizes(id, signature@)).0,
            final(self)@ == old(self)@.deactivate(id, old(self)@.authorizes(id, signature@)).1,
            final(self)@.wf(),
    {
        let verified = self.authorizes(id, signature);
        self.conclude_deactivate(id, verified)
    }

    /// Deactivates the certificate `id`, given whether its holder's signature
    /// was verified. `deactivate` verifies the signature and then does this.
    pub fn conclude_deactivate(&mut self, id: Identifier, verified: bool) -> (res: Result<
        (),
        RegistryError,
    >)
        ensures
            res == old(self)@.deactivate(id, verified).0,
            final(self)@ == old(self)@.deactivate(id, verified).1,
            final(self)@.wf(),
    {
        proof {
            use_type_invariant(&*self);
        }
        if !self.store.contains(id) {
            return Err(RegistryError::RecordNotFound);
        }
        if !verified {
            return Err(RegistryError::InvalidSignature);
        }
        let mut store = CertificateStore::new();
        std::mem::swap(&mut store, &mut self.store);
        let _ = store.remove(id);
        self.store = store;
        Ok(())
    }
}

} // verus!
