//! What holds of the registry in every state and along every run of
//! operations.

use crate::certificate::{parsed_certificate, FieldsModel};
use crate::der::{algorithm_der, canonical_algorithm, decoded_algorithm, AlgorithmModel};
use crate::error::RegistryError;
use crate::identifier::Identifier;
use crate::model::{RegistryModel, RequestModel};
use crate::record::{RecordModel, Status};
use vstd::prelude::*;

verus! {

/// One operation on a registry, together with what the parsing and
/// verification libraries answered to it.
pub enum Operation {
    Register {
        request: RequestModel,
        fields: Option<FieldsModel>,
        canonical: Result<Seq<u8>, RegistryError>,
    },
    Revoke { id: Identifier, verified: bool },
    Deactivate { id: Identifier, verified: bool },
}

/// What an operation returns, and the state that it leaves. A registration
/// that succeeds returns its identifier.
pub open spec fn step(state: RegistryModel, operation: Operation) -> (
    Result<Option<Identifier>, RegistryError>,
    RegistryModel,
) {
    match operation {
        Operation::Register { request, fields, canonical } => {
            let (result, after) = state.register(request, fields, canonical);
            match result {
                Ok(id) => (Ok(Some(id)), after),
                Err(e) => (Err(e), after),
            }
        },
        Operation::Revoke { id, verified } => {
            let (result, after) = state.revoke(id, verified);
            match result {
                Ok(_) => (Ok(None), after),
                Err(e) => (Err(e), after),
            }
        },
        Operation::Deactivate { id, verified } => {
            let (result, after) = state.deactivate(id, verified);
            match result {
                Ok(_) => (Ok(None), after),
                Err(e) => (Err(e), after),
            }
        },
    }
}

/// The state after the operations have run in their order, from `state`.
pub open spec fn run(state: RegistryModel, operations: Seq<Operation>) -> RegistryModel
    decreases operations.len(),
{
    if operations.len() == 0 {
        state
    } else {
        step(run(state, operations.drop_last()), operations.last()).1
    }
}

/// The identifiers that the successful registrations among the operations
/// returned, in their order.
pub open spec fn issued(state: RegistryModel, operations: Seq<Operation>) -> Seq<Identifier>
    decreases operations.len(),
{
    if operations.len() == 0 {
        Seq::empty()
    } else {
        let before = issued(state, operations.drop_last());
        match step(run(state, operations.drop_last()), operations.last()).0 {
            Ok(Some(id)) => before.push(id),
            _ => before,
        }
    }
}

/// Whether a certificate may pass from one status to another in one
/// operation, `None` standing for an identifier not yet handed out. It may
/// stay as it is, be registered as active, be revoked while active, and be
/// deactivated while active or revoked.
pub open spec fn may_follow(before: Option<Status>, after: Option<Status>) -> bool {
    ||| after == before
    ||| before is None && after == Some(Status::Active)
    ||| before == Some(Status::Active) && after matches Some(Status::Revoked { .. })
    ||| before == Some(Status::Active) && after == Some(Status::Deactivated)
    ||| before matches Some(Status::Revoked { .. }) && after == Some(Status::Deactivated)
}

/// An algorithm identifier that has canonical bytes is read back from them
/// by the parser, unchanged.
pub proof fn law_round_trip(algorithm: AlgorithmModel)
    requires
        algorithm_der(algorithm) is Ok,
    ensures
        decoded_algorithm(algorithm_der(algorithm)->Ok_0) == Some(algorithm),
{
}

/// Canonical bytes are their own canonical bytes: presenting them again
/// stores them again, octet for octet.
pub proof fn law_canonical_bytes_are_stable(algorithm: AlgorithmModel)
    requires
        algorithm_der(algorithm) is Ok,
    ensures
        canonical_algorithm(algorithm_der(algorithm)->Ok_0) == algorithm_der(algorithm),
{
}

/// Every operation keeps a registry well formed, as long as the counter has
/// not run out.
pub proof fn law_step_keeps_well_formed(state: RegistryModel, operation: Operation)
    requires
        state.wf(),
        !state.exhausted(),
    ensures
        step(state, operation).1.wf(),
{
}

/// Along any run of operations, the successful registrations return
/// consecutive identifiers, starting with the counter's value at the outset:
/// strictly increasing, without gaps and without repeats. The counter ends
/// as many steps further as there were successful registrations.
pub proof fn law_identifiers_consecutive(state: RegistryModel, operations: Seq<Operation>)
    requires
        state.next + operations.len() <= Identifier::MAX,
    ensures
        issued(state, operations).len() <= operations.len(),
        run(state, operations).next == state.next + issued(state, operations).len(),
        forall|i: int|
            0 <= i < issued(state, operations).len() ==> #[trigger] issued(state, operations)[i]
                == state.next + i,
    decreases operations.len(),
{
    if operations.len() > 0 {
        law_identifiers_consecutive(state, operations.drop_last());
    }
}

/// A well-formed registry stays well formed along any run of operations
/// that the counter has room for.
pub proof fn law_run_keeps_well_formed(state: RegistryModel, operations: Seq<Operation>)
    requires
        state.wf(),
        state.next + operations.len() <= Identifier::MAX,
    ensures
        run(state, operations).wf(),
    decreases operations.len(),
{
    if operations.len() > 0 {
        let earlier = operations.drop_last();
        law_run_keeps_well_formed(state, earlier);
        law_identifiers_consecutive(state, earlier);
        law_step_keeps_well_formed(run(state, earlier), operations.last());
    }
}

/// In a well-formed registry no registration fails for a record already
/// on file under the next identifier: the counter is always ahead of every
/// record.
pub proof fn law_registration_never_collides(state: RegistryModel, request: RequestModel)
    requires
        state.wf(),
    ensures
        state.register(
            request,
            parsed_certificate(request.certificate_body()),
            canonical_algorithm(request.signature_algorithm()),
        ).0 != Err::<Identifier, _>(RegistryError::AlreadyExists),
{
}

/// An identifier that was never handed out has no record and no status.
pub proof fn law_unissued_has_no_status(state: RegistryModel, id: Identifier)
    requires
        state.wf(),
        !state.handed_out(id),
    ensures
        state.status(id) is None,
        state.lookup(id) == Err::<RecordModel, _>(RegistryError::RecordNotFound),
{
}

/// A leaf whose issuer is not on file, or is on file as revoked, is refused
/// with `IssuerNotFound`, whatever else the request holds beyond non-empty
/// fields, and nothing changes.
pub proof fn law_leaf_needs_issuer(
    state: RegistryModel,
    request: RequestModel,
    fields: Option<FieldsModel>,
    canonical: Result<Seq<u8>, RegistryError>,
)
    requires
        request.filled(),
        request.issuer() matches Some(issuer) && !state.sponsors(issuer),
    ensures
        state.register(request, fields, canonical) == (
            Err::<Identifier, _>(RegistryError::IssuerNotFound),
            state,
        ),
{
}

/// A leaf whose issuer is on file and active, and whose body and algorithm
/// identifier can be read, is registered under the next identifier, and its
/// record names the issuer that the request supplied.
pub proof fn law_leaf_links_issuer(
    state: RegistryModel,
    request: RequestModel,
    fields: Option<FieldsModel>,
    canonical: Result<Seq<u8>, RegistryError>,
)
    requires
        state.wf(),
        request.filled(),
        request.issuer() matches Some(issuer) && state.sponsors(issuer),
        fields is Some,
        canonical is Ok,
    ensures
        state.register(request, fields, canonical).0 == Ok::<_, RegistryError>(state.next),
        state.register(request, fields, canonical).1.lookup(state.next) matches Ok(record)
            && Some(record.issuer_identifier) == request.issuer(),
{
}

/// Once an identifier has been handed out and its record is off file, no run
/// of operations brings a record back under it: a deactivated certificate
/// stays deactivated, and can never again stand as an issuer.
pub proof fn law_deactivation_is_final(
    state: RegistryModel,
    id: Identifier,
    operations: Seq<Operation>,
)
    requires
        state.handed_out(id),
        !state.records.contains_key(id),
        state.next + operations.len() <= Identifier::MAX,
    ensures
        !run(state, operations).records.contains_key(id),
        !run(state, operations).sponsors(id),
        run(state, operations).status(id) == Some(Status::Deactivated),
    decreases operations.len(),
{
    if operations.len() > 0 {
        let earlier = operations.drop_last();
        law_deactivation_is_final(state, id, earlier);
        law_identifiers_consecutive(state, earlier);
        law_identifiers_consecutive(state, operations);
    }
}

/// Revocation succeeds if and only if the signature proves possession of the
/// target's own key. Where the record is on file and the signature does not,
/// the failure is `InvalidSignature` and nothing changes.
pub proof fn law_revoke_needs_possession(state: RegistryModel, id: Identifier, signature: Seq<u8>)
    ensures
        state.revoke(id, state.authorizes(id, signature)).0 is Ok <==> state.authorizes(
            id,
            signature,
        ),
        state.records.contains_key(id) && !state.authorizes(id, signature) ==> state.revoke(
            id,
            state.authorizes(id, signature),
        ) == (Err::<(), _>(RegistryError::InvalidSignature), state),
{
}

/// Deactivation succeeds if and only if the signature proves possession of
/// the target's own key. Where the record is on file and the signature does
/// not, the failure is `InvalidSignature` and nothing changes.
pub proof fn law_deactivate_needs_possession(
    state: RegistryModel,
    id: Identifier,
    signature: Seq<u8>,
)
    ensures
        state.deactivate(id, state.authorizes(id, signature)).0 is Ok <==> state.authorizes(
            id,
            signature,
        ),
        state.records.contains_key(id) && !state.authorizes(id, signature) ==> state.deactivate(
            id,
            state.authorizes(id, signature),
        ) == (Err::<(), _>(RegistryError::InvalidSignature), state),
{
}

/// A change to one certificate touches no other: after a revocation or a
/// deactivation of `id`, every other record is as it was.
pub proof fn law_changes_touch_only_their_target(
    state: RegistryModel,
    id: Identifier,
    other: Identifier,
    verified: bool,
)
    requires
        other != id,
    ensures
        state.revoke(id, verified).1.lookup(other) == state.lookup(other),
        state.deactivate(id, verified).1.lookup(other) == state.lookup(other),
{
}

/// After a successful deactivation the record cannot be retrieved.
pub proof fn law_deactivated_is_gone(state: RegistryModel, id: Identifier, verified: bool)
    requires
        state.deactivate(id, verified).0 is Ok,
    ensures
        state.deactivate(id, verified).1.lookup(id) == Err::<RecordModel, _>(
            RegistryError::RecordNotFound,
        ),
{
}

/// After a successful revocation the record can be retrieved, is revoked,
/// and is otherwise as it was.
pub proof fn law_revoked_stays_on_file(state: RegistryModel, id: Identifier, verified: bool)
    requires
        state.wf(),
        state.revoke(id, verified).0 is Ok,
    ensures
        state.revoke(id, verified).1.lookup(id) matches Ok(record) && record.status is Revoked
            && record == (RecordModel {
            status: record.status,
            ..state.records[id]
        }),
{
}

/// A second revocation of a revoked certificate succeeds and changes
/// nothing.
pub proof fn law_revoke_is_idempotent(state: RegistryModel, id: Identifier)
    requires
        state.revoke(id, true).0 is Ok,
    ensures
        state.revoke(id, true).1.revoke(id, true) == (
            Ok::<(), RegistryError>(()),
            state.revoke(id, true).1,
        ),
{
    let once = state.revoke(id, true).1;
    let twice = once.revoke(id, true).1;
    assert(twice.records =~= once.records);
}

/// A revoked certificate can be deactivated, and is then off file.
pub proof fn law_revoked_can_be_deactivated(state: RegistryModel, id: Identifier)
    requires
        state.revoke(id, true).0 is Ok,
    ensures
        state.revoke(id, true).1.deactivate(id, true).0 is Ok,
        !state.revoke(id, true).1.deactivate(id, true).1.records.contains_key(id),
{
}

/// No operation moves a certificate against the order of its life: from
/// not yet registered to active, from active to revoked, from active or
/// revoked to deactivated, and never back.
pub proof fn law_transitions_are_one_way(
    state: RegistryModel,
    operation: Operation,
    id: Identifier,
)
    requires
        state.wf(),
        !state.exhausted(),
    ensures
        may_follow(state.status(id), step(state, operation).1.status(id)),
{
}

} // verus!
