//! The failures that registry operations report.

use vstd::prelude::*;

verus! {

/// Why a registry operation was refused. A refused operation leaves the
/// registry as it was.
#[derive(Clone, Copy, Debug, PartialEq, Eq, Structural)]
pub enum RegistryError {
    /// A field of the request is empty or cannot be read.
    MalformedRequest,
    /// A leaf names an issuer that the registry does not hold, or holds as revoked.
    IssuerNotFound,
    /// No record is stored under the identifier.
    RecordNotFound,
    /// A record is already stored under the identifier.
    AlreadyExists,
    /// The algorithm identifier could not be brought into its canonical bytes.
    EncodingError,
    /// The signature does not verify under the record's own key.
    InvalidSignature,
}

} // verus!
