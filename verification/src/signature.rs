//! Proof of possession: what a holder signs, and how the signature is checked.

use crate::identifier::Identifier;
use vstd::bytes::spec_u64_to_le_bytes;
use vstd::prelude::*;
use x509_parser::der_parser::asn1_rs::{BitString, FromDer};
use x509_parser::x509::{AlgorithmIdentifier, SubjectPublicKeyInfo};

verus! {

/// The bytes that a signature authorizing a change to `id` must cover: the
/// identifier as eight octets, least significant first.
pub open spec fn preimage(id: Identifier) -> Seq<u8> {
    spec_u64_to_le_bytes(id)
}

/// Whether `signature` is a valid signature over `message` under the key in
/// `public_key_info`, by the algorithm that `algorithm` names. Both are DER;
/// where either does not parse, or the algorithm is none that the
/// verification library supports, the answer is no.
pub uninterp spec fn signature_verifies(
    public_key_info: Seq<u8>,
    algorithm: Seq<u8>,
    message: Seq<u8>,
    signature: Seq<u8>,
) -> bool;

/// `Encode::encode` of parity-scale-codec on a `u64`: its eight octets, least
/// significant first.
#[verifier::external_body]
fn scale_encode(id: Identifier) -> (res: Vec<u8>)
    ensures
        res@ == spec_u64_to_le_bytes(id),
{
    parity_scale_codec::Encode::encode(&id)
}

/// `verify_signature` of x509-parser, on the public key information and the
/// algorithm identifier that it reads from the given DER.
#[verifier::external_body]
pub(crate) fn verify_signature(
    public_key_info: &[u8],
    algorithm: &[u8],
    message: &[u8],
    signature: &[u8],
) -> (valid: bool)
    ensures
        valid == signature_verifies(public_key_info@, algorithm@, message@, signature@),
{
    let Ok((_, key)) = SubjectPublicKeyInfo::from_der(public_key_info) else {
        return false;
    };
    let Ok((_, algorithm)) = AlgorithmIdentifier::from_der(algorithm) else {
        return false;
    };
    let signature = BitString::new(0, signature);
    x509_parser::verify::verify_signature(&key, &algorithm, &signature, message).is_ok()
}

/// The bytes that a signature authorizing a change to `id` must cover.
pub fn identifier_preimage(id: Identifier) -> (res: Vec<u8>)
    ensures
        res@ == preimage(id),
{
    scale_encode(id)
}

} // verus!
