//! Canonical DER bytes of algorithm identifiers.
//!
//! The parsing library reads an algorithm identifier but cannot write one
//! back. This module writes it: the object identifier and the optional
//! parameters are encoded by the ASN.1 library, and the enclosing SEQUENCE
//! is framed here. The bytes are handed out only after the parser has read
//! them back to the value they were made from.

use crate::error::RegistryError;
use std::borrow::Cow;
use vstd::prelude::*;
use x509_parser::der_parser::asn1_rs::{Any, Class, FromDer, Header, Length, Oid, Tag, ToDer};

verus! {

/// The identifier octet of a universal, constructed SEQUENCE.
pub const SEQUENCE_TAG: u8 = 0x30;

/// The identifier octet of a universal, primitive OBJECT IDENTIFIER.
pub const OID_TAG: u8 = 0x06;

/// The parameters of an algorithm: any single ASN.1 value, held as the parts
/// of its header and its content octets.
pub struct Parameters {
    /// Tag class: 0 universal, 1 application, 2 context-specific, 3 private.
    pub class: u8,
    /// Whether the value is constructed from other values.
    pub constructed: bool,
    /// Tag number.
    pub tag: u32,
    /// Content octets, without header.
    pub content: Vec<u8>,
}

/// An algorithm object identifier with its optional parameters.
pub struct AlgorithmIdentifier {
    /// Content octets of the object identifier.
    pub algorithm: Vec<u8>,
    /// Parameters that the algorithm defines, if any.
    pub parameters: Option<Parameters>,
}

/// What a [`Parameters`] value stands for.
pub struct ParametersModel {
    pub class: u8,
    pub constructed: bool,
    pub tag: u32,
    pub content: Seq<u8>,
}

/// What an [`AlgorithmIdentifier`] stands for.
pub struct AlgorithmModel {
    pub algorithm: Seq<u8>,
    pub parameters: Option<ParametersModel>,
}

impl View for Parameters {
    type V = ParametersModel;

    open spec fn view(&self) -> ParametersModel {
        ParametersModel {
            class: self.class,
            constructed: self.constructed,
            tag: self.tag,
            content: self.content@,
        }
    }
}

impl View for AlgorithmIdentifier {
    type V = AlgorithmModel;

    open spec fn view(&self) -> AlgorithmModel {
        AlgorithmModel {
            algorithm: self.algorithm@,
            parameters: match self.parameters {
                Some(p) => Some(p@),
                None => None,
            },
        }
    }
}

/// The digits of `n` in base 256, most significant first and without leading
/// zeros; no digit at all for zero.
pub open spec fn big_endian(n: nat) -> Seq<u8>
    decreases n,
{
    if n == 0 {
        Seq::empty()
    } else {
        big_endian(n / 256).push((n % 256) as u8)
    }
}

/// The DER length octets for a content of `n` octets: `n` itself up to 127,
/// and above that the count of digits with the high bit set, then the digits.
pub open spec fn length_octets(n: nat) -> Seq<u8> {
    if n <= 127 {
        seq![n as u8]
    } else {
        seq![(0x80 + big_endian(n).len()) as u8] + big_endian(n)
    }
}

/// The base-128 digits of `t`, most significant first, each with the
/// continuation bit set; no digit at all for zero.
pub open spec fn continued_groups(t: nat) -> Seq<u8>
    decreases t,
{
    if t == 0 {
        Seq::empty()
    } else {
        continued_groups(t / 128).push((0x80 + t % 128) as u8)
    }
}

/// The identifier octets of a header: class in the two high bits, the
/// constructed flag below them, then the tag number, or 31 and the tag number
/// in base 128 where it is above 30.
pub open spec fn identifier_octets(class: u8, constructed: bool, tag: u32) -> Seq<u8> {
    let lead = class * 64 + if constructed { 32int } else { 0int };
    if tag <= 30 {
        seq![(lead + tag) as u8]
    } else {
        seq![(lead + 31) as u8] + continued_groups(tag as nat / 128).push((tag % 128) as u8)
    }
}

/// Identifier octets, the length of the content, the content.
pub open spec fn tlv(identifier: Seq<u8>, content: Seq<u8>) -> Seq<u8> {
    identifier + length_octets(content.len()) + content
}

/// The DER encoding of an object identifier with the given content.
pub open spec fn oid_octets(content: Seq<u8>) -> Seq<u8> {
    tlv(seq![OID_TAG], content)
}

/// Whether parameters can be encoded: absent ones can, present ones where
/// the class is one of the four that exist.
pub open spec fn parameters_encodable(parameters: Option<ParametersModel>) -> bool {
    parameters matches Some(p) ==> p.class <= 3
}

/// The DER encoding of optional parameters: nothing where there are none.
pub open spec fn parameters_octets(parameters: Option<ParametersModel>) -> Seq<u8> {
    match parameters {
        None => Seq::empty(),
        Some(p) => tlv(identifier_octets(p.class, p.constructed, p.tag), p.content),
    }
}

/// The SEQUENCE of the object identifier and the parameters.
pub open spec fn algorithm_octets(algorithm: AlgorithmModel) -> Seq<u8> {
    tlv(
        seq![SEQUENCE_TAG],
        oid_octets(algorithm.algorithm) + parameters_octets(algorithm.parameters),
    )
}

/// What the parsing library reads from `bytes` as an algorithm identifier at
/// their start, or `None` where it reads none.
pub uninterp spec fn decoded_algorithm(bytes: Seq<u8>) -> Option<AlgorithmModel>;

/// The canonical bytes of an algorithm identifier: its SEQUENCE, provided the
/// parameters can be encoded and the parser reads the same identifier back.
pub open spec fn algorithm_der(algorithm: AlgorithmModel) -> Result<Seq<u8>, RegistryError> {
    if parameters_encodable(algorithm.parameters) && decoded_algorithm(
        algorithm_octets(algorithm),
    ) == Some(algorithm) {
        Ok(algorithm_octets(algorithm))
    } else {
        Err(RegistryError::EncodingError)
    }
}

/// The canonical bytes for caller-supplied algorithm bytes: those of the
/// identifier that the parser reads from them.
pub open spec fn canonical_algorithm(bytes: Seq<u8>) -> Result<Seq<u8>, RegistryError> {
    match decoded_algorithm(bytes) {
        None => Err(RegistryError::MalformedRequest),
        Some(algorithm) => algorithm_der(algorithm),
    }
}

/// `Oid::to_der_vec` of asn1-rs, on the object identifier with the given
/// content octets. It writes the identifier octet 0x06, the minimal length
/// octets and the content into a fresh vector, which cannot fail.
#[verifier::external_body]
fn oid_to_der(content: &Vec<u8>) -> (res: Option<Vec<u8>>)
    ensures
        encoding_view(res) == Some(oid_octets(content@)),
{
    Oid::new(Cow::Borrowed(content.as_slice())).to_der_vec().ok()
}

/// `to_der_vec` of asn1-rs on an optional `Any`. Nothing is written for
/// absent parameters. For present ones the header is written from class,
/// constructed flag, tag number and the length of the content, then the
/// content. A class above 3 is none that asn1-rs knows, and gives `None`.
#[verifier::external_body]
fn parameters_to_der(parameters: &Option<Parameters>) -> (res: Option<Vec<u8>>)
    ensures
        encoding_view(res) == if parameters_encodable(parameters_view(*parameters)) {
            Some(parameters_octets(parameters_view(*parameters)))
        } else {
            None
        },
{
    let any = match parameters {
        None => None,
        Some(p) => {
            let class = Class::try_from(p.class).ok()?;
            let length = Length::Definite(p.content.len());
            let header = Header::new(class, p.constructed, Tag(p.tag), length);
            Some(Any::new(header, p.content.as_slice()))
        },
    };
    any.to_der_vec().ok()
}

/// `AlgorithmIdentifier::from_der` of x509-parser. The identifier read at the
/// start of `bytes` is handed out field by field; what follows it is ignored.
#[verifier::external_body]
fn decode_algorithm(bytes: &[u8]) -> (res: Option<AlgorithmIdentifier>)
    ensures
        algorithm_view(res) == decoded_algorithm(bytes@),
{
    let (_, parsed) = x509_parser::x509::AlgorithmIdentifier::from_der(bytes).ok()?;
    let parameters = match parsed.parameters {
        None => None,
        Some(any) => Some(
            Parameters {
                class: any.class() as u8,
                constructed: any.header.is_constructed(),
                tag: any.tag().0,
                content: any.data.to_vec(),
            },
        ),
    };
    Some(AlgorithmIdentifier { algorithm: parsed.algorithm.as_bytes().to_vec(), parameters })
}

/// The model of optional parameters.
pub open spec fn parameters_view(parameters: Option<Parameters>) -> Option<ParametersModel> {
    match parameters {
        Some(p) => Some(p@),
        None => None,
    }
}

/// The model of an optional algorithm identifier.
pub open spec fn algorithm_view(algorithm: Option<AlgorithmIdentifier>) -> Option<AlgorithmModel> {
    match algorithm {
        Some(a) => Some(a@),
        None => None,
    }
}

/// The model of what an encoder of the ASN.1 library returned.
pub open spec fn encoding_view(encoding: Option<Vec<u8>>) -> Option<Seq<u8>> {
    match encoding {
        Some(v) => Some(v@),
        None => None,
    }
}

/// The model of an encoding result.
pub open spec fn bytes_view(result: Result<Vec<u8>, RegistryError>) -> Result<
    Seq<u8>,
    RegistryError,
> {
    match result {
        Ok(v) => Ok(v@),
        Err(e) => Err(e),
    }
}

/// A number below 256 to the power of 8 has at most 8 digits in base 256.
proof fn lemma_big_endian_len(n: nat)
    requires
        n <= u64::MAX,
    ensures
        big_endian(n).len() <= 8,
        n > 0 ==> big_endian(n).len() >= 1,
{
    reveal_with_fuel(big_endian, 10);
}

/// The digits of `n` in base 256, most significant first.
fn big_endian_bytes(n: usize) -> (res: Vec<u8>)
    ensures
        res@ == big_endian(n as nat),
    decreases n,
{
    if n == 0 {
        Vec::new()
    } else {
        let mut digits = big_endian_bytes(n / 256);
        digits.push((n % 256) as u8);
        digits
    }
}

/// The DER length octets for a content of `n` octets.
pub fn encode_length(n: usize) -> (res: Vec<u8>)
    ensures
        res@ == length_octets(n as nat),
{
    let mut octets: Vec<u8> = Vec::new();
    if n <= 127 {
        octets.push(n as u8);
    } else {
        let mut digits = big_endian_bytes(n);
        proof {
            lemma_big_endian_len(n as nat);
        }
        octets.push((0x80 + digits.len()) as u8);
        octets.append(&mut digits);
    }
    assert(octets@ =~= length_octets(n as nat));
    octets
}

/// Frames `content` with a one-octet identifier and its length.
pub fn encode_tlv(identifier: u8, content: &[u8]) -> (res: Vec<u8>)
    ensures
        res@ == tlv(seq![identifier], content@),
{
    let mut framed: Vec<u8> = Vec::new();
    framed.push(identifier);
    let mut length = encode_length(content.len());
    framed.append(&mut length);
    framed.extend_from_slice(content);
    assert(framed@ =~= tlv(seq![identifier], content@));
    framed
}

/// Whether two byte strings hold the same octets.
pub fn same_bytes(a: &[u8], b: &[u8]) -> (same: bool)
    ensures
        same == (a@ == b@),
{
    if a.len() != b.len() {
        return false;
    }
    let mut i: usize = 0;
    while i < a.len()
        invariant
            i <= a.len(),
            a.len() == b.len(),
            forall|j: int| 0 <= j < i ==> a@[j] == b@[j],
        decreases a.len() - i,
    {
        if a[i] != b[i] {
            return false;
        }
        i += 1;
    }
    assert(a@ =~= b@);
    true
}

/// Whether two parameter values are the same in every part.
fn same_parameters(a: &Option<Parameters>, b: &Option<Parameters>) -> (same: bool)
    ensures
        same == (parameters_view(*a) == parameters_view(*b)),
{
    match (a, b) {
        (None, None) => true,
        (Some(p), Some(q)) => {
            p.class == q.class && p.constructed == q.constructed && p.tag == q.tag && same_bytes(
                p.content.as_slice(),
                q.content.as_slice(),
            )
        },
        _ => false,
    }
}

/// Whether two algorithm identifiers are the same in every part.
pub fn same_algorithm(a: &AlgorithmIdentifier, b: &AlgorithmIdentifier) -> (same: bool)
    ensures
        same == (a@ == b@),
{
    same_bytes(a.algorithm.as_slice(), b.algorithm.as_slice()) && same_parameters(
        &a.parameters,
        &b.parameters,
    )
}

/// Hands out `encoded` if `decoded`, which the parser read from it, is the
/// identifier that it was made from.
pub fn confirm_round_trip(
    algorithm: &AlgorithmIdentifier,
    encoded: Vec<u8>,
    decoded: &Option<AlgorithmIdentifier>,
) -> (res: Result<Vec<u8>, RegistryError>)
    ensures
        algorithm_view(*decoded) == Some(algorithm@) ==> res == Ok::<Vec<u8>, RegistryError>(
            encoded,
        ),
        algorithm_view(*decoded) != Some(algorithm@) ==> res == Err::<Vec<u8>, RegistryError>(
            RegistryError::EncodingError,
        ),
{
    match decoded {
        Some(read_back) => {
            if same_algorithm(algorithm, read_back) {
                Ok(encoded)
            } else {
                Err(RegistryError::EncodingError)
            }
        },
        None => Err(RegistryError::EncodingError),
    }
}

/// Encodes an algorithm identifier as a DER SEQUENCE.
///
/// The result is the SEQUENCE of the encoded object identifier and
/// parameters, with a short length up to 127 content octets and a minimal
/// long length above. It is handed out if and only if the parameters can be
/// encoded and the parser reads the identifier back from the bytes;
/// otherwise the operation fails as a whole.
pub fn algorithm_to_der(algorithm: &AlgorithmIdentifier) -> (res: Result<Vec<u8>, RegistryError>)
    ensures
        bytes_view(res) == algorithm_der(algorithm@),
{
    let mut content = match oid_to_der(&algorithm.algorithm) {
        Some(v) => v,
        None => {
            return Err(RegistryError::EncodingError);
        },
    };
    let mut parameters = match parameters_to_der(&algorithm.parameters) {
        Some(v) => v,
        None => {
            return Err(RegistryError::EncodingError);
        },
    };
    content.append(&mut parameters);
    let encoded = encode_tlv(SEQUENCE_TAG, content.as_slice());
    let decoded = decode_algorithm(encoded.as_slice());
    confirm_round_trip(algorithm, encoded, &decoded)
}

/// Reads an algorithm identifier from caller-supplied bytes and encodes it
/// anew, so that what is stored does not depend on how the caller's encoder
/// wrote it.
pub fn canonicalize_algorithm(bytes: &[u8]) -> (res: Result<Vec<u8>, RegistryError>)
    ensures
        bytes_view(res) == canonical_algorithm(bytes@),
{
    match decode_algorithm(bytes) {
        None => Err(RegistryError::MalformedRequest),
        Some(algorithm) => algorithm_to_der(&algorithm),
    }
}

} // verus!
