//! The parts of a certificate body that the registry keeps.

use vstd::prelude::*;
use x509_parser::certificate::TbsCertificate;
use x509_parser::der_parser::asn1_rs::FromDer;

verus! {

/// What the registry reads from a to-be-signed certificate body.
pub struct CertificateFields {
    /// The subject's public key information, as the DER found in the body.
    pub subject_public_key_info: Vec<u8>,
    /// The content of the subject's first common name, where it has one.
    pub subject_common_identifier: Option<Vec<u8>>,
    /// The serial number, as the big-endian octets found in the body.
    pub serial: Vec<u8>,
}

/// What a [`CertificateFields`] value stands for.
pub struct FieldsModel {
    pub subject_public_key_info: Seq<u8>,
    pub subject_common_identifier: Option<Seq<u8>>,
    pub serial: Seq<u8>,
}

/// The model of an optional name.
pub open spec fn name_view(name: Option<Vec<u8>>) -> Option<Seq<u8>> {
    match name {
        Some(n) => Some(n@),
        None => None,
    }
}

impl View for CertificateFields {
    type V = FieldsModel;

    open spec fn view(&self) -> FieldsModel {
        FieldsModel {
            subject_public_key_info: self.subject_public_key_info@,
            subject_common_identifier: name_view(self.subject_common_identifier),
            serial: self.serial@,
        }
    }
}

/// The model of optional certificate fields.
pub open spec fn fields_view(fields: Option<CertificateFields>) -> Option<FieldsModel> {
    match fields {
        Some(f) => Some(f@),
        None => None,
    }
}

/// What the parsing library reads from `body` as a to-be-signed certificate,
/// or `None` where it reads none.
pub uninterp spec fn parsed_certificate(body: Seq<u8>) -> Option<FieldsModel>;

/// `TbsCertificate::from_der` of x509-parser. From the certificate read at
/// the start of `body` it hands out the raw public key information, the
/// content of the first common name of the subject if there is one, and the
/// raw serial. A body that does not parse gives `None`.
#[verifier::external_body]
pub(crate) fn read_certificate_body(body: &[u8]) -> (res: Option<CertificateFields>)
    ensures
        fields_view(res) == parsed_certificate(body@),
{
    let (_, tbs) = TbsCertificate::from_der(body).ok()?;
    let subject_common_identifier = match tbs.subject.iter_common_name().next() {
        Some(name) => Some(name.as_slice().to_vec()),
        None => None,
    };
    Some(
        CertificateFields {
            subject_public_key_info: tbs.subject_pki.raw.to_vec(),
            subject_common_identifier,
            serial: tbs.raw_serial().to_vec(),
        },
    )
}

} // verus!
