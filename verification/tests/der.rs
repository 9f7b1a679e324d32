//! The DER bytes of algorithm identifiers.

use auto_id::der::{
    algorithm_to_der, canonicalize_algorithm, confirm_round_trip, encode_length, encode_tlv,
    same_algorithm, same_bytes, AlgorithmIdentifier, Parameters, OID_TAG, SEQUENCE_TAG,
};
use auto_id::error::RegistryError;
use x509_parser::prelude::FromDer;

/// 1.2.840.113549.1.1.11, sha256WithRSAEncryption.
const SHA256_WITH_RSA: [u8; 9] = [0x2a, 0x86, 0x48, 0x86, 0xf7, 0x0d, 0x01, 0x01, 0x0b];

/// 1.2.840.10045.2.1, id-ecPublicKey.
const EC_PUBLIC_KEY: [u8; 7] = [0x2a, 0x86, 0x48, 0xce, 0x3d, 0x02, 0x01];

/// 1.2.840.10045.3.1.7, prime256v1.
const PRIME256V1: [u8; 8] = [0x2a, 0x86, 0x48, 0xce, 0x3d, 0x03, 0x01, 0x07];

fn null() -> Parameters {
    Parameters { class: 0, constructed: false, tag: 5, content: Vec::new() }
}

fn octets(tag: u32, length: usize) -> Parameters {
    Parameters { class: 0, constructed: false, tag, content: vec![0xab; length] }
}

fn rsa_with(parameters: Option<Parameters>) -> AlgorithmIdentifier {
    AlgorithmIdentifier { algorithm: SHA256_WITH_RSA.to_vec(), parameters }
}

/// Reads `bytes` with the parsing library and hands out the parts.
fn decode(bytes: &[u8]) -> AlgorithmIdentifier {
    let (rest, parsed) = x509_parser::x509::AlgorithmIdentifier::from_der(bytes).unwrap();
    assert!(rest.is_empty());
    AlgorithmIdentifier {
        algorithm: parsed.algorithm.as_bytes().to_vec(),
        parameters: parsed.parameters.as_ref().map(|any| Parameters {
            class: any.class() as u8,
            constructed: any.header.is_constructed(),
            tag: any.tag().0,
            content: any.data.to_vec(),
        }),
    }
}

#[test]
fn tags_are_the_der_identifier_octets() {
    assert_eq!(SEQUENCE_TAG, 0x30);
    assert_eq!(OID_TAG, 0x06);
}

#[test]
fn short_lengths_take_one_octet() {
    assert_eq!(encode_length(0), vec![0x00]);
    assert_eq!(encode_length(1), vec![0x01]);
    assert_eq!(encode_length(13), vec![0x0d]);
    assert_eq!(encode_length(127), vec![0x7f]);
}

#[test]
fn long_lengths_take_the_fewest_octets() {
    assert_eq!(encode_length(128), vec![0x81, 0x80]);
    assert_eq!(encode_length(200), vec![0x81, 0xc8]);
    assert_eq!(encode_length(255), vec![0x81, 0xff]);
    assert_eq!(encode_length(256), vec![0x82, 0x01, 0x00]);
    assert_eq!(encode_length(300), vec![0x82, 0x01, 0x2c]);
    assert_eq!(encode_length(65_535), vec![0x82, 0xff, 0xff]);
    assert_eq!(encode_length(65_536), vec![0x83, 0x01, 0x00, 0x00]);
    assert_eq!(encode_length(0x0102_0304), vec![0x84, 0x01, 0x02, 0x03, 0x04]);
}

#[test]
fn largest_length_has_as_many_octets_as_the_machine_word() {
    let octets = encode_length(usize::MAX);
    let width = std::mem::size_of::<usize>();
    assert_eq!(octets.len(), 1 + width);
    assert_eq!(octets[0], 0x80 + width as u8);
    assert!(octets[1..].iter().all(|octet| *octet == 0xff));
}

#[test]
fn tlv_frames_the_content() {
    assert_eq!(encode_tlv(0x30, &[]), vec![0x30, 0x00]);
    assert_eq!(encode_tlv(0x04, &[1, 2, 3]), vec![0x04, 0x03, 1, 2, 3]);
    let long = vec![7u8; 130];
    let framed = encode_tlv(0x30, &long);
    assert_eq!(framed[..3], [0x30, 0x81, 0x82]);
    assert_eq!(framed[3..], long[..]);
}

#[test]
fn same_bytes_compares_octet_by_octet() {
    assert!(same_bytes(&[], &[]));
    assert!(same_bytes(&[1, 2, 3], &[1, 2, 3]));
    assert!(!same_bytes(&[1, 2, 3], &[1, 2, 4]));
    assert!(!same_bytes(&[1, 2, 3], &[1, 2]));
    assert!(!same_bytes(&[], &[0]));
}

#[test]
fn same_algorithm_compares_every_part() {
    let base = rsa_with(Some(null()));
    assert!(same_algorithm(&base, &rsa_with(Some(null()))));
    assert!(!same_algorithm(&base, &rsa_with(None)));
    assert!(!same_algorithm(&rsa_with(None), &base));
    assert!(same_algorithm(&rsa_with(None), &rsa_with(None)));
    let other_oid =
        AlgorithmIdentifier { algorithm: EC_PUBLIC_KEY.to_vec(), parameters: Some(null()) };
    assert!(!same_algorithm(&base, &other_oid));
    for changed in [
        Parameters { class: 2, ..null() },
        Parameters { constructed: true, ..null() },
        Parameters { tag: 4, ..null() },
        Parameters { content: vec![0], ..null() },
    ] {
        assert!(!same_algorithm(&base, &rsa_with(Some(changed))));
    }
}

#[test]
fn identifier_without_parameters() {
    assert_eq!(
        algorithm_to_der(&rsa_with(None)),
        Ok(vec![0x30, 0x0b, 0x06, 0x09, 0x2a, 0x86, 0x48, 0x86, 0xf7, 0x0d, 0x01, 0x01, 0x0b])
    );
}

#[test]
fn identifier_with_null_parameters() {
    assert_eq!(
        algorithm_to_der(&rsa_with(Some(null()))),
        Ok(vec![
            0x30, 0x0d, 0x06, 0x09, 0x2a, 0x86, 0x48, 0x86, 0xf7, 0x0d, 0x01, 0x01, 0x0b, 0x05,
            0x00
        ])
    );
}

#[test]
fn identifier_with_a_curve_as_parameters() {
    let algorithm = AlgorithmIdentifier {
        algorithm: EC_PUBLIC_KEY.to_vec(),
        parameters: Some(Parameters {
            class: 0,
            constructed: false,
            tag: 6,
            content: PRIME256V1.to_vec(),
        }),
    };
    assert_eq!(
        algorithm_to_der(&algorithm),
        Ok(vec![
            0x30, 0x13, 0x06, 0x07, 0x2a, 0x86, 0x48, 0xce, 0x3d, 0x02, 0x01, 0x06, 0x08, 0x2a,
            0x86, 0x48, 0xce, 0x3d, 0x03, 0x01, 0x07
        ])
    );
}

#[test]
fn identifier_with_constructed_parameters() {
    let parameters =
        Parameters { class: 0, constructed: true, tag: 16, content: vec![0x02, 0x01, 0x20] };
    assert_eq!(
        algorithm_to_der(&rsa_with(Some(parameters))),
        Ok(vec![
            0x30, 0x10, 0x06, 0x09, 0x2a, 0x86, 0x48, 0x86, 0xf7, 0x0d, 0x01, 0x01, 0x0b, 0x30,
            0x03, 0x02, 0x01, 0x20
        ])
    );
}

#[test]
fn identifier_with_tagged_parameters() {
    let parameters = Parameters { class: 2, constructed: true, tag: 3, content: vec![0x05, 0x00] };
    let encoded = algorithm_to_der(&rsa_with(Some(parameters))).unwrap();
    assert_eq!(encoded[..2], [0x30, 0x0f]);
    assert_eq!(encoded[13..], [0xa3, 0x02, 0x05, 0x00]);
}

#[test]
fn content_of_127_octets_has_a_short_length() {
    // 11 octets of object identifier, 2 of header, 114 of parameters.
    let encoded = algorithm_to_der(&rsa_with(Some(octets(4, 114)))).unwrap();
    assert_eq!(encoded.len(), 2 + 127);
    assert_eq!(encoded[..2], [0x30, 0x7f]);
    assert_eq!(encoded[13..15], [0x04, 0x72]);
}

#[test]
fn content_of_128_octets_has_a_long_length() {
    let encoded = algorithm_to_der(&rsa_with(Some(octets(4, 115)))).unwrap();
    assert_eq!(encoded.len(), 3 + 128);
    assert_eq!(encoded[..3], [0x30, 0x81, 0x80]);
    assert_eq!(encoded[14..16], [0x04, 0x73]);
}

#[test]
fn content_above_255_octets_has_a_length_of_two_octets() {
    let encoded = algorithm_to_der(&rsa_with(Some(octets(4, 300)))).unwrap();
    // Parameters: 04 82 01 2c and 300 octets. Content: 11 + 304 = 315 = 0x013b.
    assert_eq!(encoded[..4], [0x30, 0x82, 0x01, 0x3b]);
    assert_eq!(encoded[4..15], [0x06, 0x09, 0x2a, 0x86, 0x48, 0x86, 0xf7, 0x0d, 0x01, 0x01, 0x0b]);
    assert_eq!(encoded[15..19], [0x04, 0x82, 0x01, 0x2c]);
    assert_eq!(encoded.len(), 4 + 315);
    assert!(encoded[19..].iter().all(|octet| *octet == 0xab));
}

#[test]
fn tag_numbers_above_30_take_further_octets() {
    let encoded = algorithm_to_der(&rsa_with(Some(octets(31, 1)))).unwrap();
    assert_eq!(encoded[13..], [0x1f, 0x1f, 0x01, 0xab]);
    let encoded = algorithm_to_der(&rsa_with(Some(octets(127, 1)))).unwrap();
    assert_eq!(encoded[13..], [0x1f, 0x7f, 0x01, 0xab]);
    let encoded = algorithm_to_der(&rsa_with(Some(octets(128, 1)))).unwrap();
    assert_eq!(encoded[13..], [0x1f, 0x81, 0x00, 0x01, 0xab]);
    let encoded = algorithm_to_der(&rsa_with(Some(octets(16_384, 1)))).unwrap();
    assert_eq!(encoded[13..], [0x1f, 0x81, 0x80, 0x00, 0x01, 0xab]);
    let private = Parameters { class: 3, constructed: true, tag: 201, content: Vec::new() };
    let encoded = algorithm_to_der(&rsa_with(Some(private))).unwrap();
    assert_eq!(encoded[13..], [0xff, 0x81, 0x49, 0x00]);
}

#[test]
fn unknown_class_cannot_be_encoded() {
    for class in [4u8, 5, 64, 255] {
        let parameters = Parameters { class, ..null() };
        assert_eq!(
            algorithm_to_der(&rsa_with(Some(parameters))),
            Err(RegistryError::EncodingError)
        );
    }
}

#[test]
fn what_is_encoded_decodes_to_itself() {
    let samples = vec![
        rsa_with(None),
        rsa_with(Some(null())),
        rsa_with(Some(octets(4, 127))),
        rsa_with(Some(octets(4, 128))),
        rsa_with(Some(octets(4, 70_000))),
        rsa_with(Some(octets(31, 3))),
        rsa_with(Some(Parameters { class: 1, constructed: true, tag: 1_000, content: vec![1] })),
        AlgorithmIdentifier { algorithm: vec![0x2b], parameters: None },
        AlgorithmIdentifier { algorithm: EC_PUBLIC_KEY.to_vec(), parameters: Some(octets(6, 8)) },
    ];
    for sample in samples {
        let encoded = algorithm_to_der(&sample).unwrap();
        assert!(same_algorithm(&decode(&encoded), &sample));
        assert_eq!(canonicalize_algorithm(&encoded), Ok(encoded));
    }
}

#[test]
fn round_trip_is_confirmed_only_for_the_same_identifier() {
    let algorithm = rsa_with(Some(null()));
    let encoded = vec![1, 2, 3];
    assert_eq!(
        confirm_round_trip(&algorithm, encoded.clone(), &Some(rsa_with(Some(null())))),
        Ok(encoded.clone())
    );
    assert_eq!(
        confirm_round_trip(&algorithm, encoded.clone(), &Some(rsa_with(None))),
        Err(RegistryError::EncodingError)
    );
    assert_eq!(
        confirm_round_trip(&algorithm, encoded, &None),
        Err(RegistryError::EncodingError)
    );
}

#[test]
fn canonical_bytes_do_not_depend_on_the_callers_encoder() {
    let canonical =
        vec![0x30, 0x0d, 0x06, 0x09, 0x2a, 0x86, 0x48, 0x86, 0xf7, 0x0d, 0x01, 0x01, 0x0b, 0x05, 0x00];
    assert_eq!(canonicalize_algorithm(&canonical), Ok(canonical.clone()));
    // Lengths in the long form.
    let loose = vec![
        0x30, 0x81, 0x0f, 0x06, 0x81, 0x09, 0x2a, 0x86, 0x48, 0x86, 0xf7, 0x0d, 0x01, 0x01, 0x0b,
        0x05, 0x81, 0x00,
    ];
    assert_eq!(canonicalize_algorithm(&loose), Ok(canonical.clone()));
    // Bytes after the identifier.
    let mut trailed = canonical.clone();
    trailed.extend_from_slice(&[0xde, 0xad]);
    assert_eq!(canonicalize_algorithm(&trailed), Ok(canonical));
}

#[test]
fn unreadable_algorithm_bytes_are_malformed() {
    assert_eq!(canonicalize_algorithm(&[]), Err(RegistryError::MalformedRequest));
    assert_eq!(canonicalize_algorithm(&[0xff, 0xff]), Err(RegistryError::MalformedRequest));
    assert_eq!(canonicalize_algorithm(&[0x30, 0x05, 0x06]), Err(RegistryError::MalformedRequest));
    // A SET where the SEQUENCE should be.
    assert_eq!(
        canonicalize_algorithm(&[0x31, 0x03, 0x06, 0x01, 0x2b]),
        Err(RegistryError::MalformedRequest)
    );
}
