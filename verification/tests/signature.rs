//! The preimage that a holder signs.

use auto_id::signature::identifier_preimage;
use parity_scale_codec::Encode;

#[test]
fn preimage_is_the_identifier_in_eight_octets_least_first() {
    assert_eq!(identifier_preimage(0), vec![0, 0, 0, 0, 0, 0, 0, 0]);
    assert_eq!(identifier_preimage(1), vec![1, 0, 0, 0, 0, 0, 0, 0]);
    assert_eq!(identifier_preimage(256), vec![0, 1, 0, 0, 0, 0, 0, 0]);
    assert_eq!(
        identifier_preimage(0x0102_0304_0506_0708),
        vec![0x08, 0x07, 0x06, 0x05, 0x04, 0x03, 0x02, 0x01]
    );
    assert_eq!(identifier_preimage(u64::MAX), vec![0xff; 8]);
}

#[test]
fn preimage_is_the_scale_encoding() {
    for id in [0u64, 1, 255, 256, 65_537, 1 << 40, u64::MAX] {
        assert_eq!(identifier_preimage(id), id.encode());
    }
}

#[test]
fn preimages_of_different_identifiers_differ() {
    assert_ne!(identifier_preimage(1), identifier_preimage(2));
    assert_ne!(identifier_preimage(1), identifier_preimage(1 << 8));
}
