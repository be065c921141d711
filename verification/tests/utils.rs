use jpegxl_rs::types::JxlSignature;
use jpegxl_rs::utils::{check_signature, check_valid_signature};

const CONTAINER: [u8; 12] = [0, 0, 0, 0x0C, b'J', b'X', b'L', b' ', 0x0D, 0x0A, 0x87, 0x0A];

#[test]
fn test_signature() {
    assert!(check_valid_signature(&[]).is_none());
    assert_eq!(check_valid_signature(&[0; 64]), Some(false));
    // The start of a bare codestream.
    assert_eq!(check_valid_signature(&[0xff, 0x0a, 0xfa, 0x1f, 0x42, 0x40]), Some(true));
}

#[test]
fn signature_kinds() {
    assert_eq!(check_signature(&[]), JxlSignature::NotEnoughBytes);
    assert_eq!(check_signature(&[0xff]), JxlSignature::NotEnoughBytes);
    assert_eq!(check_signature(&[0xff, 0x0a]), JxlSignature::Codestream);
    assert_eq!(check_signature(&[0xff, 0xd8]), JxlSignature::Invalid);
    assert_eq!(check_signature(&[0x00, 0x00]), JxlSignature::NotEnoughBytes);
    assert_eq!(check_signature(&CONTAINER[..11]), JxlSignature::NotEnoughBytes);
    assert_eq!(check_signature(&CONTAINER), JxlSignature::Container);
    let mut bad = CONTAINER;
    bad[4] = b'j';
    assert_eq!(check_signature(&bad), JxlSignature::Invalid);
    assert_eq!(check_signature(&[0x89, b'P', b'N', b'G']), JxlSignature::Invalid);
}

#[test]
fn signature_stable_under_more_bytes() {
    let mut data = CONTAINER.to_vec();
    data.extend_from_slice(&[1, 2, 3, 4]);
    assert_eq!(check_signature(&data), JxlSignature::Container);
    assert_eq!(check_valid_signature(&[0xff, 0x0a, 0, 0]), check_valid_signature(&[0xff, 0x0a]));
    assert_eq!(check_valid_signature(&[7, 0, 0]), check_valid_signature(&[7]));
}
