use comrak_capi::utf8::copy_bytes;
use comrak_capi::utf8::validate_utf8;

fn agrees_with_std(bytes: &[u8]) {
    assert_eq!(validate_utf8(bytes), std::str::from_utf8(bytes).is_ok());
}

#[test]
fn accepts_ascii() {
    assert!(validate_utf8(b"hello world"));
}

#[test]
fn accepts_empty_buffer() {
    assert!(validate_utf8(b""));
}

#[test]
fn accepts_two_byte_sequences() {
    assert!(validate_utf8(&[0xC3, 0xA9]));
    assert!(validate_utf8("héllo".as_bytes()));
}

#[test]
fn accepts_three_byte_sequences() {
    assert!(validate_utf8(&[0xE2, 0x82, 0xAC]));
}

#[test]
fn accepts_four_byte_sequences() {
    assert!(validate_utf8(&[0xF0, 0x9F, 0x98, 0x80]));
}

#[test]
fn rejects_lone_continuation_byte() {
    assert!(!validate_utf8(&[0x80]));
}

#[test]
fn rejects_invalid_lead_bytes() {
    assert!(!validate_utf8(&[0xFF]));
    assert!(!validate_utf8(&[0xC0, 0x80]));
    assert!(!validate_utf8(&[0xC1, 0xBF]));
    assert!(!validate_utf8(&[0xF5, 0x80, 0x80, 0x80]));
}

#[test]
fn rejects_truncated_sequences() {
    assert!(!validate_utf8(&[0xC2]));
    assert!(!validate_utf8(&[0xE2, 0x82]));
    assert!(!validate_utf8(&[0xF0, 0x9F, 0x98]));
}

#[test]
fn rejects_surrogate_range() {
    assert!(!validate_utf8(&[0xED, 0xA0, 0x80]));
    assert!(validate_utf8(&[0xED, 0x9F, 0xBF]));
}

#[test]
fn rejects_beyond_max_scalar() {
    assert!(!validate_utf8(&[0xF4, 0x90, 0x80, 0x80]));
    assert!(validate_utf8(&[0xF4, 0x8F, 0xBF, 0xBF]));
}

#[test]
fn rejects_overlong_three_byte() {
    assert!(!validate_utf8(&[0xE0, 0x9F, 0xBF]));
    assert!(validate_utf8(&[0xE0, 0xA0, 0x80]));
}

#[test]
fn rejects_overlong_four_byte() {
    assert!(!validate_utf8(&[0xF0, 0x8F, 0xBF, 0xBF]));
    assert!(validate_utf8(&[0xF0, 0x90, 0x80, 0x80]));
}

#[test]
fn agrees_with_std_on_mixed_inputs() {
    agrees_with_std(b"plain ascii");
    agrees_with_std("mixé 😀 €".as_bytes());
    agrees_with_std(&[0x61, 0xC3]);
    agrees_with_std(&[0xE2, 0x82, 0xAC, 0x80]);
    agrees_with_std(&[0xED, 0xBF, 0xBF]);
    agrees_with_std(&[0xF4, 0x8F, 0xBF, 0xBF, 0xF5]);
}

#[test]
fn copy_preserves_bytes() {
    let v = copy_bytes(b"abc");
    assert_eq!(v.as_slice(), b"abc");
    let e = copy_bytes(b"");
    assert_eq!(e.len(), 0);
}
