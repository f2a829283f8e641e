use pallet_did::primitives::{
    ensure_signed, is_ascii_digit, is_ascii_lowercase, is_ascii_uppercase, starts_with, BadOrigin,
    Origin,
};

#[test]
fn ensure_signed_returns_the_signer() {
    assert_eq!(ensure_signed(Origin::Signed([42; 32])), Ok([42; 32]));
    assert_eq!(ensure_signed(Origin::Root), Err(BadOrigin));
    assert_eq!(ensure_signed(Origin::Unsigned), Err(BadOrigin));
    assert_eq!(ensure_signed(Origin::Authorized), Err(BadOrigin));
}

#[test]
fn starts_with_compares_the_leading_bytes() {
    assert!(starts_with(b"did:x", b"did:"));
    assert!(starts_with(b"did:", b"did:"));
    assert!(starts_with(b"abc", b""));
    assert!(!starts_with(b"did", b"did:"));
    assert!(!starts_with(b"dix:a", b"did:"));
}

#[test]
fn ascii_classes_have_their_bounds() {
    for b in 0u8..=255 {
        assert_eq!(is_ascii_lowercase(b), b.is_ascii_lowercase());
        assert_eq!(is_ascii_uppercase(b), b.is_ascii_uppercase());
        assert_eq!(is_ascii_digit(b), b.is_ascii_digit());
    }
}
