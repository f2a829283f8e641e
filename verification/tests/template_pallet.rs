use pallet_did::primitives::{AccountId, DispatchError, Origin};

fn acct(n: u8) -> AccountId {
    [n; 32]
}
use pallet_did::template::{DecodeError, Did, DidMetadata, Error, Event, Pallet, RENEWAL_PERIOD};

fn did_of(last: u8) -> Did {
    [b'd', b'i', b'd', b':', last]
}

fn metadata(fill: u8) -> DidMetadata {
    [fill; 50]
}

#[test]
fn create_did_stores_document_and_lookups() {
    let mut pallet = Pallet::new();
    let did = did_of(b'a');
    let r = pallet.create_did(Origin::Signed(acct(1)), did, metadata(7), 12);
    assert_eq!(r, Ok(Event::DidCreated { who: acct(1), did }));
    assert_eq!(pallet.did_lookup(&did), Some(acct(1)));
    assert_eq!(pallet.did_reverse_lookup(&acct(1)), Some(did));
    let (document, block) = pallet.dids(&did).unwrap();
    assert_eq!(block, 12);
    assert_eq!(document.id, did);
    assert_eq!(document.metadata, metadata(7));
    assert_eq!(document.public_key, [0u8; 32]);
}

#[test]
fn create_did_refuses_unsigned_origins() {
    let mut pallet = Pallet::new();
    let did = did_of(b'a');
    for origin in [Origin::Root, Origin::Unsigned, Origin::Authorized] {
        assert_eq!(pallet.create_did(origin, did, metadata(0), 1), Err(DispatchError::BadOrigin));
    }
    assert_eq!(pallet.did_lookup(&did), None);
}

#[test]
fn create_did_twice_is_refused() {
    let mut pallet = Pallet::new();
    let did = did_of(b'Z');
    assert!(pallet.create_did(Origin::Signed(acct(3)), did, metadata(1), 1).is_ok());
    let r = pallet.create_did(Origin::Signed(acct(3)), did, metadata(2), 2);
    assert_eq!(r, Err(DispatchError::Module(Error::DidAlreadyExists)));
    assert_eq!(pallet.dids(&did).unwrap().0.metadata, metadata(1));
    assert_eq!(pallet.dids(&did).unwrap().1, 1);
}

#[test]
fn create_did_refuses_malformed_dids() {
    let mut pallet = Pallet::new();
    let bad = [
        [b'd', b'i', b'd', b':', b'-'],
        [b'd', b'i', b'd', b';', b'a'],
        [b'D', b'i', b'd', b':', b'a'],
        [b'd', b'i', b'd', b':', 0],
    ];
    for did in bad {
        let r = pallet.create_did(Origin::Signed(acct(1)), did, metadata(0), 1);
        assert_eq!(r, Err(DispatchError::Module(Error::DidFormatInvalid)));
        assert_eq!(pallet.did_lookup(&did), None);
    }
    assert_eq!(pallet.did_reverse_lookup(&acct(1)), None);
}

#[test]
fn is_did_valid_accepts_letters_and_digits() {
    assert!(Pallet::is_did_valid(did_of(b'a')));
    assert!(Pallet::is_did_valid(did_of(b'z')));
    assert!(Pallet::is_did_valid(did_of(b'A')));
    assert!(Pallet::is_did_valid(did_of(b'Z')));
    assert!(Pallet::is_did_valid(did_of(b'0')));
    assert!(Pallet::is_did_valid(did_of(b'9')));
    assert!(!Pallet::is_did_valid(did_of(b'`')));
    assert!(!Pallet::is_did_valid(did_of(b'{')));
    assert!(!Pallet::is_did_valid(did_of(b'@')));
    assert!(!Pallet::is_did_valid(did_of(b'[')));
    assert!(!Pallet::is_did_valid(did_of(b'/')));
    assert!(!Pallet::is_did_valid(did_of(b':')));
    assert!(!Pallet::is_did_valid([b'd', b'i', b'x', b':', b'a']));
}

#[test]
fn template_delete_did_after_create_restores_storage() {
    let mut pallet = Pallet::new();
    let did = did_of(b'q');
    assert!(pallet.create_did(Origin::Signed(acct(4)), did, metadata(9), 5).is_ok());
    assert_eq!(pallet.delete_did(Origin::Signed(acct(4)), did), Ok(Event::DidDeleted { who: acct(4), did }));
    assert_eq!(pallet.dids(&did), None);
    assert_eq!(pallet.did_lookup(&did), None);
    assert_eq!(pallet.did_reverse_lookup(&acct(4)), None);
    assert!(!pallet.check_did_existence(did, acct(4)));
}

#[test]
fn delete_did_of_unknown_did_is_refused() {
    let mut pallet = Pallet::new();
    let r = pallet.delete_did(Origin::Signed(acct(1)), did_of(b'a'));
    assert_eq!(r, Err(DispatchError::Module(Error::DidDoesNotExist)));
    assert_eq!(pallet.delete_did(Origin::Root, did_of(b'a')), Err(DispatchError::BadOrigin));
}

#[test]
fn delete_did_of_another_account_is_refused() {
    let mut pallet = Pallet::new();
    let a = did_of(b'a');
    let b = did_of(b'b');
    assert!(pallet.create_did(Origin::Signed(acct(1)), a, metadata(0), 1).is_ok());
    assert!(pallet.create_did(Origin::Signed(acct(2)), b, metadata(0), 1).is_ok());
    let r = pallet.delete_did(Origin::Signed(acct(2)), a);
    assert_eq!(r, Err(DispatchError::Module(Error::NotOwnedDid)));
    assert_eq!(pallet.did_lookup(&a), Some(acct(1)));
    assert_eq!(pallet.did_reverse_lookup(&acct(2)), Some(b));
}

#[test]
fn renew_did_needs_the_renewal_period() {
    let mut pallet = Pallet::new();
    let did = did_of(b'r');
    assert!(pallet.create_did(Origin::Signed(acct(8)), did, metadata(3), 100).is_ok());
    let early = pallet.renew_did(Origin::Signed(acct(8)), did, 100 + RENEWAL_PERIOD - 1);
    assert_eq!(early, Err(DispatchError::Module(Error::DidDoesNotNeedRenewal)));
    assert_eq!(pallet.dids(&did).unwrap().1, 100);
    let r = pallet.renew_did(Origin::Signed(acct(8)), did, 100 + RENEWAL_PERIOD);
    assert_eq!(r, Ok(Event::DidRenewed { who: acct(8), did }));
    let (document, block) = pallet.dids(&did).unwrap();
    assert_eq!(block, 110);
    assert_eq!(document.metadata, metadata(3));
    let again = pallet.renew_did(Origin::Signed(acct(8)), did, 115);
    assert_eq!(again, Err(DispatchError::Module(Error::DidDoesNotNeedRenewal)));
}

#[test]
fn renew_did_of_unknown_did_is_refused() {
    let mut pallet = Pallet::new();
    let r = pallet.renew_did(Origin::Signed(acct(1)), did_of(b'x'), 50);
    assert_eq!(r, Err(DispatchError::Module(Error::DidDoesNotExist)));
    assert_eq!(pallet.renew_did(Origin::Unsigned, did_of(b'x'), 50), Err(DispatchError::BadOrigin));
}

#[test]
fn get_accountid_from_pubkey_keeps_the_key_bytes() {
    let mut pk = [0u8; 32];
    for (i, b) in pk.iter_mut().enumerate() {
        *b = (i * 7 + 1) as u8;
    }
    let r: Result<AccountId, DecodeError> = Pallet::get_accountid_from_pubkey(&pk);
    assert_eq!(r, Ok(pk));
    assert_eq!(Pallet::get_accountid_from_pubkey(&[0xff; 32]), Ok([0xff; 32]));
}
