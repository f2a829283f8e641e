use pallet_did::did::{Config, Did, DidMetadata, DidType, Error, Event, Pallet};
use pallet_did::primitives::{AccountId, DispatchError, Origin};

fn acct(n: u8) -> AccountId {
    [n; 32]
}

fn reg(last: u8) -> Did {
    let mut did = *b"did:ssid:x";
    did[9] = last;
    did
}

fn temp(last: u8) -> Did {
    let mut did = *b"did:temp:x";
    did[9] = last;
    did
}

fn metadata(fill: u8) -> DidMetadata {
    [fill; 50]
}

fn pallet() -> Pallet {
    Pallet::new(Config { temp_did_validity: 100 })
}

#[test]
fn create_regular_did_stores_creation_block() {
    let mut p = pallet();
    let did = reg(b'a');
    let r = p.create_did(Origin::Signed(acct(1)), did, metadata(4), DidType::Reg, 20);
    assert_eq!(r, Ok(Event::DidCreated { who: acct(1), did }));
    let (document, block) = p.dids(&did).unwrap();
    assert_eq!(block, 20);
    assert_eq!(document.id, did);
    assert_eq!(document.did_type, DidType::Reg);
    assert_eq!(document.metadata, metadata(4));
    assert_eq!(document.public_key, [0u8; 32]);
    assert_eq!(p.did_lookup(&did), Some(acct(1)));
    assert_eq!(p.did_reverse_lookup(&acct(1)), Some(did));
}

#[test]
fn create_temporary_did_stores_creation_block() {
    let mut p = pallet();
    assert_eq!(p.temp_did_validity(), 100);
    let did = temp(b'7');
    let r = p.create_did(Origin::Signed(acct(2)), did, metadata(0), DidType::Temp, 20);
    assert_eq!(r, Ok(Event::DidCreated { who: acct(2), did }));
    let (document, block) = p.dids(&did).unwrap();
    assert_eq!(block, 20);
    assert_eq!(document.did_type, DidType::Temp);
}

#[test]
fn create_did_checks_prefix_against_type() {
    let mut p = pallet();
    let r = p.create_did(Origin::Signed(acct(1)), reg(b'a'), metadata(0), DidType::Temp, 1);
    assert_eq!(r, Err(DispatchError::Module(Error::DidFormatInvalid)));
    let r = p.create_did(Origin::Signed(acct(1)), temp(b'a'), metadata(0), DidType::Reg, 1);
    assert_eq!(r, Err(DispatchError::Module(Error::DidFormatInvalid)));
    let r = p.create_did(Origin::Signed(acct(1)), reg(b'.'), metadata(0), DidType::Reg, 1);
    assert_eq!(r, Err(DispatchError::Module(Error::DidFormatInvalid)));
    assert_eq!(p.did_reverse_lookup(&acct(1)), None);
}

#[test]
fn is_did_valid_checks_prefix_and_suffix() {
    assert!(Pallet::is_did_valid(reg(b'x'), DidType::Reg));
    assert!(Pallet::is_did_valid(reg(b'Q'), DidType::Reg));
    assert!(Pallet::is_did_valid(temp(b'5'), DidType::Temp));
    assert!(!Pallet::is_did_valid(temp(b'5'), DidType::Reg));
    assert!(!Pallet::is_did_valid(reg(b'x'), DidType::Temp));
    assert!(!Pallet::is_did_valid(reg(b' '), DidType::Reg));
    assert!(!Pallet::is_did_valid(*b"did:ssix:a", DidType::Reg));
}

#[test]
fn create_did_refuses_bad_origin_and_existing_did() {
    let mut p = pallet();
    let did = reg(b'a');
    assert_eq!(
        p.create_did(Origin::Root, did, metadata(0), DidType::Reg, 1),
        Err(DispatchError::BadOrigin)
    );
    assert!(p.create_did(Origin::Signed(acct(1)), did, metadata(0), DidType::Reg, 1).is_ok());
    assert_eq!(
        p.create_did(Origin::Signed(acct(1)), did, metadata(1), DidType::Reg, 2),
        Err(DispatchError::Module(Error::DidAlreadyExists))
    );
    assert_eq!(p.dids(&did).unwrap().1, 1);
}

#[test]
fn create_did_of_a_taken_did_is_refused_for_every_account() {
    let mut p = pallet();
    let did = reg(b'a');
    assert!(p.create_did(Origin::Signed(acct(1)), did, metadata(0), DidType::Reg, 1).is_ok());
    let r = p.create_did(Origin::Signed(acct(2)), did, metadata(5), DidType::Reg, 3);
    assert_eq!(r, Err(DispatchError::Module(Error::DidAlreadyExists)));
    assert_eq!(p.did_lookup(&did), Some(acct(1)));
    assert_eq!(p.did_reverse_lookup(&acct(1)), Some(did));
    assert_eq!(p.did_reverse_lookup(&acct(2)), None);
}

#[test]
fn create_did_for_an_account_with_a_did_is_refused() {
    let mut p = pallet();
    let a = reg(b'a');
    let b = reg(b'b');
    assert!(p.create_did(Origin::Signed(acct(1)), a, metadata(0), DidType::Reg, 1).is_ok());
    let r = p.create_did(Origin::Signed(acct(1)), b, metadata(0), DidType::Temp, 2);
    assert_eq!(r, Err(DispatchError::Module(Error::DidFormatInvalid)));
    let r = p.create_did(Origin::Signed(acct(1)), b, metadata(0), DidType::Reg, 2);
    assert_eq!(r, Err(DispatchError::Module(Error::UserHasDidAlready)));
    assert_eq!(p.did_lookup(&b), None);
    assert_eq!(p.did_reverse_lookup(&acct(1)), Some(a));
}

#[test]
fn did_delete_did_after_create_restores_storage() {
    let mut p = pallet();
    let did = temp(b'b');
    assert!(p.create_did(Origin::Signed(acct(5)), did, metadata(0), DidType::Temp, 9).is_ok());
    assert_eq!(p.delete_did(Origin::Signed(acct(5)), did), Ok(Event::DidDeleted { who: acct(5), did }));
    assert_eq!(p.dids(&did), None);
    assert_eq!(p.did_lookup(&did), None);
    assert_eq!(p.did_reverse_lookup(&acct(5)), None);
}

#[test]
fn delete_did_refusals() {
    let mut p = pallet();
    let a = reg(b'a');
    let b = reg(b'b');
    assert_eq!(p.delete_did(Origin::Unsigned, a), Err(DispatchError::BadOrigin));
    assert_eq!(
        p.delete_did(Origin::Signed(acct(1)), a),
        Err(DispatchError::Module(Error::DidDoesNotExist))
    );
    assert!(p.create_did(Origin::Signed(acct(1)), a, metadata(0), DidType::Reg, 1).is_ok());
    assert_eq!(
        p.delete_did(Origin::Signed(acct(1)), b),
        Err(DispatchError::Module(Error::NotOwnedDid))
    );
    assert_eq!(p.did_lookup(&a), Some(acct(1)));
}

#[test]
fn delete_did_keeps_delegations() {
    let mut p = pallet();
    let did = reg(b'd');
    assert!(p.create_did(Origin::Signed(acct(1)), did, metadata(0), DidType::Reg, 1).is_ok());
    assert!(p.delegate_ownership(Origin::Signed(acct(1)), did, acct(9)).is_ok());
    assert!(p.delete_did(Origin::Signed(acct(1)), did).is_ok());
    assert!(p.delegations(&did, &acct(9)));
}

#[test]
fn delegate_ownership_records_delegation() {
    let mut p = pallet();
    let did = reg(b'c');
    assert!(p.create_did(Origin::Signed(acct(1)), did, metadata(0), DidType::Reg, 1).is_ok());
    let r = p.delegate_ownership(Origin::Signed(acct(1)), did, acct(2));
    assert_eq!(r, Ok(Event::DidDelegated { who: acct(1), did, delegate: acct(2) }));
    assert!(p.delegations(&did, &acct(2)));
    assert!(!p.delegations(&did, &acct(3)));
    let again = p.delegate_ownership(Origin::Signed(acct(1)), did, acct(2));
    assert_eq!(again, Err(DispatchError::Module(Error::UserAlreadyDelegated)));
}

#[test]
fn delegate_ownership_refusals() {
    let mut p = pallet();
    let a = reg(b'a');
    let b = reg(b'b');
    assert_eq!(p.delegate_ownership(Origin::Root, a, acct(2)), Err(DispatchError::BadOrigin));
    assert_eq!(
        p.delegate_ownership(Origin::Signed(acct(1)), a, acct(2)),
        Err(DispatchError::Module(Error::DidDoesNotExist))
    );
    assert!(p.create_did(Origin::Signed(acct(1)), a, metadata(0), DidType::Reg, 1).is_ok());
    assert!(p.create_did(Origin::Signed(acct(2)), b, metadata(0), DidType::Reg, 1).is_ok());
    assert_eq!(
        p.delegate_ownership(Origin::Signed(acct(1)), b, acct(3)),
        Err(DispatchError::Module(Error::NotOwnedDid))
    );
    assert_eq!(
        p.delegate_ownership(Origin::Signed(acct(1)), a, acct(2)),
        Err(DispatchError::Module(Error::UserAlreadyHasDid))
    );
    assert!(!p.delegations(&a, &acct(2)));
}

#[test]
fn remove_delgation_by_owner_or_delegate() {
    let mut p = pallet();
    let did = reg(b'e');
    assert!(p.create_did(Origin::Signed(acct(1)), did, metadata(0), DidType::Reg, 1).is_ok());
    assert!(p.delegate_ownership(Origin::Signed(acct(1)), did, acct(2)).is_ok());
    assert!(p.delegate_ownership(Origin::Signed(acct(1)), did, acct(3)).is_ok());
    let r = p.remove_delgation(Origin::Signed(acct(1)), did, acct(2));
    assert_eq!(r, Ok(Event::DidDelegationRemoved { who: acct(1), did, delegate: acct(2) }));
    assert!(!p.delegations(&did, &acct(2)));
    let r = p.remove_delgation(Origin::Signed(acct(3)), did, acct(3));
    assert_eq!(r, Ok(Event::DidDelegationRemoved { who: acct(3), did, delegate: acct(3) }));
    assert!(!p.delegations(&did, &acct(3)));
}

#[test]
fn remove_delgation_refusals() {
    let mut p = pallet();
    let did = reg(b'f');
    assert_eq!(p.remove_delgation(Origin::Unsigned, did, acct(2)), Err(DispatchError::BadOrigin));
    assert_eq!(
        p.remove_delgation(Origin::Signed(acct(1)), did, acct(2)),
        Err(DispatchError::Module(Error::DidDoesNotExist))
    );
    assert!(p.create_did(Origin::Signed(acct(1)), did, metadata(0), DidType::Reg, 1).is_ok());
    assert!(p.delegate_ownership(Origin::Signed(acct(1)), did, acct(2)).is_ok());
    assert_eq!(
        p.remove_delgation(Origin::Signed(acct(4)), did, acct(2)),
        Err(DispatchError::Module(Error::NotOwnedDid))
    );
    assert!(p.delegations(&did, &acct(2)));
}

#[test]
fn check_did_existence_needs_all_three_entries() {
    let mut p = pallet();
    let did = reg(b'g');
    assert!(!p.check_did_existence(did, acct(1)));
    assert!(p.create_did(Origin::Signed(acct(1)), did, metadata(0), DidType::Reg, 1).is_ok());
    assert!(p.check_did_existence(did, acct(1)));
    assert!(!p.check_did_existence(did, acct(2)));
    assert!(!p.check_did_existence(reg(b'h'), acct(1)));
}

#[test]
fn did_storage_round_trips_through_entries() {
    let mut p = pallet();
    let a = reg(b'a');
    let t = temp(b't');
    assert!(p.create_did(Origin::Signed(acct(1)), a, metadata(1), DidType::Reg, 3).is_ok());
    assert!(p.create_did(Origin::Signed(acct(2)), t, metadata(2), DidType::Temp, 4).is_ok());
    assert!(p.delegate_ownership(Origin::Signed(acct(1)), a, acct(7)).is_ok());
    let (dids, lookup, reverse, delegations) = p.entries();
    assert_eq!(delegations, vec![((a, acct(7)), ())]);
    let copy = Pallet::from_entries(Config { temp_did_validity: 100 }, &dids, &lookup, &reverse, &delegations);
    assert_eq!(copy.dids(&t), Some(p.dids(&t).unwrap()));
    assert_eq!(copy.dids(&t).unwrap().1, 4);
    assert_eq!(copy.did_lookup(&a), Some(acct(1)));
    assert_eq!(copy.did_reverse_lookup(&acct(2)), Some(t));
    assert!(copy.delegations(&a, &acct(7)));
    assert_eq!(copy.temp_did_validity(), 100);
}
