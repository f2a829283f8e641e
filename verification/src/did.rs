//! The DID pallet: an account creates a regular (`did:ssid:x`) or temporary
//! (`did:temp:x`) DID, deletes it, and delegates it to other accounts.
//!
//! The pallet's storage is the four maps of `Storage`; each dispatchable
//! takes the origin of the call and, where it reads the clock, the current
//! block number, and returns the event it deposits. The pallet is configured
//! with the number of blocks for which a temporary DID is valid.
use vstd::prelude::*;
use crate::keys::{default_public_key, is_zero_key, PublicKey};
use crate::primitives::{
    ensure_signed, has_prefix, is_alphanumeric, is_ascii_digit, is_ascii_lowercase,
    is_ascii_uppercase, signer, starts_with, AccountId, BlockNumber, DispatchError, Origin,
};
use crate::storage::{insert_all, lists, StorageKey, StorageMap};

verus! {

/// A decentralized identifier: `did:ssid:` or `did:temp:` followed by one
/// letter or digit.
pub type Did = [u8; 10];

/// Free-form metadata stored with a DID.
pub type DidMetadata = [u8; 50];

/// The kind of a DID.
#[derive(PartialEq, Eq, Structural, Debug, Clone, Copy)]
pub enum DidType {
    /// A regular DID, written `did:ssid:x`.
    Reg,
    /// A temporary DID, written `did:temp:x`, valid for a number of blocks.
    Temp,
}

/// The document stored for a DID.
#[derive(PartialEq, Eq, Debug, Clone, Copy)]
pub struct DidDocument {
    pub id: Did,
    pub public_key: PublicKey,
    pub metadata: DidMetadata,
    pub did_type: DidType,
}

/// The constants that the pallet is configured with.
#[derive(PartialEq, Eq, Structural, Debug, Clone, Copy)]
pub struct Config {
    /// For how many blocks a temporary DID is valid.
    pub temp_did_validity: BlockNumber,
}

/// Events that the pallet deposits.
#[derive(PartialEq, Eq, Debug, Clone, Copy)]
pub enum Event {
    /// A user has successfully created their DID.
    DidCreated { who: AccountId, did: Did },
    /// A user has successfully deleted their DID.
    DidDeleted { who: AccountId, did: Did },
    /// A user has delegated their DID to another account.
    DidDelegated { who: AccountId, did: Did, delegate: AccountId },
    /// The owner or the delegate has removed a delegation of a DID.
    DidDelegationRemoved { who: AccountId, did: Did, delegate: AccountId },
}

/// Errors that the pallet returns.
#[derive(PartialEq, Eq, Structural, Debug, Clone, Copy)]
pub enum Error {
    /// The DID already exists.
    DidAlreadyExists,
    /// The User already has a DID.
    UserHasDidAlready,
    /// The DID does not exist.
    DidDoesNotExist,
    /// The DID format is invalid.
    DidFormatInvalid,
    /// The DID is expired.
    DidExpired,
    /// The DID does not need renewal
    DidDoesNotNeedRenewal,
    /// The DID is not of the caller's.
    NotOwnedDid,
    /// The account ID is already delegated.
    UserAlreadyDelegated,
    /// The account ID already owns a DID.
    UserAlreadyHasDid,
}

/// What a dispatchable returns: the event it deposits, or why it refused.
pub type DispatchResult = Result<Event, DispatchError<Error>>;

/// The abstract storage of the pallet.
#[verifier::ext_equal]
pub struct Storage {
    /// Each DID with its document and the block at which it was created.
    pub dids: Map<Did, (DidDocument, BlockNumber)>,
    /// The account that owns each DID.
    pub did_lookup: Map<Did, AccountId>,
    /// The DID of each account.
    pub did_reverse_lookup: Map<AccountId, Did>,
    /// The accounts that each DID is delegated to.
    pub delegations: Map<(Did, AccountId), ()>,
}

/// The bytes of `did:ssid:`.
pub open spec fn reg_prefix() -> Seq<u8> {
    seq![0x64u8, 0x69u8, 0x64u8, 0x3au8, 0x73u8, 0x73u8, 0x69u8, 0x64u8, 0x3au8]
}

/// The bytes of `did:temp:`.
pub open spec fn temp_prefix() -> Seq<u8> {
    seq![0x64u8, 0x69u8, 0x64u8, 0x3au8, 0x74u8, 0x65u8, 0x6du8, 0x70u8, 0x3au8]
}

/// The prefix that a DID of type `did_type` starts with.
pub open spec fn prefix_of(did_type: DidType) -> Seq<u8> {
    match did_type {
        DidType::Reg => reg_prefix(),
        DidType::Temp => temp_prefix(),
    }
}

/// `did` is the prefix of its type followed by an ASCII letter or digit.
pub open spec fn is_well_formed_did(did: Did, did_type: DidType) -> bool {
    has_prefix(did@, prefix_of(did_type)) && is_alphanumeric(did[9])
}

/// The key whose bytes are all zero.
pub open spec fn zero_key() -> PublicKey {
    choose|k: PublicKey| is_zero_key(k)
}

/// The document that creating `did` stores.
pub open spec fn new_document(did: Did, metadata: DidMetadata, did_type: DidType) -> DidDocument {
    DidDocument { id: did, public_key: zero_key(), metadata, did_type }
}

/// `did` has an owner and a document stored under it.
pub open spec fn did_registered(s: Storage, did: Did) -> bool {
    s.did_lookup.contains_key(did) && s.dids.contains_key(did)
}

/// `did` is registered in all three maps as the DID of `who`.
pub open spec fn did_exists(s: Storage, did: Did, who: AccountId) -> bool {
    &&& did_registered(s, did)
    &&& s.did_reverse_lookup.contains_key(who)
    &&& s.did_reverse_lookup[who] == did
}

/// `s` with `did` registered to `who`, created at block `now`.
pub open spec fn with_did(
    s: Storage,
    did: Did,
    metadata: DidMetadata,
    who: AccountId,
    did_type: DidType,
    now: BlockNumber,
) -> Storage {
    Storage {
        dids: s.dids.insert(did, (new_document(did, metadata, did_type), now)),
        did_lookup: s.did_lookup.insert(did, who),
        did_reverse_lookup: s.did_reverse_lookup.insert(who, did),
        delegations: s.delegations,
    }
}

/// `s` with `did` and the DID of `who` removed.
pub open spec fn without_did(s: Storage, did: Did, who: AccountId) -> Storage {
    Storage {
        dids: s.dids.remove(did),
        did_lookup: s.did_lookup.remove(did),
        did_reverse_lookup: s.did_reverse_lookup.remove(who),
        delegations: s.delegations,
    }
}

/// The storage and result of `create_did`.
pub open spec fn create_did_step(
    s: Storage,
    origin: Origin,
    did: Did,
    metadata: DidMetadata,
    did_type: DidType,
    now: BlockNumber,
) -> (Storage, DispatchResult) {
    match signer(origin) {
        None => (s, Err(DispatchError::BadOrigin)),
        Some(who) => if did_registered(s, did) {
            (s, Err(DispatchError::Module(Error::DidAlreadyExists)))
        } else if !is_well_formed_did(did, did_type) {
            (s, Err(DispatchError::Module(Error::DidFormatInvalid)))
        } else if s.did_reverse_lookup.contains_key(who) {
            (s, Err(DispatchError::Module(Error::UserHasDidAlready)))
        } else {
            (with_did(s, did, metadata, who, did_type, now), Ok(Event::DidCreated { who, did }))
        },
    }
}

/// The refusal, if any, of a call by `who` on `did`: `did` must be the
/// signer's DID and be registered.
pub open spec fn ownership_refusal(s: Storage, did: Did, who: AccountId) -> Option<Error> {
    if !s.did_reverse_lookup.contains_key(who) {
        Some(Error::DidDoesNotExist)
    } else if s.did_reverse_lookup[who] != did {
        Some(Error::NotOwnedDid)
    } else if !did_exists(s, did, who) {
        Some(Error::DidDoesNotExist)
    } else {
        None
    }
}

/// The storage and result of `delete_did`.
pub open spec fn delete_did_step(s: Storage, origin: Origin, did: Did) -> (Storage, DispatchResult) {
    match signer(origin) {
        None => (s, Err(DispatchError::BadOrigin)),
        Some(who) => match ownership_refusal(s, did, who) {
            Some(e) => (s, Err(DispatchError::Module(e))),
            None => (without_did(s, did, who), Ok(Event::DidDeleted { who, did })),
        },
    }
}

/// The storage and result of `delegate_ownership`.
pub open spec fn delegate_ownership_step(
    s: Storage,
    origin: Origin,
    did: Did,
    delegate: AccountId,
) -> (Storage, DispatchResult) {
    match signer(origin) {
        None => (s, Err(DispatchError::BadOrigin)),
        Some(who) => match ownership_refusal(s, did, who) {
            Some(e) => (s, Err(DispatchError::Module(e))),
            None => if s.did_reverse_lookup.contains_key(delegate) {
                (s, Err(DispatchError::Module(Error::UserAlreadyHasDid)))
            } else if s.delegations.contains_key((did, delegate)) {
                (s, Err(DispatchError::Module(Error::UserAlreadyDelegated)))
            } else {
                (
                    Storage { delegations: s.delegations.insert((did, delegate), ()), ..s },
                    Ok(Event::DidDelegated { who, did, delegate }),
                )
            },
        },
    }
}

/// The storage and result of `remove_delgation`.
pub open spec fn remove_delgation_step(
    s: Storage,
    origin: Origin,
    did: Did,
    delegate: AccountId,
) -> (Storage, DispatchResult) {
    match signer(origin) {
        None => (s, Err(DispatchError::BadOrigin)),
        Some(who) => if !did_registered(s, did) {
            (s, Err(DispatchError::Module(Error::DidDoesNotExist)))
        } else if s.did_lookup[did] != who && who != delegate {
            (s, Err(DispatchError::Module(Error::NotOwnedDid)))
        } else {
            (
                Storage { delegations: s.delegations.remove((did, delegate)), ..s },
                Ok(Event::DidDelegationRemoved { who, did, delegate }),
            )
        },
    }
}

/// The pallet: its configuration and its storage maps.
pub struct Pallet {
    config: Config,
    dids: StorageMap<Did, (DidDocument, BlockNumber)>,
    did_lookup: StorageMap<Did, AccountId>,
    did_reverse_lookup: StorageMap<AccountId, Did>,
    delegations: StorageMap<(Did, AccountId), ()>,
}

impl View for Pallet {
    type V = Storage;

    closed spec fn view(&self) -> Storage {
        Storage {
            dids: self.dids@,
            did_lookup: self.did_lookup@,
            did_reverse_lookup: self.did_reverse_lookup@,
            delegations: self.delegations@,
        }
    }
}

impl Pallet {
    /// Each storage map is well formed.
    pub closed spec fn wf(&self) -> bool {
        &&& self.dids.wf()
        &&& self.did_lookup.wf()
        &&& self.did_reverse_lookup.wf()
        &&& self.delegations.wf()
    }

    /// The configuration the pallet was built with.
    pub closed spec fn config(&self) -> Config {
        self.config
    }

    /// The pallet with `config` and empty storage.
    pub fn new(config: Config) -> (r: Self)
        ensures
            r.wf(),
            r.config() == config,
            r@.dids == Map::<Did, (DidDocument, BlockNumber)>::empty(),
            r@.did_lookup == Map::<Did, AccountId>::empty(),
            r@.did_reverse_lookup == Map::<AccountId, Did>::empty(),
            r@.delegations == Map::<(Did, AccountId), ()>::empty(),
    {
        Pallet {
            config,
            dids: StorageMap::new(),
            did_lookup: StorageMap::new(),
            did_reverse_lookup: StorageMap::new(),
            delegations: StorageMap::new(),
        }
    }

    /// The pallet with `config` whose storage holds the given entries of each
    /// map, inserted in order.
    pub fn from_entries(
        config: Config,
        dids: &Vec<(Did, (DidDocument, BlockNumber))>,
        did_lookup: &Vec<(Did, AccountId)>,
        did_reverse_lookup: &Vec<(AccountId, Did)>,
        delegations: &Vec<((Did, AccountId), ())>,
    ) -> (r: Self)
        ensures
            r.wf(),
            r.config() == config,
            r@.dids == insert_all(Map::empty(), dids@),
            r@.did_lookup == insert_all(Map::empty(), did_lookup@),
            r@.did_reverse_lookup == insert_all(Map::empty(), did_reverse_lookup@),
            r@.delegations == insert_all(Map::empty(), delegations@),
    {
        Pallet {
            config,
            dids: StorageMap::from_entries(dids),
            did_lookup: StorageMap::from_entries(did_lookup),
            did_reverse_lookup: StorageMap::from_entries(did_reverse_lookup),
            delegations: StorageMap::from_entries(delegations),
        }
    }

    /// The entries of each storage map, each key once.
    pub fn entries(&self) -> (r: (
        Vec<(Did, (DidDocument, BlockNumber))>,
        Vec<(Did, AccountId)>,
        Vec<(AccountId, Did)>,
        Vec<((Did, AccountId), ())>,
    ))
        requires
            self.wf(),
        ensures
            lists(r.0@, self@.dids),
            lists(r.1@, self@.did_lookup),
            lists(r.2@, self@.did_reverse_lookup),
            lists(r.3@, self@.delegations),
    {
        (
            self.dids.entries(),
            self.did_lookup.entries(),
            self.did_reverse_lookup.entries(),
            self.delegations.entries(),
        )
    }

    /// For how many blocks a temporary DID is valid.
    pub fn temp_did_validity(&self) -> (r: BlockNumber)
        ensures
            r == self.config().temp_did_validity,
    {
        self.config.temp_did_validity
    }

    /// The document and creation block stored for `did`.
    pub fn dids(&self, did: &Did) -> (r: Option<(DidDocument, BlockNumber)>)
        requires
            self.wf(),
        ensures
            r == (if self@.dids.contains_key(*did) {
                Some(self@.dids[*did])
            } else {
                None::<(DidDocument, BlockNumber)>
            }),
    {
        self.dids.get(did)
    }

    /// The account that owns `did`.
    pub fn did_lookup(&self, did: &Did) -> (r: Option<AccountId>)
        requires
            self.wf(),
        ensures
            r == (if self@.did_lookup.contains_key(*did) {
                Some(self@.did_lookup[*did])
            } else {
                None::<AccountId>
            }),
    {
        self.did_lookup.get(did)
    }

    /// The DID of `who`.
    pub fn did_reverse_lookup(&self, who: &AccountId) -> (r: Option<Did>)
        requires
            self.wf(),
        ensures
            r == (if self@.did_reverse_lookup.contains_key(*who) {
                Some(self@.did_reverse_lookup[*who])
            } else {
                None::<Did>
            }),
    {
        self.did_reverse_lookup.get(who)
    }

    /// Whether `did` is delegated to `delegate`.
    pub fn delegations(&self, did: &Did, delegate: &AccountId) -> (r: bool)
        requires
            self.wf(),
        ensures
            r == self@.delegations.contains_key((*did, *delegate)),
    {
        self.delegations.contains_key(&(*did, *delegate))
    }

    /// Creates a DID of type `did_type` owned by the signer of `origin`,
    /// created at block `now`.
    ///
    /// Refused when the DID is already registered, when the DID does not have
    /// the form of its type, or when the signer already has a DID.
    pub fn create_did(
        &mut self,
        origin: Origin,
        did: Did,
        metadata: DidMetadata,
        did_type: DidType,
        now: BlockNumber,
    ) -> (r: DispatchResult)
        requires
            old(self).wf(),
        ensures
            final(self).wf(),
            final(self).config() == old(self).config(),
            (final(self)@, r) == create_did_step(old(self)@, origin, did, metadata, did_type, now),
    {
        let who = match ensure_signed(origin) {
            Ok(who) => who,
            Err(_) => return Err(DispatchError::BadOrigin),
        };
        if self.did_lookup.contains_key(&did) && self.dids.contains_key(&did) {
            return Err(DispatchError::Module(Error::DidAlreadyExists));
        }
        if !Self::is_did_valid(did, did_type) {
            return Err(DispatchError::Module(Error::DidFormatInvalid));
        }
        if self.did_reverse_lookup.contains_key(&who) {
            return Err(DispatchError::Module(Error::UserHasDidAlready));
        }
        self.add_did_to_storages(did, metadata, who, did_type, now);
        Ok(Event::DidCreated { who, did })
    }

    /// The refusal, if any, of a call by `who` on `did`.
    fn check_ownership(&self, did: Did, who: AccountId) -> (r: Option<Error>)
        requires
            self.wf(),
        ensures
            r == ownership_refusal(self@, did, who),
    {
        let did_from_storage = match self.did_reverse_lookup.get(&who) {
            Some(d) => d,
            None => return Some(Error::DidDoesNotExist),
        };
        if !did_from_storage.same_key(&did) {
            return Some(Error::NotOwnedDid);
        }
        if !self.check_did_existence(did, who) {
            return Some(Error::DidDoesNotExist);
        }
        None
    }

    /// Deletes the DID of the signer of `origin`.
    ///
    /// Refused when the signer has no DID, when the signer's DID is another
    /// one, or when the DID is not registered. Delegations of the DID stay.
    pub fn delete_did(&mut self, origin: Origin, did: Did) -> (r: DispatchResult)
        requires
            old(self).wf(),
        ensures
            final(self).wf(),
            final(self).config() == old(self).config(),
            (final(self)@, r) == delete_did_step(old(self)@, origin, did),
    {
        let who = match ensure_signed(origin) {
            Ok(who) => who,
            Err(_) => return Err(DispatchError::BadOrigin),
        };
        if let Some(e) = self.check_ownership(did, who) {
            return Err(DispatchError::Module(e));
        }
        self.remove_did_from_storages(did, who);
        Ok(Event::DidDeleted { who, did })
    }

    /// Delegates the DID of the signer of `origin` to `delegate`.
    ///
    /// Refused as `delete_did` is, and also when `delegate` has a DID of its
    /// own or already holds this delegation.
    pub fn delegate_ownership(&mut self, origin: Origin, did: Did, delegate: AccountId) -> (r:
        DispatchResult)
        requires
            old(self).wf(),
        ensures
            final(self).wf(),
            final(self).config() == old(self).config(),
            (final(self)@, r) == delegate_ownership_step(old(self)@, origin, did, delegate),
    {
        let who = match ensure_signed(origin) {
            Ok(who) => who,
            Err(_) => return Err(DispatchError::BadOrigin),
        };
        if let Some(e) = self.check_ownership(did, who) {
            return Err(DispatchError::Module(e));
        }
        if self.did_reverse_lookup.contains_key(&delegate) {
            return Err(DispatchError::Module(Error::UserAlreadyHasDid));
        }
        if self.delegations.contains_key(&(did, delegate)) {
            return Err(DispatchError::Module(Error::UserAlreadyDelegated));
        }
        self.delegations.insert((did, delegate), ());
        Ok(Event::DidDelegated { who, did, delegate })
    }

    /// Removes the delegation of `did` to `delegate`; the signer of `origin`
    /// must own the DID or be the delegate.
    ///
    /// Refused when the DID is not registered, or when the signer is neither
    /// its owner nor the delegate.
    pub fn remove_delgation(&mut self, origin: Origin, did: Did, delegate: AccountId) -> (r:
        DispatchResult)
        requires
            old(self).wf(),
        ensures
            final(self).wf(),
            final(self).config() == old(self).config(),
            (final(self)@, r) == remove_delgation_step(old(self)@, origin, did, delegate),
    {
        let who = match ensure_signed(origin) {
            Ok(who) => who,
            Err(_) => return Err(DispatchError::BadOrigin),
        };
        if !(self.did_lookup.contains_key(&did) && self.dids.contains_key(&did)) {
            return Err(DispatchError::Module(Error::DidDoesNotExist));
        }
        let owner = match self.did_lookup.get(&did) {
            Some(owner) => owner,
            None => return Err(DispatchError::Module(Error::DidDoesNotExist)),
        };
        if !owner.same_key(&who) && !who.same_key(&delegate) {
            return Err(DispatchError::Module(Error::NotOwnedDid));
        }
        self.delegations.remove(&(did, delegate));
        Ok(Event::DidDelegationRemoved { who, did, delegate })
    }

    /// Whether `did` is the prefix of `did_type` followed by an ASCII letter
    /// or digit.
    pub fn is_did_valid(did: Did, did_type: DidType) -> (r: bool)
        ensures
            r == is_well_formed_did(did, did_type),
    {
        let reg: [u8; 9] = [0x64, 0x69, 0x64, 0x3a, 0x73, 0x73, 0x69, 0x64, 0x3a];
        let temp: [u8; 9] = [0x64, 0x69, 0x64, 0x3a, 0x74, 0x65, 0x6d, 0x70, 0x3a];
        proof {
            broadcast use vstd::array::group_array_axioms;

            assert(reg@ =~= reg_prefix());
            assert(temp@ =~= temp_prefix());
        }
        let did_prefix_check = match did_type {
            DidType::Reg => starts_with(did.as_slice(), reg.as_slice()),
            DidType::Temp => starts_with(did.as_slice(), temp.as_slice()),
        };
        let did_length_check = did.as_slice().len() == 10;
        let suffix = did[9];
        let did_suffix_check = is_ascii_lowercase(suffix) || is_ascii_uppercase(suffix)
            || is_ascii_digit(suffix);
        did_length_check && did_prefix_check && did_suffix_check
    }

    /// Whether `did` is registered in the owner lookup, the DID storage and
    /// the reverse lookup, as the DID of `who`.
    pub fn check_did_existence(&self, did: Did, who: AccountId) -> (r: bool)
        requires
            self.wf(),
        ensures
            r == did_exists(self@, did, who),
    {
        if !(self.did_lookup.contains_key(&did) && self.dids.contains_key(&did)) {
            return false;
        }
        match self.did_reverse_lookup.get(&who) {
            Some(d) => d.same_key(&did),
            None => false,
        }
    }

    fn add_did_to_storages(
        &mut self,
        did: Did,
        metadata: DidMetadata,
        who: AccountId,
        did_type: DidType,
        now: BlockNumber,
    )
        requires
            old(self).wf(),
        ensures
            final(self).wf(),
            final(self).config() == old(self).config(),
            final(self)@ == with_did(old(self)@, did, metadata, who, did_type, now),
    {
        self.did_lookup.insert(did, who);
        let public_key = default_public_key();
        proof {
            assert(public_key == zero_key()) by {
                broadcast use vstd::array::group_array_axioms;

                let k = zero_key();
                assert(is_zero_key(k));
                assert(k =~= public_key);
            }
        }
        let did_document = DidDocument { id: did, public_key, metadata, did_type };
        self.dids.insert(did, (did_document, now));
        self.did_reverse_lookup.insert(who, did);
    }

    fn remove_did_from_storages(&mut self, did: Did, who: AccountId)
        requires
            old(self).wf(),
        ensures
            final(self).wf(),
            final(self).config() == old(self).config(),
            final(self)@ == without_did(old(self)@, did, who),
    {
        self.did_lookup.remove(&did);
        self.dids.remove(&did);
        self.did_reverse_lookup.remove(&who);
    }
}

} // verus!
