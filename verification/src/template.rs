//! The template DID pallet: an account creates a DID of the form `did:x`,
//! deletes it, or renews it once enough blocks have passed.
//!
//! The pallet's storage is the three maps of `Storage`; each dispatchable
//! takes the origin of the call and, where it reads the clock, the current
//! block number, and returns the event it deposits.
use vstd::prelude::*;
use crate::keys::{decode_account_bytes, default_public_key, is_zero_key, PublicKey};
use crate::primitives::{
    ensure_signed, has_prefix, is_alphanumeric, is_ascii_digit, is_ascii_lowercase,
    is_ascii_uppercase, signer, starts_with, AccountId, BlockNumber, DispatchError, Origin,
};
use crate::storage::{insert_all, lists, StorageKey, StorageMap};

verus! {

/// A decentralized identifier: `did:` followed by one letter or digit.
pub type Did = [u8; 5];

/// Free-form metadata stored with a DID.
pub type DidMetadata = [u8; 50];

/// How many blocks must pass after creation or renewal before a DID can be
/// renewed.
pub const RENEWAL_PERIOD: u64 = 10;

/// The document stored for a DID.
#[derive(PartialEq, Eq, Debug, Clone, Copy)]
pub struct DidDocument {
    pub id: Did,
    pub public_key: PublicKey,
    pub metadata: DidMetadata,
}

/// Events that the pallet deposits.
#[derive(PartialEq, Eq, Debug, Clone, Copy)]
pub enum Event {
    /// A user has successfully created their DID.
    DidCreated { who: AccountId, did: Did },
    /// A user has successfully deleted their DID.
    DidDeleted { who: AccountId, did: Did },
    /// A user has successfully renewed a DID.
    DidRenewed { who: AccountId, did: Did },
}

/// Errors that the pallet returns.
#[derive(PartialEq, Eq, Structural, Debug, Clone, Copy)]
pub enum Error {
    /// The DID already exists.
    DidAlreadyExists,
    /// The User already has a DID.
    UserHasDidAlready,
    /// The DID does not exist.
    DidDoesNotExist,
    /// The DID format is invalid.
    DidFormatInvalid,
    /// The DID is expired.
    DidExpired,
    /// The DID does not need renewal
    DidDoesNotNeedRenewal,
    /// The DID is not of the caller's.
    NotOwnedDid,
}

/// A public key could not be decoded into an account identifier.
#[derive(PartialEq, Eq, Structural, Debug, Clone, Copy)]
pub struct DecodeError;

/// What a dispatchable returns: the event it deposits, or why it refused.
pub type DispatchResult = Result<Event, DispatchError<Error>>;

/// The abstract storage of the pallet.
#[verifier::ext_equal]
pub struct Storage {
    /// Each DID with its document and the block at which it was created or
    /// last renewed.
    pub dids: Map<Did, (DidDocument, BlockNumber)>,
    /// The account that owns each DID.
    pub did_lookup: Map<Did, AccountId>,
    /// The DID of each account.
    pub did_reverse_lookup: Map<AccountId, Did>,
}

/// The bytes of `did:`.
pub open spec fn did_prefix() -> Seq<u8> {
    seq![0x64u8, 0x69u8, 0x64u8, 0x3au8]
}

/// `did` is `did:` followed by an ASCII letter or digit.
pub open spec fn is_well_formed_did(did: Did) -> bool {
    has_prefix(did@, did_prefix()) && is_alphanumeric(did[4])
}

/// The key whose bytes are all zero.
pub open spec fn zero_key() -> PublicKey {
    choose|k: PublicKey| is_zero_key(k)
}

/// The document that creating `did` with `metadata` stores.
pub open spec fn new_document(did: Did, metadata: DidMetadata) -> DidDocument {
    DidDocument { id: did, public_key: zero_key(), metadata }
}

/// `did` has an owner and a document stored under it.
pub open spec fn did_registered(s: Storage, did: Did) -> bool {
    s.did_lookup.contains_key(did) && s.dids.contains_key(did)
}

/// `did` is registered and `who` has a DID, perhaps another one.
pub open spec fn did_exists(s: Storage, did: Did, who: AccountId) -> bool {
    did_registered(s, did) && s.did_reverse_lookup.contains_key(who)
}

/// `s` with `did` registered to `who` at block `now`.
pub open spec fn with_did(
    s: Storage,
    did: Did,
    metadata: DidMetadata,
    who: AccountId,
    now: BlockNumber,
) -> Storage {
    Storage {
        dids: s.dids.insert(did, (new_document(did, metadata), now)),
        did_lookup: s.did_lookup.insert(did, who),
        did_reverse_lookup: s.did_reverse_lookup.insert(who, did),
    }
}

/// `s` with `did` and the DID of `who` removed.
pub open spec fn without_did(s: Storage, did: Did, who: AccountId) -> Storage {
    Storage {
        dids: s.dids.remove(did),
        did_lookup: s.did_lookup.remove(did),
        did_reverse_lookup: s.did_reverse_lookup.remove(who),
    }
}

/// The storage and result of `create_did`.
pub open spec fn create_did_step(
    s: Storage,
    origin: Origin,
    did: Did,
    metadata: DidMetadata,
    now: BlockNumber,
) -> (Storage, DispatchResult) {
    match signer(origin) {
        None => (s, Err(DispatchError::BadOrigin)),
        Some(who) => if did_registered(s, did) {
            (s, Err(DispatchError::Module(Error::DidAlreadyExists)))
        } else if !is_well_formed_did(did) {
            (s, Err(DispatchError::Module(Error::DidFormatInvalid)))
        } else if s.did_reverse_lookup.contains_key(who) {
            (s, Err(DispatchError::Module(Error::UserHasDidAlready)))
        } else {
            (with_did(s, did, metadata, who, now), Ok(Event::DidCreated { who, did }))
        },
    }
}

/// The storage and result of `delete_did`.
pub open spec fn delete_did_step(s: Storage, origin: Origin, did: Did) -> (Storage, DispatchResult) {
    match signer(origin) {
        None => (s, Err(DispatchError::BadOrigin)),
        Some(who) => if !did_exists(s, did, who) {
            (s, Err(DispatchError::Module(Error::DidDoesNotExist)))
        } else if s.did_reverse_lookup[who] != did {
            (s, Err(DispatchError::Module(Error::NotOwnedDid)))
        } else {
            (without_did(s, did, who), Ok(Event::DidDeleted { who, did }))
        },
    }
}

/// `renew_did` can be called without an arithmetic underflow: the block at
/// which the DID was stored is not after `now`, whenever that block is read.
pub open spec fn renew_did_in_range(
    s: Storage,
    origin: Origin,
    did: Did,
    now: BlockNumber,
) -> bool {
    signer(origin) matches Some(who) && did_exists(s, did, who) ==> s.dids[did].1 <= now
}

/// The storage and result of `renew_did`.
pub open spec fn renew_did_step(s: Storage, origin: Origin, did: Did, now: BlockNumber) -> (
    Storage,
    DispatchResult,
) {
    match signer(origin) {
        None => (s, Err(DispatchError::BadOrigin)),
        Some(who) => if !did_exists(s, did, who) {
            (s, Err(DispatchError::Module(Error::DidDoesNotExist)))
        } else if now - s.dids[did].1 < RENEWAL_PERIOD {
            (s, Err(DispatchError::Module(Error::DidDoesNotNeedRenewal)))
        } else if s.did_lookup[did] != who {
            (s, Err(DispatchError::Module(Error::NotOwnedDid)))
        } else {
            (
                Storage { dids: s.dids.insert(did, (s.dids[did].0, now)), ..s },
                Ok(Event::DidRenewed { who, did }),
            )
        },
    }
}

/// The pallet: its storage maps.
pub struct Pallet {
    dids: StorageMap<Did, (DidDocument, BlockNumber)>,
    did_lookup: StorageMap<Did, AccountId>,
    did_reverse_lookup: StorageMap<AccountId, Did>,
}

impl View for Pallet {
    type V = Storage;

    closed spec fn view(&self) -> Storage {
        Storage {
            dids: self.dids@,
            did_lookup: self.did_lookup@,
            did_reverse_lookup: self.did_reverse_lookup@,
        }
    }
}

impl Pallet {
    /// Each storage map is well formed.
    pub closed spec fn wf(&self) -> bool {
        &&& self.dids.wf()
        &&& self.did_lookup.wf()
        &&& self.did_reverse_lookup.wf()
    }

    /// The pallet with empty storage.
    pub fn new() -> (r: Self)
        ensures
            r.wf(),
            r@.dids == Map::<Did, (DidDocument, BlockNumber)>::empty(),
            r@.did_lookup == Map::<Did, AccountId>::empty(),
            r@.did_reverse_lookup == Map::<AccountId, Did>::empty(),
    {
        Pallet { dids: StorageMap::new(), did_lookup: StorageMap::new(), did_reverse_lookup: StorageMap::new() }
    }

    /// The pallet whose storage holds the given entries of each map, inserted
    /// in order.
    pub fn from_entries(
        dids: &Vec<(Did, (DidDocument, BlockNumber))>,
        did_lookup: &Vec<(Did, AccountId)>,
        did_reverse_lookup: &Vec<(AccountId, Did)>,
    ) -> (r: Self)
        ensures
            r.wf(),
            r@.dids == insert_all(Map::empty(), dids@),
            r@.did_lookup == insert_all(Map::empty(), did_lookup@),
            r@.did_reverse_lookup == insert_all(Map::empty(), did_reverse_lookup@),
    {
        Pallet {
            dids: StorageMap::from_entries(dids),
            did_lookup: StorageMap::from_entries(did_lookup),
            did_reverse_lookup: StorageMap::from_entries(did_reverse_lookup),
        }
    }

    /// The entries of each storage map, each key once.
    pub fn entries(&self) -> (r: (
        Vec<(Did, (DidDocument, BlockNumber))>,
        Vec<(Did, AccountId)>,
        Vec<(AccountId, Did)>,
    ))
        requires
            self.wf(),
        ensures
            lists(r.0@, self@.dids),
            lists(r.1@, self@.did_lookup),
            lists(r.2@, self@.did_reverse_lookup),
    {
        (self.dids.entries(), self.did_lookup.entries(), self.did_reverse_lookup.entries())
    }

    /// The document and block stored for `did`.
    pub fn dids(&self, did: &Did) -> (r: Option<(DidDocument, BlockNumber)>)
        requires
            self.wf(),
        ensures
            r == (if self@.dids.contains_key(*did) {
                Some(self@.dids[*did])
            } else {
                None::<(DidDocument, BlockNumber)>
            }),
    {
        self.dids.get(did)
    }

    /// The account that owns `did`.
    pub fn did_lookup(&self, did: &Did) -> (r: Option<AccountId>)
        requires
            self.wf(),
        ensures
            r == (if self@.did_lookup.contains_key(*did) {
                Some(self@.did_lookup[*did])
            } else {
                None::<AccountId>
            }),
    {
        self.did_lookup.get(did)
    }

    /// The DID of `who`.
    pub fn did_reverse_lookup(&self, who: &AccountId) -> (r: Option<Did>)
        requires
            self.wf(),
        ensures
            r == (if self@.did_reverse_lookup.contains_key(*who) {
                Some(self@.did_reverse_lookup[*who])
            } else {
                None::<Did>
            }),
    {
        self.did_reverse_lookup.get(who)
    }

    /// Creates a DID owned by the signer of `origin`, stamped with block `now`.
    ///
    /// Refused when the DID is already registered, when the DID is not of the
    /// form `did:x` with `x` a letter or digit, or when the signer already has
    /// a DID.
    pub fn create_did(&mut self, origin: Origin, did: Did, metadata: DidMetadata, now: BlockNumber) -> (r: DispatchResult)
        requires
            old(self).wf(),
        ensures
            final(self).wf(),
            (final(self)@, r) == create_did_step(old(self)@, origin, did, metadata, now),
    {
        let who = match ensure_signed(origin) {
            Ok(who) => who,
            Err(_) => return Err(DispatchError::BadOrigin),
        };
        if self.did_lookup.contains_key(&did) && self.dids.contains_key(&did) {
            return Err(DispatchError::Module(Error::DidAlreadyExists));
        }
        if !Self::is_did_valid(did) {
            return Err(DispatchError::Module(Error::DidFormatInvalid));
        }
        if self.did_reverse_lookup.contains_key(&who) {
            return Err(DispatchError::Module(Error::UserHasDidAlready));
        }
        self.add_did_to_storages(did, metadata, who, now);
        Ok(Event::DidCreated { who, did })
    }

    /// Deletes the DID of the signer of `origin`.
    ///
    /// Refused when the DID or the signer is not registered, or when the
    /// signer's DID is another one.
    pub fn delete_did(&mut self, origin: Origin, did: Did) -> (r: DispatchResult)
        requires
            old(self).wf(),
        ensures
            final(self).wf(),
            (final(self)@, r) == delete_did_step(old(self)@, origin, did),
    {
        let who = match ensure_signed(origin) {
            Ok(who) => who,
            Err(_) => return Err(DispatchError::BadOrigin),
        };
        if !self.check_did_existence(did, who) {
            return Err(DispatchError::Module(Error::DidDoesNotExist));
        }
        let did_from_storage = match self.did_reverse_lookup.get(&who) {
            Some(d) => d,
            None => return Err(DispatchError::Module(Error::DidDoesNotExist)),
        };
        if !did_from_storage.same_key(&did) {
            return Err(DispatchError::Module(Error::NotOwnedDid));
        }
        self.remove_did_from_storages(did, who);
        Ok(Event::DidDeleted { who, did })
    }

    /// Renews the signer's `did` at block `now`, when at least
    /// `RENEWAL_PERIOD` blocks have passed since it was created or last
    /// renewed.
    ///
    /// Refused when the DID or the signer is not registered, when too few
    /// blocks have passed, or when the DID is owned by another account.
    pub fn renew_did(&mut self, origin: Origin, did: Did, now: BlockNumber) -> (r: DispatchResult)
        requires
            old(self).wf(),
            renew_did_in_range(old(self)@, origin, did, now),
        ensures
            final(self).wf(),
            (final(self)@, r) == renew_did_step(old(self)@, origin, did, now),
    {
        let who = match ensure_signed(origin) {
            Ok(who) => who,
            Err(_) => return Err(DispatchError::BadOrigin),
        };
        if !self.check_did_existence(did, who) {
            return Err(DispatchError::Module(Error::DidDoesNotExist));
        }
        let (document, block_number) = match self.dids.get(&did) {
            Some(entry) => entry,
            None => return Err(DispatchError::Module(Error::DidDoesNotExist)),
        };
        if now - block_number < RENEWAL_PERIOD {
            return Err(DispatchError::Module(Error::DidDoesNotNeedRenewal));
        }
        let owner = match self.did_lookup.get(&did) {
            Some(owner) => owner,
            None => return Err(DispatchError::Module(Error::DidDoesNotExist)),
        };
        if !owner.same_key(&who) {
            return Err(DispatchError::Module(Error::NotOwnedDid));
        }
        self.dids.insert(did, (document, now));
        Ok(Event::DidRenewed { who, did })
    }

    /// Whether `did` is `did:` followed by an ASCII letter or digit.
    pub fn is_did_valid(did: Did) -> (r: bool)
        ensures
            r == is_well_formed_did(did),
    {
        let prefix: [u8; 4] = [0x64, 0x69, 0x64, 0x3a];
        let did_length_check = did.as_slice().len() == 5;
        let did_prefix_check = starts_with(did.as_slice(), prefix.as_slice());
        let suffix = did[4];
        let did_suffix_check = is_ascii_lowercase(suffix) || is_ascii_uppercase(suffix)
            || is_ascii_digit(suffix);
        proof {
            broadcast use vstd::array::group_array_axioms;

            assert(prefix@ =~= did_prefix());
        }
        did_length_check && did_prefix_check && did_suffix_check
    }

    /// Whether `did` is registered and `who` has a DID.
    pub fn check_did_existence(&self, did: Did, who: AccountId) -> (r: bool)
        requires
            self.wf(),
        ensures
            r == did_exists(self@, did, who),
    {
        self.did_lookup.contains_key(&did) && self.dids.contains_key(&did)
            && self.did_reverse_lookup.contains_key(&who)
    }

    fn add_did_to_storages(&mut self, did: Did, metadata: DidMetadata, who: AccountId, now: BlockNumber)
        requires
            old(self).wf(),
        ensures
            final(self).wf(),
            final(self)@ == with_did(old(self)@, did, metadata, who, now),
    {
        self.did_lookup.insert(did, who);
        let public_key = default_public_key();
        proof {
            assert(public_key == zero_key()) by {
                broadcast use vstd::array::group_array_axioms;

                let k = zero_key();
                assert(is_zero_key(k));
                assert(k =~= public_key);
            }
        }
        let did_document = DidDocument { id: did, public_key, metadata };
        self.dids.insert(did, (did_document, now));
        self.did_reverse_lookup.insert(who, did);
    }

    fn remove_did_from_storages(&mut self, did: Did, who: AccountId)
        requires
            old(self).wf(),
        ensures
            final(self).wf(),
            final(self)@ == without_did(old(self)@, did, who),
    {
        self.did_lookup.remove(&did);
        self.dids.remove(&did);
        self.did_reverse_lookup.remove(&who);
    }

    /// The account identifier that the bytes of `pk` decode to: the same 32
    /// bytes.
    pub fn get_accountid_from_pubkey(pk: &PublicKey) -> (r: Result<AccountId, DecodeError>)
        ensures
            r matches Ok(who) && who@ == pk@,
    {
        match decode_account_bytes(pk) {
            Ok(who) => Ok(who),
            Err(_) => Err(DecodeError),
        }
    }
}

} // verus!
