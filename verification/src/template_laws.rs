//! Properties of the template pallet that span calls.
use vstd::prelude::*;
use crate::keys::is_zero_key;
use crate::primitives::{AccountId, BlockNumber, DispatchError, Origin};
use crate::template::{
    create_did_step, delete_did_step, did_exists, did_prefix, is_well_formed_did, new_document,
    renew_did_in_range, renew_did_step, with_did, without_did, Did, DidDocument, DidMetadata, Error, Event,
    Storage, zero_key, RENEWAL_PERIOD,
};

verus! {

/// Every registered DID has a document stored under it and an owner, and
/// each document names the DID it is stored under.
pub open spec fn keys_agree(s: Storage) -> bool {
    &&& s.did_lookup.dom() =~= s.dids.dom()
    &&& forall|did: Did| #[trigger] s.dids.contains_key(did) ==> s.dids[did].0.id == did
}

/// The owner lookup and the reverse lookup are inverse to each other.
pub open spec fn owners_agree(s: Storage) -> bool {
    &&& forall|who: AccountId|
        #[trigger] s.did_reverse_lookup.contains_key(who) ==> s.did_lookup.contains_key(
            s.did_reverse_lookup[who],
        ) && s.did_lookup[s.did_reverse_lookup[who]] == who
    &&& forall|did: Did|
        #[trigger] s.did_lookup.contains_key(did) ==> s.did_reverse_lookup.contains_key(
            s.did_lookup[did],
        ) && s.did_reverse_lookup[s.did_lookup[did]] == did
}

/// The empty storage, which a new pallet holds, is consistent; since every
/// call keeps consistency (`lemma_calls_keep_consistent`), so is every
/// storage that calls on a new pallet reach.
pub proof fn lemma_empty_is_consistent()
    ensures
        consistent(
            Storage { dids: Map::empty(), did_lookup: Map::empty(), did_reverse_lookup: Map::empty() },
        ),
{
    let s = Storage {
        dids: Map::<Did, (DidDocument, BlockNumber)>::empty(),
        did_lookup: Map::<Did, AccountId>::empty(),
        did_reverse_lookup: Map::<AccountId, Did>::empty(),
    };
    assert(s.did_lookup.dom() =~= s.dids.dom());
}

/// A refused call changes no storage: whenever `create_did`, `delete_did` or
/// `renew_did` returns an error, the storage after it is the storage before.
pub proof fn lemma_refusal_changes_nothing(
    s: Storage,
    origin: Origin,
    did: Did,
    metadata: DidMetadata,
    now: BlockNumber,
)
    ensures
        create_did_step(s, origin, did, metadata, now).1 is Err ==> create_did_step(
            s,
            origin,
            did,
            metadata,
            now,
        ).0 == s,
        delete_did_step(s, origin, did).1 is Err ==> delete_did_step(s, origin, did).0 == s,
        renew_did_step(s, origin, did, now).1 is Err ==> renew_did_step(s, origin, did, now).0
            == s,
{
}

/// The storage is consistent: `keys_agree` and `owners_agree` both hold.
pub open spec fn consistent(s: Storage) -> bool {
    keys_agree(s) && owners_agree(s)
}

/// Every call keeps the storage consistent: owners and documents stay
/// registered together, each document keeps naming its DID, and the owner
/// lookup and the reverse lookup stay inverse to each other.
pub proof fn lemma_calls_keep_consistent(
    s: Storage,
    origin: Origin,
    did: Did,
    metadata: DidMetadata,
    now: BlockNumber,
)
    requires
        consistent(s),
    ensures
        consistent(create_did_step(s, origin, did, metadata, now).0),
        consistent(delete_did_step(s, origin, did).0),
        consistent(renew_did_step(s, origin, did, now).0),
{
    let c = create_did_step(s, origin, did, metadata, now).0;
    let d = delete_did_step(s, origin, did).0;
    let r = renew_did_step(s, origin, did, now).0;
    assert(c.did_lookup.dom() =~= c.dids.dom());
    assert(d.did_lookup.dom() =~= d.dids.dom());
    assert(r.did_lookup.dom() =~= r.dids.dom());
}

/// Storing a DID for an account and then removing it gives back the storage
/// from before, when neither the DID nor the account was stored.
pub proof fn lemma_add_then_remove_restores(
    s: Storage,
    did: Did,
    metadata: DidMetadata,
    who: AccountId,
    now: BlockNumber,
)
    requires
        !s.did_lookup.contains_key(did),
        !s.dids.contains_key(did),
        !s.did_reverse_lookup.contains_key(who),
    ensures
        without_did(with_did(s, did, metadata, who, now), did, who) == s,
{
    let s2 = without_did(with_did(s, did, metadata, who, now), did, who);
    assert(s2.dids =~= s.dids);
    assert(s2.did_lookup =~= s.did_lookup);
    assert(s2.did_reverse_lookup =~= s.did_reverse_lookup);
}

/// Deleting a DID right after creating it, as the same account, succeeds and
/// leaves the storage as it was before the creation, when neither the DID nor
/// the account was registered.
pub proof fn lemma_create_then_delete_restores(
    s: Storage,
    who: AccountId,
    did: Did,
    metadata: DidMetadata,
    now: BlockNumber,
)
    requires
        is_well_formed_did(did),
        !s.did_lookup.contains_key(did),
        !s.dids.contains_key(did),
        !s.did_reverse_lookup.contains_key(who),
    ensures
        ({
            let (s1, r1) = create_did_step(s, Origin::Signed(who), did, metadata, now);
            let (s2, r2) = delete_did_step(s1, Origin::Signed(who), did);
            &&& r1 == Ok::<Event, DispatchError<Error>>(Event::DidCreated { who, did })
            &&& r2 == Ok::<Event, DispatchError<Error>>(Event::DidDeleted { who, did })
            &&& s2 == s
        }),
{
    lemma_add_then_remove_restores(s, did, metadata, who, now);
}

/// After a successful `create_did`, the DID is registered to the signer with
/// its document, and any later `create_did` of it, by any account, is refused
/// with `DidAlreadyExists`.
pub proof fn lemma_create_twice_refused(
    s: Storage,
    who: AccountId,
    did: Did,
    metadata: DidMetadata,
    now: BlockNumber,
    origin2: Origin,
    metadata2: DidMetadata,
    now2: BlockNumber,
)
    requires
        create_did_step(s, Origin::Signed(who), did, metadata, now).1 is Ok,
        origin2 is Signed,
    ensures
        ({
            let s1 = create_did_step(s, Origin::Signed(who), did, metadata, now).0;
            &&& did_exists(s1, did, who)
            &&& s1.did_lookup[did] == who
            &&& s1.did_reverse_lookup[who] == did
            &&& s1.dids[did] == (new_document(did, metadata), now)
            &&& create_did_step(s1, origin2, did, metadata2, now2) == (
                s1,
                Err::<Event, DispatchError<Error>>(DispatchError::Module(Error::DidAlreadyExists)),
            )
        }),
{
}

/// Only the owner of a DID can renew it: any other signer is refused and the
/// storage stays as it was. (A signer without a DID gets `DidDoesNotExist`;
/// one with a DID gets `DidDoesNotNeedRenewal` while too few blocks have
/// passed and `NotOwnedDid` after.)
pub proof fn lemma_only_owner_renews(
    s: Storage,
    who: AccountId,
    did: Did,
    now: BlockNumber,
)
    requires
        s.did_lookup.contains_key(did),
        s.did_lookup[did] != who,
    ensures
        renew_did_step(s, Origin::Signed(who), did, now).0 == s,
        renew_did_step(s, Origin::Signed(who), did, now).1 is Err,
{
}

/// After a successful `renew_did` at block `now`, the DID keeps its document
/// and is stamped with `now`, and a renewal fewer than `RENEWAL_PERIOD`
/// blocks later is refused with `DidDoesNotNeedRenewal`.
pub proof fn lemma_renew_then_renew_refused(
    s: Storage,
    who: AccountId,
    did: Did,
    now: BlockNumber,
    later: BlockNumber,
)
    requires
        renew_did_step(s, Origin::Signed(who), did, now).1 is Ok,
        now <= later < now + RENEWAL_PERIOD,
    ensures
        ({
            let s1 = renew_did_step(s, Origin::Signed(who), did, now).0;
            &&& s1.dids[did] == (s.dids[did].0, now)
            &&& renew_did_in_range(s1, Origin::Signed(who), did, later)
            &&& renew_did_step(s1, Origin::Signed(who), did, later) == (
                s1,
                Err::<Event, DispatchError<Error>>(
                    DispatchError::Module(Error::DidDoesNotNeedRenewal),
                ),
            )
        }),
{
}

/// A DID created at block `now` can be renewed by its owner at any block at
/// least `RENEWAL_PERIOD` later, and is then stamped with that block.
pub proof fn lemma_create_then_renew_after_period(
    s: Storage,
    who: AccountId,
    did: Did,
    metadata: DidMetadata,
    now: BlockNumber,
    later: BlockNumber,
)
    requires
        create_did_step(s, Origin::Signed(who), did, metadata, now).1 is Ok,
        later >= now + RENEWAL_PERIOD,
    ensures
        ({
            let s1 = create_did_step(s, Origin::Signed(who), did, metadata, now).0;
            let (s2, r2) = renew_did_step(s1, Origin::Signed(who), did, later);
            &&& renew_did_in_range(s1, Origin::Signed(who), did, later)
            &&& r2 == Ok::<Event, DispatchError<Error>>(Event::DidRenewed { who, did })
            &&& s2.dids[did] == (s1.dids[did].0, later)
        }),
{
}

/// A DID is valid exactly when it spells `did:` followed by an ASCII letter
/// or digit.
pub proof fn lemma_valid_did_form(did: Did)
    ensures
        is_well_formed_did(did) <==> (did[0] == 0x64u8 && did[1] == 0x69u8 && did[2] == 0x64u8
            && did[3] == 0x3au8 && letter_or_digit(did[4])),
{
    broadcast use vstd::array::group_array_axioms;

    if did[0] == 0x64u8 && did[1] == 0x69u8 && did[2] == 0x64u8 && did[3] == 0x3au8 {
        assert(did@.subrange(0, 4) =~= did_prefix());
    }
    if is_well_formed_did(did) {
        assert(did@.subrange(0, 4)[0] == did[0]);
        assert(did@.subrange(0, 4)[1] == did[1]);
        assert(did@.subrange(0, 4)[2] == did[2]);
        assert(did@.subrange(0, 4)[3] == did[3]);
    }
}

/// `b` is an ASCII letter (`a` to `z`, `A` to `Z`) or digit (`0` to `9`).
pub open spec fn letter_or_digit(b: u8) -> bool {
    (0x61 <= b <= 0x7a) || (0x41 <= b <= 0x5a) || (0x30 <= b <= 0x39)
}

/// `check_did_existence(did, who)` holds exactly when `did` has an owner and
/// a document and `who` has a DID.
pub proof fn lemma_did_exists_means(s: Storage, did: Did, who: AccountId)
    ensures
        did_exists(s, did, who) <==> (s.did_lookup.contains_key(did) && s.dids.contains_key(did)
            && s.did_reverse_lookup.contains_key(who)),
{
}

/// Every dispatchable refuses an origin that no account signed, with
/// `BadOrigin`, and changes no storage.
pub proof fn lemma_unsigned_calls_refused(
    s: Storage,
    origin: Origin,
    did: Did,
    metadata: DidMetadata,
    now: BlockNumber,
)
    requires
        !(origin is Signed),
    ensures
        create_did_step(s, origin, did, metadata, now) == (s, Err::<Event, DispatchError<Error>>(
            DispatchError::BadOrigin,
        )),
        delete_did_step(s, origin, did) == (s, Err::<Event, DispatchError<Error>>(
            DispatchError::BadOrigin,
        )),
        renew_did_step(s, origin, did, now) == (s, Err::<Event, DispatchError<Error>>(
            DispatchError::BadOrigin,
        )),
{
}

/// `create_did` by `who` succeeds exactly when the DID is not registered, it
/// spells `did:` followed by an ASCII letter or digit, and `who` has no DID.
/// It then registers the DID to `who` both ways and stores, under the DID,
/// the document naming the DID with an all-zero key and the metadata given,
/// and the block `now`; nothing else changes. When it fails, nothing changes.
pub proof fn lemma_create_did_effect(
    s: Storage,
    who: AccountId,
    did: Did,
    metadata: DidMetadata,
    now: BlockNumber,
)
    ensures
        ({
            let (s1, r) = create_did_step(s, Origin::Signed(who), did, metadata, now);
            &&& r is Ok <==> (!(s.did_lookup.contains_key(did) && s.dids.contains_key(did))
                && did[0] == 0x64u8 && did[1] == 0x69u8 && did[2] == 0x64u8 && did[3] == 0x3au8
                && letter_or_digit(did[4]) && !s.did_reverse_lookup.contains_key(who))
            &&& r is Ok ==> {
                &&& r == Ok::<Event, DispatchError<Error>>(Event::DidCreated { who, did })
                &&& s1.did_lookup == s.did_lookup.insert(did, who)
                &&& s1.did_reverse_lookup == s.did_reverse_lookup.insert(who, did)
                &&& s1.dids == s.dids.insert(did, s1.dids[did])
                &&& s1.dids[did].0.id == did
                &&& s1.dids[did].0.metadata == metadata
                &&& (forall|i: int| 0 <= i < 32 ==> #[trigger] s1.dids[did].0.public_key[i] == 0)
                &&& s1.dids[did].1 == now
            }
            &&& r is Err ==> s1 == s
        }),
{
    broadcast use vstd::array::group_array_axioms;

    lemma_valid_did_form(did);
    let z = vstd::array::spec_array_fill_for_copy_type::<u8, 32>(0u8);
    assert(is_zero_key(z));
    let k = zero_key();
    assert(is_zero_key(k));
    let (s1, r) = create_did_step(s, Origin::Signed(who), did, metadata, now);
    if r is Ok {
        assert(s1.dids =~= s.dids.insert(did, s1.dids[did]));
    }
}

/// `delete_did` by `who` succeeds exactly when `did` has an owner and a
/// document and the reverse lookup of `who` names `did`. It then removes
/// `did` from the owner lookup and the DID storage and `who` from the reverse
/// lookup, and nothing else. When it fails, nothing changes.
pub proof fn lemma_delete_did_effect(s: Storage, who: AccountId, did: Did)
    ensures
        ({
            let (s1, r) = delete_did_step(s, Origin::Signed(who), did);
            &&& r is Ok <==> (s.did_lookup.contains_key(did) && s.dids.contains_key(did)
                && s.did_reverse_lookup.contains_key(who) && s.did_reverse_lookup[who] == did)
            &&& r is Ok ==> {
                &&& r == Ok::<Event, DispatchError<Error>>(Event::DidDeleted { who, did })
                &&& s1.dids == s.dids.remove(did)
                &&& s1.did_lookup == s.did_lookup.remove(did)
                &&& s1.did_reverse_lookup == s.did_reverse_lookup.remove(who)
            }
            &&& r is Err ==> s1 == s
        }),
{
}

/// `renew_did` by `who` at block `now` succeeds exactly when `did` has an
/// owner and a document, `who` owns it in the owner lookup (and so has a DID
/// of its own in the reverse lookup), and at least `RENEWAL_PERIOD` blocks
/// have passed since the block stored for it. It then stamps the DID with
/// `now`, keeping its document, and changes nothing else. When it fails,
/// nothing changes.
pub proof fn lemma_renew_did_effect(s: Storage, who: AccountId, did: Did, now: BlockNumber)
    ensures
        ({
            let (s1, r) = renew_did_step(s, Origin::Signed(who), did, now);
            &&& r is Ok <==> (s.did_lookup.contains_key(did) && s.dids.contains_key(did)
                && s.did_reverse_lookup.contains_key(who) && s.did_lookup[did] == who && now
                >= s.dids[did].1 + 10)
            &&& r is Ok ==> {
                &&& r == Ok::<Event, DispatchError<Error>>(Event::DidRenewed { who, did })
                &&& s1.dids == s.dids.insert(did, (s.dids[did].0, now))
                &&& s1.did_lookup == s.did_lookup
                &&& s1.did_reverse_lookup == s.did_reverse_lookup
            }
            &&& r is Err ==> s1 == s
        }),
{
}

/// `renew_did` asks, of a signer whose call reaches the block comparison
/// (the DID has an owner and a document and the signer has a DID), only that
/// the block stored for the DID is not after `now`; of any other call it asks
/// nothing.
pub proof fn lemma_renew_did_in_range_means(s: Storage, origin: Origin, did: Did, now: BlockNumber)
    ensures
        renew_did_in_range(s, origin, did, now) <==> (origin matches Origin::Signed(who) && (
        s.did_lookup.contains_key(did) && s.dids.contains_key(did)
            && s.did_reverse_lookup.contains_key(who)) ==> s.dids[did].1 <= now),
{
}

} // verus!
