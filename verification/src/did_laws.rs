//! Properties of the DID pallet that span calls.
use vstd::prelude::*;
use crate::did::{
    create_did_step, delegate_ownership_step, delete_did_step, did_exists, is_well_formed_did,
    prefix_of, remove_delgation_step, with_did, without_did, zero_key, Did, DidDocument,
    DidMetadata, DidType, Error, Event, Storage,
};
use crate::keys::is_zero_key;
use crate::primitives::{has_prefix, AccountId, BlockNumber, DispatchError, Origin};

verus! {

/// Every registered DID has a document stored under it and an owner, and
/// each document names the DID it is stored under.
pub open spec fn keys_agree(s: Storage) -> bool {
    &&& s.did_lookup.dom() =~= s.dids.dom()
    &&& forall|did: Did| #[trigger] s.dids.contains_key(did) ==> s.dids[did].0.id == did
}

/// The owner lookup and the reverse lookup are inverse to each other.
pub open spec fn owners_agree(s: Storage) -> bool {
    &&& forall|who: AccountId|
        #[trigger] s.did_reverse_lookup.contains_key(who) ==> s.did_lookup.contains_key(
            s.did_reverse_lookup[who],
        ) && s.did_lookup[s.did_reverse_lookup[who]] == who
    &&& forall|did: Did|
        #[trigger] s.did_lookup.contains_key(did) ==> s.did_reverse_lookup.contains_key(
            s.did_lookup[did],
        ) && s.did_reverse_lookup[s.did_lookup[did]] == did
}

/// The storage is consistent: `keys_agree` and `owners_agree` both hold.
pub open spec fn consistent(s: Storage) -> bool {
    keys_agree(s) && owners_agree(s)
}

/// The empty storage, which a new pallet holds, is consistent; since every
/// call keeps consistency (`lemma_calls_keep_consistent`), so is every
/// storage that calls on a new pallet reach.
pub proof fn lemma_empty_is_consistent()
    ensures
        consistent(
            Storage {
                dids: Map::empty(),
                did_lookup: Map::empty(),
                did_reverse_lookup: Map::empty(),
                delegations: Map::empty(),
            },
        ),
{
    let s = Storage {
        dids: Map::<Did, (DidDocument, BlockNumber)>::empty(),
        did_lookup: Map::<Did, AccountId>::empty(),
        did_reverse_lookup: Map::<AccountId, Did>::empty(),
        delegations: Map::<(Did, AccountId), ()>::empty(),
    };
    assert(s.did_lookup.dom() =~= s.dids.dom());
}

/// In a consistent storage, whoever may delegate a DID is its owner in the
/// owner lookup, so `lemma_delegate_then_remove_restores` applies to every
/// successful delegation there.
pub proof fn lemma_consistent_delegator_owns(
    s: Storage,
    who: AccountId,
    did: Did,
    delegate: AccountId,
)
    requires
        consistent(s),
        delegate_ownership_step(s, Origin::Signed(who), did, delegate).1 is Ok,
    ensures
        s.did_lookup[did] == who,
{
}

/// A refused call changes no storage: whenever `create_did`, `delete_did`,
/// `delegate_ownership` or `remove_delgation` returns an error, the storage
/// after it is the storage before.
pub proof fn lemma_refusal_changes_nothing(
    s: Storage,
    origin: Origin,
    did: Did,
    metadata: DidMetadata,
    did_type: DidType,
    now: BlockNumber,
    delegate: AccountId,
)
    ensures
        create_did_step(s, origin, did, metadata, did_type, now).1 is Err ==> create_did_step(
            s,
            origin,
            did,
            metadata,
            did_type,
            now,
        ).0 == s,
        delete_did_step(s, origin, did).1 is Err ==> delete_did_step(s, origin, did).0 == s,
        delegate_ownership_step(s, origin, did, delegate).1 is Err ==> delegate_ownership_step(
            s,
            origin,
            did,
            delegate,
        ).0 == s,
        remove_delgation_step(s, origin, did, delegate).1 is Err ==> remove_delgation_step(
            s,
            origin,
            did,
            delegate,
        ).0 == s,
{
}

/// Every call keeps the storage consistent: owners and documents stay
/// registered together, each document keeps naming its DID, and the owner
/// lookup and the reverse lookup stay inverse to each other.
pub proof fn lemma_calls_keep_consistent(
    s: Storage,
    origin: Origin,
    did: Did,
    metadata: DidMetadata,
    did_type: DidType,
    now: BlockNumber,
    delegate: AccountId,
)
    requires
        consistent(s),
    ensures
        consistent(create_did_step(s, origin, did, metadata, did_type, now).0),
        consistent(delete_did_step(s, origin, did).0),
        consistent(delegate_ownership_step(s, origin, did, delegate).0),
        consistent(remove_delgation_step(s, origin, did, delegate).0),
{
    let c = create_did_step(s, origin, did, metadata, did_type, now).0;
    let d = delete_did_step(s, origin, did).0;
    assert(c.did_lookup.dom() =~= c.dids.dom());
    assert(d.did_lookup.dom() =~= d.dids.dom());
}

/// Storing a DID for an account and then removing it gives back the storage
/// from before, when neither the DID nor the account was stored.
pub proof fn lemma_add_then_remove_restores(
    s: Storage,
    did: Did,
    metadata: DidMetadata,
    who: AccountId,
    did_type: DidType,
    now: BlockNumber,
)
    requires
        !s.did_lookup.contains_key(did),
        !s.dids.contains_key(did),
        !s.did_reverse_lookup.contains_key(who),
    ensures
        without_did(with_did(s, did, metadata, who, did_type, now), did, who) == s,
{
    let s2 = without_did(with_did(s, did, metadata, who, did_type, now), did, who);
    assert(s2.dids =~= s.dids);
    assert(s2.did_lookup =~= s.did_lookup);
    assert(s2.did_reverse_lookup =~= s.did_reverse_lookup);
}

/// Deleting a DID right after creating it, as the same account, succeeds and
/// leaves the storage as it was before the creation, when neither the DID nor
/// the account was registered.
pub proof fn lemma_create_then_delete_restores(
    s: Storage,
    who: AccountId,
    did: Did,
    metadata: DidMetadata,
    did_type: DidType,
    now: BlockNumber,
)
    requires
        is_well_formed_did(did, did_type),
        !s.did_lookup.contains_key(did),
        !s.dids.contains_key(did),
        !s.did_reverse_lookup.contains_key(who),
    ensures
        ({
            let (s1, r1) = create_did_step(s, Origin::Signed(who), did, metadata, did_type, now);
            let (s2, r2) = delete_did_step(s1, Origin::Signed(who), did);
            &&& r1 == Ok::<Event, DispatchError<Error>>(Event::DidCreated { who, did })
            &&& r2 == Ok::<Event, DispatchError<Error>>(Event::DidDeleted { who, did })
            &&& s2 == s
        }),
{
    lemma_add_then_remove_restores(s, did, metadata, who, did_type, now);
}

/// After a successful `create_did`, the DID is registered to the signer with
/// its document and creation block, and any later `create_did` of it, by any
/// account, is refused with `DidAlreadyExists`.
pub proof fn lemma_create_twice_refused(
    s: Storage,
    who: AccountId,
    did: Did,
    metadata: DidMetadata,
    did_type: DidType,
    now: BlockNumber,
    origin2: Origin,
    metadata2: DidMetadata,
    did_type2: DidType,
    now2: BlockNumber,
)
    requires
        create_did_step(s, Origin::Signed(who), did, metadata, did_type, now).1 is Ok,
        origin2 is Signed,
    ensures
        ({
            let s1 = create_did_step(s, Origin::Signed(who), did, metadata, did_type, now).0;
            &&& did_exists(s1, did, who)
            &&& s1.did_lookup[did] == who
            &&& s1.did_reverse_lookup[who] == did
            &&& s1.dids[did].1 == now
            &&& create_did_step(s1, origin2, did, metadata2, did_type2, now2) == (
                s1,
                Err::<Event, DispatchError<Error>>(DispatchError::Module(Error::DidAlreadyExists)),
            )
        }),
{
}

/// After a successful `delegate_ownership`, the delegation is recorded, and
/// delegating the same DID to the same account again is refused with
/// `UserAlreadyDelegated`.
pub proof fn lemma_delegate_twice_refused(
    s: Storage,
    origin: Origin,
    did: Did,
    delegate: AccountId,
)
    requires
        delegate_ownership_step(s, origin, did, delegate).1 is Ok,
    ensures
        ({
            let s1 = delegate_ownership_step(s, origin, did, delegate).0;
            &&& s1.delegations.contains_key((did, delegate))
            &&& delegate_ownership_step(s1, origin, did, delegate) == (
                s1,
                Err::<Event, DispatchError<Error>>(
                    DispatchError::Module(Error::UserAlreadyDelegated),
                ),
            )
        }),
{
}

/// Removing a delegation right after granting it, as the owner, succeeds and
/// leaves the storage as it was before the delegation.
pub proof fn lemma_delegate_then_remove_restores(
    s: Storage,
    who: AccountId,
    did: Did,
    delegate: AccountId,
)
    requires
        s.did_lookup[did] == who,
        delegate_ownership_step(s, Origin::Signed(who), did, delegate).1 is Ok,
    ensures
        ({
            let s1 = delegate_ownership_step(s, Origin::Signed(who), did, delegate).0;
            let (s2, r2) = remove_delgation_step(s1, Origin::Signed(who), did, delegate);
            &&& r2 == Ok::<Event, DispatchError<Error>>(
                Event::DidDelegationRemoved { who, did, delegate },
            )
            &&& s2 == s
        }),
{
    let s1 = delegate_ownership_step(s, Origin::Signed(who), did, delegate).0;
    let (s2, r2) = remove_delgation_step(s1, Origin::Signed(who), did, delegate);
    assert(s2.delegations =~= s.delegations);
}

/// The delegate can also remove a delegation it holds.
pub proof fn lemma_delegate_can_remove(
    s: Storage,
    origin: Origin,
    did: Did,
    delegate: AccountId,
)
    requires
        delegate_ownership_step(s, origin, did, delegate).1 is Ok,
    ensures
        ({
            let s1 = delegate_ownership_step(s, origin, did, delegate).0;
            let (s2, r2) = remove_delgation_step(s1, Origin::Signed(delegate), did, delegate);
            &&& r2 is Ok
            &&& !s2.delegations.contains_key((did, delegate))
        }),
{
}

/// `b` is an ASCII letter (`a` to `z`, `A` to `Z`) or digit (`0` to `9`).
pub open spec fn letter_or_digit(b: u8) -> bool {
    (0x61 <= b <= 0x7a) || (0x41 <= b <= 0x5a) || (0x30 <= b <= 0x39)
}

/// The first nine bytes of `did` spell `did:ssid:` for a regular DID and
/// `did:temp:` for a temporary one.
pub open spec fn spells_prefix(did: Did, did_type: DidType) -> bool {
    &&& did[0] == 0x64u8 && did[1] == 0x69u8 && did[2] == 0x64u8 && did[3] == 0x3au8
    &&& match did_type {
        DidType::Reg => did[4] == 0x73u8 && did[5] == 0x73u8 && did[6] == 0x69u8 && did[7]
            == 0x64u8,
        DidType::Temp => did[4] == 0x74u8 && did[5] == 0x65u8 && did[6] == 0x6du8 && did[7]
            == 0x70u8,
    }
    &&& did[8] == 0x3au8
}

/// A DID is valid for its type exactly when its first nine bytes spell
/// `did:ssid:` (regular) or `did:temp:` (temporary) and its last byte is an
/// ASCII letter or digit.
pub proof fn lemma_valid_did_form(did: Did, did_type: DidType)
    ensures
        is_well_formed_did(did, did_type) <==> (spells_prefix(did, did_type) && letter_or_digit(
            did[9],
        )),
{
    broadcast use vstd::array::group_array_axioms;

    let p = prefix_of(did_type);
    if spells_prefix(did, did_type) {
        assert(did@.subrange(0, 9) =~= p);
    }
    if has_prefix(did@, p) {
        assert(did@.subrange(0, 9)[0] == did[0]);
        assert(did@.subrange(0, 9)[1] == did[1]);
        assert(did@.subrange(0, 9)[2] == did[2]);
        assert(did@.subrange(0, 9)[3] == did[3]);
        assert(did@.subrange(0, 9)[4] == did[4]);
        assert(did@.subrange(0, 9)[5] == did[5]);
        assert(did@.subrange(0, 9)[6] == did[6]);
        assert(did@.subrange(0, 9)[7] == did[7]);
        assert(did@.subrange(0, 9)[8] == did[8]);
    }
}

/// `check_did_existence(did, who)` holds exactly when `did` has an owner and
/// a document and the reverse lookup of `who` names `did`.
pub proof fn lemma_did_exists_means(s: Storage, did: Did, who: AccountId)
    ensures
        did_exists(s, did, who) <==> (s.did_lookup.contains_key(did) && s.dids.contains_key(did)
            && s.did_reverse_lookup.contains_key(who) && s.did_reverse_lookup[who] == did),
{
}

/// Every dispatchable refuses an origin that no account signed, with
/// `BadOrigin`, and changes no storage.
pub proof fn lemma_unsigned_calls_refused(
    s: Storage,
    origin: Origin,
    did: Did,
    metadata: DidMetadata,
    did_type: DidType,
    now: BlockNumber,
    delegate: AccountId,
)
    requires
        !(origin is Signed),
    ensures
        create_did_step(s, origin, did, metadata, did_type, now) == (s, Err::<
            Event,
            DispatchError<Error>,
        >(DispatchError::BadOrigin)),
        delete_did_step(s, origin, did) == (s, Err::<Event, DispatchError<Error>>(
            DispatchError::BadOrigin,
        )),
        delegate_ownership_step(s, origin, did, delegate) == (s, Err::<
            Event,
            DispatchError<Error>,
        >(DispatchError::BadOrigin)),
        remove_delgation_step(s, origin, did, delegate) == (s, Err::<
            Event,
            DispatchError<Error>,
        >(DispatchError::BadOrigin)),
{
}

/// `create_did` by `who` succeeds exactly when the DID is not registered, it
/// is valid for its type, and `who` has no DID. It then registers the DID to
/// `who` both ways and stores, under the DID, the document naming the DID
/// with an all-zero key, the metadata and the type given, and the block
/// `now`; nothing else changes. When it fails, nothing changes.
pub proof fn lemma_create_did_effect(
    s: Storage,
    who: AccountId,
    did: Did,
    metadata: DidMetadata,
    did_type: DidType,
    now: BlockNumber,
)
    ensures
        ({
            let (s1, r) = create_did_step(s, Origin::Signed(who), did, metadata, did_type, now);
            &&& r is Ok <==> (!(s.did_lookup.contains_key(did) && s.dids.contains_key(did))
                && spells_prefix(did, did_type) && letter_or_digit(did[9])
                && !s.did_reverse_lookup.contains_key(who))
            &&& r is Ok ==> {
                &&& r == Ok::<Event, DispatchError<Error>>(Event::DidCreated { who, did })
                &&& s1.did_lookup == s.did_lookup.insert(did, who)
                &&& s1.did_reverse_lookup == s.did_reverse_lookup.insert(who, did)
                &&& s1.delegations == s.delegations
                &&& s1.dids == s.dids.insert(did, s1.dids[did])
                &&& s1.dids[did].0.id == did
                &&& s1.dids[did].0.metadata == metadata
                &&& s1.dids[did].0.did_type == did_type
                &&& (forall|i: int| 0 <= i < 32 ==> #[trigger] s1.dids[did].0.public_key[i] == 0)
                &&& s1.dids[did].1 == now
            }
            &&& r is Err ==> s1 == s
        }),
{
    broadcast use vstd::array::group_array_axioms;

    lemma_valid_did_form(did, did_type);
    let z = vstd::array::spec_array_fill_for_copy_type::<u8, 32>(0u8);
    assert(is_zero_key(z));
    let k = zero_key();
    assert(is_zero_key(k));
    let (s1, r) = create_did_step(s, Origin::Signed(who), did, metadata, did_type, now);
    if r is Ok {
        assert(s1.dids =~= s.dids.insert(did, s1.dids[did]));
    }
}

/// `delete_did` by `who` succeeds exactly when the reverse lookup of `who`
/// names `did` and `did` has an owner and a document. It then removes `did`
/// from the owner lookup and the DID storage and `who` from the reverse
/// lookup, and nothing else. A signer without a DID is refused with
/// `DidDoesNotExist`. When it fails, nothing changes.
pub proof fn lemma_delete_did_effect(s: Storage, who: AccountId, did: Did)
    ensures
        ({
            let (s1, r) = delete_did_step(s, Origin::Signed(who), did);
            &&& r is Ok <==> (s.did_reverse_lookup.contains_key(who) && s.did_reverse_lookup[who]
                == did && s.did_lookup.contains_key(did) && s.dids.contains_key(did))
            &&& r is Ok ==> {
                &&& r == Ok::<Event, DispatchError<Error>>(Event::DidDeleted { who, did })
                &&& s1.dids == s.dids.remove(did)
                &&& s1.did_lookup == s.did_lookup.remove(did)
                &&& s1.did_reverse_lookup == s.did_reverse_lookup.remove(who)
                &&& s1.delegations == s.delegations
            }
            &&& !s.did_reverse_lookup.contains_key(who) ==> r == Err::<Event, DispatchError<Error>>(
                DispatchError::Module(Error::DidDoesNotExist),
            )
            &&& r is Err ==> s1 == s
        }),
{
}

/// `delegate_ownership` by `who` succeeds exactly when the reverse lookup of
/// `who` names `did`, `did` has an owner and a document, `delegate` has no DID
/// and `did` is not yet delegated to `delegate`, whatever the type of the DID.
/// It then records the delegation and changes nothing else. When it fails,
/// nothing changes.
pub proof fn lemma_delegate_ownership_effect(
    s: Storage,
    who: AccountId,
    did: Did,
    delegate: AccountId,
)
    ensures
        ({
            let (s1, r) = delegate_ownership_step(s, Origin::Signed(who), did, delegate);
            &&& r is Ok <==> (s.did_reverse_lookup.contains_key(who) && s.did_reverse_lookup[who]
                == did && s.did_lookup.contains_key(did) && s.dids.contains_key(did)
                && !s.did_reverse_lookup.contains_key(delegate) && !s.delegations.contains_key(
                (did, delegate),
            ))
            &&& r is Ok ==> {
                &&& r == Ok::<Event, DispatchError<Error>>(
                    Event::DidDelegated { who, did, delegate },
                )
                &&& s1.dids == s.dids
                &&& s1.did_lookup == s.did_lookup
                &&& s1.did_reverse_lookup == s.did_reverse_lookup
                &&& s1.delegations == s.delegations.insert((did, delegate), ())
            }
            &&& r is Err ==> s1 == s
        }),
{
}

/// `remove_delgation` by `who` succeeds exactly when `did` has an owner and a
/// document and `who` is its owner in the owner lookup or is `delegate`. It
/// then removes the delegation of `did` to `delegate` and changes nothing
/// else. When it fails, nothing changes.
pub proof fn lemma_remove_delgation_effect(
    s: Storage,
    who: AccountId,
    did: Did,
    delegate: AccountId,
)
    ensures
        ({
            let (s1, r) = remove_delgation_step(s, Origin::Signed(who), did, delegate);
            &&& r is Ok <==> (s.did_lookup.contains_key(did) && s.dids.contains_key(did) && (
            s.did_lookup[did] == who || who == delegate))
            &&& r is Ok ==> {
                &&& r == Ok::<Event, DispatchError<Error>>(
                    Event::DidDelegationRemoved { who, did, delegate },
                )
                &&& s1.dids == s.dids
                &&& s1.did_lookup == s.did_lookup
                &&& s1.did_reverse_lookup == s.did_reverse_lookup
                &&& s1.delegations == s.delegations.remove((did, delegate))
            }
            &&& r is Err ==> s1 == s
        }),
{
}

} // verus!
