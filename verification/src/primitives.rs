//! Types and small checks shared by both pallets: accounts, block numbers,
//! the origin of a call, dispatch errors, and byte-level tests.
use vstd::prelude::*;

verus! {

/// An account of the runtime: the 32 bytes of its identifier.
pub type AccountId = [u8; 32];

/// A block number of the runtime.
pub type BlockNumber = u64;

/// The origin of a dispatched call.
#[derive(PartialEq, Eq, Debug, Clone, Copy)]
pub enum Origin {
    /// The system itself.
    Root,
    /// A transaction signed by the given account.
    Signed(AccountId),
    /// An unsigned transaction.
    Unsigned,
    /// A call authorized by the runtime without a signer.
    Authorized,
}

/// The origin was not the one a call asked for.
#[derive(PartialEq, Eq, Structural, Debug, Clone, Copy)]
pub struct BadOrigin;

/// Why a dispatched call was refused: its origin, or an error of the pallet.
#[derive(PartialEq, Eq, Debug)]
pub enum DispatchError<E> {
    BadOrigin,
    Module(E),
}

/// The signer of `origin`, when there is one.
pub open spec fn signer(origin: Origin) -> Option<AccountId> {
    match origin {
        Origin::Signed(who) => Some(who),
        _ => None,
    }
}

/// The account that signed `origin`, or `BadOrigin` when no account signed it.
pub fn ensure_signed(origin: Origin) -> (r: Result<AccountId, BadOrigin>)
    ensures
        r == (match signer(origin) {
            Some(who) => Ok::<AccountId, BadOrigin>(who),
            None => Err(BadOrigin),
        }),
{
    match origin {
        Origin::Signed(who) => Ok(who),
        _ => Err(BadOrigin),
    }
}

/// Whether `bytes` begins with `prefix`.
pub open spec fn has_prefix(bytes: Seq<u8>, prefix: Seq<u8>) -> bool {
    prefix.len() <= bytes.len() && bytes.subrange(0, prefix.len() as int) == prefix
}

/// Whether `bytes` begins with `prefix`.
pub fn starts_with(bytes: &[u8], prefix: &[u8]) -> (r: bool)
    ensures
        r == has_prefix(bytes@, prefix@),
{
    if prefix.len() > bytes.len() {
        return false;
    }
    let mut i: usize = 0;
    while i < prefix.len()
        invariant
            prefix@.len() <= bytes@.len(),
            i <= prefix@.len(),
            forall|j: int| 0 <= j < i ==> bytes@[j] == prefix@[j],
        decreases prefix@.len() - i,
    {
        if bytes[i] != prefix[i] {
            assert(bytes@.subrange(0, prefix@.len() as int)[i as int] != prefix@[i as int]);
            return false;
        }
        i = i + 1;
    }
    assert(bytes@.subrange(0, prefix@.len() as int) =~= prefix@);
    true
}

/// An ASCII letter `a` to `z`.
pub open spec fn is_lowercase_letter(b: u8) -> bool {
    0x61 <= b <= 0x7a
}

/// An ASCII letter `A` to `Z`.
pub open spec fn is_uppercase_letter(b: u8) -> bool {
    0x41 <= b <= 0x5a
}

/// An ASCII digit `0` to `9`.
pub open spec fn is_decimal_digit(b: u8) -> bool {
    0x30 <= b <= 0x39
}

/// An ASCII letter or digit.
pub open spec fn is_alphanumeric(b: u8) -> bool {
    is_lowercase_letter(b) || is_uppercase_letter(b) || is_decimal_digit(b)
}

/// Whether `b` is an ASCII lowercase letter.
pub fn is_ascii_lowercase(b: u8) -> (r: bool)
    ensures
        r == is_lowercase_letter(b),
{
    0x61 <= b && b <= 0x7a
}

/// Whether `b` is an ASCII uppercase letter.
pub fn is_ascii_uppercase(b: u8) -> (r: bool)
    ensures
        r == is_uppercase_letter(b),
{
    0x41 <= b && b <= 0x5a
}

/// Whether `b` is an ASCII decimal digit.
pub fn is_ascii_digit(b: u8) -> (r: bool)
    ensures
        r == is_decimal_digit(b),
{
    0x30 <= b && b <= 0x39
}

/// The signer of an origin is the account of a `Signed` origin, and no other
/// origin has one.
pub proof fn lemma_signer_is_signing_account(origin: Origin, who: AccountId)
    ensures
        signer(origin) == Some(who) <==> origin == Origin::Signed(who),
        signer(origin) is None <==> !(origin is Signed),
{
}

/// `bytes` begins with `prefix` exactly when `prefix` is no longer than
/// `bytes` and they agree at every position of `prefix`.
pub proof fn lemma_has_prefix_bytewise(bytes: Seq<u8>, prefix: Seq<u8>)
    ensures
        has_prefix(bytes, prefix) <==> (prefix.len() <= bytes.len() && forall|i: int|
            0 <= i < prefix.len() ==> #[trigger] bytes[i] == prefix[i]),
{
    if prefix.len() <= bytes.len() && forall|i: int|
        0 <= i < prefix.len() ==> #[trigger] bytes[i] == prefix[i] {
        assert(bytes.subrange(0, prefix.len() as int) =~= prefix);
    }
    if has_prefix(bytes, prefix) {
        assert forall|i: int| 0 <= i < prefix.len() implies #[trigger] bytes[i] == prefix[i] by {
            assert(bytes.subrange(0, prefix.len() as int)[i] == bytes[i]);
        }
    }
}

/// The ASCII classes: lowercase letters are the bytes of `a` (0x61) to `z`
/// (0x7a), uppercase letters those of `A` (0x41) to `Z` (0x5a), digits those
/// of `0` (0x30) to `9` (0x39); no byte is in two classes, and a letter or
/// digit is a byte of one of them.
pub proof fn lemma_ascii_classes(b: u8)
    ensures
        is_lowercase_letter(b) <==> (b as char) >= 'a' && (b as char) <= 'z',
        is_uppercase_letter(b) <==> (b as char) >= 'A' && (b as char) <= 'Z',
        is_decimal_digit(b) <==> (b as char) >= '0' && (b as char) <= '9',
        !(is_lowercase_letter(b) && is_uppercase_letter(b)),
        !(is_lowercase_letter(b) && is_decimal_digit(b)),
        !(is_uppercase_letter(b) && is_decimal_digit(b)),
        is_alphanumeric(b) <==> (is_lowercase_letter(b) || is_uppercase_letter(b)
            || is_decimal_digit(b)),
{
}

} // verus!
