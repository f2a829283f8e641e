//! Public keys, and the two outside calls that the pallets make on them:
//! the default sr25519 key of `sp_core`, and SCALE decoding of an account
//! identifier from a key's bytes with `parity_scale_codec`.
use vstd::prelude::*;
use parity_scale_codec::Error as CodecError;

verus! {

/// The raw bytes of an sr25519 public key.
pub type PublicKey = [u8; 32];

/// The error type of SCALE decoding, carried through unread.
#[verifier::external_type_specification]
#[verifier::external_body]
pub struct ExCodecError(CodecError);

/// Whether every byte of `key` is zero.
pub open spec fn is_zero_key(key: PublicKey) -> bool {
    forall|i: int| 0 <= i < 32 ==> #[trigger] key[i] == 0
}

/// `sp_core::sr25519::Public::default()`, taken as its bytes.
///
/// `sp_core` builds the default of its fixed-size key type from a zeroed
/// array; the contract claims exactly that: all 32 bytes are zero.
#[verifier::external_body]
pub(crate) fn default_public_key() -> (r: PublicKey)
    ensures
        is_zero_key(r),
{
    sp_core::sr25519::Public::default().0
}

/// `<[u8; 32] as parity_scale_codec::Decode>::decode` on the bytes of a key.
///
/// `parity_scale_codec` decodes an array of bytes by reading as many bytes as
/// the array holds from the input slice; reading from a slice fails only when
/// fewer bytes remain than are asked for. The 32 bytes given here always
/// suffice, so the contract claims `Ok` with those same 32 bytes.
#[verifier::external_body]
pub(crate) fn decode_account_bytes(bytes: &[u8; 32]) -> (r: Result<[u8; 32], CodecError>)
    ensures
        r is Ok,
        r->Ok_0@ == bytes@,
{
    let mut input: &[u8] = &bytes[..];
    <[u8; 32] as parity_scale_codec::Decode>::decode(&mut input)
}

} // verus!
