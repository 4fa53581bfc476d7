//! Order ids: the Blake2-256 hash of the SCALE encoding of the placing
//! account, the two assets and the nonce.

use vstd::prelude::*;

use crate::dispatch::AccountId;
use crate::order_book::types::AssetId;

verus! {

/// The `n` low bytes of `x`, least significant first: SCALE's encoding of a
/// fixed-width unsigned integer of `n` bytes.
pub open spec fn le_bytes(x: nat, n: nat) -> Seq<u8>
    decreases n,
{
    if n == 0 {
        Seq::empty()
    } else {
        seq![(x % 256) as u8] + le_bytes(x / 256, (n - 1) as nat)
    }
}

/// The SCALE encoding of the tuple `(placer, first, second, nonce)`: the
/// encodings of its members, one after the other.
pub open spec fn order_key_encoding(placer: AccountId, first: AssetId, second: AssetId, nonce: u64) -> Seq<u8> {
    le_bytes(placer as nat, 8) + le_bytes(first as nat, 4) + le_bytes(second as nat, 4) + le_bytes(nonce as nat, 8)
}

/// What `sp_core_hashing::blake2_256` returns for `data`.
pub uninterp spec fn blake2_256(data: Seq<u8>) -> Seq<u8>;

/// `parity_scale_codec::Encode::encode` of the tuple
/// `(&placer, first, second, nonce)`.
///
/// Trusted: codec encodes a tuple as the concatenation of its members'
/// encodings, a reference as what it refers to, and each fixed-width
/// integer as its little-endian bytes.
#[verifier::external_body]
pub(crate) fn scale_encode_order_key(placer: &AccountId, first: AssetId, second: AssetId, nonce: u64) -> (r: Vec<u8>)
    ensures
        r@ == order_key_encoding(*placer, first, second, nonce),
{
    parity_scale_codec::Encode::encode(&(placer, first, second, nonce))
}

/// `sp_core_hashing::blake2_256`: the unkeyed Blake2b hash of `data` with a
/// 32-byte output.
///
/// Trusted: the result is named `blake2_256(data@)`; nothing more is said
/// of it here.
#[verifier::external_body]
pub(crate) fn hash_blake2_256(data: &[u8]) -> (r: [u8; 32])
    ensures
        r@ == blake2_256(data@),
{
    sp_core_hashing::blake2_256(data)
}

} // verus!
