//! Hashing and encoding of call hashes, done by the outside crates.
//!
//! The hasher is fixed to `BlakeTwo256` (BLAKE2b with a 32-byte digest), the hasher of the
//! runtimes this pallet serves. A runtime configured with another hasher gets other hashes from
//! it: such a runtime hashes calls itself and uses the operations that take a hash,
//! `Pallet::dispatch_whitelisted_call_with_hash` and `Pallet::authorize_dispatch_whitelisted_call`.
use vstd::prelude::*;
use crate::types::CallHash;

verus! {

/// The BLAKE2b digest of 32 bytes of `data`, as `sp_crypto_hashing::blake2_256` computes it
/// (the `BlakeTwo256` hasher of the runtime).
pub uninterp spec fn blake2_256_of(data: Seq<u8>) -> Seq<u8>;

/// Calls `sp_crypto_hashing::blake2_256`. Its contract claims only that the digest is the
/// named function `blake2_256_of` of the bytes hashed: the same bytes give the same digest.
#[verifier::external_body]
fn blake2_256(data: &[u8]) -> (digest: CallHash)
    ensures
        digest@ == blake2_256_of(data@),
{
    sp_crypto_hashing::blake2_256(data)
}

/// Calls `parity_scale_codec::Encode::encode` on a 32-byte array. SCALE writes a fixed-size
/// array of bytes as those bytes, with no length prefix, so the encoding is the hash itself.
#[verifier::external_body]
pub(crate) fn encode_call_hash(call_hash: &CallHash) -> (encoded: Vec<u8>)
    ensures
        encoded@ == call_hash@,
{
    parity_scale_codec::Encode::encode(call_hash)
}

/// The hash under which a call with the given encoding is whitelisted.
pub open spec fn call_hash_spec(call_encoded: Seq<u8>) -> CallHash {
    choose|h: CallHash| h@ == blake2_256_of(call_encoded)
}

/// Hashes an encoded call with `BlakeTwo256`, as the runtime's `Hashing::hash_of` does.
pub fn call_hash_of(call_encoded: &[u8]) -> (call_hash: CallHash)
    ensures
        call_hash@ == blake2_256_of(call_encoded@),
        call_hash == call_hash_spec(call_encoded@),
{
    let h = blake2_256(call_encoded);
    proof {
        let c = call_hash_spec(call_encoded@);
        assert(c@ == h@);
        assert(c =~= h);
    }
    h
}

} // verus!
