//! The keccak-256 digest, named but not restated.

use vstd::prelude::*;

use zk_evm::sha3::Digest;
use zk_evm::sha3::Keccak256;

verus! {

/// The keccak-256 digest of a byte string: 32 bytes that are a function of
/// the input bytes alone.  The policy never looks inside a digest; it only
/// stores and compares one, so the bytes themselves are left unstated.
pub uninterp spec fn keccak_of(input: Seq<u8>) -> Seq<u8>;

/// Relies on the keccak-256 implementation the virtual-machine crate
/// re-exports (its precompiles use the same one): the digest has 32 bytes
/// and depends on the input bytes alone.
#[verifier::external_body]
pub(crate) fn keccak256(input: &Vec<u8>) -> (r: Vec<u8>)
    ensures
        r@ == keccak_of(input@),
        r@.len() == 32,
{
    Keccak256::digest(input.as_slice()).to_vec()
}

} // verus!
