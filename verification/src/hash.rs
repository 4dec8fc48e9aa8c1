//! The one-way hash under which the registry keys its records.

use tiny_keccak::Hasher;
use vstd::prelude::*;

verus! {

/// The SHA3-256 digest of a byte string. The digest is a function of the
/// input alone; no further structure of it is assumed.
pub uninterp spec fn sha3_of(data: Seq<u8>) -> Seq<u8>;

/// Relies on tiny_keccak's `Sha3::v256` / `Hasher::update` / `Hasher::finalize`:
/// the SHA3-256 digest, 32 bytes, a function of the input bytes alone.
#[verifier::external_body]
pub fn sha3_hash(data: &Vec<u8>) -> (r: Vec<u8>)
    ensures
        r@ == sha3_of(data@),
        r@.len() == 32,
{
    let mut sha3 = tiny_keccak::Sha3::v256();
    sha3.update(data.as_slice());
    let mut output = [0u8; 32];
    sha3.finalize(&mut output);
    output.to_vec()
}

} // verus!
