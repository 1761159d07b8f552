use vstd::prelude::*;

verus! {

/// The discovery key derived from a feed's public key: a fixed-size,
/// deterministic, one-way function of the key bytes alone.
pub uninterp spec fn dk_of(public_key: Seq<u8>) -> Seq<u8>;

/// Relies on hypercore_protocol::discovery_key: a 32-byte namespaced
/// BLAKE2b digest computed from the key bytes alone. The hash is keyed
/// with the public key, so the key must fit the hash's key size; feed
/// public keys are 32 bytes.
#[verifier::external_body]
pub fn derive_discovery_key(public_key: &Vec<u8>) -> (r: Vec<u8>)
    requires
        public_key@.len() == 32,
    ensures
        r@ == dk_of(public_key@),
        r@.len() == 32,
{
    hypercore_protocol::discovery_key(public_key.as_slice()).to_vec()
}

} // verus!
