//! Certificate identifiers: the SHA-256 digest of a commitment's id, computed
//! by the Soroban host.
use vstd::prelude::*;
use soroban_sdk::{Bytes, Env};

verus! {

#[verifier::external_type_specification]
#[verifier::external_body]
pub struct ExEnv(Env);

/// The SHA-256 digest of `data`.
pub uninterp spec fn sha256_digest(data: Seq<u8>) -> Seq<u8>;

/// Calls `soroban_sdk::crypto::Crypto::sha256` on `data`: the result is the
/// 32-byte SHA-256 digest of the bytes, which depends on them alone.
#[verifier::external_body]
fn sha256(env: &Env, data: &[u8]) -> (digest: Vec<u8>)
    ensures
        digest@ == sha256_digest(data@),
        digest@.len() == 32,
{
    env.crypto().sha256(&Bytes::from_slice(env, data)).to_array().to_vec()
}

/// The eight bytes of `x`, most significant first.
pub open spec fn be_bytes(x: u64) -> Seq<u8> {
    seq![
        (x >> 56u64) as u8,
        (x >> 48u64) as u8,
        (x >> 40u64) as u8,
        (x >> 32u64) as u8,
        (x >> 24u64) as u8,
        (x >> 16u64) as u8,
        (x >> 8u64) as u8,
        x as u8,
    ]
}

/// The id of the certificate issued for a commitment: the SHA-256 digest of
/// the commitment's id in big-endian bytes.
pub fn certificate_id(env: &Env, commitment_id: u64) -> (id: Vec<u8>)
    ensures
        id@ == sha256_digest(be_bytes(commitment_id)),
        id@.len() == 32,
{
    let x = commitment_id;
    let bytes: [u8; 8] = [
        (x >> 56u64) as u8,
        (x >> 48u64) as u8,
        (x >> 40u64) as u8,
        (x >> 32u64) as u8,
        (x >> 24u64) as u8,
        (x >> 16u64) as u8,
        (x >> 8u64) as u8,
        x as u8,
    ];
    assert(bytes@ =~= be_bytes(commitment_id));
    sha256(env, bytes.as_slice())
}

} // verus!
