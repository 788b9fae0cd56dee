use sha2::{Digest, Sha256};
use vstd::prelude::*;

verus! {

/// The SHA-256 digest of a byte string: 32 bytes.
pub uninterp spec fn sha256(data: Seq<u8>) -> Seq<u8>;

/// SHA-256 of `data`, computed by `sha2::Sha256` (`new`, `update`,
/// `finalize`). The digest is a function of the bytes alone; the contract
/// names it and claims nothing else of it.
#[verifier::external_body]
pub(crate) fn sha256_digest(data: &[u8]) -> (digest: [u8; 32])
    ensures
        digest@ == sha256(data@),
{
    let mut hasher = Sha256::new();
    hasher.update(data);
    hasher.finalize().into()
}

/// The first eight bytes of the SHA-256 digest of `prefix` followed by `name`,
/// both in UTF-8: the tag that marks a record type or an instruction.
pub open spec fn spec_discriminator(prefix: Seq<char>, name: Seq<char>) -> Seq<u8> {
    sha256(vstd::utf8::encode_utf8(prefix) + vstd::utf8::encode_utf8(name)).subrange(0, 8)
}

/// Computes the eight-byte tag of `name` within the namespace `prefix`.
pub fn discriminator(prefix: &str, name: &str) -> (disc: [u8; 8])
    ensures
        disc@ == spec_discriminator(prefix@, name@),
{
    let mut preimage: Vec<u8> = Vec::new();
    preimage.extend_from_slice(prefix.as_bytes());
    preimage.extend_from_slice(name.as_bytes());
    assert(preimage@ =~= vstd::utf8::encode_utf8(prefix@) + vstd::utf8::encode_utf8(name@));
    let digest = sha256_digest(preimage.as_slice());
    let mut disc = [0u8; 8];
    let mut i: usize = 0;
    while i < 8
        invariant
            i <= 8,
            digest@.len() == 32,
            forall|j: int| 0 <= j < i ==> disc@[j] == digest@[j],
        decreases 8 - i,
    {
        disc[i] = digest[i];
        i += 1;
    }
    assert(disc@ =~= digest@.subrange(0, 8));
    disc
}

} // verus!
