//! Program-call discriminants.
//!
//! Every instruction payload starts with an eight-byte identifier of the call
//! being invoked: the first eight bytes of the sha-256 digest of the
//! namespaced call name. The identifier is cheap to recompute, so it is
//! recomputed on each encode rather than cached.

use vstd::prelude::*;

verus! {

/// The 32-byte sha-256 digest of a byte string.
///
/// This names the result of the sha-256 function; it is a function of the
/// input bytes alone.
pub uninterp spec fn sha256_of(data: Seq<u8>) -> Seq<u8>;

/// Relies on `sha2::Sha256`: the digest holds exactly 32 bytes and depends on
/// the input bytes alone.
#[verifier::external_body]
fn sha256(data: &[u8]) -> (r: Vec<u8>)
    ensures
        r@ == sha256_of(data@),
        r@.len() == 32,
{
    <sha2::Sha256 as sha2::Digest>::digest(data).to_vec()
}

/// The eight-byte call identifier of a namespaced call name: the first eight
/// bytes of the name's sha-256 digest.
pub open spec fn spec_discriminant(name: Seq<u8>) -> Seq<u8> {
    sha256_of(name).take(8)
}

/// Computes the call identifier that prefixes the payload of every
/// instruction invoking the named call. Deterministic, with no error path.
pub fn discriminant(name: &[u8]) -> (r: Vec<u8>)
    ensures
        r@ == spec_discriminant(name@),
        r@.len() == 8,
{
    let mut d = sha256(name);
    d.truncate(8);
    proof {
        assert(d@ =~= spec_discriminant(name@));
    }
    d
}

/// For all call names the discriminant hasher is deterministic: identical
/// input bytes always yield the identical eight-byte identifier.
pub proof fn lemma_discriminant_deterministic(a: Seq<u8>, b: Seq<u8>)
    requires
        a == b,
    ensures
        spec_discriminant(a) == spec_discriminant(b),
{
}

} // verus!
