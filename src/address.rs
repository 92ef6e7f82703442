use vstd::prelude::*;
use vstd::string::StrSliceExecFns;
use vstd::utf8::encode_utf8;

use crate::host::{program_address, seeds_over_limits, try_find_program_address};
use crate::records::encoded_len;

verus! {

/// Namespace tag of the addresses of commitments.
pub const COMMITMENT_SEED: &'static str = "credential";

/// Namespace tag of the addresses of attestations.
pub const ATTESTATION_SEED: &'static str = "attestation";

/// Namespace tag of the addresses of institutions.
pub const INSTITUTION_SEED: &'static str = "institution";

/// Seeds of the address of the commitment to `id`.
pub open spec fn commitment_seeds(id: Seq<char>) -> Seq<Seq<u8>> {
    seq![encode_utf8(COMMITMENT_SEED@), encode_utf8(id)]
}

/// Seeds of the address of the attestation of `id` by `institution`.
pub open spec fn attestation_seeds(id: Seq<char>, institution: Seq<u8>) -> Seq<Seq<u8>> {
    seq![encode_utf8(ATTESTATION_SEED@), encode_utf8(id), institution]
}

/// Seeds of the address of the institution record of `authority`.
pub open spec fn institution_seeds(authority: Seq<u8>) -> Seq<Seq<u8>> {
    seq![encode_utf8(INSTITUTION_SEED@), authority]
}

/// What an address lookup returns when the host derives `derived`.
pub open spec fn address_matches(r: Option<([u8; 32], u8)>, derived: Option<(Seq<u8>, u8)>) -> bool {
    match r {
        Some((key, bump)) => derived == Some((key@, bump)),
        None => derived is None,
    }
}

proof fn lemma_bytes_deep_view(v: Vec<u8>)
    ensures
        v.deep_view() == v@,
{
    assert(v.deep_view() =~= v@);
}

/// Copies a byte array into a vector.
fn key_bytes(key: &[u8; 32]) -> (r: Vec<u8>)
    ensures
        r@ == key@,
{
    let mut r: Vec<u8> = Vec::new();
    let mut i: usize = 0;
    while i < 32
        invariant
            i <= 32,
            key@.len() == 32,
            r@ == key@.subrange(0, i as int),
        decreases 32 - i,
    {
        r.push(key[i]);
        i = i + 1;
        assert(r@ =~= key@.subrange(0, i as int));
    }
    assert(key@.subrange(0, 32) =~= key@);
    r
}

/// Address under `program_id` at which the commitment to `credential_id`
/// is stored, with its bump seed.
pub fn commitment_address(credential_id: &String, program_id: &[u8; 32]) -> (r: Option<
    ([u8; 32], u8),
>)
    ensures
        address_matches(r, program_address(commitment_seeds(credential_id@), program_id@)),
        encoded_len(credential_id@) > 32 ==> r is None,
{
    let tag = COMMITMENT_SEED.as_bytes_vec();
    let id = credential_id.as_str().as_bytes_vec();
    proof {
        lemma_bytes_deep_view(tag);
        lemma_bytes_deep_view(id);
    }
    let seeds: Vec<Vec<u8>> = vec![tag, id];
    assert(seeds.deep_view() =~= commitment_seeds(credential_id@));
    proof {
        if encoded_len(credential_id@) > 32 {
            assert(seeds.deep_view()[1].len() > 32);
        }
    }
    try_find_program_address(&seeds, program_id)
}

/// Address under `program_id` at which the attestation of `credential_id` by
/// `institution` is stored, with its bump seed.
pub fn attestation_address(credential_id: &String, institution: &[u8; 32], program_id: &[u8; 32]) -> (r: Option<
    ([u8; 32], u8),
>)
    ensures
        address_matches(
            r,
            program_address(attestation_seeds(credential_id@, institution@), program_id@),
        ),
        encoded_len(credential_id@) > 32 ==> r is None,
{
    let tag = ATTESTATION_SEED.as_bytes_vec();
    let id = credential_id.as_str().as_bytes_vec();
    let key = key_bytes(institution);
    proof {
        lemma_bytes_deep_view(tag);
        lemma_bytes_deep_view(id);
        lemma_bytes_deep_view(key);
    }
    let seeds: Vec<Vec<u8>> = vec![tag, id, key];
    assert(seeds.deep_view() =~= attestation_seeds(credential_id@, institution@));
    proof {
        if encoded_len(credential_id@) > 32 {
            assert(seeds.deep_view()[1].len() > 32);
        }
    }
    try_find_program_address(&seeds, program_id)
}

/// Address under `program_id` at which the institution record of
/// `authority` is stored, with its bump seed.
pub fn institution_address(authority: &[u8; 32], program_id: &[u8; 32]) -> (r: Option<
    ([u8; 32], u8),
>)
    ensures
        address_matches(r, program_address(institution_seeds(authority@), program_id@)),
{
    let tag = INSTITUTION_SEED.as_bytes_vec();
    let key = key_bytes(authority);
    proof {
        lemma_bytes_deep_view(tag);
        lemma_bytes_deep_view(key);
    }
    let seeds: Vec<Vec<u8>> = vec![tag, key];
    assert(seeds.deep_view() =~= institution_seeds(authority@));
    try_find_program_address(&seeds, program_id)
}

} // verus!
