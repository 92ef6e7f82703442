use vstd::prelude::*;

verus! {

/// Largest encoded length, in bytes, of any string stored in a record.
pub const MAX_STRING_LEN: usize = 256;

/// Number of bytes of an identity (a public key).
pub const IDENTITY_LEN: usize = 32;

/// Errors reported by the three operations.
#[derive(PartialEq, Eq, Structural, Clone, Copy, Debug)]
pub enum ErrorCode {
    /// The attesting institution is not registered as whitelisted.
    InstitutionNotWhitelisted,
    /// A record already occupies the key derived from the operation's inputs.
    RecordAlreadyExists,
    /// A string is longer than the record reserves for it.
    FieldTooLong,
    /// The host clock could not be read.
    ClockUnavailable,
}

/// An owner's claim binding a credential identifier to a 32-byte digest.
#[derive(Debug, PartialEq, Eq)]
pub struct CredentialCommitment {
    pub credential_id: String,
    pub owner_did: [u8; 32],
    pub credential_hash: [u8; 32],
    pub timestamp: i64,
}

impl CredentialCommitment {
    /// Bytes reserved for the serialised record: a length-prefixed string,
    /// the owner, the digest and the timestamp.
    pub const LEN: usize = 4 + 256 + 32 + 32 + 8;
}

/// An institution's signed claim about a credential identifier and digest.
#[derive(Debug, PartialEq, Eq)]
pub struct CredentialAttestation {
    pub credential_id: String,
    pub credential_hash: [u8; 32],
    pub institution_pubkey: [u8; 32],
    pub signature: [u8; 64],
    pub timestamp: i64,
}

impl CredentialAttestation {
    /// Bytes reserved for the serialised record: a length-prefixed string,
    /// the digest, the institution, the signature and the timestamp.
    pub const LEN: usize = 4 + 256 + 32 + 32 + 64 + 8;
}

/// A registered institution; only whitelisted ones may attest.
#[derive(Debug, PartialEq, Eq)]
pub struct Institution {
    pub pubkey: [u8; 32],
    pub name: String,
    pub is_whitelisted: bool,
}

impl Institution {
    /// Bytes reserved for the serialised record: the key, a length-prefixed
    /// name and the whitelist flag.
    pub const LEN: usize = 32 + 4 + 256 + 1;
}

/// Number of bytes of the UTF-8 encoding of `s`.
pub open spec fn encoded_len(s: Seq<char>) -> nat {
    vstd::utf8::encode_utf8(s).len()
}

/// Whether `s` fits in the space a record reserves for a string.
pub open spec fn fits_in_record(s: Seq<char>) -> bool {
    encoded_len(s) <= MAX_STRING_LEN
}

/// Tells whether `s` fits in the space a record reserves for a string.
pub fn string_fits(s: &String) -> (r: bool)
    ensures
        r == fits_in_record(s@),
{
    let bytes: &[u8] = s.as_str().as_bytes();
    bytes.len() <= MAX_STRING_LEN
}

/// Compares two identities byte by byte.
pub fn same_identity(a: &[u8; 32], b: &[u8; 32]) -> (r: bool)
    ensures
        r == (a@ == b@),
{
    let mut i: usize = 0;
    while i < IDENTITY_LEN
        invariant
            i <= IDENTITY_LEN,
            a@.len() == IDENTITY_LEN,
            b@.len() == IDENTITY_LEN,
            forall|j: int| 0 <= j < i ==> a@[j] == b@[j],
        decreases IDENTITY_LEN - i,
    {
        if a[i] != b[i] {
            return false;
        }
        i = i + 1;
    }
    assert(a@ =~= b@);
    true
}

} // verus!
