use vstd::prelude::*;

use crate::host::host_unix_timestamp;
use crate::ledger::{outcome, Ledger};
use crate::records::{CredentialAttestation, CredentialCommitment, ErrorCode, Institution};

verus! {

/// The identities that `create_credential_commitment` acts for.
pub struct CreateCredentialCommitment {
    /// The signer who owns the new commitment.
    pub owner: [u8; 32],
}

/// The identities that `create_attestation` acts for.
pub struct CreateAttestation {
    /// The institution that attests.
    pub institution: [u8; 32],
}

/// The identities that `initialize_institution` acts for.
pub struct InitializeInstitution {
    /// The signer who registers as an institution.
    pub authority: [u8; 32],
}

/// Commits `ctx.owner` to `credential_id` and `credential_hash`, stamped
/// with the host's current time.
///
/// A refusal by the ledger comes before the clock is read; if the clock
/// cannot be read, nothing is written.
pub fn create_credential_commitment(
    ledger: &mut Ledger,
    ctx: &CreateCredentialCommitment,
    credential_id: String,
    credential_hash: [u8; 32],
) -> (r: Result<(), ErrorCode>)
    ensures
        old(ledger)@.commitment_error(credential_id@) is Some ==> r == outcome(
            old(ledger)@.commitment_error(credential_id@),
        ),
        old(ledger)@.commitment_error(credential_id@) is None ==> r is Ok || r == Err::<
            (),
            ErrorCode,
        >(ErrorCode::ClockUnavailable),
        old(ledger)@.keys_unique() ==> final(ledger)@.keys_unique(),
        r is Err ==> final(ledger)@ == old(ledger)@,
        r is Ok ==> exists|timestamp: i64|
            final(ledger)@ == old(ledger)@.with_commitment(
                (CredentialCommitment {
                    credential_id,
                    owner_did: ctx.owner,
                    credential_hash,
                    timestamp,
                }),
            ),
{
    let checked = ledger.check_commitment(&credential_id);
    if checked.is_err() {
        return checked;
    }
    match host_unix_timestamp() {
        Err(_) => Err(ErrorCode::ClockUnavailable),
        Ok(now) => ledger.insert_commitment(ctx.owner, credential_id, credential_hash, now),
    }
}

/// Records the attestation by `ctx.institution` of `credential_id` and
/// `credential_hash` with `signature`, stamped with the host's current time.
///
/// The institution must be whitelisted. A refusal by the ledger comes before
/// the clock is read; if the clock cannot be read, nothing is written.
pub fn create_attestation(
    ledger: &mut Ledger,
    ctx: &CreateAttestation,
    credential_id: String,
    credential_hash: [u8; 32],
    signature: [u8; 64],
) -> (r: Result<(), ErrorCode>)
    ensures
        old(ledger)@.attestation_error(credential_id@, ctx.institution@) is Some ==> r == outcome(
            old(ledger)@.attestation_error(credential_id@, ctx.institution@),
        ),
        old(ledger)@.attestation_error(credential_id@, ctx.institution@) is None ==> r is Ok || r
            == Err::<(), ErrorCode>(ErrorCode::ClockUnavailable),
        old(ledger)@.keys_unique() ==> final(ledger)@.keys_unique(),
        r is Err ==> final(ledger)@ == old(ledger)@,
        r is Ok ==> exists|timestamp: i64|
            final(ledger)@ == old(ledger)@.with_attestation(
                (CredentialAttestation {
                    credential_id,
                    credential_hash,
                    institution_pubkey: ctx.institution,
                    signature,
                    timestamp,
                }),
            ),
{
    let checked = ledger.check_attestation(&credential_id, &ctx.institution);
    if checked.is_err() {
        return checked;
    }
    match host_unix_timestamp() {
        Err(_) => Err(ErrorCode::ClockUnavailable),
        Ok(now) => ledger.insert_attestation(
            ctx.institution,
            credential_id,
            credential_hash,
            signature,
            now,
        ),
    }
}

/// Registers `ctx.authority` as a whitelisted institution named `name`.
///
/// Any identity may register itself; the record is whitelisted from the
/// start.
pub fn initialize_institution(ledger: &mut Ledger, ctx: &InitializeInstitution, name: String) -> (r:
    Result<(), ErrorCode>)
    ensures
        r == outcome(old(ledger)@.institution_error(ctx.authority@, name@)),
        old(ledger)@.keys_unique() ==> final(ledger)@.keys_unique(),
        r is Err ==> final(ledger)@ == old(ledger)@,
        r is Ok ==> final(ledger)@ == old(ledger)@.with_institution(
            (Institution { pubkey: ctx.authority, name, is_whitelisted: true }),
        ),
{
    ledger.insert_institution(ctx.authority, name)
}

} // verus!
