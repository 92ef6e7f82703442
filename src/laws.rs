//! Properties of the ledger that hold across operations.
use vstd::prelude::*;

use crate::ledger::LedgerModel;
use crate::records::{CredentialAttestation, CredentialCommitment, ErrorCode, Institution};

verus! {

/// Once a commitment to an identifier is stored, every later commitment to
/// the same identifier is refused as already existing, whoever makes it and
/// whatever digest it carries.
pub proof fn lemma_commitment_created_once(m: LedgerModel, c: CredentialCommitment)
    ensures
        m.with_commitment(c).commitment_error(c.credential_id@) == Some(
            ErrorCode::RecordAlreadyExists,
        ),
{
    let m1 = m.with_commitment(c);
    assert(m1.commitments[m.commitments.len() as int] == c);
}

/// An identity without a whitelisted institution record can attest nothing:
/// the attempt is refused as not whitelisted, so nothing is written.
pub proof fn lemma_unlisted_institution_cannot_attest(
    m: LedgerModel,
    credential_id: Seq<char>,
    institution: Seq<u8>,
)
    requires
        !m.is_whitelisted(institution),
    ensures
        m.attestation_error(credential_id, institution) == Some(
            ErrorCode::InstitutionNotWhitelisted,
        ),
{
}

/// Once an institution has attested an identifier, its next attestation of
/// the same identifier is refused as already existing.
pub proof fn lemma_attestation_created_once(m: LedgerModel, a: CredentialAttestation)
    requires
        m.attestation_error(a.credential_id@, a.institution_pubkey@) is None,
    ensures
        m.with_attestation(a).attestation_error(a.credential_id@, a.institution_pubkey@) == Some(
            ErrorCode::RecordAlreadyExists,
        ),
{
    let m1 = m.with_attestation(a);
    assert(m1.attestations[m.attestations.len() as int] == a);
    assert(m1.institutions == m.institutions);
}

/// The empty ledger holds at most one record per key.
pub proof fn lemma_empty_keys_unique()
    ensures
        LedgerModel::empty().keys_unique(),
{
}

/// Storing a commitment that would not be refused keeps one commitment per
/// identifier.
pub proof fn lemma_commitment_keeps_keys_unique(m: LedgerModel, c: CredentialCommitment)
    requires
        m.keys_unique(),
        m.commitment_error(c.credential_id@) is None,
    ensures
        m.with_commitment(c).keys_unique(),
{
    let m1 = m.with_commitment(c);
    assert forall|i: int, j: int| 0 <= i < j < m1.commitments.len() implies (
    #[trigger] m1.commitments[i]).credential_id@ != (#[trigger] m1.commitments[j]).credential_id@ by {
        assert(m1.commitments[i] == m.commitments[i]);
        if j < m.commitments.len() {
            assert(m1.commitments[j] == m.commitments[j]);
        }
    }
}

/// Storing an attestation that would not be refused keeps one attestation
/// per identifier and institution.
pub proof fn lemma_attestation_keeps_keys_unique(m: LedgerModel, a: CredentialAttestation)
    requires
        m.keys_unique(),
        m.attestation_error(a.credential_id@, a.institution_pubkey@) is None,
    ensures
        m.with_attestation(a).keys_unique(),
{
    let m1 = m.with_attestation(a);
    assert forall|i: int, j: int| 0 <= i < j < m1.attestations.len() implies !(
    (#[trigger] m1.attestations[i]).credential_id@
        == (#[trigger] m1.attestations[j]).credential_id@
        && m1.attestations[i].institution_pubkey@ == m1.attestations[j].institution_pubkey@) by {
        assert(m1.attestations[i] == m.attestations[i]);
        if j < m.attestations.len() {
            assert(m1.attestations[j] == m.attestations[j]);
        }
    }
}

/// Registering an institution that would not be refused keeps one
/// institution record per identity.
pub proof fn lemma_institution_keeps_keys_unique(m: LedgerModel, inst: Institution)
    requires
        m.keys_unique(),
        m.institution_error(inst.pubkey@, inst.name@) is None,
    ensures
        m.with_institution(inst).keys_unique(),
{
    let m1 = m.with_institution(inst);
    assert forall|i: int, j: int| 0 <= i < j < m1.institutions.len() implies (
    #[trigger] m1.institutions[i]).pubkey@ != (#[trigger] m1.institutions[j]).pubkey@ by {
        assert(m1.institutions[i] == m.institutions[i]);
        if j < m.institutions.len() {
            assert(m1.institutions[j] == m.institutions[j]);
        }
    }
}

/// Two different institutions may each attest the same identifier: the
/// second attestation is not disturbed by the first, and both records are
/// then stored.
pub proof fn lemma_institutions_attest_independently(
    m: LedgerModel,
    a: CredentialAttestation,
    b: CredentialAttestation,
)
    requires
        a.credential_id@ == b.credential_id@,
        a.institution_pubkey@ != b.institution_pubkey@,
        m.attestation_error(a.credential_id@, a.institution_pubkey@) is None,
        m.attestation_error(b.credential_id@, b.institution_pubkey@) is None,
    ensures
        m.with_attestation(a).attestation_error(b.credential_id@, b.institution_pubkey@) is None,
        m.with_attestation(a).with_attestation(b).has_attestation(
            a.credential_id@,
            a.institution_pubkey@,
        ),
        m.with_attestation(a).with_attestation(b).has_attestation(
            b.credential_id@,
            b.institution_pubkey@,
        ),
{
    let m1 = m.with_attestation(a);
    let m2 = m1.with_attestation(b);
    assert(m1.institutions == m.institutions);
    assert(forall|i: int| 0 <= i < m.attestations.len() ==> m1.attestations[i] == m.attestations[i]);
    assert(m2.attestations[m.attestations.len() as int] == a);
    assert(m2.attestations[m1.attestations.len() as int] == b);
}

/// An identity registers as an institution at most once; two different
/// identities may both register, and both are then whitelisted.
pub proof fn lemma_institution_registration(m: LedgerModel, x: Institution, y: Institution)
    ensures
        m.with_institution(x).institution_error(x.pubkey@, y.name@) == Some(
            ErrorCode::RecordAlreadyExists,
        ),
        x.pubkey@ != y.pubkey@ && x.is_whitelisted && y.is_whitelisted
            && m.institution_error(x.pubkey@, x.name@) is None
            && m.institution_error(y.pubkey@, y.name@) is None ==> {
            &&& m.with_institution(x).institution_error(y.pubkey@, y.name@) is None
            &&& m.with_institution(x).with_institution(y).is_whitelisted(x.pubkey@)
            &&& m.with_institution(x).with_institution(y).is_whitelisted(y.pubkey@)
        },
{
    let m1 = m.with_institution(x);
    let m2 = m1.with_institution(y);
    assert(m1.institutions[m.institutions.len() as int] == x);
    assert(forall|i: int| 0 <= i < m.institutions.len() ==> m1.institutions[i] == m.institutions[i]);
    assert(m2.institutions[m.institutions.len() as int] == x);
    assert(m2.institutions[m1.institutions.len() as int] == y);
}

} // verus!
