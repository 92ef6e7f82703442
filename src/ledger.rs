use vstd::prelude::*;

use crate::laws::{
    lemma_attestation_keeps_keys_unique, lemma_commitment_keeps_keys_unique,
    lemma_institution_keeps_keys_unique,
};
use crate::records::{
    fits_in_record, same_identity, string_fits, CredentialAttestation, CredentialCommitment,
    ErrorCode, Institution,
};

verus! {

/// What a ledger holds: the records of each kind, in order of creation.
pub struct LedgerModel {
    pub commitments: Seq<CredentialCommitment>,
    pub attestations: Seq<CredentialAttestation>,
    pub institutions: Seq<Institution>,
}

impl LedgerModel {
    /// The ledger before any operation.
    pub open spec fn empty() -> LedgerModel {
        LedgerModel {
            commitments: Seq::empty(),
            attestations: Seq::empty(),
            institutions: Seq::empty(),
        }
    }

    /// A commitment for `id` is stored.
    pub open spec fn has_commitment(self, id: Seq<char>) -> bool {
        exists|i: int|
            0 <= i < self.commitments.len() && (#[trigger] self.commitments[i]).credential_id@
                == id
    }

    /// An attestation of `id` by `institution` is stored.
    pub open spec fn has_attestation(self, id: Seq<char>, institution: Seq<u8>) -> bool {
        exists|i: int|
            0 <= i < self.attestations.len() && (#[trigger] self.attestations[i]).credential_id@
                == id && self.attestations[i].institution_pubkey@ == institution
    }

    /// An institution record is stored for `who`.
    pub open spec fn has_institution(self, who: Seq<u8>) -> bool {
        exists|i: int|
            0 <= i < self.institutions.len() && (#[trigger] self.institutions[i]).pubkey@ == who
    }

    /// An institution record is stored for `who` and marks it whitelisted.
    pub open spec fn is_whitelisted(self, who: Seq<u8>) -> bool {
        exists|i: int|
            0 <= i < self.institutions.len() && (#[trigger] self.institutions[i]).pubkey@ == who
                && self.institutions[i].is_whitelisted
    }

    /// At most one record of each kind per key.
    pub open spec fn keys_unique(self) -> bool {
        &&& forall|i: int, j: int|
            0 <= i < j < self.commitments.len() ==> (#[trigger] self.commitments[i]).credential_id@
                != (#[trigger] self.commitments[j]).credential_id@
        &&& forall|i: int, j: int|
            0 <= i < j < self.attestations.len() ==> !(
            (#[trigger] self.attestations[i]).credential_id@
                == (#[trigger] self.attestations[j]).credential_id@
                && self.attestations[i].institution_pubkey@
                == self.attestations[j].institution_pubkey@)
        &&& forall|i: int, j: int|
            0 <= i < j < self.institutions.len() ==> (#[trigger] self.institutions[i]).pubkey@
                != (#[trigger] self.institutions[j]).pubkey@
    }

    /// Why a commitment to `id` would be refused, if it would.
    pub open spec fn commitment_error(self, id: Seq<char>) -> Option<ErrorCode> {
        if self.has_commitment(id) {
            Some(ErrorCode::RecordAlreadyExists)
        } else if !fits_in_record(id) {
            Some(ErrorCode::FieldTooLong)
        } else {
            None
        }
    }

    /// The ledger once `c` is stored.
    pub open spec fn with_commitment(self, c: CredentialCommitment) -> LedgerModel {
        LedgerModel { commitments: self.commitments.push(c), ..self }
    }

    /// Why an attestation of `id` by `institution` would be refused, if it
    /// would. The whitelist is consulted first.
    pub open spec fn attestation_error(self, id: Seq<char>, institution: Seq<u8>) -> Option<
        ErrorCode,
    > {
        if !self.is_whitelisted(institution) {
            Some(ErrorCode::InstitutionNotWhitelisted)
        } else if self.has_attestation(id, institution) {
            Some(ErrorCode::RecordAlreadyExists)
        } else if !fits_in_record(id) {
            Some(ErrorCode::FieldTooLong)
        } else {
            None
        }
    }

    /// The ledger once `a` is stored.
    pub open spec fn with_attestation(self, a: CredentialAttestation) -> LedgerModel {
        LedgerModel { attestations: self.attestations.push(a), ..self }
    }

    /// Why registering `who` under `name` would be refused, if it would.
    pub open spec fn institution_error(self, who: Seq<u8>, name: Seq<char>) -> Option<ErrorCode> {
        if self.has_institution(who) {
            Some(ErrorCode::RecordAlreadyExists)
        } else if !fits_in_record(name) {
            Some(ErrorCode::FieldTooLong)
        } else {
            None
        }
    }

    /// The ledger once `inst` is stored.
    pub open spec fn with_institution(self, inst: Institution) -> LedgerModel {
        LedgerModel { institutions: self.institutions.push(inst), ..self }
    }
}

/// The record store: create-once records of the three kinds.
pub struct Ledger {
    commitments: Vec<CredentialCommitment>,
    attestations: Vec<CredentialAttestation>,
    institutions: Vec<Institution>,
}

impl View for Ledger {
    type V = LedgerModel;

    closed spec fn view(&self) -> LedgerModel {
        LedgerModel {
            commitments: self.commitments@,
            attestations: self.attestations@,
            institutions: self.institutions@,
        }
    }
}

impl Ledger {
    /// An empty ledger.
    pub fn new() -> (r: Ledger)
        ensures
            r@ == LedgerModel::empty(),
    {
        let r = Ledger { commitments: Vec::new(), attestations: Vec::new(), institutions: Vec::new() };
        assert(r@.commitments =~= Seq::<CredentialCommitment>::empty());
        assert(r@.attestations =~= Seq::<CredentialAttestation>::empty());
        assert(r@.institutions =~= Seq::<Institution>::empty());
        r
    }

    /// Position of the commitment for `id`, if one is stored.
    pub fn find_commitment(&self, id: &String) -> (r: Option<usize>)
        ensures
            r matches Some(i) ==> i < self@.commitments.len() && self@.commitments[i as int].credential_id@ == id@,
            r is None <==> !self@.has_commitment(id@),
    {
        let mut i: usize = 0;
        while i < self.commitments.len()
            invariant
                i <= self.commitments@.len(),
                forall|j: int| 0 <= j < i ==> (#[trigger] self.commitments@[j]).credential_id@ != id@,
            decreases self.commitments@.len() - i,
        {
            if self.commitments[i].credential_id == *id {
                assert(self@.commitments[i as int].credential_id@ == id@);
                return Some(i);
            }
            i = i + 1;
        }
        None
    }

    /// Position of the attestation of `id` by `institution`, if one is stored.
    pub fn find_attestation(&self, id: &String, institution: &[u8; 32]) -> (r: Option<usize>)
        ensures
            r matches Some(i) ==> i < self@.attestations.len()
                && self@.attestations[i as int].credential_id@ == id@
                && self@.attestations[i as int].institution_pubkey@ == institution@,
            r is None <==> !self@.has_attestation(id@, institution@),
    {
        let mut i: usize = 0;
        while i < self.attestations.len()
            invariant
                i <= self.attestations@.len(),
                forall|j: int|
                    0 <= j < i ==> !((#[trigger] self.attestations@[j]).credential_id@ == id@
                        && self.attestations@[j].institution_pubkey@ == institution@),
            decreases self.attestations@.len() - i,
        {
            let a = &self.attestations[i];
            if a.credential_id == *id && same_identity(&a.institution_pubkey, institution) {
                assert(self@.attestations[i as int].credential_id@ == id@);
                return Some(i);
            }
            i = i + 1;
        }
        None
    }

    /// Position of the institution record of `who`, if one is stored.
    pub fn find_institution(&self, who: &[u8; 32]) -> (r: Option<usize>)
        ensures
            r matches Some(i) ==> i < self@.institutions.len()
                && self@.institutions[i as int].pubkey@ == who@,
            r is None <==> !self@.has_institution(who@),
    {
        let mut i: usize = 0;
        while i < self.institutions.len()
            invariant
                i <= self.institutions@.len(),
                forall|j: int| 0 <= j < i ==> (#[trigger] self.institutions@[j]).pubkey@ != who@,
            decreases self.institutions@.len() - i,
        {
            if same_identity(&self.institutions[i].pubkey, who) {
                assert(self@.institutions[i as int].pubkey@ == who@);
                return Some(i);
            }
            i = i + 1;
        }
        None
    }
}

/// The result an operation reports when `e` is the reason it refuses, if any.
pub open spec fn outcome(e: Option<ErrorCode>) -> Result<(), ErrorCode> {
    match e {
        Some(err) => Err(err),
        None => Ok(()),
    }
}

impl Ledger {
    /// Tells whether `who` has an institution record that is whitelisted.
    pub fn is_whitelisted(&self, who: &[u8; 32]) -> (r: bool)
        ensures
            r == self@.is_whitelisted(who@),
    {
        let mut i: usize = 0;
        while i < self.institutions.len()
            invariant
                i <= self.institutions@.len(),
                forall|j: int|
                    0 <= j < i ==> !((#[trigger] self.institutions@[j]).pubkey@ == who@
                        && self.institutions@[j].is_whitelisted),
            decreases self.institutions@.len() - i,
        {
            let inst = &self.institutions[i];
            if inst.is_whitelisted && same_identity(&inst.pubkey, who) {
                assert(self@.institutions[i as int].pubkey@ == who@);
                return true;
            }
            i = i + 1;
        }
        false
    }

    /// Checks whether a commitment to `id` may be created.
    pub fn check_commitment(&self, id: &String) -> (r: Result<(), ErrorCode>)
        ensures
            r == outcome(self@.commitment_error(id@)),
    {
        if self.find_commitment(id).is_some() {
            Err(ErrorCode::RecordAlreadyExists)
        } else if !string_fits(id) {
            Err(ErrorCode::FieldTooLong)
        } else {
            Ok(())
        }
    }

    /// Checks whether `institution` may attest `id`.
    pub fn check_attestation(&self, id: &String, institution: &[u8; 32]) -> (r: Result<
        (),
        ErrorCode,
    >)
        ensures
            r == outcome(self@.attestation_error(id@, institution@)),
    {
        if !self.is_whitelisted(institution) {
            Err(ErrorCode::InstitutionNotWhitelisted)
        } else if self.find_attestation(id, institution).is_some() {
            Err(ErrorCode::RecordAlreadyExists)
        } else if !string_fits(id) {
            Err(ErrorCode::FieldTooLong)
        } else {
            Ok(())
        }
    }

    /// Checks whether `who` may register as an institution named `name`.
    pub fn check_institution(&self, who: &[u8; 32], name: &String) -> (r: Result<(), ErrorCode>)
        ensures
            r == outcome(self@.institution_error(who@, name@)),
    {
        if self.find_institution(who).is_some() {
            Err(ErrorCode::RecordAlreadyExists)
        } else if !string_fits(name) {
            Err(ErrorCode::FieldTooLong)
        } else {
            Ok(())
        }
    }

    /// Stores the commitment of `owner` to `credential_id` and
    /// `credential_hash`, made at `timestamp`, unless it is refused.
    pub fn insert_commitment(
        &mut self,
        owner: [u8; 32],
        credential_id: String,
        credential_hash: [u8; 32],
        timestamp: i64,
    ) -> (r: Result<(), ErrorCode>)
        ensures
            r == outcome(old(self)@.commitment_error(credential_id@)),
            old(self)@.keys_unique() ==> final(self)@.keys_unique(),
            r is Err ==> final(self)@ == old(self)@,
            r is Ok ==> final(self)@ == old(self)@.with_commitment(
                (CredentialCommitment {
                    credential_id,
                    owner_did: owner,
                    credential_hash,
                    timestamp,
                }),
            ),
    {
        let checked = self.check_commitment(&credential_id);
        if checked.is_err() {
            return checked;
        }
        let c = CredentialCommitment { credential_id, owner_did: owner, credential_hash, timestamp };
        proof {
            if self@.keys_unique() {
                lemma_commitment_keeps_keys_unique(self@, c);
            }
        }
        self.commitments.push(c);
        Ok(())
    }

    /// Stores the attestation by `institution` of `credential_id` and
    /// `credential_hash` with `signature`, made at `timestamp`, unless it is
    /// refused.
    pub fn insert_attestation(
        &mut self,
        institution: [u8; 32],
        credential_id: String,
        credential_hash: [u8; 32],
        signature: [u8; 64],
        timestamp: i64,
    ) -> (r: Result<(), ErrorCode>)
        ensures
            r == outcome(old(self)@.attestation_error(credential_id@, institution@)),
            old(self)@.keys_unique() ==> final(self)@.keys_unique(),
            r is Err ==> final(self)@ == old(self)@,
            r is Ok ==> final(self)@ == old(self)@.with_attestation(
                (CredentialAttestation {
                    credential_id,
                    credential_hash,
                    institution_pubkey: institution,
                    signature,
                    timestamp,
                }),
            ),
    {
        let checked = self.check_attestation(&credential_id, &institution);
        if checked.is_err() {
            return checked;
        }
        let a = CredentialAttestation {
            credential_id,
            credential_hash,
            institution_pubkey: institution,
            signature,
            timestamp,
        };
        proof {
            if self@.keys_unique() {
                lemma_attestation_keeps_keys_unique(self@, a);
            }
        }
        self.attestations.push(a);
        Ok(())
    }

    /// Registers `authority` as a whitelisted institution named `name`,
    /// unless it is refused.
    pub fn insert_institution(&mut self, authority: [u8; 32], name: String) -> (r: Result<
        (),
        ErrorCode,
    >)
        ensures
            r == outcome(old(self)@.institution_error(authority@, name@)),
            old(self)@.keys_unique() ==> final(self)@.keys_unique(),
            r is Err ==> final(self)@ == old(self)@,
            r is Ok ==> final(self)@ == old(self)@.with_institution(
                (Institution { pubkey: authority, name, is_whitelisted: true }),
            ),
    {
        let checked = self.check_institution(&authority, &name);
        if checked.is_err() {
            return checked;
        }
        let inst = Institution { pubkey: authority, name, is_whitelisted: true };
        proof {
            if self@.keys_unique() {
                lemma_institution_keeps_keys_unique(self@, inst);
            }
        }
        self.institutions.push(inst);
        Ok(())
    }
}

impl Ledger {
    /// The commitment stored for `id`, if any.
    pub fn commitment(&self, id: &String) -> (r: Option<&CredentialCommitment>)
        ensures
            r is None <==> !self@.has_commitment(id@),
            r matches Some(c) ==> c.credential_id@ == id@ && self@.commitments.contains(*c),
    {
        match self.find_commitment(id) {
            Some(i) => Some(&self.commitments[i]),
            None => None,
        }
    }

    /// The attestation of `id` by `institution`, if any.
    pub fn attestation(&self, id: &String, institution: &[u8; 32]) -> (r: Option<
        &CredentialAttestation,
    >)
        ensures
            r is None <==> !self@.has_attestation(id@, institution@),
            r matches Some(a) ==> a.credential_id@ == id@ && a.institution_pubkey@ == institution@
                && self@.attestations.contains(*a),
    {
        match self.find_attestation(id, institution) {
            Some(i) => Some(&self.attestations[i]),
            None => None,
        }
    }

    /// The institution record of `who`, if any.
    pub fn institution(&self, who: &[u8; 32]) -> (r: Option<&Institution>)
        ensures
            r is None <==> !self@.has_institution(who@),
            r matches Some(inst) ==> inst.pubkey@ == who@ && self@.institutions.contains(*inst),
    {
        match self.find_institution(who) {
            Some(i) => Some(&self.institutions[i]),
            None => None,
        }
    }

    /// Number of stored commitments.
    pub fn commitment_count(&self) -> (r: usize)
        ensures
            r == self@.commitments.len(),
    {
        self.commitments.len()
    }

    /// Number of stored attestations.
    pub fn attestation_count(&self) -> (r: usize)
        ensures
            r == self@.attestations.len(),
    {
        self.attestations.len()
    }

    /// Number of stored institution records.
    pub fn institution_count(&self) -> (r: usize)
        ensures
            r == self@.institutions.len(),
    {
        self.institutions.len()
    }
}

} // verus!
