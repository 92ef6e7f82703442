//! On-ledger notarisation of credentials: owners commit to a credential by
//! hash, whitelisted institutions attest to it with a signature, and any
//! identity may register itself as an institution.
//!
//! Every record is created at most once per key and never changes after.

pub mod address;
pub mod host;
pub mod instructions;
pub mod laws;
pub mod ledger;
pub mod records;

pub use address::{attestation_address, commitment_address, institution_address};
pub use instructions::{
    create_attestation, create_credential_commitment, initialize_institution, CreateAttestation,
    CreateCredentialCommitment, InitializeInstitution,
};
pub use ledger::Ledger;
pub use records::{CredentialAttestation, CredentialCommitment, ErrorCode, Institution};
