//! The failure kinds a mutating or reading operation can surface. Every
//! validation failure aborts the whole operation before any write, so an
//! error always leaves the state exactly as it was.

use vstd::prelude::*;

verus! {

/// One terminal failure of an operation.
#[derive(Debug)]
pub enum ContractError {
    /// The caller is not the configured admin.
    Unauthorized {},
    /// A platform name failed a rule other than the allowlist.
    InvalidPlatform { platform: String },
    /// No proof is stored under the id.
    ProofNotFound { proof_id: String },
    /// The target user has no reputation record.
    UserNotFound { user: String },
    /// No badge is stored under the token id.
    NftNotFound { token_id: String },
    /// A proof already exists for this user and platform.
    DuplicateProof {},
    /// A badge level outside 1..=4.
    InvalidSkillLevel { level: u32 },
    /// An endorsement weight outside 1..=100.
    InvalidEndorsementWeight { weight: u32 },
    /// An endorser may not endorse themself.
    SelfEndorsement {},
    /// The endorser's score is below the endorsing threshold, or the
    /// endorser has no reputation record at all.
    InsufficientReputation {},
    /// A proof hash shorter than 32 characters.
    InvalidProofHash {},
    /// A platform outside the configured allowlist.
    UnsupportedPlatform { platform: String },
    /// A username that is empty or all whitespace.
    EmptyUsername {},
    /// Skill data that is empty or all whitespace.
    InvalidSkillData {},
}

} // verus!
