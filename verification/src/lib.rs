//! A state-management engine for externally attested skill proofs: it
//! records proofs, derives per-user reputation scores, layers peer
//! endorsements and badge issuance on top, and keeps per-platform and
//! global leaderboards, all as one in-memory state value whose every
//! mutation is specified and verified.

pub mod board;
pub mod contract;
pub mod error;
pub mod laws;
pub mod msg;
pub mod smap;
pub mod state;
pub mod text;
