//! Statement logic for four confidential financial statements: deposit
//! sufficiency, KYC eligibility, withdrawal validity and yield range
//! disclosure. Each statement validates its inputs, derives its digests by
//! SHA-256 and packages its public outputs, or reports a typed failure.
//!
//! Every statement is a pure function of its inputs. Whether a nullifier
//! was seen before, and which Merkle root is current, is for the ledger to
//! say; producing the proof is for the proving backend.

pub mod hashing;
pub mod wire;
pub mod failure;
pub mod deposit;
pub mod withdrawal;
pub mod kyc;
pub mod merkle;
pub mod yield_range;
pub mod statement;
