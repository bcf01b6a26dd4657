//! The reasons for which a statement is refused.

use vstd::prelude::*;

verus! {

/// Why a statement's validation failed. Each statement reports the first
/// of its checks that does not hold, and emits no output in that case.
#[derive(Clone, Copy, Debug, PartialEq, Eq, Structural)]
pub enum ValidationFailure {
    /// The balance does not cover the deposit amount.
    InsufficientBalance,
    /// The age is below the required minimum.
    AgeRequirementNotMet,
    /// The jurisdiction is on the deny-list.
    JurisdictionSanctioned,
    /// The secret does not open the commitment.
    InvalidCommitment,
    /// The withdrawal exceeds the available LP tokens.
    InsufficientLiquidity,
    /// The time range is empty or reversed.
    InvalidTimeRange,
    /// The yield is under the disclosed minimum.
    YieldBelowMinimum,
    /// The yield is over the disclosed maximum.
    YieldAboveMaximum,
    /// The Merkle path does not lead from the leaf to the root.
    MerkleProofInvalid,
}

/// Why a statement produced no outputs.
#[derive(Clone, Copy, Debug, PartialEq, Eq, Structural)]
pub enum StatementError {
    /// A field is missing, surplus, of the wrong type or of the wrong size.
    MalformedInput,
    /// The inputs were read, and a check of the statement failed.
    Validation(ValidationFailure),
}

/// What a statement returns for its ordered input fields, given what they
/// were read as and what the statement decides on them: malformed input
/// comes first, then the failed check, then the outputs.
pub open spec fn outcome_of<V, O>(
    read: Option<V>,
    failure: spec_fn(V) -> Option<ValidationFailure>,
    packaged: spec_fn(V, O) -> bool,
    result: Result<O, StatementError>,
) -> bool {
    match read {
        None => result == Err::<O, StatementError>(StatementError::MalformedInput),
        Some(inputs) => match failure(inputs) {
            Some(e) => result == Err::<O, StatementError>(StatementError::Validation(e)),
            None => result is Ok && packaged(inputs, result->Ok_0),
        },
    }
}

} // verus!
