//! Yield statement: a private yield lies in a disclosed range, over a valid
//! time range, and its commitment is anchored in the ledger's Merkle tree.

use crate::failure::{outcome_of, StatementError, ValidationFailure};
use crate::hashing::{sha256, sha256_digest};
use crate::merkle::{fold_path, leads_to, pair_steps, paired, steps, verify_path, MerkleStep, Step};
use crate::wire::{
    bool_of, bytes_field, bytes_of, flags_of, list_of, read_bytes, read_flags, read_list,
    read_u64, u64_of, Field,
};
use vstd::prelude::*;

verus! {

/// The correlation handle of a commitment: its SHA-256 digest. The same
/// digest is the leaf under which the ledger files the commitment.
pub open spec fn commitment_hash(commitment: Seq<u8>) -> Seq<u8> {
    sha256(commitment)
}

/// Whether `path` leads from the leaf of `commitment` to `root`.
pub open spec fn anchored(commitment: Seq<u8>, path: Seq<Step>, root: Seq<u8>) -> bool {
    leads_to(commitment_hash(commitment), path, root)
}

/// The first of the time and range checks that fails, if any.
pub open spec fn range_failure(
    actual_yield: u64,
    start_time: u64,
    end_time: u64,
    min_yield: u64,
    max_yield: u64,
) -> Option<ValidationFailure> {
    if start_time >= end_time {
        Some(ValidationFailure::InvalidTimeRange)
    } else if actual_yield < min_yield {
        Some(ValidationFailure::YieldBelowMinimum)
    } else if actual_yield > max_yield {
        Some(ValidationFailure::YieldAboveMaximum)
    } else {
        None
    }
}

/// The first check that a yield statement fails, if any: time range, lower
/// bound, upper bound, and last the Merkle path, whose outcome is `anchored`.
pub open spec fn yield_failure(
    actual_yield: u64,
    start_time: u64,
    end_time: u64,
    min_yield: u64,
    max_yield: u64,
    anchored: bool,
) -> Option<ValidationFailure> {
    match range_failure(actual_yield, start_time, end_time, min_yield, max_yield) {
        Some(e) => Some(e),
        None => if anchored {
            None
        } else {
            Some(ValidationFailure::MerkleProofInvalid)
        },
    }
}

/// Inputs of a yield statement. `commitment` and `actual_yield` are
/// private, the rest is public.
#[derive(Clone, Debug, PartialEq, Eq)]
pub struct YieldStatement {
    pub commitment: [u8; 32],
    pub actual_yield: u64,
    pub start_time: u64,
    pub end_time: u64,
    pub min_yield: u64,
    pub max_yield: u64,
    pub merkle_root: [u8; 32],
    pub merkle_proof: Vec<MerkleStep>,
}

/// A yield statement as plain values.
pub struct YieldView {
    pub commitment: Seq<u8>,
    pub actual_yield: u64,
    pub start_time: u64,
    pub end_time: u64,
    pub min_yield: u64,
    pub max_yield: u64,
    pub merkle_root: Seq<u8>,
    pub merkle_proof: Seq<Step>,
}

impl View for YieldStatement {
    type V = YieldView;

    open spec fn view(&self) -> YieldView {
        YieldView {
            commitment: self.commitment@,
            actual_yield: self.actual_yield,
            start_time: self.start_time,
            end_time: self.end_time,
            min_yield: self.min_yield,
            max_yield: self.max_yield,
            merkle_root: self.merkle_root@,
            merkle_proof: steps(self.merkle_proof@),
        }
    }
}

/// The first failing check of a yield statement given as plain values, if
/// any.
pub open spec fn yield_view_failure(inputs: YieldView) -> Option<ValidationFailure> {
    yield_failure(
        inputs.actual_yield,
        inputs.start_time,
        inputs.end_time,
        inputs.min_yield,
        inputs.max_yield,
        anchored(inputs.commitment, inputs.merkle_proof, inputs.merkle_root),
    )
}

/// What the ordered input fields of a yield statement are read as: the
/// 32-byte commitment, the yield, the two times, the two bounds, the
/// 32-byte root, the list of 32-byte siblings and the list of their sides,
/// one side for each sibling, and nothing else.
pub open spec fn yield_fields(fields: Seq<Field>) -> Option<YieldView> {
    if fields.len() != 9 {
        None
    } else {
        match (
            bytes_of(fields[0], 32),
            (u64_of(fields[1]), u64_of(fields[2]), u64_of(fields[3])),
            (u64_of(fields[4]), u64_of(fields[5])),
            bytes_of(fields[6], 32),
            (list_of(fields[7], 32), flags_of(fields[8])),
        ) {
            (
                Some(commitment),
                (Some(actual_yield), Some(start_time), Some(end_time)),
                (Some(min_yield), Some(max_yield)),
                Some(merkle_root),
                (Some(siblings), Some(sides)),
            ) => if siblings.len() == sides.len() {
                Some(
                    YieldView {
                        commitment,
                        actual_yield,
                        start_time,
                        end_time,
                        min_yield,
                        max_yield,
                        merkle_root,
                        merkle_proof: paired(siblings, sides),
                    },
                )
            } else {
                None
            },
            _ => None,
        }
    }
}

/// Whether `fields` are the ordered outputs of a successful yield
/// statement: the range flag, which is set, then the commitment's digest.
pub open spec fn yield_output_fields(inputs: YieldView, fields: Vec<Field>) -> bool {
    &&& fields@.len() == 2
    &&& bool_of(fields@[0]) == Some(true)
    &&& bytes_of(fields@[1], 32) == Some(commitment_hash(inputs.commitment))
}

/// Public outputs of a yield statement, in their order on the wire.
#[derive(Clone, Copy, Debug, PartialEq, Eq)]
pub struct YieldOutputs {
    pub in_range: bool,
    pub commitment_hash: [u8; 32],
}

/// Computes the digest `SHA-256(commitment)`.
pub fn hash_commitment(commitment: [u8; 32]) -> (digest: [u8; 32])
    ensures
        digest@ == commitment_hash(commitment@),
{
    sha256_digest(commitment.as_slice())
}

/// Checks the time range, then the two bounds of the yield range.
pub fn check_range(
    actual_yield: u64,
    start_time: u64,
    end_time: u64,
    min_yield: u64,
    max_yield: u64,
) -> (checked: Result<(), ValidationFailure>)
    ensures
        checked is Ok <==> range_failure(actual_yield, start_time, end_time, min_yield, max_yield)
            is None,
        checked matches Err(e) ==> range_failure(
            actual_yield,
            start_time,
            end_time,
            min_yield,
            max_yield,
        ) == Some(e),
{
    if start_time >= end_time {
        Err(ValidationFailure::InvalidTimeRange)
    } else if actual_yield < min_yield {
        Err(ValidationFailure::YieldBelowMinimum)
    } else if actual_yield > max_yield {
        Err(ValidationFailure::YieldAboveMaximum)
    } else {
        Ok(())
    }
}

impl YieldStatement {
    /// The first failing check of this statement, if any.
    pub open spec fn failure(&self) -> Option<ValidationFailure> {
        yield_view_failure(self@)
    }

    /// Binds the ordered input fields to a statement. Any other number of
    /// fields, a field of another type, a digest of another size or a list
    /// of sides of another length than the siblings' is malformed input.
    pub fn from_fields(fields: &Vec<Field>) -> (read: Result<YieldStatement, StatementError>)
        ensures
            match read {
                Ok(statement) => yield_fields(fields@) == Some(statement@),
                Err(e) => e == StatementError::MalformedInput && yield_fields(fields@) is None,
            },
    {
        if fields.len() != 9 {
            return Err(StatementError::MalformedInput);
        }
        match (
            read_bytes::<32>(&fields[0]),
            (read_u64(&fields[1]), read_u64(&fields[2]), read_u64(&fields[3])),
            (read_u64(&fields[4]), read_u64(&fields[5])),
            read_bytes::<32>(&fields[6]),
            (read_list::<32>(&fields[7]), read_flags(&fields[8])),
        ) {
            (
                Some(commitment),
                (Some(actual_yield), Some(start_time), Some(end_time)),
                (Some(min_yield), Some(max_yield)),
                Some(merkle_root),
                (Some(siblings), Some(sides)),
            ) => match pair_steps(&siblings, &sides) {
                Some(merkle_proof) => Ok(
                    YieldStatement {
                        commitment,
                        actual_yield,
                        start_time,
                        end_time,
                        min_yield,
                        max_yield,
                        merkle_root,
                        merkle_proof,
                    },
                ),
                None => Err(StatementError::MalformedInput),
            },
            _ => Err(StatementError::MalformedInput),
        }
    }

    /// What an evaluation of this statement may return: the first failure
    /// where a check fails, else the range flag set and the commitment's
    /// digest.
    pub open spec fn admits(&self, result: Result<YieldOutputs, ValidationFailure>) -> bool {
        match result {
            Ok(out) => {
                &&& self.failure() is None
                &&& out.in_range
                &&& out.commitment_hash@ == commitment_hash(self.commitment@)
            },
            Err(e) => self.failure() == Some(e),
        }
    }

    /// Validates the statement and, on success, packages its outputs.
    ///
    /// The commitment is hashed only once the time and range checks have
    /// passed; the digest then serves as the Merkle leaf and as the output.
    pub fn evaluate(&self) -> (result: Result<YieldOutputs, ValidationFailure>)
        ensures
            self.admits(result),
    {
        match check_range(
            self.actual_yield,
            self.start_time,
            self.end_time,
            self.min_yield,
            self.max_yield,
        ) {
            Err(e) => Err(e),
            Ok(()) => {
                let digest = hash_commitment(self.commitment);
                if verify_path(&digest, &self.merkle_proof, &self.merkle_root) {
                    Ok(YieldOutputs { in_range: true, commitment_hash: digest })
                } else {
                    Err(ValidationFailure::MerkleProofInvalid)
                }
            },
        }
    }

    /// Runs every check of the statement and reports the first that fails.
    pub fn validate(&self) -> (checked: Result<(), ValidationFailure>)
        ensures
            checked is Ok <==> self.failure() is None,
            checked matches Err(e) ==> self.failure() == Some(e),
    {
        match self.evaluate() {
            Err(e) => Err(e),
            Ok(_) => Ok(()),
        }
    }
}

impl YieldOutputs {
    /// The outputs as ordered fields: the flag, then the digest.
    pub fn to_fields(&self) -> (fields: Vec<Field>)
        ensures
            fields@.len() == 2,
            bool_of(fields@[0]) == Some(self.in_range),
            bytes_of(fields@[1], 32) == Some(self.commitment_hash@),
    {
        let mut fields: Vec<Field> = Vec::new();
        fields.push(Field::Bool(self.in_range));
        fields.push(bytes_field(self.commitment_hash.as_slice()));
        fields
    }
}

/// What a run on `fields` returns: malformed input where they cannot be
/// read, else the first failed check, else the packaged outputs.
pub open spec fn yield_outcome(fields: Seq<Field>, result: Result<Vec<Field>, StatementError>) -> bool {
    outcome_of(
        yield_fields(fields),
        |inputs: YieldView| yield_view_failure(inputs),
        |inputs: YieldView, out: Vec<Field>| yield_output_fields(inputs, out),
        result,
    )
}

/// Runs a yield statement from ordered input fields to ordered output
/// fields: reads, validates, hashes, packages. Nothing is emitted where a
/// stage fails.
pub fn run_yield(fields: &Vec<Field>) -> (result: Result<Vec<Field>, StatementError>)
    ensures
        yield_outcome(fields@, result),
{
    match YieldStatement::from_fields(fields) {
        Err(e) => Err(e),
        Ok(statement) => match statement.evaluate() {
            Err(e) => Err(StatementError::Validation(e)),
            Ok(out) => Ok(out.to_fields()),
        },
    }
}

/// Evaluation is deterministic: any two results that a statement admits are
/// the same, bit for bit.
pub proof fn yield_is_deterministic(
    statement: YieldStatement,
    first: Result<YieldOutputs, ValidationFailure>,
    second: Result<YieldOutputs, ValidationFailure>,
)
    requires
        statement.admits(first),
        statement.admits(second),
    ensures
        first == second,
{
    if let Ok(a) = first {
        let b = second->Ok_0;
        assert(a.commitment_hash =~= b.commitment_hash);
    }
}

/// The range check is tight at both ends: over a valid time range and an
/// anchored commitment, a yield equal to either bound of a non-empty range
/// passes, one below the minimum is refused as too low, and one above the
/// maximum as too high.
pub proof fn yield_boundary(start_time: u64, end_time: u64, min_yield: u64, max_yield: u64)
    requires
        start_time < end_time,
        min_yield <= max_yield,
    ensures
        yield_failure(min_yield, start_time, end_time, min_yield, max_yield, true) is None,
        yield_failure(max_yield, start_time, end_time, min_yield, max_yield, true) is None,
        min_yield > 0 ==> yield_failure(
            (min_yield - 1) as u64,
            start_time,
            end_time,
            min_yield,
            max_yield,
            true,
        ) == Some(ValidationFailure::YieldBelowMinimum),
        max_yield < u64::MAX ==> yield_failure(
            (max_yield + 1) as u64,
            start_time,
            end_time,
            min_yield,
            max_yield,
            true,
        ) == Some(ValidationFailure::YieldAboveMaximum),
{
}

/// A statement built on the root that its own path computes passes the
/// Merkle check: over a valid time range and a yield within the range it
/// fails nowhere.
pub proof fn anchored_statement_passes(statement: YieldStatement)
    requires
        statement.start_time < statement.end_time,
        statement.min_yield <= statement.actual_yield <= statement.max_yield,
        statement.merkle_root@ == fold_path(
            commitment_hash(statement.commitment@),
            steps(statement.merkle_proof@),
        ),
    ensures
        statement.failure() is None,
{
}

} // verus!
