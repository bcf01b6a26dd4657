//! Withdrawal statement: knowledge of the secret behind a published
//! commitment, a withdrawal within the available liquidity, and the
//! nullifier that marks the commitment as spent.

use crate::failure::{outcome_of, StatementError, ValidationFailure};
use crate::hashing::{
    append_bytes, collision_exists, digests_differ_or_collide, digests_equal, sha256,
    sha256_digest,
};
use crate::wire::{bool_of, bytes_field, bytes_of, read_bytes, read_u64, u64_of, Field};
use vstd::prelude::*;

verus! {

/// The domain separation tag of the nullifier: the ASCII bytes of
/// `withdrawal`.
pub open spec fn withdrawal_tag() -> Seq<u8> {
    seq![119u8, 105u8, 116u8, 104u8, 100u8, 114u8, 97u8, 119u8, 97u8, 108u8]
}

/// The commitment that `secret` opens.
pub open spec fn secret_commitment(secret: Seq<u8>) -> Seq<u8> {
    sha256(secret)
}

/// The bytes that a nullifier hashes: commitment, secret, tag.
pub open spec fn nullifier_preimage(commitment: Seq<u8>, secret: Seq<u8>) -> Seq<u8> {
    commitment + secret + withdrawal_tag()
}

/// The nullifier of a commitment and its secret.
pub open spec fn nullifier(commitment: Seq<u8>, secret: Seq<u8>) -> Seq<u8> {
    sha256(nullifier_preimage(commitment, secret))
}

/// The first check that a withdrawal fails, if any: ownership of the
/// commitment comes before liquidity.
pub open spec fn withdrawal_failure(
    commitment: Seq<u8>,
    secret: Seq<u8>,
    withdrawal_amount: u64,
    available_lp_tokens: u64,
) -> Option<ValidationFailure> {
    if secret_commitment(secret) != commitment {
        Some(ValidationFailure::InvalidCommitment)
    } else if withdrawal_amount > available_lp_tokens {
        Some(ValidationFailure::InsufficientLiquidity)
    } else {
        None
    }
}

/// Inputs of a withdrawal statement. Only `available_lp_tokens` is public.
#[derive(Clone, Copy, Debug, PartialEq, Eq)]
pub struct WithdrawalStatement {
    pub commitment: [u8; 32],
    pub secret: [u8; 32],
    pub withdrawal_amount: u64,
    pub available_lp_tokens: u64,
}

/// A withdrawal statement as plain values.
pub struct WithdrawalView {
    pub commitment: Seq<u8>,
    pub secret: Seq<u8>,
    pub withdrawal_amount: u64,
    pub available_lp_tokens: u64,
}

impl View for WithdrawalStatement {
    type V = WithdrawalView;

    open spec fn view(&self) -> WithdrawalView {
        WithdrawalView {
            commitment: self.commitment@,
            secret: self.secret@,
            withdrawal_amount: self.withdrawal_amount,
            available_lp_tokens: self.available_lp_tokens,
        }
    }
}

/// The first failing check of a withdrawal given as plain values, if any.
pub open spec fn withdrawal_view_failure(inputs: WithdrawalView) -> Option<ValidationFailure> {
    withdrawal_failure(
        inputs.commitment,
        inputs.secret,
        inputs.withdrawal_amount,
        inputs.available_lp_tokens,
    )
}

/// What the ordered input fields of a withdrawal are read as: the 32-byte
/// commitment, the 32-byte secret, the amount and the available tokens,
/// and nothing else.
pub open spec fn withdrawal_fields(fields: Seq<Field>) -> Option<WithdrawalView> {
    if fields.len() != 4 {
        None
    } else {
        match (
            bytes_of(fields[0], 32),
            bytes_of(fields[1], 32),
            u64_of(fields[2]),
            u64_of(fields[3]),
        ) {
            (Some(commitment), Some(secret), Some(withdrawal_amount), Some(available_lp_tokens)) => {
                Some(
                    WithdrawalView { commitment, secret, withdrawal_amount, available_lp_tokens },
                )
            },
            _ => None,
        }
    }
}

/// Whether `fields` are the ordered outputs of a successful withdrawal: the
/// nullifier, then the validity flag, which is set.
pub open spec fn withdrawal_output_fields(inputs: WithdrawalView, fields: Vec<Field>) -> bool {
    &&& fields@.len() == 2
    &&& bytes_of(fields@[0], 32) == Some(nullifier(inputs.commitment, inputs.secret))
    &&& bool_of(fields@[1]) == Some(true)
}

/// Public outputs of a withdrawal statement, in their order on the wire.
#[derive(Clone, Copy, Debug, PartialEq, Eq)]
pub struct WithdrawalOutputs {
    pub nullifier: [u8; 32],
    pub withdrawal_valid: bool,
}

/// Computes the commitment `SHA-256(secret)`.
pub fn generate_commitment_from_secret(secret: [u8; 32]) -> (commitment: [u8; 32])
    ensures
        commitment@ == secret_commitment(secret@),
{
    sha256_digest(secret.as_slice())
}

/// Computes the nullifier `SHA-256(commitment || secret || "withdrawal")`.
pub fn generate_nullifier(commitment: [u8; 32], secret: [u8; 32]) -> (digest: [u8; 32])
    ensures
        digest@ == nullifier(commitment@, secret@),
{
    let tag: [u8; 10] = [119, 105, 116, 104, 100, 114, 97, 119, 97, 108];
    assert(tag@ =~= withdrawal_tag());
    let mut buf: Vec<u8> = Vec::new();
    append_bytes(&mut buf, commitment.as_slice());
    append_bytes(&mut buf, secret.as_slice());
    append_bytes(&mut buf, tag.as_slice());
    assert(buf@ =~= nullifier_preimage(commitment@, secret@));
    sha256_digest(buf.as_slice())
}

impl WithdrawalStatement {
    /// The first failing check of this statement, if any.
    pub open spec fn failure(&self) -> Option<ValidationFailure> {
        withdrawal_view_failure(self@)
    }

    /// Binds the ordered input fields to a statement. Any other number of
    /// fields, a field of another type or a digest of another size is
    /// malformed input.
    pub fn from_fields(fields: &Vec<Field>) -> (read: Result<WithdrawalStatement, StatementError>)
        ensures
            match read {
                Ok(statement) => withdrawal_fields(fields@) == Some(statement@),
                Err(e) => e == StatementError::MalformedInput && withdrawal_fields(fields@)
                    is None,
            },
    {
        if fields.len() != 4 {
            return Err(StatementError::MalformedInput);
        }
        match (
            read_bytes::<32>(&fields[0]),
            read_bytes::<32>(&fields[1]),
            read_u64(&fields[2]),
            read_u64(&fields[3]),
        ) {
            (Some(commitment), Some(secret), Some(withdrawal_amount), Some(available_lp_tokens)) => {
                Ok(
                    WithdrawalStatement {
                        commitment,
                        secret,
                        withdrawal_amount,
                        available_lp_tokens,
                    },
                )
            },
            _ => Err(StatementError::MalformedInput),
        }
    }

    /// What an evaluation of this statement may return: the first failure
    /// where a check fails, else the nullifier with the validity flag set.
    pub open spec fn admits(&self, result: Result<WithdrawalOutputs, ValidationFailure>) -> bool {
        match result {
            Ok(out) => {
                &&& self.failure() is None
                &&& out.nullifier@ == nullifier(self.commitment@, self.secret@)
                &&& out.withdrawal_valid
            },
            Err(e) => self.failure() == Some(e),
        }
    }

    /// Checks ownership of the commitment, then liquidity.
    pub fn validate(&self) -> (checked: Result<(), ValidationFailure>)
        ensures
            checked is Ok <==> self.failure() is None,
            checked matches Err(e) ==> self.failure() == Some(e),
    {
        let expected = generate_commitment_from_secret(self.secret);
        if !digests_equal(&expected, &self.commitment) {
            Err(ValidationFailure::InvalidCommitment)
        } else if self.withdrawal_amount > self.available_lp_tokens {
            Err(ValidationFailure::InsufficientLiquidity)
        } else {
            Ok(())
        }
    }

    /// Validates the statement and, on success, packages its outputs.
    ///
    /// The nullifier is derived only after both checks have passed. Whether
    /// it was seen before is for the ledger to decide.
    pub fn evaluate(&self) -> (result: Result<WithdrawalOutputs, ValidationFailure>)
        ensures
            self.admits(result),
    {
        match self.validate() {
            Err(e) => Err(e),
            Ok(()) => {
                let digest = generate_nullifier(self.commitment, self.secret);
                Ok(WithdrawalOutputs { nullifier: digest, withdrawal_valid: true })
            },
        }
    }
}

impl WithdrawalOutputs {
    /// The outputs as ordered fields: the nullifier, then the flag.
    pub fn to_fields(&self) -> (fields: Vec<Field>)
        ensures
            fields@.len() == 2,
            bytes_of(fields@[0], 32) == Some(self.nullifier@),
            bool_of(fields@[1]) == Some(self.withdrawal_valid),
    {
        let mut fields: Vec<Field> = Vec::new();
        fields.push(bytes_field(self.nullifier.as_slice()));
        fields.push(Field::Bool(self.withdrawal_valid));
        fields
    }
}

/// What a run on `fields` returns: malformed input where they cannot be
/// read, else the first failed check, else the packaged outputs.
pub open spec fn withdrawal_outcome(fields: Seq<Field>, result: Result<Vec<Field>, StatementError>) -> bool {
    outcome_of(
        withdrawal_fields(fields),
        |inputs: WithdrawalView| withdrawal_view_failure(inputs),
        |inputs: WithdrawalView, out: Vec<Field>| withdrawal_output_fields(inputs, out),
        result,
    )
}

/// Runs a withdrawal statement from ordered input fields to ordered output
/// fields: reads, validates, derives the nullifier, packages. Nothing is
/// emitted where a stage fails.
pub fn run_withdrawal(fields: &Vec<Field>) -> (result: Result<Vec<Field>, StatementError>)
    ensures
        withdrawal_outcome(fields@, result),
{
    match WithdrawalStatement::from_fields(fields) {
        Err(e) => Err(e),
        Ok(statement) => match statement.evaluate() {
            Err(e) => Err(StatementError::Validation(e)),
            Ok(out) => Ok(out.to_fields()),
        },
    }
}

/// Evaluation is deterministic: any two results that a statement admits are
/// the same, bit for bit. In particular the same commitment and secret
/// always give the same nullifier.
pub proof fn withdrawal_is_deterministic(
    statement: WithdrawalStatement,
    first: Result<WithdrawalOutputs, ValidationFailure>,
    second: Result<WithdrawalOutputs, ValidationFailure>,
)
    requires
        statement.admits(first),
        statement.admits(second),
    ensures
        first == second,
{
    if let Ok(a) = first {
        let b = second->Ok_0;
        assert(a.nullifier =~= b.nullifier);
    }
}

/// The liquidity check is tight: with a valid commitment, a withdrawal of
/// all available tokens passes and one token more is refused.
pub proof fn liquidity_boundary(secret: Seq<u8>, available_lp_tokens: u64)
    ensures
        withdrawal_failure(
            secret_commitment(secret),
            secret,
            available_lp_tokens,
            available_lp_tokens,
        ) is None,
        available_lp_tokens < u64::MAX ==> withdrawal_failure(
            secret_commitment(secret),
            secret,
            (available_lp_tokens + 1) as u64,
            available_lp_tokens,
        ) == Some(ValidationFailure::InsufficientLiquidity),
{
}

/// Different (commitment, secret) pairs are hashed from different bytes, so
/// two equal nullifiers of different pairs would be a SHA-256 collision.
pub proof fn nullifier_preimage_injective(
    commitment_a: [u8; 32],
    secret_a: [u8; 32],
    commitment_b: [u8; 32],
    secret_b: [u8; 32],
)
    requires
        nullifier_preimage(commitment_a@, secret_a@) == nullifier_preimage(
            commitment_b@,
            secret_b@,
        ),
    ensures
        commitment_a == commitment_b,
        secret_a == secret_b,
{
    let pa = nullifier_preimage(commitment_a@, secret_a@);
    let pb = nullifier_preimage(commitment_b@, secret_b@);
    assert(pa.subrange(0, 32) =~= commitment_a@);
    assert(pb.subrange(0, 32) =~= commitment_b@);
    assert(pa.subrange(32, 64) =~= secret_a@);
    assert(pb.subrange(32, 64) =~= secret_b@);
    assert(commitment_a =~= commitment_b);
    assert(secret_a =~= secret_b);
}

/// Different (commitment, secret) pairs have different nullifiers, unless
/// SHA-256 collides.
pub proof fn nullifiers_are_distinct(
    commitment_a: [u8; 32],
    secret_a: [u8; 32],
    commitment_b: [u8; 32],
    secret_b: [u8; 32],
)
    requires
        commitment_a != commitment_b || secret_a != secret_b,
    ensures
        nullifier(commitment_a@, secret_a@) != nullifier(commitment_b@, secret_b@)
            || collision_exists(),
{
    let pa = nullifier_preimage(commitment_a@, secret_a@);
    let pb = nullifier_preimage(commitment_b@, secret_b@);
    if pa == pb {
        nullifier_preimage_injective(commitment_a, secret_a, commitment_b, secret_b);
    } else {
        digests_differ_or_collide(pa, pb);
    }
}

/// The tag separates the nullifier from the other digests of the same
/// values: its preimage ends in the tag and is longer than a commitment, a
/// secret or the two together, so it equals none of them.
pub proof fn nullifier_preimage_is_tagged(commitment: [u8; 32], secret: [u8; 32])
    ensures
        nullifier_preimage(commitment@, secret@).len() == 74,
        nullifier_preimage(commitment@, secret@).subrange(64, 74) == withdrawal_tag(),
        nullifier_preimage(commitment@, secret@) != commitment@,
        nullifier_preimage(commitment@, secret@) != secret@,
        nullifier_preimage(commitment@, secret@) != commitment@ + secret@,
{
    let p = nullifier_preimage(commitment@, secret@);
    assert(p.subrange(64, 74) =~= withdrawal_tag());
}

} // verus!
