//! Deposit statement: the balance covers a private amount, which is bound
//! to a secret by a commitment.

use crate::failure::{outcome_of, StatementError, ValidationFailure};
use crate::hashing::{
    append_bytes, collision_exists, digests_differ_or_collide, sha256, sha256_digest,
};
use crate::wire::{bool_of, bytes_field, bytes_of, read_bytes, read_u64, u64_of, Field};
use vstd::bytes::{
    lemma_auto_spec_u64_to_from_le_bytes, spec_u64_to_le_bytes, spec_u64_to_le_bytes_open,
    spec_u64_to_le_bytes_to_open, u64_to_le_bytes,
};
use vstd::prelude::*;

verus! {

/// The bytes that a deposit commitment hashes: the eight bytes of the
/// amount, least significant first, then the secret.
pub open spec fn deposit_preimage(amount: u64, secret: Seq<u8>) -> Seq<u8> {
    spec_u64_to_le_bytes_open(amount) + secret
}

/// The commitment to `amount` under `secret`.
pub open spec fn deposit_commitment(amount: u64, secret: Seq<u8>) -> Seq<u8> {
    sha256(deposit_preimage(amount, secret))
}

/// The check that a deposit fails, if any.
pub open spec fn deposit_failure(amount: u64, balance: u64) -> Option<ValidationFailure> {
    if balance >= amount {
        None
    } else {
        Some(ValidationFailure::InsufficientBalance)
    }
}

/// Inputs of a deposit statement. `amount` and `secret` are private,
/// `balance` is public.
#[derive(Clone, Copy, Debug, PartialEq, Eq)]
pub struct DepositStatement {
    pub amount: u64,
    pub secret: [u8; 32],
    pub balance: u64,
}

/// A deposit statement as plain values.
pub struct DepositView {
    pub amount: u64,
    pub secret: Seq<u8>,
    pub balance: u64,
}

impl View for DepositStatement {
    type V = DepositView;

    open spec fn view(&self) -> DepositView {
        DepositView { amount: self.amount, secret: self.secret@, balance: self.balance }
    }
}

/// The failing check of a deposit given as plain values, if any.
pub open spec fn deposit_view_failure(inputs: DepositView) -> Option<ValidationFailure> {
    deposit_failure(inputs.amount, inputs.balance)
}

/// Public outputs of a deposit statement, in their order on the wire.
#[derive(Clone, Copy, Debug, PartialEq, Eq)]
pub struct DepositOutputs {
    pub commitment: [u8; 32],
    pub balance_sufficient: bool,
}

/// What the ordered input fields of a deposit are read as: the amount, the
/// 32-byte secret and the balance, and nothing else.
pub open spec fn deposit_fields(fields: Seq<Field>) -> Option<DepositView> {
    if fields.len() != 3 {
        None
    } else {
        match (u64_of(fields[0]), bytes_of(fields[1], 32), u64_of(fields[2])) {
            (Some(amount), Some(secret), Some(balance)) => Some(
                DepositView { amount, secret, balance },
            ),
            _ => None,
        }
    }
}

/// Whether `fields` are the ordered outputs of a successful deposit: the
/// commitment, then the sufficiency flag, which is set.
pub open spec fn deposit_output_fields(inputs: DepositView, fields: Vec<Field>) -> bool {
    &&& fields@.len() == 2
    &&& bytes_of(fields@[0], 32) == Some(deposit_commitment(inputs.amount, inputs.secret))
    &&& bool_of(fields@[1]) == Some(true)
}

/// Computes the commitment `SHA-256(amount_le || secret)`.
pub fn generate_commitment(amount: u64, secret: [u8; 32]) -> (commitment: [u8; 32])
    ensures
        commitment@ == deposit_commitment(amount, secret@),
{
    let mut buf = u64_to_le_bytes(amount);
    proof {
        spec_u64_to_le_bytes_to_open(amount);
    }
    append_bytes(&mut buf, secret.as_slice());
    sha256_digest(buf.as_slice())
}

impl DepositStatement {
    /// The failing check of this statement, if any.
    pub open spec fn failure(&self) -> Option<ValidationFailure> {
        deposit_view_failure(self@)
    }

    /// Checks that the balance covers the amount.
    pub fn validate(&self) -> (checked: Result<(), ValidationFailure>)
        ensures
            checked is Ok <==> self.failure() is None,
            checked matches Err(e) ==> self.failure() == Some(e),
    {
        if self.balance >= self.amount {
            Ok(())
        } else {
            Err(ValidationFailure::InsufficientBalance)
        }
    }

    /// What an evaluation of this statement may return: the failure where a
    /// check fails, else the commitment with the sufficiency flag set.
    pub open spec fn admits(&self, result: Result<DepositOutputs, ValidationFailure>) -> bool {
        match result {
            Ok(out) => {
                &&& self.failure() is None
                &&& out.commitment@ == deposit_commitment(self.amount, self.secret@)
                &&& out.balance_sufficient
            },
            Err(e) => self.failure() == Some(e),
        }
    }

    /// Binds the ordered input fields to a statement. Any other number of
    /// fields, a field of another type or a secret of another size is
    /// malformed input.
    pub fn from_fields(fields: &Vec<Field>) -> (read: Result<DepositStatement, StatementError>)
        ensures
            match read {
                Ok(statement) => deposit_fields(fields@) == Some(statement@),
                Err(e) => e == StatementError::MalformedInput && deposit_fields(fields@) is None,
            },
    {
        if fields.len() != 3 {
            return Err(StatementError::MalformedInput);
        }
        match (read_u64(&fields[0]), read_bytes::<32>(&fields[1]), read_u64(&fields[2])) {
            (Some(amount), Some(secret), Some(balance)) => Ok(
                DepositStatement { amount, secret, balance },
            ),
            _ => Err(StatementError::MalformedInput),
        }
    }

    /// Validates the statement and, on success, packages its outputs.
    ///
    /// Fails exactly when the balance is below the amount; otherwise the
    /// commitment is the digest of the amount and the secret, and the
    /// sufficiency flag is set.
    pub fn evaluate(&self) -> (result: Result<DepositOutputs, ValidationFailure>)
        ensures
            self.admits(result),
    {
        match self.validate() {
            Err(e) => Err(e),
            Ok(()) => {
                let commitment = generate_commitment(self.amount, self.secret);
                Ok(DepositOutputs { commitment, balance_sufficient: true })
            },
        }
    }
}

impl DepositOutputs {
    /// The outputs as ordered fields: the commitment, then the flag.
    pub fn to_fields(&self) -> (fields: Vec<Field>)
        ensures
            fields@.len() == 2,
            bytes_of(fields@[0], 32) == Some(self.commitment@),
            bool_of(fields@[1]) == Some(self.balance_sufficient),
    {
        let mut fields: Vec<Field> = Vec::new();
        fields.push(bytes_field(self.commitment.as_slice()));
        fields.push(Field::Bool(self.balance_sufficient));
        fields
    }
}

/// What a run on `fields` returns: malformed input where they cannot be
/// read, else the first failed check, else the packaged outputs.
pub open spec fn deposit_outcome(fields: Seq<Field>, result: Result<Vec<Field>, StatementError>) -> bool {
    outcome_of(
        deposit_fields(fields),
        |inputs: DepositView| deposit_view_failure(inputs),
        |inputs: DepositView, out: Vec<Field>| deposit_output_fields(inputs, out),
        result,
    )
}

/// Runs a deposit statement from ordered input fields to ordered output
/// fields: reads, validates, commits, packages. Nothing is emitted where a
/// stage fails.
pub fn run_deposit(fields: &Vec<Field>) -> (result: Result<Vec<Field>, StatementError>)
    ensures
        deposit_outcome(fields@, result),
{
    match DepositStatement::from_fields(fields) {
        Err(e) => Err(e),
        Ok(statement) => match statement.evaluate() {
            Err(e) => Err(StatementError::Validation(e)),
            Ok(out) => Ok(out.to_fields()),
        },
    }
}

/// Evaluation is deterministic: any two results that a statement admits are
/// the same, bit for bit.
pub proof fn deposit_is_deterministic(
    statement: DepositStatement,
    first: Result<DepositOutputs, ValidationFailure>,
    second: Result<DepositOutputs, ValidationFailure>,
)
    requires
        statement.admits(first),
        statement.admits(second),
    ensures
        first == second,
{
    if let Ok(a) = first {
        let b = second->Ok_0;
        assert(a.commitment =~= b.commitment);
    }
}

/// The balance check is tight: a balance equal to the amount passes, a
/// balance one below it is refused as insufficient.
pub proof fn deposit_boundary(amount: u64)
    ensures
        deposit_failure(amount, amount) is None,
        amount > 0 ==> deposit_failure(amount, (amount - 1) as u64) == Some(
            ValidationFailure::InsufficientBalance,
        ),
{
}

/// Different (amount, secret) pairs are hashed from different bytes, so two
/// equal commitments of different pairs would be a SHA-256 collision.
pub proof fn deposit_preimage_injective(
    amount_a: u64,
    secret_a: [u8; 32],
    amount_b: u64,
    secret_b: [u8; 32],
)
    requires
        deposit_preimage(amount_a, secret_a@) == deposit_preimage(amount_b, secret_b@),
    ensures
        amount_a == amount_b,
        secret_a == secret_b,
{
    lemma_auto_spec_u64_to_from_le_bytes();
    spec_u64_to_le_bytes_to_open(amount_a);
    spec_u64_to_le_bytes_to_open(amount_b);
    let pa = deposit_preimage(amount_a, secret_a@);
    let pb = deposit_preimage(amount_b, secret_b@);
    assert(pa.subrange(0, 8) =~= spec_u64_to_le_bytes(amount_a));
    assert(pb.subrange(0, 8) =~= spec_u64_to_le_bytes(amount_b));
    assert(pa.subrange(8, 40) =~= secret_a@);
    assert(pb.subrange(8, 40) =~= secret_b@);
    assert(secret_a =~= secret_b);
}

/// The commitment is binding: different (amount, secret) pairs have
/// different commitments, unless SHA-256 collides.
pub proof fn deposit_commitment_is_binding(
    amount_a: u64,
    secret_a: [u8; 32],
    amount_b: u64,
    secret_b: [u8; 32],
)
    requires
        amount_a != amount_b || secret_a != secret_b,
    ensures
        deposit_commitment(amount_a, secret_a@) != deposit_commitment(amount_b, secret_b@)
            || collision_exists(),
{
    let pa = deposit_preimage(amount_a, secret_a@);
    let pb = deposit_preimage(amount_b, secret_b@);
    if pa == pb {
        deposit_preimage_injective(amount_a, secret_a, amount_b, secret_b);
    } else {
        digests_differ_or_collide(pa, pb);
    }
}

} // verus!
