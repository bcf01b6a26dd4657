//! The four statements under one roof: their names, the split of their
//! inputs into private and public fields, and what is handed to the proving
//! backend once a statement has passed.

use crate::deposit::{deposit_outcome, run_deposit};
use crate::failure::StatementError;
use crate::kyc::{kyc_outcome, run_kyc};
use crate::wire::Field;
use crate::withdrawal::{run_withdrawal, withdrawal_outcome};
use crate::yield_range::{run_yield, yield_outcome};
use vstd::prelude::*;

verus! {

/// Which statement is being made.
#[derive(Clone, Copy, Debug, PartialEq, Eq, Structural)]
pub enum StatementKind {
    Deposit,
    Kyc,
    Withdrawal,
    Yield,
}

/// A statement that passed, ready for the proving backend: its inputs in
/// order, private before public, and its public outputs.
#[derive(Debug, PartialEq, Eq)]
pub struct Submission {
    pub kind: StatementKind,
    pub private_inputs: Vec<Field>,
    pub public_inputs: Vec<Field>,
    pub public_outputs: Vec<Field>,
}

/// What a run of the statement `kind` on `fields` returns.
pub open spec fn outcome(
    kind: StatementKind,
    fields: Seq<Field>,
    result: Result<Vec<Field>, StatementError>,
) -> bool {
    match kind {
        StatementKind::Deposit => deposit_outcome(fields, result),
        StatementKind::Kyc => kyc_outcome(fields, result),
        StatementKind::Withdrawal => withdrawal_outcome(fields, result),
        StatementKind::Yield => yield_outcome(fields, result),
    }
}

impl StatementKind {
    /// How many of the statement's input fields, from the first on, are
    /// private. The fields after them are public.
    pub open spec fn private_count(self) -> nat {
        match self {
            StatementKind::Deposit => 2,
            StatementKind::Kyc => 3,
            StatementKind::Withdrawal => 3,
            StatementKind::Yield => 2,
        }
    }

    /// The name under which the proving backend knows the statement.
    pub open spec fn program_name(self) -> Seq<char> {
        match self {
            StatementKind::Deposit => "deposit-proof"@,
            StatementKind::Kyc => "kyc-proof"@,
            StatementKind::Withdrawal => "withdrawal-proof"@,
            StatementKind::Yield => "yield-proof"@,
        }
    }

    /// The number of leading input fields that are private.
    pub fn private_fields(self) -> (count: usize)
        ensures
            count == self.private_count(),
    {
        match self {
            StatementKind::Deposit => 2,
            StatementKind::Kyc => 3,
            StatementKind::Withdrawal => 3,
            StatementKind::Yield => 2,
        }
    }

    /// The statement's name for the proving backend.
    pub fn program(self) -> (name: &'static str)
        ensures
            name@ == self.program_name(),
    {
        match self {
            StatementKind::Deposit => "deposit-proof",
            StatementKind::Kyc => "kyc-proof",
            StatementKind::Withdrawal => "withdrawal-proof",
            StatementKind::Yield => "yield-proof",
        }
    }
}

/// Runs the statement `kind` from ordered input fields to ordered output
/// fields.
pub fn run(kind: StatementKind, fields: &Vec<Field>) -> (result: Result<
    Vec<Field>,
    StatementError,
>)
    ensures
        outcome(kind, fields@, result),
{
    match kind {
        StatementKind::Deposit => run_deposit(fields),
        StatementKind::Kyc => run_kyc(fields),
        StatementKind::Withdrawal => run_withdrawal(fields),
        StatementKind::Yield => run_yield(fields),
    }
}

/// Runs the statement and, where it passes, assembles what the proving
/// backend is handed: the inputs split into private and public fields, in
/// their order, and the outputs. Where it fails there is nothing to
/// submit, and the error is that of the run.
pub fn prepare(kind: StatementKind, fields: Vec<Field>) -> (result: Result<
    Submission,
    StatementError,
>)
    ensures
        match result {
            Ok(submission) => {
                &&& outcome(kind, fields@, Ok(submission.public_outputs))
                &&& submission.kind == kind
                &&& kind.private_count() <= fields@.len()
                &&& submission.private_inputs@ == fields@.subrange(
                    0,
                    kind.private_count() as int,
                )
                &&& submission.public_inputs@ == fields@.subrange(
                    kind.private_count() as int,
                    fields@.len() as int,
                )
            },
            Err(e) => outcome(kind, fields@, Err(e)),
        },
{
    match run(kind, &fields) {
        Err(e) => Err(e),
        Ok(public_outputs) => {
            let mut private_inputs = fields;
            let public_inputs = private_inputs.split_off(kind.private_fields());
            Ok(Submission { kind, private_inputs, public_inputs, public_outputs })
        },
    }
}

} // verus!
