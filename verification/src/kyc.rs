//! KYC statement: age and jurisdiction compliance, disclosed as flags
//! beside a commitment to the private attributes.

use crate::failure::{outcome_of, StatementError, ValidationFailure};
use crate::hashing::{
    append_bytes, bool_byte, collision_exists, digests_differ_or_collide, sha256, sha256_digest,
};
use crate::wire::{
    bool_of, byte_strings, bytes_field, bytes_of, list_of, read_bool, read_bytes, read_list,
    read_u8, u8_of, Field,
};
use vstd::prelude::*;

verus! {

/// Whether `jurisdiction` equals, byte for byte, a code of the deny-list.
pub open spec fn on_deny_list(jurisdiction: Seq<u8>, sanctioned: Seq<Seq<u8>>) -> bool {
    sanctioned.contains(jurisdiction)
}

/// The bytes that a KYC commitment hashes: age, jurisdiction, and one byte
/// for the accreditation flag.
pub open spec fn kyc_preimage(age: u8, jurisdiction: Seq<u8>, accredited: bool) -> Seq<u8> {
    seq![age] + jurisdiction + seq![bool_byte(accredited)]
}

/// The commitment to the private KYC attributes.
pub open spec fn kyc_commitment(age: u8, jurisdiction: Seq<u8>, accredited: bool) -> Seq<u8> {
    sha256(kyc_preimage(age, jurisdiction, accredited))
}

/// The first check that a KYC statement fails, if any: the age comes
/// before the deny-list.
pub open spec fn kyc_failure(
    age: u8,
    jurisdiction: Seq<u8>,
    sanctioned: Seq<Seq<u8>>,
    min_age: u8,
) -> Option<ValidationFailure> {
    if age < min_age {
        Some(ValidationFailure::AgeRequirementNotMet)
    } else if on_deny_list(jurisdiction, sanctioned) {
        Some(ValidationFailure::JurisdictionSanctioned)
    } else {
        None
    }
}

/// Inputs of a KYC statement. `sanctioned` and `min_age` are public, the
/// rest is private.
#[derive(Clone, Debug, PartialEq, Eq)]
pub struct KycStatement {
    pub age: u8,
    pub jurisdiction: [u8; 2],
    pub accredited: bool,
    pub sanctioned: Vec<[u8; 2]>,
    pub min_age: u8,
}

/// A KYC statement as plain values.
pub struct KycView {
    pub age: u8,
    pub jurisdiction: Seq<u8>,
    pub accredited: bool,
    pub sanctioned: Seq<Seq<u8>>,
    pub min_age: u8,
}

impl View for KycStatement {
    type V = KycView;

    open spec fn view(&self) -> KycView {
        KycView {
            age: self.age,
            jurisdiction: self.jurisdiction@,
            accredited: self.accredited,
            sanctioned: byte_strings(self.sanctioned@),
            min_age: self.min_age,
        }
    }
}

/// The first failing check of a KYC statement given as plain values, if any.
pub open spec fn kyc_view_failure(inputs: KycView) -> Option<ValidationFailure> {
    kyc_failure(inputs.age, inputs.jurisdiction, inputs.sanctioned, inputs.min_age)
}

/// Public outputs of a KYC statement, in their order on the wire.
#[derive(Clone, Copy, Debug, PartialEq, Eq)]
pub struct KycOutputs {
    pub kyc_commitment: [u8; 32],
    pub age_verified: bool,
    pub jurisdiction_compliant: bool,
    pub accredited: bool,
}

/// What the ordered input fields of a KYC statement are read as: the age,
/// the 2-byte jurisdiction, the accreditation flag, the list of 2-byte
/// sanctioned codes and the minimum age, and nothing else.
pub open spec fn kyc_fields(fields: Seq<Field>) -> Option<KycView> {
    if fields.len() != 5 {
        None
    } else {
        match (
            u8_of(fields[0]),
            bytes_of(fields[1], 2),
            bool_of(fields[2]),
            list_of(fields[3], 2),
            u8_of(fields[4]),
        ) {
            (Some(age), Some(jurisdiction), Some(accredited), Some(sanctioned), Some(min_age)) => {
                Some(KycView { age, jurisdiction, accredited, sanctioned, min_age })
            },
            _ => None,
        }
    }
}

/// Whether `fields` are the ordered outputs of a successful KYC statement:
/// the commitment, the two compliance flags, both set, and the
/// accreditation flag as given.
pub open spec fn kyc_output_fields(inputs: KycView, fields: Vec<Field>) -> bool {
    &&& fields@.len() == 4
    &&& bytes_of(fields@[0], 32) == Some(
        kyc_commitment(inputs.age, inputs.jurisdiction, inputs.accredited),
    )
    &&& bool_of(fields@[1]) == Some(true)
    &&& bool_of(fields@[2]) == Some(true)
    &&& bool_of(fields@[3]) == Some(inputs.accredited)
}

/// Computes the commitment `SHA-256(age || jurisdiction || accredited)`.
pub fn generate_kyc_commitment(age: u8, jurisdiction: [u8; 2], accredited: bool) -> (commitment:
    [u8; 32])
    ensures
        commitment@ == kyc_commitment(age, jurisdiction@, accredited),
{
    let flag: u8 = if accredited { 1 } else { 0 };
    let mut buf: Vec<u8> = Vec::new();
    buf.push(age);
    append_bytes(&mut buf, jurisdiction.as_slice());
    buf.push(flag);
    assert(buf@ =~= kyc_preimage(age, jurisdiction@, accredited));
    sha256_digest(buf.as_slice())
}

/// Looks `jurisdiction` up in the deny-list.
pub fn is_sanctioned(jurisdiction: &[u8; 2], sanctioned: &Vec<[u8; 2]>) -> (found: bool)
    ensures
        found == on_deny_list(jurisdiction@, byte_strings(sanctioned@)),
{
    let ghost codes = byte_strings(sanctioned@);
    let n: usize = sanctioned.len();
    let mut i: usize = 0;
    while i < n
        invariant
            n == sanctioned@.len(),
            codes == byte_strings(sanctioned@),
            i <= n,
            forall|k: int| 0 <= k < i ==> #[trigger] codes[k] != jurisdiction@,
        decreases n - i,
    {
        let code: &[u8; 2] = &sanctioned[i];
        if code[0] == jurisdiction[0] && code[1] == jurisdiction[1] {
            assert(codes[i as int] =~= jurisdiction@);
            return true;
        }
        assert(codes[i as int] != jurisdiction@);
        i = i + 1;
    }
    false
}

impl KycStatement {
    /// The first failing check of this statement, if any.
    pub open spec fn failure(&self) -> Option<ValidationFailure> {
        kyc_view_failure(self@)
    }

    /// What an evaluation of this statement may return: the first failure
    /// where a check fails, else the commitment, both compliance flags set,
    /// and the accreditation flag as given.
    pub open spec fn admits(&self, result: Result<KycOutputs, ValidationFailure>) -> bool {
        match result {
            Ok(out) => {
                &&& self.failure() is None
                &&& out.kyc_commitment@ == kyc_commitment(
                    self.age,
                    self.jurisdiction@,
                    self.accredited,
                )
                &&& out.age_verified
                &&& out.jurisdiction_compliant
                &&& out.accredited == self.accredited
            },
            Err(e) => self.failure() == Some(e),
        }
    }

    /// Binds the ordered input fields to a statement. Any other number of
    /// fields, a field of another type or a code of another size is
    /// malformed input.
    pub fn from_fields(fields: &Vec<Field>) -> (read: Result<KycStatement, StatementError>)
        ensures
            match read {
                Ok(statement) => kyc_fields(fields@) == Some(statement@),
                Err(e) => e == StatementError::MalformedInput && kyc_fields(fields@) is None,
            },
    {
        if fields.len() != 5 {
            return Err(StatementError::MalformedInput);
        }
        match (
            read_u8(&fields[0]),
            read_bytes::<2>(&fields[1]),
            read_bool(&fields[2]),
            read_list::<2>(&fields[3]),
            read_u8(&fields[4]),
        ) {
            (Some(age), Some(jurisdiction), Some(accredited), Some(sanctioned), Some(min_age)) => {
                Ok(KycStatement { age, jurisdiction, accredited, sanctioned, min_age })
            },
            _ => Err(StatementError::MalformedInput),
        }
    }

    /// Checks the age, then the deny-list.
    pub fn validate(&self) -> (checked: Result<(), ValidationFailure>)
        ensures
            checked is Ok <==> self.failure() is None,
            checked matches Err(e) ==> self.failure() == Some(e),
    {
        if self.age < self.min_age {
            Err(ValidationFailure::AgeRequirementNotMet)
        } else if is_sanctioned(&self.jurisdiction, &self.sanctioned) {
            Err(ValidationFailure::JurisdictionSanctioned)
        } else {
            Ok(())
        }
    }

    /// Validates the statement and, on success, packages its outputs.
    ///
    /// The two compliance flags restate what validation established; the
    /// accreditation flag is disclosed as given.
    pub fn evaluate(&self) -> (result: Result<KycOutputs, ValidationFailure>)
        ensures
            self.admits(result),
    {
        match self.validate() {
            Err(e) => Err(e),
            Ok(()) => {
                let commitment = generate_kyc_commitment(
                    self.age,
                    self.jurisdiction,
                    self.accredited,
                );
                let age_verified = self.age >= self.min_age;
                let jurisdiction_compliant = !is_sanctioned(&self.jurisdiction, &self.sanctioned);
                Ok(
                    KycOutputs {
                        kyc_commitment: commitment,
                        age_verified,
                        jurisdiction_compliant,
                        accredited: self.accredited,
                    },
                )
            },
        }
    }
}

impl KycOutputs {
    /// The outputs as ordered fields: the commitment, then the three flags.
    pub fn to_fields(&self) -> (fields: Vec<Field>)
        ensures
            fields@.len() == 4,
            bytes_of(fields@[0], 32) == Some(self.kyc_commitment@),
            bool_of(fields@[1]) == Some(self.age_verified),
            bool_of(fields@[2]) == Some(self.jurisdiction_compliant),
            bool_of(fields@[3]) == Some(self.accredited),
    {
        let mut fields: Vec<Field> = Vec::new();
        fields.push(bytes_field(self.kyc_commitment.as_slice()));
        fields.push(Field::Bool(self.age_verified));
        fields.push(Field::Bool(self.jurisdiction_compliant));
        fields.push(Field::Bool(self.accredited));
        fields
    }
}

/// What a run on `fields` returns: malformed input where they cannot be
/// read, else the first failed check, else the packaged outputs.
pub open spec fn kyc_outcome(fields: Seq<Field>, result: Result<Vec<Field>, StatementError>) -> bool {
    outcome_of(
        kyc_fields(fields),
        |inputs: KycView| kyc_view_failure(inputs),
        |inputs: KycView, out: Vec<Field>| kyc_output_fields(inputs, out),
        result,
    )
}

/// Runs a KYC statement from ordered input fields to ordered output
/// fields: reads, validates, commits, packages. Nothing is emitted where a
/// stage fails.
pub fn run_kyc(fields: &Vec<Field>) -> (result: Result<Vec<Field>, StatementError>)
    ensures
        kyc_outcome(fields@, result),
{
    match KycStatement::from_fields(fields) {
        Err(e) => Err(e),
        Ok(statement) => match statement.evaluate() {
            Err(e) => Err(StatementError::Validation(e)),
            Ok(out) => Ok(out.to_fields()),
        },
    }
}

/// Evaluation is deterministic: any two results that a statement admits are
/// the same, bit for bit.
pub proof fn kyc_is_deterministic(
    statement: KycStatement,
    first: Result<KycOutputs, ValidationFailure>,
    second: Result<KycOutputs, ValidationFailure>,
)
    requires
        statement.admits(first),
        statement.admits(second),
    ensures
        first == second,
{
    if let Ok(a) = first {
        let b = second->Ok_0;
        assert(a.kyc_commitment =~= b.kyc_commitment);
    }
}

/// The age check is tight: the minimum age itself passes wherever the
/// jurisdiction is not on the deny-list, and one year less is refused.
pub proof fn age_boundary(min_age: u8, jurisdiction: Seq<u8>, sanctioned: Seq<Seq<u8>>)
    ensures
        !on_deny_list(jurisdiction, sanctioned) ==> kyc_failure(
            min_age,
            jurisdiction,
            sanctioned,
            min_age,
        ) is None,
        min_age > 0 ==> kyc_failure((min_age - 1) as u8, jurisdiction, sanctioned, min_age)
            == Some(ValidationFailure::AgeRequirementNotMet),
{
}

/// With an empty deny-list every jurisdiction is compliant.
pub proof fn empty_deny_list_admits_all(jurisdiction: Seq<u8>)
    ensures
        !on_deny_list(jurisdiction, Seq::<Seq<u8>>::empty()),
{
}

/// The commitment is binding: attributes that differ in age, jurisdiction
/// or accreditation have different commitments, unless SHA-256 collides.
pub proof fn kyc_commitment_is_binding(
    age_a: u8,
    jurisdiction_a: [u8; 2],
    accredited_a: bool,
    age_b: u8,
    jurisdiction_b: [u8; 2],
    accredited_b: bool,
)
    requires
        age_a != age_b || jurisdiction_a != jurisdiction_b || accredited_a != accredited_b,
    ensures
        kyc_commitment(age_a, jurisdiction_a@, accredited_a) != kyc_commitment(
            age_b,
            jurisdiction_b@,
            accredited_b,
        ) || collision_exists(),
{
    let pa = kyc_preimage(age_a, jurisdiction_a@, accredited_a);
    let pb = kyc_preimage(age_b, jurisdiction_b@, accredited_b);
    if pa == pb {
        assert(pa[0] == age_a && pb[0] == age_b);
        assert(pa.subrange(1, 3) =~= jurisdiction_a@);
        assert(pb.subrange(1, 3) =~= jurisdiction_b@);
        assert(jurisdiction_a =~= jurisdiction_b);
        assert(pa[3] == bool_byte(accredited_a) && pb[3] == bool_byte(accredited_b));
    } else {
        digests_differ_or_collide(pa, pb);
    }
}

} // verus!
