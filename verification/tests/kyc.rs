use zk_statements::failure::{StatementError, ValidationFailure};
use zk_statements::kyc::{generate_kyc_commitment, is_sanctioned, run_kyc, KycOutputs, KycStatement};
use zk_statements::wire::Field;

const COMMITMENT_25_US_PLAIN: [u8; 32] = [
    0xe7, 0x4a, 0x99, 0xb3, 0x46, 0x6b, 0xdf, 0x63, 0x37, 0x8b, 0x6d, 0x28, 0xe2, 0xb9, 0xa7, 0x14,
    0x4b, 0xb7, 0x68, 0xea, 0x41, 0xc6, 0x57, 0x45, 0x6e, 0x27, 0xbb, 0xfe, 0x21, 0x6c, 0x8c, 0xc5,
];

const COMMITMENT_30_DE_ACCREDITED: [u8; 32] = [
    0x66, 0x51, 0x57, 0x3f, 0xa9, 0xd5, 0x3a, 0x52, 0x9a, 0xd4, 0xfd, 0x71, 0x76, 0xb2, 0x38, 0x5a,
    0xe5, 0x0d, 0x32, 0xbe, 0xaf, 0x4f, 0xed, 0x70, 0xf0, 0xfd, 0x1a, 0xd3, 0xaa, 0xfe, 0xeb, 0x42,
];

fn statement(age: u8, jurisdiction: &[u8; 2], min_age: u8) -> KycStatement {
    KycStatement {
        age,
        jurisdiction: *jurisdiction,
        accredited: false,
        sanctioned: vec![*b"KP"],
        min_age,
    }
}

#[test]
fn kyc_adult_from_allowed_jurisdiction_passes() {
    let out = statement(25, b"US", 18).evaluate().unwrap();
    assert!(out.age_verified);
    assert!(out.jurisdiction_compliant);
    assert!(!out.accredited);
    assert_eq!(out.kyc_commitment, COMMITMENT_25_US_PLAIN);
}

#[test]
fn kyc_sanctioned_jurisdiction_is_refused() {
    assert_eq!(
        statement(25, b"KP", 18).evaluate(),
        Err(ValidationFailure::JurisdictionSanctioned)
    );
}

#[test]
fn kyc_commitment_encodes_accreditation_as_one_byte() {
    assert_eq!(generate_kyc_commitment(30, *b"DE", true), COMMITMENT_30_DE_ACCREDITED);
    assert_eq!(generate_kyc_commitment(25, *b"US", false), COMMITMENT_25_US_PLAIN);
    assert_ne!(generate_kyc_commitment(25, *b"US", true), COMMITMENT_25_US_PLAIN);
}

#[test]
fn kyc_age_boundary() {
    assert!(statement(18, b"US", 18).evaluate().is_ok());
    assert_eq!(statement(17, b"US", 18).evaluate(), Err(ValidationFailure::AgeRequirementNotMet));
    assert!(statement(21, b"US", 21).evaluate().is_ok());
    assert_eq!(statement(20, b"US", 21).evaluate(), Err(ValidationFailure::AgeRequirementNotMet));
    assert!(statement(0, b"US", 0).evaluate().is_ok());
    assert!(statement(255, b"US", 255).evaluate().is_ok());
}

#[test]
fn kyc_age_is_checked_before_jurisdiction() {
    assert_eq!(statement(17, b"KP", 18).evaluate(), Err(ValidationFailure::AgeRequirementNotMet));
    assert_eq!(statement(17, b"KP", 18).validate(), Err(ValidationFailure::AgeRequirementNotMet));
}

#[test]
fn kyc_deny_list_compares_both_bytes() {
    let list = vec![*b"KP", *b"IR", *b"SY"];
    assert!(is_sanctioned(b"KP", &list));
    assert!(is_sanctioned(b"SY", &list));
    assert!(!is_sanctioned(b"KR", &list));
    assert!(!is_sanctioned(b"IP", &list));
    assert!(!is_sanctioned(b"PK", &list));
    assert!(!is_sanctioned(b"US", &Vec::new()));
}

#[test]
fn kyc_discloses_accreditation_as_given() {
    let mut accredited = statement(40, b"FR", 21);
    accredited.accredited = true;
    let out = accredited.evaluate().unwrap();
    assert!(out.accredited);
    assert!(out.age_verified && out.jurisdiction_compliant);
}

#[test]
fn kyc_is_repeatable() {
    let s = statement(25, b"US", 18);
    assert_eq!(s.evaluate(), s.evaluate());
}

#[test]
fn kyc_outputs_in_wire_order() {
    let out = KycOutputs {
        kyc_commitment: [6u8; 32],
        age_verified: true,
        jurisdiction_compliant: false,
        accredited: true,
    };
    assert_eq!(
        out.to_fields(),
        vec![Field::Bytes(vec![6u8; 32]), Field::Bool(true), Field::Bool(false), Field::Bool(true)]
    );
}

fn kyc_inputs(age: u8, jurisdiction: &[u8], sanctioned: Vec<Vec<u8>>, min_age: u8) -> Vec<Field> {
    vec![
        Field::U8(age),
        Field::Bytes(jurisdiction.to_vec()),
        Field::Bool(false),
        Field::BytesList(sanctioned),
        Field::U8(min_age),
    ]
}

#[test]
fn kyc_runs_end_to_end() {
    let passed = run_kyc(&kyc_inputs(25, b"US", vec![b"KP".to_vec()], 18));
    assert_eq!(
        passed,
        Ok(vec![
            Field::Bytes(COMMITMENT_25_US_PLAIN.to_vec()),
            Field::Bool(true),
            Field::Bool(true),
            Field::Bool(false),
        ])
    );
    let refused = run_kyc(&kyc_inputs(25, b"KP", vec![b"IR".to_vec(), b"KP".to_vec()], 18));
    assert_eq!(
        refused,
        Err(StatementError::Validation(ValidationFailure::JurisdictionSanctioned))
    );
}

#[test]
fn kyc_rejects_malformed_fields() {
    let long_code = kyc_inputs(25, b"USA", vec![b"KP".to_vec()], 18);
    assert_eq!(run_kyc(&long_code), Err(StatementError::MalformedInput));
    let bad_list = kyc_inputs(25, b"US", vec![b"KP".to_vec(), b"IRN".to_vec()], 18);
    assert_eq!(run_kyc(&bad_list), Err(StatementError::MalformedInput));
    let mut missing = kyc_inputs(25, b"US", vec![], 18);
    missing.pop();
    assert_eq!(run_kyc(&missing), Err(StatementError::MalformedInput));
    let mut wrong_type = kyc_inputs(25, b"US", vec![], 18);
    wrong_type[0] = Field::U64(25);
    assert_eq!(KycStatement::from_fields(&wrong_type), Err(StatementError::MalformedInput));
    let read = KycStatement::from_fields(&kyc_inputs(25, b"US", vec![b"KP".to_vec()], 18));
    assert_eq!(read, Ok(statement(25, b"US", 18)));
}
