use zk_statements::failure::{StatementError, ValidationFailure};
use zk_statements::merkle::{compute_root, hash_pair, verify_path, MerkleStep};
use zk_statements::wire::Field;
use zk_statements::yield_range::{check_range, hash_commitment, run_yield, YieldOutputs, YieldStatement};

const COMMITMENT: [u8; 32] = [0x11u8; 32];

const LEAF: [u8; 32] = [
    0x02, 0xd4, 0x49, 0xa3, 0x1f, 0xbb, 0x26, 0x7c, 0x8f, 0x35, 0x2e, 0x99, 0x68, 0xa7, 0x9e, 0x3e,
    0x5f, 0xc9, 0x5c, 0x1b, 0xbe, 0xaa, 0x50, 0x2f, 0xd6, 0x45, 0x4e, 0xbd, 0xe5, 0xa4, 0xbe, 0xdc,
];

const INNER: [u8; 32] = [
    0x4a, 0x63, 0x71, 0xac, 0x10, 0xca, 0xb7, 0x90, 0xb8, 0x77, 0x19, 0x6b, 0xd4, 0x62, 0x5b, 0x8b,
    0xe9, 0xa5, 0x68, 0xd9, 0x0f, 0x32, 0x0d, 0x37, 0x50, 0xff, 0x46, 0x9e, 0xd9, 0x14, 0xd6, 0xcb,
];

const ROOT: [u8; 32] = [
    0x69, 0xba, 0xcd, 0x04, 0x34, 0x74, 0x71, 0xcd, 0xcf, 0xfd, 0xda, 0xf3, 0xac, 0xbc, 0x14, 0x9a,
    0x1f, 0xbd, 0x3a, 0x63, 0x97, 0x7f, 0xa9, 0xbc, 0xb3, 0x4f, 0xcb, 0x6c, 0x0d, 0x5b, 0xf8, 0x8e,
];

fn path() -> Vec<MerkleStep> {
    vec![
        MerkleStep { sibling: [0xaa; 32], sibling_on_left: false },
        MerkleStep { sibling: [0xbb; 32], sibling_on_left: true },
    ]
}

fn statement(actual: u64) -> YieldStatement {
    YieldStatement {
        commitment: COMMITMENT,
        actual_yield: actual,
        start_time: 100,
        end_time: 200,
        min_yield: 10,
        max_yield: 100,
        merkle_root: ROOT,
        merkle_proof: path(),
    }
}

#[test]
fn commitment_hash_is_plain_sha256() {
    assert_eq!(hash_commitment(COMMITMENT), LEAF);
    assert_ne!(hash_commitment(COMMITMENT), COMMITMENT);
}

#[test]
fn parent_hashes_left_then_right() {
    assert_eq!(hash_pair(&LEAF, &[0xaa; 32]), INNER);
    assert_eq!(hash_pair(&[0xbb; 32], &INNER), ROOT);
    assert_ne!(hash_pair(&[0xaa; 32], &LEAF), INNER);
}

#[test]
fn path_folds_from_leaf_to_root() {
    assert_eq!(compute_root(&LEAF, &path()), ROOT);
    assert_eq!(compute_root(&LEAF, &path()[..1].to_vec()), INNER);
    assert_eq!(compute_root(&LEAF, &Vec::new()), LEAF);
    assert!(verify_path(&LEAF, &path(), &ROOT));
    assert!(verify_path(&LEAF, &Vec::new(), &LEAF));
    assert!(!verify_path(&LEAF, &Vec::new(), &ROOT));
}

#[test]
fn folded_root_always_verifies() {
    let leaf = [0x42u8; 32];
    let mut steps = Vec::new();
    for level in 0..20u8 {
        steps.push(MerkleStep { sibling: [level; 32], sibling_on_left: level % 3 == 0 });
        let root = compute_root(&leaf, &steps);
        assert!(verify_path(&leaf, &steps, &root));
    }
}

#[test]
fn flipping_any_sibling_byte_fails() {
    for level in 0..2 {
        for byte in 0..32 {
            let mut tampered = path();
            tampered[level].sibling[byte] ^= 0x01;
            assert!(!verify_path(&LEAF, &tampered, &ROOT));
        }
    }
}

#[test]
fn flipping_a_side_flag_fails() {
    for level in 0..2 {
        let mut tampered = path();
        tampered[level].sibling_on_left = !tampered[level].sibling_on_left;
        assert!(!verify_path(&LEAF, &tampered, &ROOT));
    }
}

#[test]
fn reordered_or_truncated_path_fails() {
    let mut swapped = path();
    swapped.swap(0, 1);
    assert!(!verify_path(&LEAF, &swapped, &ROOT));
    assert!(!verify_path(&LEAF, &path()[..1].to_vec(), &ROOT));
    let mut wrong_root = ROOT;
    wrong_root[0] ^= 0x80;
    assert!(!verify_path(&LEAF, &path(), &wrong_root));
}

#[test]
fn yield_in_range_with_valid_path_passes() {
    let out = statement(50).evaluate().unwrap();
    assert_eq!(out, YieldOutputs { in_range: true, commitment_hash: LEAF });
    assert_eq!(statement(50).validate(), Ok(()));
}

#[test]
fn yield_with_corrupted_sibling_is_refused() {
    let mut corrupted = statement(50);
    corrupted.merkle_proof[1].sibling[7] ^= 0xff;
    assert_eq!(corrupted.evaluate(), Err(ValidationFailure::MerkleProofInvalid));
    let mut turned = statement(50);
    turned.merkle_proof[0].sibling_on_left = true;
    assert_eq!(turned.evaluate(), Err(ValidationFailure::MerkleProofInvalid));
    let mut other = statement(50);
    other.commitment = [0x12; 32];
    assert_eq!(other.evaluate(), Err(ValidationFailure::MerkleProofInvalid));
}

#[test]
fn yield_range_boundaries() {
    assert!(statement(10).evaluate().is_ok());
    assert!(statement(100).evaluate().is_ok());
    assert_eq!(statement(9).evaluate(), Err(ValidationFailure::YieldBelowMinimum));
    assert_eq!(statement(101).evaluate(), Err(ValidationFailure::YieldAboveMaximum));
    assert_eq!(check_range(0, 0, 1, 0, 0), Ok(()));
    assert_eq!(check_range(u64::MAX, 0, u64::MAX, u64::MAX, u64::MAX), Ok(()));
}

#[test]
fn yield_time_range_must_be_increasing() {
    let mut empty = statement(50);
    empty.end_time = 100;
    assert_eq!(empty.evaluate(), Err(ValidationFailure::InvalidTimeRange));
    let mut reversed = statement(50);
    reversed.start_time = 201;
    assert_eq!(reversed.evaluate(), Err(ValidationFailure::InvalidTimeRange));
    let mut shortest = statement(50);
    shortest.start_time = 199;
    assert!(shortest.evaluate().is_ok());
}

#[test]
fn yield_checks_run_in_order() {
    let mut all_wrong = statement(5);
    all_wrong.end_time = 50;
    all_wrong.merkle_root = [0; 32];
    assert_eq!(all_wrong.evaluate(), Err(ValidationFailure::InvalidTimeRange));
    let mut low_and_unanchored = statement(5);
    low_and_unanchored.merkle_root = [0; 32];
    assert_eq!(low_and_unanchored.evaluate(), Err(ValidationFailure::YieldBelowMinimum));
    let mut high_and_unanchored = statement(500);
    high_and_unanchored.merkle_root = [0; 32];
    assert_eq!(high_and_unanchored.evaluate(), Err(ValidationFailure::YieldAboveMaximum));
    let mut inverted_range = statement(50);
    inverted_range.min_yield = 60;
    inverted_range.max_yield = 40;
    assert_eq!(inverted_range.evaluate(), Err(ValidationFailure::YieldBelowMinimum));
}

#[test]
fn yield_is_repeatable() {
    let s = statement(50);
    assert_eq!(s.evaluate(), s.evaluate());
}

#[test]
fn yield_outputs_in_wire_order() {
    let out = YieldOutputs { in_range: true, commitment_hash: [5u8; 32] };
    assert_eq!(out.to_fields(), vec![Field::Bool(true), Field::Bytes(vec![5u8; 32])]);
}

fn yield_inputs(actual: u64, siblings: Vec<Vec<u8>>, sides: Vec<bool>) -> Vec<Field> {
    vec![
        Field::Bytes(COMMITMENT.to_vec()),
        Field::U64(actual),
        Field::U64(100),
        Field::U64(200),
        Field::U64(10),
        Field::U64(100),
        Field::Bytes(ROOT.to_vec()),
        Field::BytesList(siblings),
        Field::BoolList(sides),
    ]
}

#[test]
fn yield_runs_end_to_end() {
    let fields = yield_inputs(50, vec![vec![0xaa; 32], vec![0xbb; 32]], vec![false, true]);
    assert_eq!(YieldStatement::from_fields(&fields), Ok(statement(50)));
    assert_eq!(run_yield(&fields), Ok(vec![Field::Bool(true), Field::Bytes(LEAF.to_vec())]));
    let corrupted = yield_inputs(50, vec![vec![0xaa; 32], vec![0xbc; 32]], vec![false, true]);
    assert_eq!(
        run_yield(&corrupted),
        Err(StatementError::Validation(ValidationFailure::MerkleProofInvalid))
    );
    let turned = yield_inputs(50, vec![vec![0xaa; 32], vec![0xbb; 32]], vec![false, false]);
    assert_eq!(
        run_yield(&turned),
        Err(StatementError::Validation(ValidationFailure::MerkleProofInvalid))
    );
}

#[test]
fn yield_rejects_malformed_fields() {
    let uneven = yield_inputs(50, vec![vec![0xaa; 32], vec![0xbb; 32]], vec![false]);
    assert_eq!(run_yield(&uneven), Err(StatementError::MalformedInput));
    let short_sibling = yield_inputs(50, vec![vec![0xaa; 32], vec![0xbb; 31]], vec![false, true]);
    assert_eq!(run_yield(&short_sibling), Err(StatementError::MalformedInput));
    let mut missing = yield_inputs(50, vec![], vec![]);
    missing.pop();
    assert_eq!(run_yield(&missing), Err(StatementError::MalformedInput));
    let mut wrong_type = yield_inputs(50, vec![], vec![]);
    wrong_type[1] = Field::U8(50);
    assert_eq!(run_yield(&wrong_type), Err(StatementError::MalformedInput));
}
