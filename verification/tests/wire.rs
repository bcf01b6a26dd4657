use zk_statements::hashing::{append_bytes, digests_equal};
use zk_statements::merkle::{pair_steps, MerkleStep};
use zk_statements::failure::StatementError;
use zk_statements::statement::{prepare, run, StatementKind, Submission};
use zk_statements::wire::{
    bytes_field, copy_flags, read_bool, read_bytes, read_flags, read_list, read_u64, read_u8,
    to_array, to_arrays, Field,
};

#[test]
fn scalar_fields_read_only_as_their_own_type() {
    assert_eq!(read_u8(&Field::U8(7)), Some(7));
    assert_eq!(read_u8(&Field::U64(7)), None);
    assert_eq!(read_u64(&Field::U64(u64::MAX)), Some(u64::MAX));
    assert_eq!(read_u64(&Field::U8(1)), None);
    assert_eq!(read_bool(&Field::Bool(true)), Some(true));
    assert_eq!(read_bool(&Field::Bool(false)), Some(false));
    assert_eq!(read_bool(&Field::U8(1)), None);
}

#[test]
fn byte_fields_read_only_at_their_size() {
    assert_eq!(read_bytes::<2>(&Field::Bytes(vec![b'U', b'S'])), Some(*b"US"));
    assert_eq!(read_bytes::<2>(&Field::Bytes(vec![b'U'])), None);
    assert_eq!(read_bytes::<32>(&Field::Bytes(vec![9; 32])), Some([9u8; 32]));
    assert_eq!(read_bytes::<32>(&Field::Bytes(vec![9; 33])), None);
    assert_eq!(read_bytes::<32>(&Field::U64(9)), None);
    assert_eq!(to_array::<4>(&vec![1, 2, 3, 4]), Some([1u8, 2, 3, 4]));
    assert_eq!(to_array::<4>(&vec![1, 2, 3]), None);
    assert_eq!(to_array::<0>(&Vec::new()), Some([0u8; 0]));
}

#[test]
fn list_fields_read_only_with_sized_items() {
    let list = Field::BytesList(vec![vec![1, 2], vec![3, 4]]);
    assert_eq!(read_list::<2>(&list), Some(vec![[1u8, 2], [3, 4]]));
    assert_eq!(read_list::<3>(&list), None);
    assert_eq!(read_list::<2>(&Field::BytesList(Vec::new())), Some(Vec::new()));
    assert_eq!(read_list::<2>(&Field::Bytes(vec![1, 2])), None);
    assert_eq!(to_arrays::<2>(&vec![vec![1, 2], vec![3]]), None);
    assert_eq!(read_flags(&Field::BoolList(vec![true, false])), Some(vec![true, false]));
    assert_eq!(read_flags(&Field::Bool(true)), None);
    assert_eq!(copy_flags(&vec![false, true, true]), vec![false, true, true]);
}

#[test]
fn bytes_field_copies_in_order() {
    assert_eq!(bytes_field(&[1, 2, 3]), Field::Bytes(vec![1, 2, 3]));
    assert_eq!(bytes_field(&[]), Field::Bytes(Vec::new()));
}

#[test]
fn append_keeps_what_was_there() {
    let mut buf = vec![1u8, 2];
    append_bytes(&mut buf, &[3, 4, 5]);
    assert_eq!(buf, vec![1, 2, 3, 4, 5]);
    append_bytes(&mut buf, &[]);
    assert_eq!(buf, vec![1, 2, 3, 4, 5]);
}

#[test]
fn digests_compare_every_byte() {
    let a = [3u8; 32];
    assert!(digests_equal(&a, &a.clone()));
    for i in 0..32 {
        let mut b = a;
        b[i] ^= 1;
        assert!(!digests_equal(&a, &b));
    }
}

#[test]
fn steps_pair_siblings_with_sides() {
    let paired = pair_steps(&vec![[1u8; 32], [2u8; 32]], &vec![true, false]);
    assert_eq!(
        paired,
        Some(vec![
            MerkleStep { sibling: [1u8; 32], sibling_on_left: true },
            MerkleStep { sibling: [2u8; 32], sibling_on_left: false },
        ])
    );
    assert_eq!(pair_steps(&vec![[1u8; 32]], &vec![]), None);
    assert_eq!(pair_steps(&vec![], &vec![true]), None);
    assert_eq!(pair_steps(&vec![], &vec![]), Some(Vec::new()));
}

#[test]
fn statements_are_named_for_the_backend() {
    assert_eq!(StatementKind::Deposit.program(), "deposit-proof");
    assert_eq!(StatementKind::Kyc.program(), "kyc-proof");
    assert_eq!(StatementKind::Withdrawal.program(), "withdrawal-proof");
    assert_eq!(StatementKind::Yield.program(), "yield-proof");
}

#[test]
fn private_fields_come_first() {
    assert_eq!(StatementKind::Deposit.private_fields(), 2);
    assert_eq!(StatementKind::Kyc.private_fields(), 3);
    assert_eq!(StatementKind::Withdrawal.private_fields(), 3);
    assert_eq!(StatementKind::Yield.private_fields(), 2);
}

#[test]
fn prepare_splits_inputs_and_keeps_outputs() {
    let fields = vec![Field::U64(100), Field::Bytes(vec![0u8; 32]), Field::U64(150)];
    let outputs = run(StatementKind::Deposit, &fields).unwrap();
    let submission = prepare(StatementKind::Deposit, fields.clone()).unwrap();
    assert_eq!(
        submission,
        Submission {
            kind: StatementKind::Deposit,
            private_inputs: fields[..2].to_vec(),
            public_inputs: fields[2..].to_vec(),
            public_outputs: outputs,
        }
    );
}

#[test]
fn prepare_submits_nothing_on_failure() {
    let over = vec![Field::U64(200), Field::Bytes(vec![0u8; 32]), Field::U64(150)];
    assert!(matches!(
        prepare(StatementKind::Deposit, over),
        Err(StatementError::Validation(_))
    ));
    let deposit_fields = vec![Field::U64(100), Field::Bytes(vec![0u8; 32]), Field::U64(150)];
    for kind in [StatementKind::Kyc, StatementKind::Withdrawal, StatementKind::Yield] {
        assert_eq!(run(kind, &deposit_fields), Err(StatementError::MalformedInput));
        assert_eq!(prepare(kind, deposit_fields.clone()), Err(StatementError::MalformedInput));
    }
}
