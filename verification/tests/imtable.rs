use halo2_proofs::pasta::Fp;
use halo2_proofs::plonk::{ConstraintSystem, TableColumn};
use num_bigint::BigUint;
use num_traits::Zero;

use imtable::entry::InitMemoryTableEntry;
use imtable::expr::{eval_expr, KeyExpr};
use imtable::schema::InitMemoryTableConfig;
use imtable::table::{table_contains, MInitTableChip};

fn column() -> TableColumn {
    let mut cs = ConstraintSystem::<Fp>::default();
    cs.lookup_table_column()
}

fn expected_encoding(mmid: u64, offset: u64, value: u64) -> BigUint {
    (BigUint::from(mmid) << 80u32) + (BigUint::from(offset) << 64u32) + BigUint::from(value)
}

fn entry(mmid: u64, offset: u64, value: u64) -> InitMemoryTableEntry {
    InitMemoryTableEntry {
        mmid,
        offset,
        value,
    }
}

#[test]
fn encode_matches_formula() {
    assert_eq!(entry(1, 2, 3).encode(), expected_encoding(1, 2, 3));
    assert_eq!(
        entry(7, 0xFFFF, u64::MAX).encode(),
        expected_encoding(7, 0xFFFF, u64::MAX)
    );
    assert_eq!(entry(u64::MAX, 0, 0).encode(), expected_encoding(u64::MAX, 0, 0));
}

#[test]
fn encode_of_zero_entry_is_zero() {
    assert_eq!(entry(0, 0, 0).encode(), BigUint::zero());
}

#[test]
fn encode_distinguishes_each_field() {
    let base = entry(1, 2, 3).encode();
    assert_ne!(entry(2, 2, 3).encode(), base);
    assert_ne!(entry(1, 3, 3).encode(), base);
    assert_ne!(entry(1, 2, 4).encode(), base);
}

#[test]
fn populate_of_empty_list_is_one_zero_row() {
    let chip = MInitTableChip::new(InitMemoryTableConfig::configure(column()));
    let table = chip.populate(&Vec::new());
    assert_eq!(table, vec![BigUint::zero()]);
}

#[test]
fn populate_single_entry() {
    let chip = MInitTableChip::new(InitMemoryTableConfig::configure(column()));
    let table = chip.populate(&vec![entry(1, 2, 3)]);
    assert_eq!(table, vec![BigUint::zero(), expected_encoding(1, 2, 3)]);
}

#[test]
fn populate_keeps_input_order() {
    let entries = vec![entry(1, 2, 3), entry(9, 8, 7), entry(0, 0, 5)];
    let chip = MInitTableChip::new(InitMemoryTableConfig::configure(column()));
    let table = chip.populate(&entries);
    assert_eq!(table.len(), 4);
    assert_eq!(table[0], BigUint::zero());
    for (i, e) in entries.iter().enumerate() {
        assert_eq!(table[i + 1], e.encode());
    }
}

#[test]
fn populate_close_entries_give_distinct_nonzero_rows() {
    let chip = MInitTableChip::new(InitMemoryTableConfig::configure(column()));
    let table = chip.populate(&vec![entry(1, 2, 3), entry(1, 2, 4)]);
    assert_eq!(table.len(), 3);
    assert_ne!(table[1], table[2]);
    assert_ne!(table[1], BigUint::zero());
    assert_ne!(table[2], BigUint::zero());
}

#[test]
fn built_key_matches_existing_row_and_misses_empty_table() {
    let config = InitMemoryTableConfig::configure(column());
    let key = config.encode(KeyExpr::Var(0), KeyExpr::Var(1), KeyExpr::Var(2));
    let key_value = eval_expr(&key, &vec![1, 2, 3]);
    assert_eq!(key_value, expected_encoding(1, 2, 3));

    let populated = MInitTableChip::new(InitMemoryTableConfig::configure(column()))
        .populate(&vec![entry(1, 2, 3)]);
    assert!(table_contains(&populated, &key_value));

    let empty = MInitTableChip::new(InitMemoryTableConfig::configure(column()))
        .populate(&Vec::new());
    assert!(!table_contains(&empty, &key_value));
}

#[test]
fn zero_key_matches_every_table() {
    let populated = MInitTableChip::new(InitMemoryTableConfig::configure(column()))
        .populate(&vec![entry(4, 5, 6)]);
    assert!(table_contains(&populated, &BigUint::zero()));
}

#[test]
fn expression_evaluation() {
    let env = vec![10, 20];
    assert_eq!(eval_expr(&KeyExpr::Const(42), &env), BigUint::from(42u64));
    assert_eq!(eval_expr(&KeyExpr::Pow2(64), &env), BigUint::from(1u64) << 64u32);
    assert_eq!(eval_expr(&KeyExpr::Var(1), &env), BigUint::from(20u64));
    assert_eq!(eval_expr(&KeyExpr::Var(9), &env), BigUint::zero());
    let sum = KeyExpr::Add(
        Box::new(KeyExpr::Var(0)),
        Box::new(KeyExpr::Mul(Box::new(KeyExpr::Var(1)), Box::new(KeyExpr::Const(3)))),
    );
    assert_eq!(eval_expr(&sum, &env), BigUint::from(70u64));
}
