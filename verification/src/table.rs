//! The table populator and the meaning of a lookup against the table.

use vstd::prelude::*;
use num_bigint::BigUint;
use crate::bigint::{biguint_nat, biguint_zero, biguint_eq};
use crate::entry::{InitMemoryTableEntry, entry_encode_nat, entry_in_bounds, lemma_encode_injective};
use crate::schema::InitMemoryTableConfig;

verus! {

/// The rows a populated table must hold for a given entry list:
/// one more row than there are entries, row 0 zero, row `i + 1` the
/// canonical encoding of entry `i`.
pub open spec fn table_rows_match(rows: Seq<nat>, entries: Seq<InitMemoryTableEntry>) -> bool {
    &&& rows.len() == entries.len() + 1
    &&& rows[0] == 0
    &&& forall|i: int|
        0 <= i < entries.len() ==> #[trigger] rows[i + 1] == entry_encode_nat(entries[i])
}

/// One-shot populator for the initial memory table: created fresh for a
/// proving session, used to populate exactly one table, then discarded.
pub struct MInitTableChip {
    pub config: InitMemoryTableConfig,
}

impl MInitTableChip {
    /// Wrap a configured schema handle for one proving session.
    pub fn new(config: InitMemoryTableConfig) -> (r: Self)
        ensures
            r.config == config,
    {
        MInitTableChip { config }
    }

    /// Compute the table rows for this session: row 0 is zero, row `i + 1`
    /// is the canonical encoding of `minit[i]`, in input order. Consumes
    /// the populator: a second population needs a fresh instance.
    pub fn populate(self, minit: &Vec<InitMemoryTableEntry>) -> (table: Vec<BigUint>)
        ensures
            table@.len() == minit@.len() + 1,
            table_rows_match(table@.map_values(|b: BigUint| biguint_nat(b)), minit@),
    {
        let mut table: Vec<BigUint> = Vec::new();
        table.push(biguint_zero());
        let mut i: usize = 0;
        while i < minit.len()
            invariant
                i <= minit@.len(),
                table@.len() == i + 1,
                biguint_nat(table@[0]) == 0,
                forall|j: int|
                    0 <= j < i ==> biguint_nat(#[trigger] table@[j + 1]) == entry_encode_nat(
                        minit@[j],
                    ),
            decreases minit@.len() - i,
        {
            table.push(minit[i].encode());
            i += 1;
        }
        proof {
            let rows = table@.map_values(|b: BigUint| biguint_nat(b));
            assert(forall|j: int|
                0 <= j < minit@.len() ==> #[trigger] rows[j + 1] == entry_encode_nat(minit@[j]));
        }
        table
    }
}

/// Whether some row of the table holds the same number as `key`.
pub fn table_contains(table: &Vec<BigUint>, key: &BigUint) -> (r: bool)
    ensures
        r == exists|i: int|
            0 <= i < table@.len() && biguint_nat(#[trigger] table@[i]) == biguint_nat(*key),
{
    let mut i: usize = 0;
    while i < table.len()
        invariant
            i <= table@.len(),
            forall|j: int|
                0 <= j < i ==> biguint_nat(#[trigger] table@[j]) != biguint_nat(*key),
        decreases table@.len() - i,
    {
        if biguint_eq(&table[i], key) {
            assert(biguint_nat(table@[i as int]) == biguint_nat(*key));
            return true;
        }
        i += 1;
    }
    false
}

/// A populated table holds a number exactly when it is zero (the universal
/// inactive row) or the canonical encoding of one of the entries.
pub proof fn lemma_table_membership(
    rows: Seq<nat>,
    entries: Seq<InitMemoryTableEntry>,
    k: nat,
)
    requires
        table_rows_match(rows, entries),
    ensures
        rows.contains(k) <==> (k == 0 || exists|j: int|
            0 <= j < entries.len() && entry_encode_nat(#[trigger] entries[j]) == k),
{
    if rows.contains(k) {
        let i = choose|i: int| 0 <= i < rows.len() && rows[i] == k;
        if i > 0 {
            assert(rows[(i - 1) + 1] == entry_encode_nat(entries[i - 1]));
        }
    }
    if k == 0 {
        assert(rows[0] == k);
    } else if exists|j: int| 0 <= j < entries.len() && entry_encode_nat(#[trigger] entries[j])
        == k {
        let j = choose|j: int| 0 <= j < entries.len() && entry_encode_nat(#[trigger] entries[j])
            == k;
        assert(rows[j + 1] == k);
    }
}

/// A lookup key built from a claimed triple is satisfiable against a
/// populated table exactly when the key is zero or the triple is one of
/// the entries the table was populated from: a matching entry yields a
/// matching row, and — by injectivity of the encoding — a non-zero key
/// with no matching entry matches no row.
pub proof fn lemma_key_satisfiability(
    rows: Seq<nat>,
    entries: Seq<InitMemoryTableEntry>,
    e: InitMemoryTableEntry,
)
    requires
        table_rows_match(rows, entries),
        entry_in_bounds(e),
        forall|j: int| 0 <= j < entries.len() ==> entry_in_bounds(#[trigger] entries[j]),
    ensures
        rows.contains(entry_encode_nat(e)) <==> (entry_encode_nat(e) == 0 || exists|j: int|
            0 <= j < entries.len() && #[trigger] entries[j] == e),
{
    let k = entry_encode_nat(e);
    lemma_table_membership(rows, entries, k);
    if exists|j: int| 0 <= j < entries.len() && entry_encode_nat(#[trigger] entries[j]) == k {
        let j = choose|j: int| 0 <= j < entries.len() && entry_encode_nat(#[trigger] entries[j])
            == k;
        lemma_encode_injective(entries[j], e);
    }
    if exists|j: int| 0 <= j < entries.len() && #[trigger] entries[j] == e {
        let j = choose|j: int| 0 <= j < entries.len() && #[trigger] entries[j] == e;
        assert(entry_encode_nat(entries[j]) == k);
    }
}

} // verus!
