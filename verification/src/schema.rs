//! The lookup-table schema: the bound column and the key builder.
//!
//! The builder returns an expression whose value under every assignment
//! equals the canonical encoding of the three claimed fields — the
//! bit-for-bit mirror of [`crate::entry::InitMemoryTableEntry::encode`]
//! that every registered lookup depends on.

use vstd::prelude::*;
use halo2_proofs::plonk::TableColumn;
use crate::entry::encode_nat;
use crate::expr::{KeyExpr, eval_key};

verus! {

#[verifier::external_type_specification]
#[verifier::external_body]
pub struct ExTableColumn(TableColumn);

/// The gadget's handle on the fixed lookup column it was configured with.
pub struct InitMemoryTableConfig {
    pub col: TableColumn,
}

impl InitMemoryTableConfig {
    /// Bind a fixed lookup column to this gadget instance. To be called
    /// exactly once per circuit definition for a given column.
    pub fn configure(col: TableColumn) -> (r: Self)
        ensures
            r.col == col,
    {
        Self { col }
    }

    /// Build the lookup key `mmid * 2^80 + offset * 2^64 + value` over the
    /// three supplied expressions: under every assignment it evaluates to
    /// the canonical encoding of the values the arguments evaluate to.
    pub fn encode(&self, mmid: KeyExpr, offset: KeyExpr, value: KeyExpr) -> (r: KeyExpr)
        ensures
            forall|env: Seq<nat>| #[trigger] eval_key(r, env) == encode_nat(
                eval_key(mmid, env),
                eval_key(offset, env),
                eval_key(value, env),
            ),
    {
        let r = KeyExpr::Add(
            Box::new(KeyExpr::Mul(Box::new(mmid), Box::new(KeyExpr::Pow2(80)))),
            Box::new(
                KeyExpr::Add(
                    Box::new(KeyExpr::Mul(Box::new(offset), Box::new(KeyExpr::Pow2(64)))),
                    Box::new(value),
                ),
            ),
        );
        proof {
            assert forall|env: Seq<nat>| #[trigger] eval_key(r, env) == encode_nat(
                eval_key(mmid, env),
                eval_key(offset, env),
                eval_key(value, env),
            ) by {
                reveal_with_fuel(eval_key, 4);
            }
        }
        r
    }
}

} // verus!
