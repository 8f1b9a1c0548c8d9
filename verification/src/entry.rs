//! One memory-initialization entry and its canonical integer encoding.

use vstd::prelude::*;
use vstd::arithmetic::power2::{pow2, lemma_pow2_adds, lemma_pow2_pos};
use vstd::arithmetic::div_mod::lemma_fundamental_div_mod_converse;
use num_bigint::BigUint;
use crate::bigint::{biguint_nat, biguint_from_u64, biguint_shl, biguint_add_u64};

verus! {

/// One cell of the initial memory image: the owning module, the cell's
/// offset within that module, and the cell's initial value.
///
/// `offset < 2^16` and `value < 2^64` are preconditions supplied by the
/// upstream trace generator; they are stated where a result depends on
/// them (injectivity), not enforced here.
#[derive(Clone, Copy, Debug, PartialEq, Eq, Structural)]
pub struct InitMemoryTableEntry {
    pub mmid: u64,
    pub offset: u64,
    pub value: u64,
}

/// The canonical encoding: `mmid * 2^80 + offset * 2^64 + value`.
pub open spec fn encode_nat(mmid: nat, offset: nat, value: nat) -> nat {
    mmid * pow2(80) + offset * pow2(64) + value
}

/// The canonical encoding of a whole entry.
pub open spec fn entry_encode_nat(e: InitMemoryTableEntry) -> nat {
    encode_nat(e.mmid as nat, e.offset as nat, e.value as nat)
}

/// An entry whose packed fields cannot collide with another such entry.
pub open spec fn entry_in_bounds(e: InitMemoryTableEntry) -> bool {
    e.offset < pow2(16) && e.value < pow2(64)
}

impl InitMemoryTableEntry {
    /// Pack this entry into its canonical unbounded integer,
    /// `mmid * 2^80 + offset * 2^64 + value`.
    pub fn encode(&self) -> (r: BigUint)
        ensures
            biguint_nat(r) == entry_encode_nat(*self),
    {
        let bn = biguint_from_u64(self.mmid);
        let bn = biguint_shl(bn, 16);
        let bn = biguint_add_u64(bn, self.offset);
        let bn = biguint_shl(bn, 64);
        let bn = biguint_add_u64(bn, self.value);
        proof {
            lemma_encode_staged(self.mmid as nat, self.offset as nat, self.value as nat);
        }
        bn
    }
}

/// Packing in two shifted stages equals the single-formula encoding.
pub proof fn lemma_encode_staged(mmid: nat, offset: nat, value: nat)
    ensures
        (mmid * pow2(16) + offset) * pow2(64) + value == encode_nat(mmid, offset, value),
{
    lemma_pow2_adds(16, 64);
    assert((mmid * pow2(16) + offset) * pow2(64) == mmid * (pow2(16) * pow2(64)) + offset
        * pow2(64)) by (nonlinear_arith);
}

/// In-bounds entries encode injectively: equal encodings force equal fields.
pub proof fn lemma_encode_injective(e1: InitMemoryTableEntry, e2: InitMemoryTableEntry)
    requires
        entry_in_bounds(e1),
        entry_in_bounds(e2),
        entry_encode_nat(e1) == entry_encode_nat(e2),
    ensures
        e1 == e2,
{
    lemma_pow2_pos(16);
    lemma_pow2_pos(64);
    lemma_encode_staged(e1.mmid as nat, e1.offset as nat, e1.value as nat);
    lemma_encode_staged(e2.mmid as nat, e2.offset as nat, e2.value as nat);
    let hi1 = e1.mmid * pow2(16) + e1.offset;
    let hi2 = e2.mmid * pow2(16) + e2.offset;
    let k = entry_encode_nat(e1) as int;
    lemma_fundamental_div_mod_converse(k, pow2(64) as int, hi1 as int, e1.value as int);
    lemma_fundamental_div_mod_converse(k, pow2(64) as int, hi2 as int, e2.value as int);
    assert(hi1 == hi2 && e1.value == e2.value);
    lemma_fundamental_div_mod_converse(
        hi1 as int,
        pow2(16) as int,
        e1.mmid as int,
        e1.offset as int,
    );
    lemma_fundamental_div_mod_converse(
        hi2 as int,
        pow2(16) as int,
        e2.mmid as int,
        e2.offset as int,
    );
}

} // verus!
