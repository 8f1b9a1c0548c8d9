//! A small model of in-circuit arithmetic expressions.
//!
//! A `KeyExpr` stands for the arithmetic combination a lookup key is built
//! from: witness references, small constants, power-of-two layout
//! constants, sums and products. `eval_key` is its meaning under an
//! assignment of the witness references, and `eval_expr` computes that
//! meaning as an unbounded integer.

use vstd::prelude::*;
use vstd::arithmetic::power2::pow2;
use num_bigint::BigUint;
use crate::bigint::{
    biguint_nat,
    biguint_zero,
    biguint_from_u64,
    biguint_shl,
    biguint_add,
    biguint_mul,
};

verus! {

/// An in-circuit arithmetic expression over numbered witness references.
pub enum KeyExpr {
    /// The value assigned to witness reference number `i`.
    Var(usize),
    /// A small constant.
    Const(u64),
    /// The layout constant `2^k`.
    Pow2(u32),
    /// The sum of two expressions.
    Add(Box<KeyExpr>, Box<KeyExpr>),
    /// The product of two expressions.
    Mul(Box<KeyExpr>, Box<KeyExpr>),
}

/// The number an expression evaluates to under the assignment `env`;
/// a witness reference outside `env` counts as zero.
pub open spec fn eval_key(e: KeyExpr, env: Seq<nat>) -> nat
    decreases e,
{
    match e {
        KeyExpr::Var(i) => if (i as int) < env.len() {
            env[i as int]
        } else {
            0
        },
        KeyExpr::Const(c) => c as nat,
        KeyExpr::Pow2(k) => pow2(k as nat),
        KeyExpr::Add(a, b) => eval_key(*a, env) + eval_key(*b, env),
        KeyExpr::Mul(a, b) => eval_key(*a, env) * eval_key(*b, env),
    }
}

/// Evaluate an expression under the assignment `env`.
pub fn eval_expr(e: &KeyExpr, env: &Vec<u64>) -> (r: BigUint)
    ensures
        biguint_nat(r) == eval_key(*e, env@.map_values(|x: u64| x as nat)),
    decreases *e,
{
    match e {
        KeyExpr::Var(i) => {
            if *i < env.len() {
                biguint_from_u64(env[*i])
            } else {
                biguint_zero()
            }
        },
        KeyExpr::Const(c) => biguint_from_u64(*c),
        KeyExpr::Pow2(k) => biguint_shl(biguint_from_u64(1), *k),
        KeyExpr::Add(a, b) => biguint_add(eval_expr(a, env), eval_expr(b, env)),
        KeyExpr::Mul(a, b) => biguint_mul(eval_expr(a, env), eval_expr(b, env)),
    }
}

} // verus!
