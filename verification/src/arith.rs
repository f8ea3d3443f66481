//! Facts about division that the rest of the library leans on.

use vstd::prelude::*;
use vstd::arithmetic::div_mod::{lemma_fundamental_div_mod, lemma_mod_pos_bound};
use vstd::arithmetic::mul::{
    lemma_mul_inequality, lemma_mul_is_commutative, lemma_mul_is_distributive_add_other_way,
};

verus! {

/// The quotient times the divisor is the largest multiple below the dividend.
pub proof fn lemma_div_bounds(x: nat, d: nat)
    requires
        d > 0,
    ensures
        (x / d) * d <= x < (x / d) * d + d,
{
    lemma_fundamental_div_mod(x as int, d as int);
    lemma_mod_pos_bound(x as int, d as int);
    lemma_mul_is_commutative(d as int, (x / d) as int);
}

/// A number between `k * d` and the next multiple has quotient `k`.
pub proof fn lemma_div_from_bounds(x: nat, d: nat, k: nat)
    requires
        d > 0,
        k * d <= x < k * d + d,
    ensures
        x / d == k,
{
    lemma_div_bounds(x, d);
    let q = x / d;
    if q < k {
        lemma_mul_inequality((q + 1) as int, k as int, d as int);
        lemma_mul_is_distributive_add_other_way(d as int, q as int, 1);
    } else if q > k {
        lemma_mul_inequality((k + 1) as int, q as int, d as int);
        lemma_mul_is_distributive_add_other_way(d as int, k as int, 1);
    }
}

/// The least number of `d`s that cover `x`.
pub open spec fn ceil_div(x: nat, d: nat) -> nat
    recommends
        d > 0,
{
    ((x + d - 1) / d as int) as nat
}

/// `ceil_div(x, d)` is the least `n` with `x <= n * d`.
pub proof fn lemma_ceil_div(x: nat, d: nat)
    requires
        d > 0,
    ensures
        x <= ceil_div(x, d) * d < x + d,
{
    lemma_div_bounds((x + d - 1) as nat, d);
}

/// Any `n` with `x <= n * d < x + d` is `ceil_div(x, d)`.
pub proof fn lemma_ceil_div_from_bounds(x: nat, d: nat, n: nat)
    requires
        d > 0,
        x <= n * d < x + d,
    ensures
        ceil_div(x, d) == n,
{
    lemma_div_from_bounds((x + d - 1) as nat, d, n);
}

} // verus!
