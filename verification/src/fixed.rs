//! Fixed-point arithmetic helpers.
//!
//! The simulation stores world quantities as `i64` milli-units. Scaling a
//! value by a ratio divides, and the division rounds toward zero, as the
//! hardware division of the signed machine integers would. `qdiv` is that
//! rounding as a mathematical function; `div_trunc` computes it.

use vstd::prelude::*;
use vstd::arithmetic::div_mod::{
    lemma_div_is_ordered, lemma_div_nonincreasing, lemma_div_pos_is_pos,
};

verus! {

/// Quotient of `a` by a positive divisor `d`, rounded toward zero.
pub open spec fn qdiv(a: int, d: int) -> int {
    if a >= 0 {
        a / d
    } else {
        -((-a) / d)
    }
}

/// `qdiv` never grows a value: the quotient stays between zero and `a`.
pub proof fn lemma_qdiv_bounds(a: int, d: int)
    requires
        d >= 1,
    ensures
        a >= 0 ==> 0 <= qdiv(a, d) <= a,
        a < 0 ==> a <= qdiv(a, d) <= 0,
{
    if a >= 0 {
        lemma_div_pos_is_pos(a, d);
        lemma_div_nonincreasing(a, d);
    } else {
        lemma_div_pos_is_pos(-a, d);
        lemma_div_nonincreasing(-a, d);
    }
}

/// A bound on the dividend gives a bound on the truncated quotient.
pub proof fn lemma_qdiv_mag(a: int, m: int, d: int)
    requires
        d >= 1,
        -m <= a <= m,
    ensures
        -(m / d) <= qdiv(a, d) <= m / d,
{
    if a >= 0 {
        lemma_div_pos_is_pos(a, d);
        lemma_div_is_ordered(a, m, d);
    } else {
        lemma_div_pos_is_pos(-a, d);
        lemma_div_is_ordered(-a, m, d);
    }
}

/// Division of `a` by a positive divisor `d`, rounded toward zero.
pub fn div_trunc(a: i64, d: i64) -> (r: i64)
    requires
        1 <= d,
        a > i64::MIN,
    ensures
        r == qdiv(a as int, d as int),
{
    proof {
        lemma_qdiv_bounds(a as int, d as int);
    }
    if a >= 0 {
        ((a as u64) / (d as u64)) as i64
    } else {
        let m: u64 = (-a) as u64;
        -((m / (d as u64)) as i64)
    }
}

} // verus!
