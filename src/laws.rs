//! Algebraic laws of the integer vector operators, stated over the
//! specifications that the operators themselves carry.
use vstd::prelude::*;
use vstd::std_specs::ops::{AddSpec, DivSpec, MulSpec, NegSpec, SubSpec};

use crate::vector::{dot_req, dot_spec, Vector2};

verus! {

/// Subtracting either summand from a sum of integer vectors gives back the
/// other summand: `(a + b) - a == b` and `(a + b) - b == a`.
pub proof fn lemma_add_sub_inverse(a: Vector2<i32>, b: Vector2<i32>)
    requires
        a.add_req(b),
    ensures
        a.add_spec(b).sub_req(a),
        a.add_spec(b).sub_spec(a) == b,
        a.add_spec(b).sub_req(b),
        a.add_spec(b).sub_spec(b) == a,
{
}

/// Negating an integer vector twice gives it back: `-(-v) == v`.
pub proof fn lemma_neg_involutive(v: Vector2<i32>)
    requires
        v.neg_req(),
    ensures
        v.neg_spec().neg_req(),
        v.neg_spec().neg_spec() == v,
{
}

proof fn lemma_mul_div_cancel(a: i32, s: i32)
    requires
        s != 0,
        a.mul_req(s),
    ensures
        a.mul_spec(s).div_req(s),
        a.mul_spec(s).div_spec(s) == a,
{
    let p = a as int * s as int;
    assert(a.mul_spec(s) as int == p);
    if p >= 0 {
        assert(p / (s as int) == a as int) by (nonlinear_arith)
            requires p == a as int * s as int, s != 0;
    } else {
        assert((-p) / (s as int) == -(a as int)) by (nonlinear_arith)
            requires p == a as int * s as int, s != 0;
    }
}

/// Multiplying an integer vector by a nonzero scalar and dividing the
/// product by the same scalar gives the vector back: `(a * s) / s == a`.
pub proof fn lemma_mul_div_round_trip(a: Vector2<i32>, s: i32)
    requires
        s != 0,
        a.mul_req(s),
    ensures
        a.mul_spec(s).div_req(s),
        a.mul_spec(s).div_spec(s) == a,
{
    lemma_mul_div_cancel(a.x, s);
    lemma_mul_div_cancel(a.y, s);
}

/// The dot product of integer vectors does not depend on the order of its
/// operands.
pub proof fn lemma_dot_commutative(a: Vector2<i32>, b: Vector2<i32>)
    requires
        dot_req(a, b),
    ensures
        dot_req(b, a),
        dot_spec::<i32, i32, i32>(a, b) == dot_spec::<i32, i32, i32>(b, a),
{
    assert(a.x as int * b.x as int == b.x as int * a.x as int) by (nonlinear_arith);
    assert(a.y as int * b.y as int == b.y as int * a.y as int) by (nonlinear_arith);
}

/// The squared length of an integer vector is never negative.
pub proof fn lemma_magnitude_squared_nonnegative(v: Vector2<i32>)
    requires
        dot_req(v, v),
    ensures
        dot_spec::<i32, i32, i32>(v, v) >= 0,
{
    assert(v.x as int * v.x as int >= 0) by (nonlinear_arith);
    assert(v.y as int * v.y as int >= 0) by (nonlinear_arith);
}

} // verus!
