//! The derivative rules of the operator layer, stated as standalone laws.
//!
//! Each lemma quantifies over every dual number (and scalar) of any
//! [`PseudoField`] scalar and states a rule over the specification-level
//! operations of [`DualNum`]; the executable operations' own contracts tie
//! their results to those operations, so each law carries over to what the
//! executable layer computes.

use vstd::prelude::*;

use crate::algebra::One;
use crate::algebra::PseudoField;
use crate::algebra::Zero;
use crate::dual::DualNum;

verus! {

/// Identity seeding: a constant carries a zero tangent, a parameter a unit
/// tangent, and both carry the given value as their primal.
pub proof fn lemma_identity_seeding<T: PseudoField>(v: T)
    ensures
        DualNum::spec_constant(v).0 == v,
        DualNum::spec_constant(v).1 == T::zero_spec(),
        DualNum::spec_param(v).0 == v,
        DualNum::spec_param(v).1 == T::one_spec(),
{
}

/// Linearity of the sum rule: the tangent of a sum of duals is the sum of
/// their tangents.
pub proof fn lemma_sum_linearity<T: PseudoField>(a: DualNum<T>, b: DualNum<T>)
    ensures
        a.spec_add(b).1 == a.1.add_spec(b.1),
{
}

/// Linearity of scalar scaling: the tangent of a dual scaled by a bare
/// scalar is the tangent scaled by that scalar.
pub proof fn lemma_scaling_linearity<T: PseudoField>(a: DualNum<T>, c: T)
    ensures
        a.spec_mul_scalar(c).1 == a.1.mul_spec(c),
{
}

/// The product rule: for duals `(x, x')` and `(y, y')`, the product's
/// primal is `x * y` and its tangent is `x' * y + x * y'`.
pub proof fn lemma_product_rule<T: PseudoField>(a: DualNum<T>, b: DualNum<T>)
    ensures
        a.spec_mul(b).0 == a.0.mul_spec(b.0),
        a.spec_mul(b).1 == a.1.mul_spec(b.0).add_spec(a.0.mul_spec(b.1)),
{
}

/// The quotient rule: for duals `(x, x')` and `(y, y')` with nonzero `y`,
/// the quotient's primal is `x / y` and its tangent is
/// `(x' * y - x * y') / (y * y)`.
pub proof fn lemma_quotient_rule<T: PseudoField>(a: DualNum<T>, b: DualNum<T>)
    requires
        b.0 != T::zero_spec(),
    ensures
        a.spec_div(b).0 == a.0.div_spec(b.0),
        a.spec_div(b).1 == a.1.mul_spec(b.0).sub_spec(a.0.mul_spec(b.1)).div_spec(
            b.0.mul_spec(b.0),
        ),
{
}

/// Reciprocal consistency: for a dual with nonzero primal, the reciprocal
/// is the additive identity, wrapped as a constant, divided by the dual
/// through the division operator.
pub proof fn lemma_reciprocal_consistency<T: PseudoField>(a: DualNum<T>)
    requires
        a.0 != T::zero_spec(),
    ensures
        a.spec_reciprocal() == DualNum::spec_constant(T::zero_spec()).spec_div(a),
{
}

/// Scalar/dual equivalence: adding a bare scalar agrees, in both
/// components, with adding the same scalar wrapped as a constant.
pub proof fn lemma_scalar_dual_add_agree<T: PseudoField>(a: DualNum<T>, c: T)
    ensures
        a.spec_add_scalar(c) == a.spec_add(DualNum::spec_constant(c)),
{
    a.1.lemma_add_zero();
}

} // verus!
