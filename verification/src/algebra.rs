//! The algebraic trait hierarchy that a scalar must satisfy before it can
//! sit inside a dual number.
//!
//! Three tiers: [`Zero`] and [`One`] supply the additive and multiplicative
//! identities; [`PseudoField`] supplies the arithmetic operations over those
//! identities, for types whose division is defined but need not be exact
//! (floating point divides approximately, and by zero to a sentinel);
//! [`Field`] strengthens that to exact field semantics, where every nonzero
//! element may stand as a divisor and multiplication undoes division.
//!
//! Each operation comes as a pair: a specification-level function that names
//! the result, and an executable method whose contract ties it to that name.
//! Dual-number contracts are stated over the specification-level functions,
//! so they hold for every scalar that implements the hierarchy.

use vstd::prelude::*;

verus! {

/// A scalar type with an additive identity.
pub trait Zero: Sized {
    /// The additive identity, at the specification level.
    spec fn zero_spec() -> Self;

    /// Constructs the additive identity.
    fn zero() -> (r: Self)
        ensures
            r == Self::zero_spec(),
    ;
}

/// A scalar type with a multiplicative identity.
pub trait One: Sized {
    /// The multiplicative identity, at the specification level.
    spec fn one_spec() -> Self;

    /// Constructs the multiplicative identity.
    fn one() -> (r: Self)
        ensures
            r == Self::one_spec(),
    ;
}

/// A scalar able to carry dual-number arithmetic: negation, addition,
/// subtraction, multiplication and division, with both identities.
///
/// Division need not be exact and need not be total: `divisor_ok` says
/// which values the concrete scalar accepts as a divisor. A floating-point
/// scalar accepts every divisor (zero divides to an infinity or a NaN
/// sentinel); an exact scalar typically accepts the nonzero ones and is
/// expected to implement [`Field`] as well.
///
/// The two lemma obligations pin down that `zero_spec` and `one_spec`
/// really are identities of the implementing type's arithmetic.
pub trait PseudoField: Zero + One + Copy {
    /// What negation returns.
    spec fn neg_spec(self) -> Self;

    /// What addition returns.
    spec fn add_spec(self, rhs: Self) -> Self;

    /// What subtraction returns.
    spec fn sub_spec(self, rhs: Self) -> Self;

    /// What multiplication returns.
    spec fn mul_spec(self, rhs: Self) -> Self;

    /// What division returns, where `rhs.divisor_ok()` holds.
    spec fn div_spec(self, rhs: Self) -> Self;

    /// Whether this value may stand as a divisor.
    spec fn divisor_ok(self) -> bool;

    /// Negates the scalar.
    fn neg(self) -> (r: Self)
        ensures
            r == self.neg_spec(),
    ;

    /// Adds two scalars.
    fn add(self, rhs: Self) -> (r: Self)
        ensures
            r == self.add_spec(rhs),
    ;

    /// Subtracts `rhs` from `self`.
    fn sub(self, rhs: Self) -> (r: Self)
        ensures
            r == self.sub_spec(rhs),
    ;

    /// Multiplies two scalars.
    fn mul(self, rhs: Self) -> (r: Self)
        ensures
            r == self.mul_spec(rhs),
    ;

    /// Divides `self` by `rhs`.
    fn div(self, rhs: Self) -> (r: Self)
        requires
            rhs.divisor_ok(),
        ensures
            r == self.div_spec(rhs),
    ;

    /// The additive identity is a right identity of addition.
    proof fn lemma_add_zero(self)
        ensures
            self.add_spec(Self::zero_spec()) == self,
    ;

    /// The multiplicative identity is a right identity of multiplication.
    proof fn lemma_mul_one(self)
        ensures
            self.mul_spec(Self::one_spec()) == self,
    ;
}

/// A scalar with exact field semantics.
///
/// Beyond [`PseudoField`], every nonzero element may stand as a divisor,
/// and division by a nonzero element is exactly undone by multiplication.
/// Approximate scalars such as floating point must stay at the
/// [`PseudoField`] tier: their division rounds, so the exactness obligation
/// cannot be met.
pub trait Field: PseudoField {
    /// Every nonzero element may stand as a divisor.
    proof fn lemma_nonzero_divisor_ok(self)
        requires
            self != Self::zero_spec(),
        ensures
            self.divisor_ok(),
    ;

    /// Multiplication exactly undoes division by a nonzero element.
    proof fn lemma_div_exact(self, rhs: Self)
        requires
            rhs != Self::zero_spec(),
        ensures
            self.div_spec(rhs).mul_spec(rhs) == self,
    ;
}

} // verus!
