//! The dual-number core type and its operator layer.
//!
//! A [`DualNum`] is an ordered pair of scalars: the primal value and the
//! tangent. The tangent carries the exact first derivative of the
//! represented quantity with respect to the single differentiation
//! parameter that seeded the computation, and every operation here
//! propagates it by the matching derivative rule.
//!
//! Each operation has a specification-level counterpart (`spec_add`,
//! `spec_mul`, ...) that writes out the rule over the scalar's own
//! specification-level arithmetic; the executable operation's contract
//! says it returns exactly that. The derivative rules themselves are
//! stated once more, as standalone lemmas, in [`crate::laws`].

use vstd::prelude::*;

use crate::algebra::One;
use crate::algebra::PseudoField;
use crate::algebra::Zero;

verus! {

/// A dual number: the primal value first, the tangent second.
///
/// Immutable value type: every operation returns a new dual number and
/// mutates neither operand.
#[derive(Clone, Copy, Debug)]
pub struct DualNum<T>(pub T, pub T);

impl<T> DualNum<T> {
    /// The primal (value) component.
    pub fn primal(self) -> (r: T)
        ensures
            r == self.0,
    {
        self.0
    }

    /// The tangent (derivative) component.
    pub fn dual(self) -> (r: T)
        ensures
            r == self.1,
    {
        self.1
    }
}

impl<T: PseudoField> DualNum<T> {
    /// What `constant` returns: the value with a zero tangent.
    pub open spec fn spec_constant(value: T) -> DualNum<T> {
        DualNum(value, T::zero_spec())
    }

    /// What `param` returns: the value with a unit tangent.
    pub open spec fn spec_param(value: T) -> DualNum<T> {
        DualNum(value, T::one_spec())
    }

    /// What negation returns: both components negated (linearity).
    pub open spec fn spec_neg(self) -> DualNum<T> {
        DualNum(self.0.neg_spec(), self.1.neg_spec())
    }

    /// What adding a bare scalar returns: a constant has zero sensitivity,
    /// so the tangent is unchanged.
    pub open spec fn spec_add_scalar(self, rhs: T) -> DualNum<T> {
        DualNum(self.0.add_spec(rhs), self.1)
    }

    /// What dual addition returns: componentwise sums (sum rule).
    pub open spec fn spec_add(self, rhs: DualNum<T>) -> DualNum<T> {
        DualNum(self.0.add_spec(rhs.0), self.1.add_spec(rhs.1))
    }

    /// What subtracting a bare scalar returns.
    pub open spec fn spec_sub_scalar(self, rhs: T) -> DualNum<T> {
        DualNum(self.0.sub_spec(rhs), self.1)
    }

    /// What dual subtraction returns: componentwise differences.
    pub open spec fn spec_sub(self, rhs: DualNum<T>) -> DualNum<T> {
        DualNum(self.0.sub_spec(rhs.0), self.1.sub_spec(rhs.1))
    }

    /// What multiplying by a bare scalar returns: both components scaled.
    pub open spec fn spec_mul_scalar(self, rhs: T) -> DualNum<T> {
        DualNum(self.0.mul_spec(rhs), self.1.mul_spec(rhs))
    }

    /// What dual multiplication returns: the product rule,
    /// `(x, x') * (y, y') == (x * y, x' * y + x * y')`.
    pub open spec fn spec_mul(self, rhs: DualNum<T>) -> DualNum<T> {
        DualNum(
            self.0.mul_spec(rhs.0),
            self.1.mul_spec(rhs.0).add_spec(self.0.mul_spec(rhs.1)),
        )
    }

    /// What dividing by a bare scalar returns: both components divided.
    pub open spec fn spec_div_scalar(self, rhs: T) -> DualNum<T> {
        DualNum(self.0.div_spec(rhs), self.1.div_spec(rhs))
    }

    /// What dual division returns: the quotient rule,
    /// `(x, x') / (y, y') == (x / y, (x' * y - x * y') / (y * y))`.
    pub open spec fn spec_div(self, rhs: DualNum<T>) -> DualNum<T> {
        DualNum(
            self.0.div_spec(rhs.0),
            self.1.mul_spec(rhs.0).sub_spec(self.0.mul_spec(rhs.1)).div_spec(
                rhs.0.mul_spec(rhs.0),
            ),
        )
    }

    /// What the reciprocal returns: the additive identity, as a constant,
    /// divided by `self` through the dual division operator.
    pub open spec fn spec_reciprocal(self) -> DualNum<T> {
        Self::spec_constant(T::zero_spec()).spec_div(self)
    }

    /// Wraps a value with zero sensitivity to the differentiation
    /// parameter.
    pub fn constant(value: T) -> (r: DualNum<T>)
        ensures
            r == Self::spec_constant(value),
    {
        DualNum(value, T::zero())
    }

    /// Wraps the differentiation parameter itself: its derivative with
    /// respect to itself is one.
    pub fn param(value: T) -> (r: DualNum<T>)
        ensures
            r == Self::spec_param(value),
    {
        DualNum(value, T::one())
    }

    /// Negates a dual number.
    pub fn neg(self) -> (r: DualNum<T>)
        ensures
            r == self.spec_neg(),
    {
        DualNum(self.0.neg(), self.1.neg())
    }

    /// Adds a bare scalar to a dual number.
    pub fn add_scalar(self, rhs: T) -> (r: DualNum<T>)
        ensures
            r == self.spec_add_scalar(rhs),
    {
        DualNum(self.0.add(rhs), self.1)
    }

    /// Adds two dual numbers.
    pub fn add(self, rhs: DualNum<T>) -> (r: DualNum<T>)
        ensures
            r == self.spec_add(rhs),
    {
        DualNum(self.0.add(rhs.0), self.1.add(rhs.1))
    }

    /// Subtracts a bare scalar from a dual number.
    pub fn sub_scalar(self, rhs: T) -> (r: DualNum<T>)
        ensures
            r == self.spec_sub_scalar(rhs),
    {
        DualNum(self.0.sub(rhs), self.1)
    }

    /// Subtracts two dual numbers.
    pub fn sub(self, rhs: DualNum<T>) -> (r: DualNum<T>)
        ensures
            r == self.spec_sub(rhs),
    {
        DualNum(self.0.sub(rhs.0), self.1.sub(rhs.1))
    }

    /// Multiplies a dual number by a bare scalar.
    pub fn mul_scalar(self, rhs: T) -> (r: DualNum<T>)
        ensures
            r == self.spec_mul_scalar(rhs),
    {
        DualNum(self.0.mul(rhs), self.1.mul(rhs))
    }

    /// Multiplies two dual numbers by the product rule.
    pub fn mul(self, rhs: DualNum<T>) -> (r: DualNum<T>)
        ensures
            r == self.spec_mul(rhs),
    {
        DualNum(self.0.mul(rhs.0), self.1.mul(rhs.0).add(self.0.mul(rhs.1)))
    }

    /// Divides a dual number by a bare scalar.
    pub fn div_scalar(self, rhs: T) -> (r: DualNum<T>)
        requires
            rhs.divisor_ok(),
        ensures
            r == self.spec_div_scalar(rhs),
    {
        DualNum(self.0.div(rhs), self.1.div(rhs))
    }

    /// Divides two dual numbers by the quotient rule.
    ///
    /// The divisor's primal must be accepted as a divisor by the scalar,
    /// and so must its square, which the quotient rule divides by. A
    /// floating-point scalar accepts every divisor; an exact scalar
    /// accepts the nonzero ones.
    pub fn div(self, rhs: DualNum<T>) -> (r: DualNum<T>)
        requires
            rhs.0.divisor_ok(),
            rhs.0.mul_spec(rhs.0).divisor_ok(),
        ensures
            r == self.spec_div(rhs),
    {
        DualNum(
            self.0.div(rhs.0),
            self.1.mul(rhs.0).sub(self.0.mul(rhs.1)).div(rhs.0.mul(rhs.0)),
        )
    }

    /// The reciprocal: the additive identity, wrapped as a constant, divided
    /// by `self` through the dual division operator.
    pub fn reciprocal(self) -> (r: DualNum<T>)
        requires
            self.0.divisor_ok(),
            self.0.mul_spec(self.0).divisor_ok(),
        ensures
            r == self.spec_reciprocal(),
    {
        DualNum::constant(T::zero()).div(self)
    }

    /// Applies the chain rule: given the primal result `y = f(x)` and the
    /// local derivative `dy = f'(x)` of an elementary function at this
    /// dual number's primal, returns `f` of this dual number.
    ///
    /// This is the extension point of the elementary-function layer: a new
    /// function joins the catalog by computing its own `(y, dy)` on the
    /// scalar and handing them here, with no change to the core type.
    pub fn chain(self, y: T, dy: T) -> (r: DualNum<T>)
        ensures
            r.0 == y,
            r.1 == dy.mul_spec(self.1),
    {
        DualNum(y, dy.mul(self.1))
    }
}

/// The catalog of elementary functions over dual numbers.
///
/// Each implementation is expected to follow the chain-rule pattern of
/// [`DualNum::chain`]: compute the primal result `y = f(x)` with the
/// scalar's native elementary function, compute the local derivative
/// `dy = f'(x)` analytically in closed form, and let `chain` produce the
/// result tangent `dy * x'`. The catalog is open: inverse trigonometric
/// and hyperbolic variants are anticipated additions.
pub trait DualNumExt<T> {
    /// Square root; local derivative `0.5 / sqrt(x)`.
    fn sqrt(self) -> DualNum<T>;

    /// Natural exponential; local derivative `exp(x)` itself.
    fn exp(self) -> DualNum<T>;

    /// Base-two exponential; local derivative `ln(2) * exp2(x)`.
    fn exp2(self) -> DualNum<T>;

    /// Natural logarithm; local derivative `1 / x`.
    fn ln(self) -> DualNum<T>;

    /// Base-two logarithm; local derivative `1 / (ln(2) * x)`.
    fn log2(self) -> DualNum<T>;

    /// Base-ten logarithm; local derivative `1 / (ln(10) * x)`.
    fn log10(self) -> DualNum<T>;

    /// Sine; local derivative `cos(x)`.
    fn sin(self) -> DualNum<T>;

    /// Cosine; local derivative `-sin(x)`.
    fn cos(self) -> DualNum<T>;

    /// Tangent; local derivative `1 / cos(x)^2`.
    fn tan(self) -> DualNum<T>;
}

} // verus!
