//! Forward-mode automatic differentiation over dual numbers.
//!
//! A dual number pairs a primal value with a tangent: the exact first
//! derivative of the represented quantity with respect to the one
//! differentiation parameter that seeded the computation. Every operator
//! propagates that tangent by the matching derivative rule (linearity,
//! product rule, quotient rule), and elementary functions extend the
//! catalog through the chain rule.
//!
//! The scalar sitting inside a dual number is abstract: any type that
//! implements the algebraic trait hierarchy of [`algebra`] can be wrapped.
//! [`algebra::PseudoField`] asks only that the arithmetic operations be
//! defined; [`algebra::Field`] additionally demands exact inverses for
//! nonzero elements.

pub mod algebra;
pub mod dual;
pub mod laws;
pub mod scalars;

pub use algebra::Field;
pub use algebra::One;
pub use algebra::PseudoField;
pub use algebra::Zero;
pub use dual::DualNum;
pub use dual::DualNumExt;
pub use scalars::Gf2;
