//! A concrete scalar with exact field semantics: the two-element field.
//!
//! [`Gf2`] holds a single bit; addition and subtraction are exclusive or,
//! multiplication is conjunction, and every element is its own negation.
//! The only nonzero element is its own inverse, so division by it is the
//! identity. Being exact, it discharges the [`Field`] obligations that an
//! approximate scalar cannot, and it gives the generic dual-number layer a
//! scalar that is verified end to end.

use vstd::prelude::*;

use crate::algebra::Field;
use crate::algebra::One;
use crate::algebra::PseudoField;
use crate::algebra::Zero;

verus! {

/// An element of the two-element field, carried as one bit.
#[derive(Clone, Copy, Debug, PartialEq, Eq, Structural)]
pub struct Gf2(pub bool);

impl Zero for Gf2 {
    open spec fn zero_spec() -> Gf2 {
        Gf2(false)
    }

    fn zero() -> Gf2 {
        Gf2(false)
    }
}

impl One for Gf2 {
    open spec fn one_spec() -> Gf2 {
        Gf2(true)
    }

    fn one() -> Gf2 {
        Gf2(true)
    }
}

impl PseudoField for Gf2 {
    open spec fn neg_spec(self) -> Gf2 {
        self
    }

    open spec fn add_spec(self, rhs: Gf2) -> Gf2 {
        Gf2(self.0 != rhs.0)
    }

    open spec fn sub_spec(self, rhs: Gf2) -> Gf2 {
        Gf2(self.0 != rhs.0)
    }

    open spec fn mul_spec(self, rhs: Gf2) -> Gf2 {
        Gf2(self.0 && rhs.0)
    }

    open spec fn div_spec(self, rhs: Gf2) -> Gf2 {
        if rhs.0 {
            self
        } else {
            Gf2(false)
        }
    }

    open spec fn divisor_ok(self) -> bool {
        self.0
    }

    fn neg(self) -> Gf2 {
        self
    }

    fn add(self, rhs: Gf2) -> Gf2 {
        Gf2(self.0 != rhs.0)
    }

    fn sub(self, rhs: Gf2) -> Gf2 {
        Gf2(self.0 != rhs.0)
    }

    fn mul(self, rhs: Gf2) -> Gf2 {
        Gf2(self.0 && rhs.0)
    }

    fn div(self, rhs: Gf2) -> Gf2 {
        self
    }

    proof fn lemma_add_zero(self) {
    }

    proof fn lemma_mul_one(self) {
    }
}

impl Field for Gf2 {
    proof fn lemma_nonzero_divisor_ok(self) {
    }

    proof fn lemma_div_exact(self, rhs: Gf2) {
    }
}

} // verus!
