//! The operator layer, exercised over the exact two-element scalar.

use dualnum::DualNum;
use dualnum::Gf2;
use dualnum::One;
use dualnum::PseudoField;
use dualnum::Zero;

const ELEMS: [bool; 2] = [false, true];

#[test]
fn identity_constructors() {
    assert_eq!(<Gf2 as Zero>::zero(), Gf2(false));
    assert_eq!(<Gf2 as One>::one(), Gf2(true));
    assert_eq!(Gf2(true).neg(), Gf2(true));
    assert_eq!(Gf2(true).add(Gf2(true)), Gf2(false));
    assert_eq!(Gf2(true).mul(Gf2(true)), Gf2(true));
    assert_eq!(Gf2(false).div(Gf2(true)), Gf2(false));
}

#[test]
fn constant_has_zero_tangent() {
    for v in ELEMS {
        let d = DualNum::constant(Gf2(v));
        assert_eq!(d.primal(), Gf2(v));
        assert_eq!(d.dual(), Gf2(false));
    }
}

#[test]
fn param_has_unit_tangent() {
    for v in ELEMS {
        let d = DualNum::param(Gf2(v));
        assert_eq!(d.primal(), Gf2(v));
        assert_eq!(d.dual(), Gf2(true));
    }
}

#[test]
fn sum_rule_is_componentwise() {
    for x in ELEMS {
        for dx in ELEMS {
            for y in ELEMS {
                for dy in ELEMS {
                    let a = DualNum(Gf2(x), Gf2(dx));
                    let b = DualNum(Gf2(y), Gf2(dy));
                    let s = a.add(b);
                    assert_eq!(s.primal(), Gf2(x).add(Gf2(y)));
                    assert_eq!(s.dual(), a.dual().add(b.dual()));
                }
            }
        }
    }
}

#[test]
fn scalar_scaling_scales_tangent() {
    for x in ELEMS {
        for dx in ELEMS {
            for c in ELEMS {
                let a = DualNum(Gf2(x), Gf2(dx));
                let s = a.mul_scalar(Gf2(c));
                assert_eq!(s.primal(), Gf2(x && c));
                assert_eq!(s.dual(), a.dual().mul(Gf2(c)));
            }
        }
    }
}

#[test]
fn product_rule() {
    for x in ELEMS {
        for dx in ELEMS {
            for y in ELEMS {
                for dy in ELEMS {
                    let a = DualNum(Gf2(x), Gf2(dx));
                    let b = DualNum(Gf2(y), Gf2(dy));
                    let p = a.mul(b);
                    assert_eq!(p.primal(), Gf2(x && y));
                    assert_eq!(p.dual(), Gf2((dx && y) != (x && dy)));
                }
            }
        }
    }
}

#[test]
fn quotient_rule_by_nonzero() {
    for x in ELEMS {
        for dx in ELEMS {
            for dy in ELEMS {
                let a = DualNum(Gf2(x), Gf2(dx));
                let b = DualNum(Gf2(true), Gf2(dy));
                let q = a.div(b);
                assert_eq!(q.primal(), Gf2(x));
                assert_eq!(q.dual(), Gf2(dx != (x && dy)));
            }
        }
    }
}

#[test]
fn negation_and_subtraction() {
    for x in ELEMS {
        for dx in ELEMS {
            for y in ELEMS {
                for dy in ELEMS {
                    let a = DualNum(Gf2(x), Gf2(dx));
                    let b = DualNum(Gf2(y), Gf2(dy));
                    // every element of the two-element field is its own negation
                    let n = a.neg();
                    assert_eq!(n.primal(), Gf2(x));
                    assert_eq!(n.dual(), Gf2(dx));
                    let d = a.sub(b);
                    assert_eq!(d.primal(), Gf2(x != y));
                    assert_eq!(d.dual(), Gf2(dx != dy));
                }
            }
        }
    }
}

#[test]
fn reciprocal_matches_division() {
    for dx in ELEMS {
        let a = DualNum(Gf2(true), Gf2(dx));
        let r = a.reciprocal();
        let independent = DualNum::constant(Gf2(false)).div(a);
        assert_eq!(r.primal(), independent.primal());
        assert_eq!(r.dual(), independent.dual());
    }
}

#[test]
fn scalar_add_agrees_with_constant_add() {
    for x in ELEMS {
        for dx in ELEMS {
            for c in ELEMS {
                let a = DualNum(Gf2(x), Gf2(dx));
                let lhs = a.add_scalar(Gf2(c));
                let rhs = a.add(DualNum::constant(Gf2(c)));
                assert_eq!(lhs.primal(), rhs.primal());
                assert_eq!(lhs.dual(), rhs.dual());
            }
        }
    }
}

#[test]
fn scalar_sub_and_div_keep_components() {
    for x in ELEMS {
        for dx in ELEMS {
            let a = DualNum(Gf2(x), Gf2(dx));
            let s = a.sub_scalar(Gf2(true));
            assert_eq!(s.primal(), Gf2(!x));
            assert_eq!(s.dual(), Gf2(dx));
            let d = a.div_scalar(Gf2(true));
            assert_eq!(d.primal(), Gf2(x));
            assert_eq!(d.dual(), Gf2(dx));
        }
    }
}

#[test]
fn chain_applies_local_derivative() {
    for x in ELEMS {
        for dx in ELEMS {
            for y in ELEMS {
                for dy in ELEMS {
                    let a = DualNum(Gf2(x), Gf2(dx));
                    let c = a.chain(Gf2(y), Gf2(dy));
                    assert_eq!(c.primal(), Gf2(y));
                    assert_eq!(c.dual(), Gf2(dy && dx));
                }
            }
        }
    }
}
