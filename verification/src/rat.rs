//! Exact rational scalars: the coefficient field of the quaternion algebra.
//!
//! A scalar is an integer numerator over a nonzero integer denominator.
//! Fractions are never reduced; two scalars denote the same rational number
//! exactly when they cross-multiply equally (`rv_eq`). Every arithmetic
//! operation is exact, so the algebraic identities of the field hold with no
//! tolerance.

use vstd::arithmetic::mul::lemma_mul_nonzero;
use vstd::prelude::*;

verus! {

/// Mathematical view of a scalar: an unbounded integer numerator over an
/// unbounded integer denominator.
pub ghost struct RatV {
    pub n: int,
    pub d: int,
}

/// A well-formed scalar has a nonzero denominator.
pub open spec fn rv_wf(a: RatV) -> bool {
    a.d != 0
}

/// Value equality: `a.n / a.d == b.n / b.d` exactly when the cross products
/// agree. This is the equality all algebraic laws are stated with.
pub open spec fn rv_eq(a: RatV, b: RatV) -> bool {
    a.n * b.d == b.n * a.d
}

/// The rational holding the integer `n`.
pub open spec fn rv_int(n: int) -> RatV {
    RatV { n: n, d: 1 }
}

pub open spec fn rv_add(a: RatV, b: RatV) -> RatV {
    RatV { n: a.n * b.d + b.n * a.d, d: a.d * b.d }
}

pub open spec fn rv_sub(a: RatV, b: RatV) -> RatV {
    RatV { n: a.n * b.d - b.n * a.d, d: a.d * b.d }
}

pub open spec fn rv_mul(a: RatV, b: RatV) -> RatV {
    RatV { n: a.n * b.n, d: a.d * b.d }
}

pub open spec fn rv_div(a: RatV, b: RatV) -> RatV {
    RatV { n: a.n * b.d, d: a.d * b.n }
}

pub open spec fn rv_neg(a: RatV) -> RatV {
    RatV { n: -a.n, d: a.d }
}

/// Whether a mathematical integer fits the machine scalar type.
pub open spec fn fits(x: int) -> bool {
    i128::MIN <= x <= i128::MAX
}

pub open spec fn rv_fits(a: RatV) -> bool {
    fits(a.n) && fits(a.d)
}

/// Every product formed while computing `rv_add(a, b)` fits the machine type.
pub open spec fn rv_add_fits(a: RatV, b: RatV) -> bool {
    fits(a.n * b.d) && fits(b.n * a.d) && rv_fits(rv_add(a, b))
}

/// Every product formed while computing `rv_sub(a, b)` fits the machine type.
pub open spec fn rv_sub_fits(a: RatV, b: RatV) -> bool {
    fits(a.n * b.d) && fits(b.n * a.d) && rv_fits(rv_sub(a, b))
}

pub open spec fn rv_mul_fits(a: RatV, b: RatV) -> bool {
    rv_fits(rv_mul(a, b))
}

pub open spec fn rv_div_fits(a: RatV, b: RatV) -> bool {
    rv_fits(rv_div(a, b))
}

pub open spec fn rv_neg_fits(a: RatV) -> bool {
    fits(-a.n)
}

/// Both cross products of `rv_eq(a, b)` fit the machine type.
pub open spec fn rv_eq_fits(a: RatV, b: RatV) -> bool {
    fits(a.n * b.d) && fits(b.n * a.d)
}

/// An exact rational scalar. The denominator is kept nonzero (`wf`); the
/// fraction is not reduced, and value equality is `equals`, not `==` on the
/// fields.
#[derive(Clone, Copy, Debug)]
pub struct Rat {
    pub n: i128,
    pub d: i128,
}

impl View for Rat {
    type V = RatV;

    open spec fn view(&self) -> RatV {
        RatV { n: self.n as int, d: self.d as int }
    }
}

impl Rat {
    /// Well-formedness: the denominator is nonzero.
    pub open spec fn wf(&self) -> bool {
        rv_wf(self@)
    }

    /// The rational `n / d`.
    pub fn new(n: i128, d: i128) -> (r: Rat)
        requires
            d != 0,
        ensures
            r@ == (RatV { n: n as int, d: d as int }),
            r.wf(),
    {
        Rat { n, d }
    }

    /// The rational holding the integer `n`.
    pub fn from_int(n: i128) -> (r: Rat)
        ensures
            r@ == rv_int(n as int),
            r.wf(),
    {
        Rat { n, d: 1 }
    }

    /// Exact sum.
    pub fn add(&self, other: &Rat) -> (r: Rat)
        requires
            self.wf(),
            other.wf(),
            rv_add_fits(self@, other@),
        ensures
            r@ == rv_add(self@, other@),
            r.wf(),
    {
        proof {
            lemma_mul_nonzero(self@.d, other@.d);
        }
        Rat { n: self.n * other.d + other.n * self.d, d: self.d * other.d }
    }

    /// Exact difference.
    pub fn sub(&self, other: &Rat) -> (r: Rat)
        requires
            self.wf(),
            other.wf(),
            rv_sub_fits(self@, other@),
        ensures
            r@ == rv_sub(self@, other@),
            r.wf(),
    {
        proof {
            lemma_mul_nonzero(self@.d, other@.d);
        }
        Rat { n: self.n * other.d - other.n * self.d, d: self.d * other.d }
    }

    /// Exact product.
    pub fn mul(&self, other: &Rat) -> (r: Rat)
        requires
            self.wf(),
            other.wf(),
            rv_mul_fits(self@, other@),
        ensures
            r@ == rv_mul(self@, other@),
            r.wf(),
    {
        proof {
            lemma_mul_nonzero(self@.d, other@.d);
        }
        Rat { n: self.n * other.n, d: self.d * other.d }
    }

    /// Exact quotient. Division by a zero-valued rational is left out: the
    /// exact field has no counterpart of the infinities a floating-point
    /// division would produce.
    pub fn div(&self, other: &Rat) -> (r: Rat)
        requires
            self.wf(),
            other.wf(),
            other@.n != 0,
            rv_div_fits(self@, other@),
        ensures
            r@ == rv_div(self@, other@),
            r.wf(),
    {
        proof {
            lemma_mul_nonzero(self@.d, other@.n);
        }
        Rat { n: self.n * other.d, d: self.d * other.n }
    }

    /// Exact negation.
    pub fn neg(&self) -> (r: Rat)
        requires
            self.wf(),
            rv_neg_fits(self@),
        ensures
            r@ == rv_neg(self@),
            r.wf(),
    {
        Rat { n: -self.n, d: self.d }
    }

    /// Exact value equality, by cross multiplication.
    pub fn equals(&self, other: &Rat) -> (r: bool)
        requires
            self.wf(),
            other.wf(),
            rv_eq_fits(self@, other@),
        ensures
            r == rv_eq(self@, other@),
    {
        self.n * other.d == other.n * self.d
    }
}

} // verus!
