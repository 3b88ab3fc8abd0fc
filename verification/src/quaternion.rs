//! The quaternion type and its algebra.
//!
//! A quaternion is four rational scalars `(w, x, y, z)`: `w` is the real
//! part, `(x, y, z)` the vector part. Every operation's contract states the
//! result exactly, as a spec-level quaternion over unbounded integers; the
//! only preconditions are well-formedness (nonzero denominators), the machine
//! bounds on the exact intermediate values, and — for `inverse` and `div` —
//! a divisor of nonzero squared length, since the exact field has no
//! infinities to absorb a division by zero.

use crate::rat::fits;
use crate::rat::rv_add;
use crate::rat::rv_add_fits;
use crate::rat::rv_div;
use crate::rat::rv_div_fits;
use crate::rat::rv_eq;
use crate::rat::rv_eq_fits;
use crate::rat::rv_fits;
use crate::rat::rv_int;
use crate::rat::rv_mul;
use crate::rat::rv_mul_fits;
use crate::rat::rv_neg;
use crate::rat::rv_neg_fits;
use crate::rat::rv_sub;
use crate::rat::rv_sub_fits;
use crate::rat::rv_wf;
use crate::rat::Rat;
use crate::rat::RatV;
use vstd::prelude::*;

verus! {

/// Mathematical view of a quaternion: four rational views.
pub ghost struct QuatV {
    pub w: RatV,
    pub x: RatV,
    pub y: RatV,
    pub z: RatV,
}

pub open spec fn qv_wf(a: QuatV) -> bool {
    rv_wf(a.w) && rv_wf(a.x) && rv_wf(a.y) && rv_wf(a.z)
}

/// Component-wise value equality of quaternions.
pub open spec fn qv_eq(a: QuatV, b: QuatV) -> bool {
    rv_eq(a.w, b.w) && rv_eq(a.x, b.x) && rv_eq(a.y, b.y) && rv_eq(a.z, b.z)
}

/// The multiplicative identity `(1, 0, 0, 0)`.
pub open spec fn qv_id() -> QuatV {
    QuatV { w: rv_int(1), x: rv_int(0), y: rv_int(0), z: rv_int(0) }
}

/// The additive identity `(0, 0, 0, 0)`.
pub open spec fn qv_zero() -> QuatV {
    QuatV { w: rv_int(0), x: rv_int(0), y: rv_int(0), z: rv_int(0) }
}

/// Component-wise sum.
pub open spec fn qv_add(a: QuatV, b: QuatV) -> QuatV {
    QuatV {
        w: rv_add(a.w, b.w),
        x: rv_add(a.x, b.x),
        y: rv_add(a.y, b.y),
        z: rv_add(a.z, b.z),
    }
}

pub open spec fn qv_add_fits(a: QuatV, b: QuatV) -> bool {
    rv_add_fits(a.w, b.w) && rv_add_fits(a.x, b.x) && rv_add_fits(a.y, b.y) && rv_add_fits(
        a.z,
        b.z,
    )
}

/// Component-wise difference.
pub open spec fn qv_sub(a: QuatV, b: QuatV) -> QuatV {
    QuatV {
        w: rv_sub(a.w, b.w),
        x: rv_sub(a.x, b.x),
        y: rv_sub(a.y, b.y),
        z: rv_sub(a.z, b.z),
    }
}

pub open spec fn qv_sub_fits(a: QuatV, b: QuatV) -> bool {
    rv_sub_fits(a.w, b.w) && rv_sub_fits(a.x, b.x) && rv_sub_fits(a.y, b.y) && rv_sub_fits(
        a.z,
        b.z,
    )
}

/// Component-wise sign flip.
pub open spec fn qv_neg(a: QuatV) -> QuatV {
    QuatV { w: rv_neg(a.w), x: rv_neg(a.x), y: rv_neg(a.y), z: rv_neg(a.z) }
}

pub open spec fn qv_neg_fits(a: QuatV) -> bool {
    rv_neg_fits(a.w) && rv_neg_fits(a.x) && rv_neg_fits(a.y) && rv_neg_fits(a.z)
}

/// Component-wise scaling by the scalar `t`.
pub open spec fn qv_scale(a: QuatV, t: RatV) -> QuatV {
    QuatV { w: rv_mul(a.w, t), x: rv_mul(a.x, t), y: rv_mul(a.y, t), z: rv_mul(a.z, t) }
}

pub open spec fn qv_scale_fits(a: QuatV, t: RatV) -> bool {
    rv_mul_fits(a.w, t) && rv_mul_fits(a.x, t) && rv_mul_fits(a.y, t) && rv_mul_fits(a.z, t)
}

/// Conjugate: the vector part flips sign, the real part stays.
pub open spec fn qv_conj(a: QuatV) -> QuatV {
    QuatV { w: a.w, x: rv_neg(a.x), y: rv_neg(a.y), z: rv_neg(a.z) }
}

pub open spec fn qv_conj_fits(a: QuatV) -> bool {
    rv_neg_fits(a.x) && rv_neg_fits(a.y) && rv_neg_fits(a.z)
}

/// Dot product: `w1*w2 + x1*x2 + y1*y2 + z1*z2`, summed left to right.
pub open spec fn qv_dot(a: QuatV, b: QuatV) -> RatV {
    rv_add(
        rv_add(rv_add(rv_mul(a.w, b.w), rv_mul(a.x, b.x)), rv_mul(a.y, b.y)),
        rv_mul(a.z, b.z),
    )
}

pub open spec fn qv_dot_fits(a: QuatV, b: QuatV) -> bool {
    rv_mul_fits(a.w, b.w) && rv_mul_fits(a.x, b.x) && rv_mul_fits(a.y, b.y) && rv_mul_fits(
        a.z,
        b.z,
    ) && rv_add_fits(rv_mul(a.w, b.w), rv_mul(a.x, b.x)) && rv_add_fits(
        rv_add(rv_mul(a.w, b.w), rv_mul(a.x, b.x)),
        rv_mul(a.y, b.y),
    ) && rv_add_fits(
        rv_add(rv_add(rv_mul(a.w, b.w), rv_mul(a.x, b.x)), rv_mul(a.y, b.y)),
        rv_mul(a.z, b.z),
    )
}

/// Squared length: the dot product of a quaternion with itself.
pub open spec fn qv_sq_len(a: QuatV) -> RatV {
    qv_dot(a, a)
}

/// The `w` component of the Hamilton product:
/// `w1*w2 - x1*x2 - y1*y2 - z1*z2`, combined left to right.
pub open spec fn qv_mul_w(a: QuatV, b: QuatV) -> RatV {
    rv_sub(
        rv_sub(rv_sub(rv_mul(a.w, b.w), rv_mul(a.x, b.x)), rv_mul(a.y, b.y)),
        rv_mul(a.z, b.z),
    )
}

pub open spec fn qv_mul_w_fits(a: QuatV, b: QuatV) -> bool {
    rv_mul_fits(a.w, b.w) && rv_mul_fits(a.x, b.x) && rv_mul_fits(a.y, b.y) && rv_mul_fits(
        a.z,
        b.z,
    ) && rv_sub_fits(rv_mul(a.w, b.w), rv_mul(a.x, b.x)) && rv_sub_fits(
        rv_sub(rv_mul(a.w, b.w), rv_mul(a.x, b.x)),
        rv_mul(a.y, b.y),
    ) && rv_sub_fits(
        rv_sub(rv_sub(rv_mul(a.w, b.w), rv_mul(a.x, b.x)), rv_mul(a.y, b.y)),
        rv_mul(a.z, b.z),
    )
}

/// The `x` component of the Hamilton product:
/// `w1*x2 + x1*w2 + y1*z2 - z1*y2`, combined left to right.
pub open spec fn qv_mul_x(a: QuatV, b: QuatV) -> RatV {
    rv_sub(
        rv_add(rv_add(rv_mul(a.w, b.x), rv_mul(a.x, b.w)), rv_mul(a.y, b.z)),
        rv_mul(a.z, b.y),
    )
}

pub open spec fn qv_mul_x_fits(a: QuatV, b: QuatV) -> bool {
    rv_mul_fits(a.w, b.x) && rv_mul_fits(a.x, b.w) && rv_mul_fits(a.y, b.z) && rv_mul_fits(
        a.z,
        b.y,
    ) && rv_add_fits(rv_mul(a.w, b.x), rv_mul(a.x, b.w)) && rv_add_fits(
        rv_add(rv_mul(a.w, b.x), rv_mul(a.x, b.w)),
        rv_mul(a.y, b.z),
    ) && rv_sub_fits(
        rv_add(rv_add(rv_mul(a.w, b.x), rv_mul(a.x, b.w)), rv_mul(a.y, b.z)),
        rv_mul(a.z, b.y),
    )
}

/// The `y` component of the Hamilton product:
/// `w1*y2 - x1*z2 + y1*w2 + z1*x2`, combined left to right.
pub open spec fn qv_mul_y(a: QuatV, b: QuatV) -> RatV {
    rv_add(
        rv_add(rv_sub(rv_mul(a.w, b.y), rv_mul(a.x, b.z)), rv_mul(a.y, b.w)),
        rv_mul(a.z, b.x),
    )
}

pub open spec fn qv_mul_y_fits(a: QuatV, b: QuatV) -> bool {
    rv_mul_fits(a.w, b.y) && rv_mul_fits(a.x, b.z) && rv_mul_fits(a.y, b.w) && rv_mul_fits(
        a.z,
        b.x,
    ) && rv_sub_fits(rv_mul(a.w, b.y), rv_mul(a.x, b.z)) && rv_add_fits(
        rv_sub(rv_mul(a.w, b.y), rv_mul(a.x, b.z)),
        rv_mul(a.y, b.w),
    ) && rv_add_fits(
        rv_add(rv_sub(rv_mul(a.w, b.y), rv_mul(a.x, b.z)), rv_mul(a.y, b.w)),
        rv_mul(a.z, b.x),
    )
}

/// The `z` component of the Hamilton product:
/// `w1*z2 + x1*y2 - y1*x2 + z1*w2`, combined left to right.
pub open spec fn qv_mul_z(a: QuatV, b: QuatV) -> RatV {
    rv_add(
        rv_sub(rv_add(rv_mul(a.w, b.z), rv_mul(a.x, b.y)), rv_mul(a.y, b.x)),
        rv_mul(a.z, b.w),
    )
}

pub open spec fn qv_mul_z_fits(a: QuatV, b: QuatV) -> bool {
    rv_mul_fits(a.w, b.z) && rv_mul_fits(a.x, b.y) && rv_mul_fits(a.y, b.x) && rv_mul_fits(
        a.z,
        b.w,
    ) && rv_add_fits(rv_mul(a.w, b.z), rv_mul(a.x, b.y)) && rv_sub_fits(
        rv_add(rv_mul(a.w, b.z), rv_mul(a.x, b.y)),
        rv_mul(a.y, b.x),
    ) && rv_add_fits(
        rv_sub(rv_add(rv_mul(a.w, b.z), rv_mul(a.x, b.y)), rv_mul(a.y, b.x)),
        rv_mul(a.z, b.w),
    )
}

/// The Hamilton product. It is not commutative: `qv_mul(a, b)` and
/// `qv_mul(b, a)` differ in general.
pub open spec fn qv_mul(a: QuatV, b: QuatV) -> QuatV {
    QuatV {
        w: qv_mul_w(a, b),
        x: qv_mul_x(a, b),
        y: qv_mul_y(a, b),
        z: qv_mul_z(a, b),
    }
}

pub open spec fn qv_mul_fits(a: QuatV, b: QuatV) -> bool {
    qv_mul_w_fits(a, b) && qv_mul_x_fits(a, b) && qv_mul_y_fits(a, b) && qv_mul_z_fits(a, b)
}

/// The reciprocal of the squared length, `1 / (w^2 + x^2 + y^2 + z^2)`.
pub open spec fn qv_recip_sq_len(a: QuatV) -> RatV {
    rv_div(rv_int(1), qv_sq_len(a))
}

/// Inverse: the quaternion scaled by the reciprocal of its squared length,
/// then conjugated.
pub open spec fn qv_inverse(a: QuatV) -> QuatV {
    qv_conj(qv_scale(a, qv_recip_sq_len(a)))
}

pub open spec fn qv_inverse_fits(a: QuatV) -> bool {
    qv_dot_fits(a, a) && rv_div_fits(rv_int(1), qv_sq_len(a)) && qv_scale_fits(
        a,
        qv_recip_sq_len(a),
    ) && qv_conj_fits(qv_scale(a, qv_recip_sq_len(a)))
}

/// Right division: `a` times the inverse of `b`. The order matters; this is
/// not `inverse(b) * a`.
pub open spec fn qv_div(a: QuatV, b: QuatV) -> QuatV {
    qv_mul(a, qv_inverse(b))
}

pub open spec fn qv_div_fits(a: QuatV, b: QuatV) -> bool {
    qv_inverse_fits(b) && qv_mul_fits(a, qv_inverse(b))
}

pub open spec fn qv_eq_fits(a: QuatV, b: QuatV) -> bool {
    rv_eq_fits(a.w, b.w) && rv_eq_fits(a.x, b.x) && rv_eq_fits(a.y, b.y) && rv_eq_fits(
        a.z,
        b.z,
    )
}

/// Quaternion `{w, x, y, z}` over exact rational scalars.
#[derive(Clone, Copy, Debug)]
pub struct Quaternion {
    pub w: Rat,
    pub x: Rat,
    pub y: Rat,
    pub z: Rat,
}

impl View for Quaternion {
    type V = QuatV;

    open spec fn view(&self) -> QuatV {
        QuatV { w: self.w@, x: self.x@, y: self.y@, z: self.z@ }
    }
}

/// Shortcut for creating a quaternion from four scalars.
pub fn q(w: Rat, x: Rat, y: Rat, z: Rat) -> (r: Quaternion)
    requires
        w.wf(),
        x.wf(),
        y.wf(),
        z.wf(),
    ensures
        r@ == (QuatV { w: w@, x: x@, y: y@, z: z@ }),
        r.wf(),
{
    Quaternion { w, x, y, z }
}

/// Shortcut for creating a quaternion from four integers.
pub fn qi(w: i32, x: i32, y: i32, z: i32) -> (r: Quaternion)
    ensures
        r@ == (QuatV {
            w: rv_int(w as int),
            x: rv_int(x as int),
            y: rv_int(y as int),
            z: rv_int(z as int),
        }),
        r.wf(),
{
    q(
        Rat::from_int(w as i128),
        Rat::from_int(x as i128),
        Rat::from_int(y as i128),
        Rat::from_int(z as i128),
    )
}

impl Quaternion {
    /// Well-formedness: every component has a nonzero denominator.
    pub open spec fn wf(&self) -> bool {
        qv_wf(self@)
    }

    /// The identity quaternion `(1, 0, 0, 0)`.
    pub fn id() -> (r: Quaternion)
        ensures
            r@ == qv_id(),
            r.wf(),
    {
        Quaternion {
            w: Rat::from_int(1),
            x: Rat::from_int(0),
            y: Rat::from_int(0),
            z: Rat::from_int(0),
        }
    }

    /// A quaternion from its four components.
    pub fn new(w: Rat, x: Rat, y: Rat, z: Rat) -> (r: Quaternion)
        requires
            w.wf(),
            x.wf(),
            y.wf(),
            z.wf(),
        ensures
            r@ == (QuatV { w: w@, x: x@, y: y@, z: z@ }),
            r.wf(),
    {
        Quaternion { w, x, y, z }
    }

    /// Scales each component by the scalar `t`; returns a new quaternion.
    pub fn scale(&self, t: Rat) -> (r: Quaternion)
        requires
            self.wf(),
            t.wf(),
            qv_scale_fits(self@, t@),
        ensures
            r@ == qv_scale(self@, t@),
            r.wf(),
    {
        Quaternion {
            w: self.w.mul(&t),
            x: self.x.mul(&t),
            y: self.y.mul(&t),
            z: self.z.mul(&t),
        }
    }

    /// In-place counterpart of `scale`.
    pub fn scale_mut(&mut self, t: Rat)
        requires
            old(self).wf(),
            t.wf(),
            qv_scale_fits(old(self)@, t@),
        ensures
            final(self)@ == qv_scale(old(self)@, t@),
            final(self).wf(),
    {
        self.w = self.w.mul(&t);
        self.x = self.x.mul(&t);
        self.y = self.y.mul(&t);
        self.z = self.z.mul(&t);
    }

    /// Component-wise sum; addition of quaternions is commutative.
    pub fn add(&self, other: &Quaternion) -> (r: Quaternion)
        requires
            self.wf(),
            other.wf(),
            qv_add_fits(self@, other@),
        ensures
            r@ == qv_add(self@, other@),
            r.wf(),
    {
        Quaternion {
            w: self.w.add(&other.w),
            x: self.x.add(&other.x),
            y: self.y.add(&other.y),
            z: self.z.add(&other.z),
        }
    }

    /// In-place counterpart of `add`.
    pub fn add_assign(&mut self, other: &Quaternion)
        requires
            old(self).wf(),
            other.wf(),
            qv_add_fits(old(self)@, other@),
        ensures
            final(self)@ == qv_add(old(self)@, other@),
            final(self).wf(),
    {
        self.w = self.w.add(&other.w);
        self.x = self.x.add(&other.x);
        self.y = self.y.add(&other.y);
        self.z = self.z.add(&other.z);
    }

    /// Component-wise difference.
    pub fn sub(&self, other: &Quaternion) -> (r: Quaternion)
        requires
            self.wf(),
            other.wf(),
            qv_sub_fits(self@, other@),
        ensures
            r@ == qv_sub(self@, other@),
            r.wf(),
    {
        Quaternion {
            w: self.w.sub(&other.w),
            x: self.x.sub(&other.x),
            y: self.y.sub(&other.y),
            z: self.z.sub(&other.z),
        }
    }

    /// In-place counterpart of `sub`.
    pub fn sub_assign(&mut self, other: &Quaternion)
        requires
            old(self).wf(),
            other.wf(),
            qv_sub_fits(old(self)@, other@),
        ensures
            final(self)@ == qv_sub(old(self)@, other@),
            final(self).wf(),
    {
        self.w = self.w.sub(&other.w);
        self.x = self.x.sub(&other.x);
        self.y = self.y.sub(&other.y);
        self.z = self.z.sub(&other.z);
    }

    /// Component-wise sign flip.
    pub fn neg(&self) -> (r: Quaternion)
        requires
            self.wf(),
            qv_neg_fits(self@),
        ensures
            r@ == qv_neg(self@),
            r.wf(),
    {
        Quaternion { w: self.w.neg(), x: self.x.neg(), y: self.y.neg(), z: self.z.neg() }
    }

    /// Dot product of two quaternions.
    pub fn dot(&self, other: &Quaternion) -> (r: Rat)
        requires
            self.wf(),
            other.wf(),
            qv_dot_fits(self@, other@),
        ensures
            r@ == qv_dot(self@, other@),
            r.wf(),
    {
        let ww = self.w.mul(&other.w);
        let xx = self.x.mul(&other.x);
        let yy = self.y.mul(&other.y);
        let zz = self.z.mul(&other.z);
        ww.add(&xx).add(&yy).add(&zz)
    }

    /// Conjugate: the vector part flips sign; returns a new quaternion.
    pub fn conjugate(&self) -> (r: Quaternion)
        requires
            self.wf(),
            qv_conj_fits(self@),
        ensures
            r@ == qv_conj(self@),
            r.wf(),
    {
        Quaternion { w: self.w, x: self.x.neg(), y: self.y.neg(), z: self.z.neg() }
    }

    /// In-place counterpart of `conjugate`.
    pub fn conjugate_mut(&mut self)
        requires
            old(self).wf(),
            qv_conj_fits(old(self)@),
        ensures
            final(self)@ == qv_conj(old(self)@),
            final(self).wf(),
    {
        self.x = self.x.neg();
        self.y = self.y.neg();
        self.z = self.z.neg();
    }

    /// Squared length: `w^2 + x^2 + y^2 + z^2`, the dot product with itself.
    pub fn square_length(&self) -> (r: Rat)
        requires
            self.wf(),
            qv_dot_fits(self@, self@),
        ensures
            r@ == qv_sq_len(self@),
            r.wf(),
    {
        self.dot(self)
    }

    /// The Hamilton product; not commutative. Returns a new quaternion.
    pub fn mul(&self, other: &Quaternion) -> (r: Quaternion)
        requires
            self.wf(),
            other.wf(),
            qv_mul_fits(self@, other@),
        ensures
            r@ == qv_mul(self@, other@),
            r.wf(),
    {
        let w = self.w.mul(&other.w).sub(&self.x.mul(&other.x)).sub(&self.y.mul(&other.y)).sub(
            &self.z.mul(&other.z),
        );
        let x = self.w.mul(&other.x).add(&self.x.mul(&other.w)).add(&self.y.mul(&other.z)).sub(
            &self.z.mul(&other.y),
        );
        let y = self.w.mul(&other.y).sub(&self.x.mul(&other.z)).add(&self.y.mul(&other.w)).add(
            &self.z.mul(&other.x),
        );
        let z = self.w.mul(&other.z).add(&self.x.mul(&other.y)).sub(&self.y.mul(&other.x)).add(
            &self.z.mul(&other.w),
        );
        Quaternion { w, x, y, z }
    }

    /// In-place counterpart of `mul`; the receiver is the left operand.
    pub fn mul_assign(&mut self, other: &Quaternion)
        requires
            old(self).wf(),
            other.wf(),
            qv_mul_fits(old(self)@, other@),
        ensures
            final(self)@ == qv_mul(old(self)@, other@),
            final(self).wf(),
    {
        let r = self.mul(other);
        self.w = r.w;
        self.x = r.x;
        self.y = r.y;
        self.z = r.z;
    }

    /// Inverse: the conjugate scaled by the reciprocal of the squared
    /// length. A quaternion of zero squared length is left out: the exact
    /// field has no infinities to stand for its inverse.
    pub fn inverse(&self) -> (r: Quaternion)
        requires
            self.wf(),
            qv_sq_len(self@).n != 0,
            qv_inverse_fits(self@),
        ensures
            r@ == qv_inverse(self@),
            r.wf(),
    {
        let len = self.square_length();
        let recip = Rat::from_int(1).div(&len);
        self.scale(recip).conjugate()
    }

    /// In-place counterpart of `inverse`.
    pub fn inverse_mut(&mut self)
        requires
            old(self).wf(),
            qv_sq_len(old(self)@).n != 0,
            qv_inverse_fits(old(self)@),
        ensures
            final(self)@ == qv_inverse(old(self)@),
            final(self).wf(),
    {
        let len = self.square_length();
        let recip = Rat::from_int(1).div(&len);
        self.scale_mut(recip);
        self.conjugate_mut();
    }

    /// Right division: `self` times the inverse of `other`. The order
    /// matters: division is right-multiplication by the divisor's inverse.
    pub fn div(&self, other: &Quaternion) -> (r: Quaternion)
        requires
            self.wf(),
            other.wf(),
            qv_sq_len(other@).n != 0,
            qv_div_fits(self@, other@),
        ensures
            r@ == qv_div(self@, other@),
            r.wf(),
    {
        let inv = other.inverse();
        self.mul(&inv)
    }

    /// Exact value equality, component by component. The floating-point
    /// incarnation of this algebra compares against a machine epsilon; over
    /// exact rationals the tolerance collapses to zero.
    pub fn equals(&self, other: &Quaternion) -> (r: bool)
        requires
            self.wf(),
            other.wf(),
            qv_eq_fits(self@, other@),
        ensures
            r == qv_eq(self@, other@),
    {
        self.w.equals(&other.w) && self.x.equals(&other.x) && self.y.equals(&other.y)
            && self.z.equals(&other.z)
    }
}

impl Default for Quaternion {
    /// The zero quaternion `(0, 0, 0, 0)`.
    fn default() -> (r: Quaternion)
        ensures
            r@ == qv_zero(),
            r.wf(),
    {
        Quaternion {
            w: Rat::from_int(0),
            x: Rat::from_int(0),
            y: Rat::from_int(0),
            z: Rat::from_int(0),
        }
    }
}

} // verus!
