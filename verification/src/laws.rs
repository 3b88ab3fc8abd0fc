//! The algebraic laws of the quaternion algebra, stated over the
//! mathematical views and proved once for every well-formed quaternion.
//!
//! Equality in each law is value equality (`qv_eq`): two quaternions are the
//! same when every component cross-multiplies equally. Over the exact
//! rational scalars the laws hold with no tolerance; their floating-point
//! counterparts hold only up to rounding.

use crate::quaternion::qv_add;
use crate::quaternion::qv_eq;
use crate::quaternion::qv_id;
use crate::quaternion::qv_mul;
use crate::quaternion::qv_mul_w;
use crate::quaternion::qv_mul_x;
use crate::quaternion::qv_mul_y;
use crate::quaternion::qv_mul_z;
use crate::quaternion::qv_wf;
use crate::quaternion::QuatV;
use crate::rat::rv_add;
use crate::rat::rv_eq;
use vstd::prelude::*;

verus! {

/// Addition of quaternions is commutative: `a + b == b + a`, exactly.
/// (The Hamilton product is not; see the concrete witnesses in the tests.)
pub proof fn lemma_add_comm(a: QuatV, b: QuatV)
    requires
        qv_wf(a),
        qv_wf(b),
    ensures
        qv_add(a, b) == qv_add(b, a),
{
    assert(rv_add(a.w, b.w) == rv_add(b.w, a.w)) by (nonlinear_arith);
    assert(rv_add(a.x, b.x) == rv_add(b.x, a.x)) by (nonlinear_arith);
    assert(rv_add(a.y, b.y) == rv_add(b.y, a.y)) by (nonlinear_arith);
    assert(rv_add(a.z, b.z) == rv_add(b.z, a.z)) by (nonlinear_arith);
}

// Each helper below proves one component of the identity law. The proof
// unfolds the component into the verbatim product tree the Hamilton formula
// builds, folds away the zero and one factors of the identity quaternion one
// stage at a time, and closes with the cross-multiplication that `rv_eq`
// asks for; every folding step is a small polynomial identity the nonlinear
// solver settles on its own.
#[verifier::spinoff_prover]
proof fn lemma_id_w_left(a: QuatV)
    requires
        qv_wf(a),
    ensures
        rv_eq(qv_mul_w(qv_id(), a), a.w),
{
    let wn: int = a.w.n;
    let wd: int = a.w.d;
    let xn: int = a.x.n;
    let xd: int = a.x.d;
    let yn: int = a.y.n;
    let yd: int = a.y.d;
    let zn: int = a.z.n;
    let zd: int = a.z.d;
    assert(qv_mul_w(qv_id(), a).n == ((((1 * wn) * (1 * xd) - (0 * xn) * (1 * wd)) * (1 * yd) - (0 * yn) * ((1 * wd) * (1 * xd))) * (1 * zd) - (0 * zn) * (((1 * wd) * (1 * xd)) * (1 * yd))));
    assert(qv_mul_w(qv_id(), a).d == ((((1 * wd) * (1 * xd)) * (1 * yd)) * (1 * zd)));
    assert(((1 * wn) * (1 * xd) - (0 * xn) * (1 * wd)) == (wn * xd)) by (nonlinear_arith);
    assert(((1 * wd) * (1 * xd)) == (wd * xd)) by (nonlinear_arith);
    assert((((1 * wn) * (1 * xd) - (0 * xn) * (1 * wd)) * (1 * yd) - (0 * yn) * ((1 * wd) * (1 * xd))) == ((wn * xd) * yd)) by (nonlinear_arith);
    assert((((1 * wd) * (1 * xd)) * (1 * yd)) == ((wd * xd) * yd)) by (nonlinear_arith);
    assert(((((1 * wn) * (1 * xd) - (0 * xn) * (1 * wd)) * (1 * yd) - (0 * yn) * ((1 * wd) * (1 * xd))) * (1 * zd) - (0 * zn) * (((1 * wd) * (1 * xd)) * (1 * yd))) == (((wn * xd) * yd) * zd)) by (nonlinear_arith);
    assert(((((1 * wd) * (1 * xd)) * (1 * yd)) * (1 * zd)) == (((wd * xd) * yd) * zd)) by (nonlinear_arith);
    assert((((wn * xd) * yd) * zd) * wd == wn * (((wd * xd) * yd) * zd)) by (nonlinear_arith);
}

#[verifier::spinoff_prover]
proof fn lemma_id_x_left(a: QuatV)
    requires
        qv_wf(a),
    ensures
        rv_eq(qv_mul_x(qv_id(), a), a.x),
{
    let wn: int = a.w.n;
    let wd: int = a.w.d;
    let xn: int = a.x.n;
    let xd: int = a.x.d;
    let yn: int = a.y.n;
    let yd: int = a.y.d;
    let zn: int = a.z.n;
    let zd: int = a.z.d;
    assert(qv_mul_x(qv_id(), a).n == ((((1 * xn) * (1 * wd) + (0 * wn) * (1 * xd)) * (1 * zd) + (0 * zn) * ((1 * xd) * (1 * wd))) * (1 * yd) - (0 * yn) * (((1 * xd) * (1 * wd)) * (1 * zd))));
    assert(qv_mul_x(qv_id(), a).d == ((((1 * xd) * (1 * wd)) * (1 * zd)) * (1 * yd)));
    assert(((1 * xn) * (1 * wd) + (0 * wn) * (1 * xd)) == (xn * wd)) by (nonlinear_arith);
    assert(((1 * xd) * (1 * wd)) == (xd * wd)) by (nonlinear_arith);
    assert((((1 * xn) * (1 * wd) + (0 * wn) * (1 * xd)) * (1 * zd) + (0 * zn) * ((1 * xd) * (1 * wd))) == ((xn * wd) * zd)) by (nonlinear_arith);
    assert((((1 * xd) * (1 * wd)) * (1 * zd)) == ((xd * wd) * zd)) by (nonlinear_arith);
    assert(((((1 * xn) * (1 * wd) + (0 * wn) * (1 * xd)) * (1 * zd) + (0 * zn) * ((1 * xd) * (1 * wd))) * (1 * yd) - (0 * yn) * (((1 * xd) * (1 * wd)) * (1 * zd))) == (((xn * wd) * zd) * yd)) by (nonlinear_arith);
    assert(((((1 * xd) * (1 * wd)) * (1 * zd)) * (1 * yd)) == (((xd * wd) * zd) * yd)) by (nonlinear_arith);
    assert((((xn * wd) * zd) * yd) * xd == xn * (((xd * wd) * zd) * yd)) by (nonlinear_arith);
}

#[verifier::spinoff_prover]
proof fn lemma_id_y_left(a: QuatV)
    requires
        qv_wf(a),
    ensures
        rv_eq(qv_mul_y(qv_id(), a), a.y),
{
    let wn: int = a.w.n;
    let wd: int = a.w.d;
    let xn: int = a.x.n;
    let xd: int = a.x.d;
    let yn: int = a.y.n;
    let yd: int = a.y.d;
    let zn: int = a.z.n;
    let zd: int = a.z.d;
    assert(qv_mul_y(qv_id(), a).n == ((((1 * yn) * (1 * zd) - (0 * zn) * (1 * yd)) * (1 * wd) + (0 * wn) * ((1 * yd) * (1 * zd))) * (1 * xd) + (0 * xn) * (((1 * yd) * (1 * zd)) * (1 * wd))));
    assert(qv_mul_y(qv_id(), a).d == ((((1 * yd) * (1 * zd)) * (1 * wd)) * (1 * xd)));
    assert(((1 * yn) * (1 * zd) - (0 * zn) * (1 * yd)) == (yn * zd)) by (nonlinear_arith);
    assert(((1 * yd) * (1 * zd)) == (yd * zd)) by (nonlinear_arith);
    assert((((1 * yn) * (1 * zd) - (0 * zn) * (1 * yd)) * (1 * wd) + (0 * wn) * ((1 * yd) * (1 * zd))) == ((yn * zd) * wd)) by (nonlinear_arith);
    assert((((1 * yd) * (1 * zd)) * (1 * wd)) == ((yd * zd) * wd)) by (nonlinear_arith);
    assert(((((1 * yn) * (1 * zd) - (0 * zn) * (1 * yd)) * (1 * wd) + (0 * wn) * ((1 * yd) * (1 * zd))) * (1 * xd) + (0 * xn) * (((1 * yd) * (1 * zd)) * (1 * wd))) == (((yn * zd) * wd) * xd)) by (nonlinear_arith);
    assert(((((1 * yd) * (1 * zd)) * (1 * wd)) * (1 * xd)) == (((yd * zd) * wd) * xd)) by (nonlinear_arith);
    assert((((yn * zd) * wd) * xd) * yd == yn * (((yd * zd) * wd) * xd)) by (nonlinear_arith);
}

#[verifier::spinoff_prover]
proof fn lemma_id_z_left(a: QuatV)
    requires
        qv_wf(a),
    ensures
        rv_eq(qv_mul_z(qv_id(), a), a.z),
{
    let wn: int = a.w.n;
    let wd: int = a.w.d;
    let xn: int = a.x.n;
    let xd: int = a.x.d;
    let yn: int = a.y.n;
    let yd: int = a.y.d;
    let zn: int = a.z.n;
    let zd: int = a.z.d;
    assert(qv_mul_z(qv_id(), a).n == ((((1 * zn) * (1 * yd) + (0 * yn) * (1 * zd)) * (1 * xd) - (0 * xn) * ((1 * zd) * (1 * yd))) * (1 * wd) + (0 * wn) * (((1 * zd) * (1 * yd)) * (1 * xd))));
    assert(qv_mul_z(qv_id(), a).d == ((((1 * zd) * (1 * yd)) * (1 * xd)) * (1 * wd)));
    assert(((1 * zn) * (1 * yd) + (0 * yn) * (1 * zd)) == (zn * yd)) by (nonlinear_arith);
    assert(((1 * zd) * (1 * yd)) == (zd * yd)) by (nonlinear_arith);
    assert((((1 * zn) * (1 * yd) + (0 * yn) * (1 * zd)) * (1 * xd) - (0 * xn) * ((1 * zd) * (1 * yd))) == ((zn * yd) * xd)) by (nonlinear_arith);
    assert((((1 * zd) * (1 * yd)) * (1 * xd)) == ((zd * yd) * xd)) by (nonlinear_arith);
    assert(((((1 * zn) * (1 * yd) + (0 * yn) * (1 * zd)) * (1 * xd) - (0 * xn) * ((1 * zd) * (1 * yd))) * (1 * wd) + (0 * wn) * (((1 * zd) * (1 * yd)) * (1 * xd))) == (((zn * yd) * xd) * wd)) by (nonlinear_arith);
    assert(((((1 * zd) * (1 * yd)) * (1 * xd)) * (1 * wd)) == (((zd * yd) * xd) * wd)) by (nonlinear_arith);
    assert((((zn * yd) * xd) * wd) * zd == zn * (((zd * yd) * xd) * wd)) by (nonlinear_arith);
}

#[verifier::spinoff_prover]
proof fn lemma_id_w_right(a: QuatV)
    requires
        qv_wf(a),
    ensures
        rv_eq(qv_mul_w(a, qv_id()), a.w),
{
    let wn: int = a.w.n;
    let wd: int = a.w.d;
    let xn: int = a.x.n;
    let xd: int = a.x.d;
    let yn: int = a.y.n;
    let yd: int = a.y.d;
    let zn: int = a.z.n;
    let zd: int = a.z.d;
    assert(qv_mul_w(a, qv_id()).n == ((((wn * 1) * (xd * 1) - (xn * 0) * (wd * 1)) * (yd * 1) - (yn * 0) * ((wd * 1) * (xd * 1))) * (zd * 1) - (zn * 0) * (((wd * 1) * (xd * 1)) * (yd * 1))));
    assert(qv_mul_w(a, qv_id()).d == ((((wd * 1) * (xd * 1)) * (yd * 1)) * (zd * 1)));
    assert(((wn * 1) * (xd * 1) - (xn * 0) * (wd * 1)) == (wn * xd)) by (nonlinear_arith);
    assert(((wd * 1) * (xd * 1)) == (wd * xd)) by (nonlinear_arith);
    assert((((wn * 1) * (xd * 1) - (xn * 0) * (wd * 1)) * (yd * 1) - (yn * 0) * ((wd * 1) * (xd * 1))) == ((wn * xd) * yd)) by (nonlinear_arith);
    assert((((wd * 1) * (xd * 1)) * (yd * 1)) == ((wd * xd) * yd)) by (nonlinear_arith);
    assert(((((wn * 1) * (xd * 1) - (xn * 0) * (wd * 1)) * (yd * 1) - (yn * 0) * ((wd * 1) * (xd * 1))) * (zd * 1) - (zn * 0) * (((wd * 1) * (xd * 1)) * (yd * 1))) == (((wn * xd) * yd) * zd)) by (nonlinear_arith);
    assert(((((wd * 1) * (xd * 1)) * (yd * 1)) * (zd * 1)) == (((wd * xd) * yd) * zd)) by (nonlinear_arith);
    assert((((wn * xd) * yd) * zd) * wd == wn * (((wd * xd) * yd) * zd)) by (nonlinear_arith);
}

#[verifier::spinoff_prover]
proof fn lemma_id_x_right(a: QuatV)
    requires
        qv_wf(a),
    ensures
        rv_eq(qv_mul_x(a, qv_id()), a.x),
{
    let wn: int = a.w.n;
    let wd: int = a.w.d;
    let xn: int = a.x.n;
    let xd: int = a.x.d;
    let yn: int = a.y.n;
    let yd: int = a.y.d;
    let zn: int = a.z.n;
    let zd: int = a.z.d;
    assert(qv_mul_x(a, qv_id()).n == ((((wn * 0) * (xd * 1) + (xn * 1) * (wd * 1)) * (yd * 1) + (yn * 0) * ((wd * 1) * (xd * 1))) * (zd * 1) - (zn * 0) * (((wd * 1) * (xd * 1)) * (yd * 1))));
    assert(qv_mul_x(a, qv_id()).d == ((((wd * 1) * (xd * 1)) * (yd * 1)) * (zd * 1)));
    assert(((wn * 0) * (xd * 1) + (xn * 1) * (wd * 1)) == (xn * wd)) by (nonlinear_arith);
    assert(((wd * 1) * (xd * 1)) == (wd * xd)) by (nonlinear_arith);
    assert((((wn * 0) * (xd * 1) + (xn * 1) * (wd * 1)) * (yd * 1) + (yn * 0) * ((wd * 1) * (xd * 1))) == ((xn * wd) * yd)) by (nonlinear_arith);
    assert((((wd * 1) * (xd * 1)) * (yd * 1)) == ((wd * xd) * yd)) by (nonlinear_arith);
    assert(((((wn * 0) * (xd * 1) + (xn * 1) * (wd * 1)) * (yd * 1) + (yn * 0) * ((wd * 1) * (xd * 1))) * (zd * 1) - (zn * 0) * (((wd * 1) * (xd * 1)) * (yd * 1))) == (((xn * wd) * yd) * zd)) by (nonlinear_arith);
    assert(((((wd * 1) * (xd * 1)) * (yd * 1)) * (zd * 1)) == (((wd * xd) * yd) * zd)) by (nonlinear_arith);
    assert((((xn * wd) * yd) * zd) * xd == xn * (((wd * xd) * yd) * zd)) by (nonlinear_arith);
}

#[verifier::spinoff_prover]
proof fn lemma_id_y_right(a: QuatV)
    requires
        qv_wf(a),
    ensures
        rv_eq(qv_mul_y(a, qv_id()), a.y),
{
    let wn: int = a.w.n;
    let wd: int = a.w.d;
    let xn: int = a.x.n;
    let xd: int = a.x.d;
    let yn: int = a.y.n;
    let yd: int = a.y.d;
    let zn: int = a.z.n;
    let zd: int = a.z.d;
    assert(qv_mul_y(a, qv_id()).n == ((((wn * 0) * (xd * 1) - (xn * 0) * (wd * 1)) * (yd * 1) + (yn * 1) * ((wd * 1) * (xd * 1))) * (zd * 1) + (zn * 0) * (((wd * 1) * (xd * 1)) * (yd * 1))));
    assert(qv_mul_y(a, qv_id()).d == ((((wd * 1) * (xd * 1)) * (yd * 1)) * (zd * 1)));
    assert(((wn * 0) * (xd * 1) - (xn * 0) * (wd * 1)) == 0) by (nonlinear_arith);
    assert(((wd * 1) * (xd * 1)) == (wd * xd)) by (nonlinear_arith);
    assert((((wn * 0) * (xd * 1) - (xn * 0) * (wd * 1)) * (yd * 1) + (yn * 1) * ((wd * 1) * (xd * 1))) == (yn * (wd * xd))) by (nonlinear_arith);
    assert((((wd * 1) * (xd * 1)) * (yd * 1)) == ((wd * xd) * yd)) by (nonlinear_arith);
    assert(((((wn * 0) * (xd * 1) - (xn * 0) * (wd * 1)) * (yd * 1) + (yn * 1) * ((wd * 1) * (xd * 1))) * (zd * 1) + (zn * 0) * (((wd * 1) * (xd * 1)) * (yd * 1))) == ((yn * (wd * xd)) * zd)) by (nonlinear_arith);
    assert(((((wd * 1) * (xd * 1)) * (yd * 1)) * (zd * 1)) == (((wd * xd) * yd) * zd)) by (nonlinear_arith);
    assert(((yn * (wd * xd)) * zd) * yd == yn * (((wd * xd) * yd) * zd)) by (nonlinear_arith);
}

#[verifier::spinoff_prover]
proof fn lemma_id_z_right(a: QuatV)
    requires
        qv_wf(a),
    ensures
        rv_eq(qv_mul_z(a, qv_id()), a.z),
{
    let wn: int = a.w.n;
    let wd: int = a.w.d;
    let xn: int = a.x.n;
    let xd: int = a.x.d;
    let yn: int = a.y.n;
    let yd: int = a.y.d;
    let zn: int = a.z.n;
    let zd: int = a.z.d;
    assert(qv_mul_z(a, qv_id()).n == ((((wn * 0) * (xd * 1) + (xn * 0) * (wd * 1)) * (yd * 1) - (yn * 0) * ((wd * 1) * (xd * 1))) * (zd * 1) + (zn * 1) * (((wd * 1) * (xd * 1)) * (yd * 1))));
    assert(qv_mul_z(a, qv_id()).d == ((((wd * 1) * (xd * 1)) * (yd * 1)) * (zd * 1)));
    assert(((wn * 0) * (xd * 1) + (xn * 0) * (wd * 1)) == 0) by (nonlinear_arith);
    assert(((wd * 1) * (xd * 1)) == (wd * xd)) by (nonlinear_arith);
    assert((((wn * 0) * (xd * 1) + (xn * 0) * (wd * 1)) * (yd * 1) - (yn * 0) * ((wd * 1) * (xd * 1))) == 0) by (nonlinear_arith);
    assert((((wd * 1) * (xd * 1)) * (yd * 1)) == ((wd * xd) * yd)) by (nonlinear_arith);
    assert(((((wn * 0) * (xd * 1) + (xn * 0) * (wd * 1)) * (yd * 1) - (yn * 0) * ((wd * 1) * (xd * 1))) * (zd * 1) + (zn * 1) * (((wd * 1) * (xd * 1)) * (yd * 1))) == (zn * ((wd * xd) * yd))) by (nonlinear_arith);
    assert(((((wd * 1) * (xd * 1)) * (yd * 1)) * (zd * 1)) == (((wd * xd) * yd) * zd)) by (nonlinear_arith);
    assert((zn * ((wd * xd) * yd)) * zd == zn * (((wd * xd) * yd) * zd)) by (nonlinear_arith);
}

/// The identity quaternion is neutral on both sides of the Hamilton
/// product: `identity() * a == a` and `a * identity() == a`.
pub proof fn lemma_mul_identity(a: QuatV)
    requires
        qv_wf(a),
    ensures
        qv_eq(qv_mul(qv_id(), a), a),
        qv_eq(qv_mul(a, qv_id()), a),
{
    lemma_id_w_left(a);
    lemma_id_x_left(a);
    lemma_id_y_left(a);
    lemma_id_z_left(a);
    lemma_id_w_right(a);
    lemma_id_x_right(a);
    lemma_id_y_right(a);
    lemma_id_z_right(a);
}

} // verus!
