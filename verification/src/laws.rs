//! The algebraic laws of the rigid transform, proved over the exact
//! mathematical values: inverting twice restores the transform, the
//! identity transform is a fixed point of inversion, and pure rotations
//! and pure translations invert component-wise.

use vstd::prelude::*;

use crate::linalg::{
    is_unit, m4_ident, m4_mul, m4_value_eq, quat_conj, r11, r12, r13, r21, r22, r23, r31, r32,
    r33, QuatV,
};
use crate::transform::{pose_identity, pose_inverse, pose_matrix, pose_value_eq, PoseV};
use vstd::arithmetic::mul::{lemma_mul_is_associative, lemma_mul_is_distributive_add};

verus! {

/// The fourth power of the quaternion denominator: the scale of the
/// product of the integer rotation matrix with its transpose.
pub open spec fn d4(q: QuatV) -> int {
    q.d * q.d * q.d * q.d
}

/// Conjugating twice restores a quaternion, and the conjugate of a unit
/// quaternion is a unit quaternion.
pub proof fn lemma_conj_involution(q: QuatV)
    ensures
        quat_conj(quat_conj(q)) == q,
        is_unit(q) ==> is_unit(quat_conj(q)),
{
    let c = quat_conj(q);
    assert(c.x * c.x == q.x * q.x && c.y * c.y == q.y * q.y && c.z * c.z == q.z * q.z)
        by (nonlinear_arith)
        requires
            c.x == -q.x,
            c.y == -q.y,
            c.z == -q.z,
    ;
}

/// The integer rotation matrix of the conjugate quaternion is the
/// transpose of the integer rotation matrix of the quaternion.
pub proof fn lemma_conj_transpose(q: QuatV)
    ensures
        r11(quat_conj(q)) == r11(q),
        r12(quat_conj(q)) == r21(q),
        r13(quat_conj(q)) == r31(q),
        r21(quat_conj(q)) == r12(q),
        r22(quat_conj(q)) == r22(q),
        r23(quat_conj(q)) == r32(q),
        r31(quat_conj(q)) == r13(q),
        r32(quat_conj(q)) == r23(q),
        r33(quat_conj(q)) == r33(q),
{
    let x = q.x;
    let y = q.y;
    let z = q.z;
    let w = q.w;
    let d = q.d;
    let c = quat_conj(q);
    assert(r11(c) == r11(q) && r12(c) == r21(q) && r13(c) == r31(q) && r21(c) == r12(q)
        && r22(c) == r22(q) && r23(c) == r32(q) && r31(c) == r13(q) && r32(c) == r23(q)
        && r33(c) == r33(q)) by (nonlinear_arith)
        requires
            r11(c) == d * d - 2 * ((-y) * (-y) + (-z) * (-z)),
            r12(c) == 2 * ((-x) * (-y) - (-z) * w),
            r13(c) == 2 * ((-x) * (-z) + (-y) * w),
            r21(c) == 2 * ((-x) * (-y) + (-z) * w),
            r22(c) == d * d - 2 * ((-x) * (-x) + (-z) * (-z)),
            r23(c) == 2 * ((-y) * (-z) - (-x) * w),
            r31(c) == 2 * ((-x) * (-z) - (-y) * w),
            r32(c) == 2 * ((-y) * (-z) + (-x) * w),
            r33(c) == d * d - 2 * ((-x) * (-x) + (-y) * (-y)),
            r11(q) == d * d - 2 * (y * y + z * z),
            r12(q) == 2 * (x * y - z * w),
            r13(q) == 2 * (x * z + y * w),
            r21(q) == 2 * (x * y + z * w),
            r22(q) == d * d - 2 * (x * x + z * z),
            r23(q) == 2 * (y * z - x * w),
            r31(q) == 2 * (x * z - y * w),
            r32(q) == 2 * (y * z + x * w),
            r33(q) == d * d - 2 * (x * x + y * y),
    ;
}

/// For a unit quaternion the rows of the integer rotation matrix are
/// pairwise orthogonal and each has squared norm `d4(q)`: the matrix
/// times its transpose is `d4(q)` times the identity.
pub proof fn lemma_rot_rows(q: QuatV)
    requires
        is_unit(q),
    ensures
        r11(q) * r11(q) + r12(q) * r12(q) + r13(q) * r13(q) == d4(q),
        r21(q) * r21(q) + r22(q) * r22(q) + r23(q) * r23(q) == d4(q),
        r31(q) * r31(q) + r32(q) * r32(q) + r33(q) * r33(q) == d4(q),
        r11(q) * r21(q) + r12(q) * r22(q) + r13(q) * r23(q) == 0,
        r11(q) * r31(q) + r12(q) * r32(q) + r13(q) * r33(q) == 0,
        r21(q) * r31(q) + r22(q) * r32(q) + r23(q) * r33(q) == 0,
{
    let x = q.x;
    let y = q.y;
    let z = q.z;
    let w = q.w;
    let d = q.d;
    let xx = x * x;
    let yy = y * y;
    let zz = z * z;
    let ww = w * w;
    let xy = x * y;
    let xz = x * z;
    let xw = x * w;
    let yz = y * z;
    let yw = y * w;
    let zw = z * w;
    let s = d * d;
    assert(s == xx + yy + zz + ww);
    // Rearrangements of products of two monomials into a canonical form.
    assert(xy * xy == xx * yy) by (nonlinear_arith)
        requires xy == x * y, xx == x * x, yy == y * y,
    ;
    assert(xz * xz == xx * zz) by (nonlinear_arith)
        requires xz == x * z, xx == x * x, zz == z * z,
    ;
    assert(xw * xw == xx * ww) by (nonlinear_arith)
        requires xw == x * w, xx == x * x, ww == w * w,
    ;
    assert(yz * yz == yy * zz) by (nonlinear_arith)
        requires yz == y * z, yy == y * y, zz == z * z,
    ;
    assert(yw * yw == yy * ww) by (nonlinear_arith)
        requires yw == y * w, yy == y * y, ww == w * w,
    ;
    assert(zw * zw == zz * ww) by (nonlinear_arith)
        requires zw == z * w, zz == z * z, ww == w * w,
    ;
    assert(xy * zw == xz * yw) by (nonlinear_arith)
        requires xy == x * y, zw == z * w, xz == x * z, yw == y * w,
    ;
    assert(xy * zw == yz * xw) by (nonlinear_arith)
        requires xy == x * y, zw == z * w, yz == y * z, xw == x * w,
    ;
    assert(xz * yz == zz * xy) by (nonlinear_arith)
        requires xz == x * z, yz == y * z, zz == z * z, xy == x * y,
    ;
    assert(xz * xw == xx * zw) by (nonlinear_arith)
        requires xz == x * z, xw == x * w, xx == x * x, zw == z * w,
    ;
    assert(yw * yz == yy * zw) by (nonlinear_arith)
        requires yw == y * w, yz == y * z, yy == y * y, zw == z * w,
    ;
    assert(yw * xw == ww * xy) by (nonlinear_arith)
        requires yw == y * w, xw == x * w, ww == w * w, xy == x * y,
    ;
    assert(xy * yz == yy * xz) by (nonlinear_arith)
        requires xy == x * y, yz == y * z, yy == y * y, xz == x * z,
    ;
    assert(xy * xw == xx * yw) by (nonlinear_arith)
        requires xy == x * y, xw == x * w, xx == x * x, yw == y * w,
    ;
    assert(zw * yz == zz * yw) by (nonlinear_arith)
        requires zw == z * w, yz == y * z, zz == z * z, yw == y * w,
    ;
    assert(zw * xw == ww * xz) by (nonlinear_arith)
        requires zw == z * w, xw == x * w, ww == w * w, xz == x * z,
    ;
    assert(xy * xz == xx * yz) by (nonlinear_arith)
        requires xy == x * y, xz == x * z, xx == x * x, yz == y * z,
    ;
    assert(xy * yw == yy * xw) by (nonlinear_arith)
        requires xy == x * y, yw == y * w, yy == y * y, xw == x * w,
    ;
    assert(zw * xz == zz * xw) by (nonlinear_arith)
        requires zw == z * w, xz == x * z, zz == z * z, xw == x * w,
    ;
    assert(zw * yw == ww * yz) by (nonlinear_arith)
        requires zw == z * w, yw == y * w, ww == w * w, yz == y * z,
    ;
    // Products of s with a monomial, expanded over the norm condition.
    assert(s * xx == xx * xx + xx * yy + xx * zz + xx * ww) by (nonlinear_arith)
        requires s == xx + yy + zz + ww,
    ;
    assert(s * yy == xx * yy + yy * yy + yy * zz + yy * ww) by (nonlinear_arith)
        requires s == xx + yy + zz + ww,
    ;
    assert(s * zz == xx * zz + yy * zz + zz * zz + zz * ww) by (nonlinear_arith)
        requires s == xx + yy + zz + ww,
    ;
    assert(s * xy == xx * xy + yy * xy + zz * xy + ww * xy) by (nonlinear_arith)
        requires s == xx + yy + zz + ww,
    ;
    assert(s * xz == xx * xz + yy * xz + zz * xz + ww * xz) by (nonlinear_arith)
        requires s == xx + yy + zz + ww,
    ;
    assert(s * yz == xx * yz + yy * yz + zz * yz + ww * yz) by (nonlinear_arith)
        requires s == xx + yy + zz + ww,
    ;
    // Squares of the matrix entries.
    assert(r11(q) * r11(q) == s * s - 4 * (s * yy) - 4 * (s * zz) + 4 * (yy * yy) + 8 * (yy * zz)
        + 4 * (zz * zz)) by (nonlinear_arith)
        requires r11(q) == s - 2 * (yy + zz),
    ;
    assert(r22(q) * r22(q) == s * s - 4 * (s * xx) - 4 * (s * zz) + 4 * (xx * xx) + 8 * (xx * zz)
        + 4 * (zz * zz)) by (nonlinear_arith)
        requires r22(q) == s - 2 * (xx + zz),
    ;
    assert(r33(q) * r33(q) == s * s - 4 * (s * xx) - 4 * (s * yy) + 4 * (xx * xx) + 8 * (xx * yy)
        + 4 * (yy * yy)) by (nonlinear_arith)
        requires r33(q) == s - 2 * (xx + yy),
    ;
    assert(r12(q) * r12(q) == 4 * (xy * xy) - 8 * (xy * zw) + 4 * (zw * zw)) by (nonlinear_arith)
        requires r12(q) == 2 * (xy - zw),
    ;
    assert(r13(q) * r13(q) == 4 * (xz * xz) + 8 * (xz * yw) + 4 * (yw * yw)) by (nonlinear_arith)
        requires r13(q) == 2 * (xz + yw),
    ;
    assert(r21(q) * r21(q) == 4 * (xy * xy) + 8 * (xy * zw) + 4 * (zw * zw)) by (nonlinear_arith)
        requires r21(q) == 2 * (xy + zw),
    ;
    assert(r23(q) * r23(q) == 4 * (yz * yz) - 8 * (yz * xw) + 4 * (xw * xw)) by (nonlinear_arith)
        requires r23(q) == 2 * (yz - xw),
    ;
    assert(r31(q) * r31(q) == 4 * (xz * xz) - 8 * (xz * yw) + 4 * (yw * yw)) by (nonlinear_arith)
        requires r31(q) == 2 * (xz - yw),
    ;
    assert(r32(q) * r32(q) == 4 * (yz * yz) + 8 * (yz * xw) + 4 * (xw * xw)) by (nonlinear_arith)
        requires r32(q) == 2 * (yz + xw),
    ;
    assert(s * s == d4(q)) by (nonlinear_arith)
        requires s == d * d, d4(q) == d * d * d * d,
    ;
    // Off-diagonal products, expanded the same way.
    assert(r11(q) * r21(q) == 2 * (s * xy) + 2 * (s * zw) - 4 * (yy * xy) - 4 * (zz * xy)
        - 4 * (yy * zw) - 4 * (zz * zw)) by (nonlinear_arith)
        requires r11(q) == s - 2 * (yy + zz), r21(q) == 2 * (xy + zw),
    ;
    assert(r12(q) * r22(q) == 2 * (s * xy) - 2 * (s * zw) - 4 * (xx * xy) - 4 * (zz * xy)
        + 4 * (xx * zw) + 4 * (zz * zw)) by (nonlinear_arith)
        requires r12(q) == 2 * (xy - zw), r22(q) == s - 2 * (xx + zz),
    ;
    assert(r13(q) * r23(q) == 4 * (xz * yz) - 4 * (xz * xw) + 4 * (yw * yz) - 4 * (yw * xw))
        by (nonlinear_arith)
        requires r13(q) == 2 * (xz + yw), r23(q) == 2 * (yz - xw),
    ;
    assert(s * zw == xx * zw + yy * zw + zz * zw + ww * zw) by (nonlinear_arith)
        requires s == xx + yy + zz + ww,
    ;
    assert(r11(q) * r31(q) == 2 * (s * xz) - 2 * (s * yw) - 4 * (yy * xz) - 4 * (zz * xz)
        + 4 * (yy * yw) + 4 * (zz * yw)) by (nonlinear_arith)
        requires r11(q) == s - 2 * (yy + zz), r31(q) == 2 * (xz - yw),
    ;
    assert(r12(q) * r32(q) == 4 * (xy * yz) + 4 * (xy * xw) - 4 * (zw * yz) - 4 * (zw * xw))
        by (nonlinear_arith)
        requires r12(q) == 2 * (xy - zw), r32(q) == 2 * (yz + xw),
    ;
    assert(r13(q) * r33(q) == 2 * (s * xz) + 2 * (s * yw) - 4 * (xx * xz) - 4 * (yy * xz)
        - 4 * (xx * yw) - 4 * (yy * yw)) by (nonlinear_arith)
        requires r13(q) == 2 * (xz + yw), r33(q) == s - 2 * (xx + yy),
    ;
    assert(s * yw == xx * yw + yy * yw + zz * yw + ww * yw) by (nonlinear_arith)
        requires s == xx + yy + zz + ww,
    ;
    assert(r21(q) * r31(q) == 4 * (xy * xz) - 4 * (xy * yw) + 4 * (zw * xz) - 4 * (zw * yw))
        by (nonlinear_arith)
        requires r21(q) == 2 * (xy + zw), r31(q) == 2 * (xz - yw),
    ;
    assert(r22(q) * r32(q) == 2 * (s * yz) + 2 * (s * xw) - 4 * (xx * yz) - 4 * (zz * yz)
        - 4 * (xx * xw) - 4 * (zz * xw)) by (nonlinear_arith)
        requires r22(q) == s - 2 * (xx + zz), r32(q) == 2 * (yz + xw),
    ;
    assert(r23(q) * r33(q) == 2 * (s * yz) - 2 * (s * xw) - 4 * (xx * yz) - 4 * (yy * yz)
        + 4 * (xx * xw) + 4 * (yy * xw)) by (nonlinear_arith)
        requires r23(q) == 2 * (yz - xw), r33(q) == s - 2 * (xx + yy),
    ;
    assert(s * xw == xx * xw + yy * xw + zz * xw + ww * xw) by (nonlinear_arith)
        requires s == xx + yy + zz + ww,
    ;
}

/// Recombination of one row with three column dot products: if `u1`,
/// `u2`, `u3` are linear combinations of a point with coefficient grid
/// `k`, and the row `(a1, a2, a3)` pairs with the grid's columns to the
/// sums `s1`, `s2`, `s3`, then the row applied to the negated `u`s is the
/// negated combination of the point with those sums.
proof fn lemma_row_recombine(
    a1: int, a2: int, a3: int,
    k11: int, k12: int, k13: int,
    k21: int, k22: int, k23: int,
    k31: int, k32: int, k33: int,
    px: int, py: int, pz: int,
    u1: int, u2: int, u3: int,
    s1: int, s2: int, s3: int,
)
    requires
        u1 == k11 * px + k12 * py + k13 * pz,
        u2 == k21 * px + k22 * py + k23 * pz,
        u3 == k31 * px + k32 * py + k33 * pz,
        a1 * k11 + a2 * k21 + a3 * k31 == s1,
        a1 * k12 + a2 * k22 + a3 * k32 == s2,
        a1 * k13 + a2 * k23 + a3 * k33 == s3,
    ensures
        a1 * (-u1) + a2 * (-u2) + a3 * (-u3) == -(s1 * px + s2 * py + s3 * pz),
{
    lemma_mul_is_distributive_add(a1, k11 * px + k12 * py, k13 * pz);
    lemma_mul_is_distributive_add(a1, k11 * px, k12 * py);
    lemma_mul_is_associative(a1, k11, px);
    lemma_mul_is_associative(a1, k12, py);
    lemma_mul_is_associative(a1, k13, pz);
    assert(a1 * u1 == (a1 * k11) * px + (a1 * k12) * py + (a1 * k13) * pz);
    lemma_mul_is_distributive_add(a2, k21 * px + k22 * py, k23 * pz);
    lemma_mul_is_distributive_add(a2, k21 * px, k22 * py);
    lemma_mul_is_associative(a2, k21, px);
    lemma_mul_is_associative(a2, k22, py);
    lemma_mul_is_associative(a2, k23, pz);
    assert(a2 * u2 == (a2 * k21) * px + (a2 * k22) * py + (a2 * k23) * pz);
    lemma_mul_is_distributive_add(a3, k31 * px + k32 * py, k33 * pz);
    lemma_mul_is_distributive_add(a3, k31 * px, k32 * py);
    lemma_mul_is_associative(a3, k31, px);
    lemma_mul_is_associative(a3, k32, py);
    lemma_mul_is_associative(a3, k33, pz);
    assert(a3 * u3 == (a3 * k31) * px + (a3 * k32) * py + (a3 * k33) * pz);
    assert((a1 * k11) * px + (a2 * k21) * px + (a3 * k31) * px
        == (a1 * k11 + a2 * k21 + a3 * k31) * px) by (nonlinear_arith);
    assert((a1 * k12) * py + (a2 * k22) * py + (a3 * k32) * py
        == (a1 * k12 + a2 * k22 + a3 * k32) * py) by (nonlinear_arith);
    assert((a1 * k13) * pz + (a2 * k23) * pz + (a3 * k33) * pz
        == (a1 * k13 + a2 * k23 + a3 * k33) * pz) by (nonlinear_arith);
    assert(a1 * (-u1) == -(a1 * u1) && a2 * (-u2) == -(a2 * u2) && a3 * (-u3) == -(a3 * u3))
        by (nonlinear_arith);
}

/// Applying the rotation of `q` to the inverse position undoes applying
/// the transposed rotation to the negated position: row by row, the
/// rotation of `q` carries the position of `pose_inverse` back to
/// `-d4(q)` times the original position.
pub proof fn lemma_inv_position(v: PoseV)
    requires
        is_unit(v.q),
    ensures
        r11(v.q) * pose_inverse(v).p.x + r12(v.q) * pose_inverse(v).p.y
            + r13(v.q) * pose_inverse(v).p.z == -(d4(v.q) * v.p.x),
        r21(v.q) * pose_inverse(v).p.x + r22(v.q) * pose_inverse(v).p.y
            + r23(v.q) * pose_inverse(v).p.z == -(d4(v.q) * v.p.y),
        r31(v.q) * pose_inverse(v).p.x + r32(v.q) * pose_inverse(v).p.y
            + r33(v.q) * pose_inverse(v).p.z == -(d4(v.q) * v.p.z),
{
    let q = v.q;
    let cq = quat_conj(q);
    lemma_conj_transpose(q);
    lemma_rot_rows(q);
    let a11 = r11(q);
    let a12 = r12(q);
    let a13 = r13(q);
    let a21 = r21(q);
    let a22 = r22(q);
    let a23 = r23(q);
    let a31 = r31(q);
    let a32 = r32(q);
    let a33 = r33(q);
    let px = v.p.x;
    let py = v.p.y;
    let pz = v.p.z;
    let ip = pose_inverse(v).p;
    let u1 = a11 * px + a21 * py + a31 * pz;
    let u2 = a12 * px + a22 * py + a32 * pz;
    let u3 = a13 * px + a23 * py + a33 * pz;
    assert(ip.x == -u1 && ip.y == -u2 && ip.z == -u3) by (nonlinear_arith)
        requires
            ip.x == a11 * (-px) + a21 * (-py) + a31 * (-pz),
            ip.y == a12 * (-px) + a22 * (-py) + a32 * (-pz),
            ip.z == a13 * (-px) + a23 * (-py) + a33 * (-pz),
            u1 == a11 * px + a21 * py + a31 * pz,
            u2 == a12 * px + a22 * py + a32 * pz,
            u3 == a13 * px + a23 * py + a33 * pz,
    ;
    assert(a21 * a11 + a22 * a12 + a23 * a13 == a11 * a21 + a12 * a22 + a13 * a23)
        by (nonlinear_arith);
    assert(a31 * a11 + a32 * a12 + a33 * a13 == a11 * a31 + a12 * a32 + a13 * a33)
        by (nonlinear_arith);
    assert(a31 * a21 + a32 * a22 + a33 * a23 == a21 * a31 + a22 * a32 + a23 * a33)
        by (nonlinear_arith);
    lemma_row_recombine(
        a11, a12, a13, a11, a21, a31, a12, a22, a32, a13, a23, a33, px, py, pz, u1, u2, u3,
        d4(q), 0, 0,
    );
    lemma_row_recombine(
        a21, a22, a23, a11, a21, a31, a12, a22, a32, a13, a23, a33, px, py, pz, u1, u2, u3,
        0, d4(q), 0,
    );
    lemma_row_recombine(
        a31, a32, a33, a11, a21, a31, a12, a22, a32, a13, a23, a33, px, py, pz, u1, u2, u3,
        0, 0, d4(q),
    );
}

/// Round trip: for a valid pose, with a unit orientation, inverting the
/// inverse yields the same position and orientation as rational values.
pub proof fn lemma_round_trip(v: PoseV)
    requires
        is_unit(v.q),
    ensures
        pose_value_eq(pose_inverse(pose_inverse(v)), v),
{
    let q = v.q;
    let cq = quat_conj(q);
    let v1 = pose_inverse(v);
    let v2 = pose_inverse(v1);
    lemma_conj_involution(q);
    lemma_inv_position(v);
    let d4v = d4(q);
    assert(quat_conj(v1.q) == q);
    assert(v2.p.x == d4v * v.p.x && v2.p.y == d4v * v.p.y && v2.p.z == d4v * v.p.z)
        by (nonlinear_arith)
        requires
            v2.p.x == r11(q) * (-v1.p.x) + r12(q) * (-v1.p.y) + r13(q) * (-v1.p.z),
            v2.p.y == r21(q) * (-v1.p.x) + r22(q) * (-v1.p.y) + r23(q) * (-v1.p.z),
            v2.p.z == r31(q) * (-v1.p.x) + r32(q) * (-v1.p.y) + r33(q) * (-v1.p.z),
            r11(q) * v1.p.x + r12(q) * v1.p.y + r13(q) * v1.p.z == -(d4v * v.p.x),
            r21(q) * v1.p.x + r22(q) * v1.p.y + r23(q) * v1.p.z == -(d4v * v.p.y),
            r31(q) * v1.p.x + r32(q) * v1.p.y + r33(q) * v1.p.z == -(d4v * v.p.z),
    ;
    assert(v2.p.x * v.p.d == v.p.x * v2.p.d && v2.p.y * v.p.d == v.p.y * v2.p.d
        && v2.p.z * v.p.d == v.p.z * v2.p.d) by (nonlinear_arith)
        requires
            v2.p.x == d4v * v.p.x,
            v2.p.y == d4v * v.p.y,
            v2.p.z == d4v * v.p.z,
            v2.p.d == q.d * q.d * (q.d * q.d * v.p.d),
            d4v == q.d * q.d * q.d * q.d,
    ;
    assert(v2.q == v.q);
}

/// A dot product of two rows, each scaled entry-wise by a factor, equals
/// the product of the factors times the plain dot product.
proof fn lemma_scaled_dot(
    pd: int, ipd: int, b1: int, b2: int, b3: int, c1: int, c2: int, c3: int, s: int,
)
    requires
        b1 * c1 + b2 * c2 + b3 * c3 == s,
    ensures
        (pd * b1) * (ipd * c1) + (pd * b2) * (ipd * c2) + (pd * b3) * (ipd * c3)
            == (pd * ipd) * s,
{
    assert((pd * b1) * (ipd * c1) == (pd * ipd) * (b1 * c1)) by (nonlinear_arith);
    assert((pd * b2) * (ipd * c2) == (pd * ipd) * (b2 * c2)) by (nonlinear_arith);
    assert((pd * b3) * (ipd * c3) == (pd * ipd) * (b3 * c3)) by (nonlinear_arith);
    lemma_mul_is_distributive_add(pd * ipd, b1 * c1 + b2 * c2, b3 * c3);
    lemma_mul_is_distributive_add(pd * ipd, b1 * c1, b2 * c2);
}

/// Identity law: for a valid pose, with a unit orientation, the composed
/// matrix multiplied by the composed matrix of the inverse pose is the
/// 4x4 identity as a rational matrix.
pub proof fn lemma_identity_law(v: PoseV)
    requires
        is_unit(v.q),
    ensures
        m4_value_eq(m4_mul(pose_matrix(v), pose_matrix(pose_inverse(v))), m4_ident()),
{
    let q = v.q;
    let cq = quat_conj(q);
    let v1 = pose_inverse(v);
    let ip = v1.p;
    lemma_conj_transpose(q);
    lemma_rot_rows(q);
    lemma_inv_position(v);
    let a11 = r11(q);
    let a12 = r12(q);
    let a13 = r13(q);
    let a21 = r21(q);
    let a22 = r22(q);
    let a23 = r23(q);
    let a31 = r31(q);
    let a32 = r32(q);
    let a33 = r33(q);
    let pd = v.p.d;
    let dd = q.d * q.d;
    let ipd = ip.d;
    let d4v = d4(q);
    let m1 = pose_matrix(v);
    let m2 = pose_matrix(v1);
    let pm = m4_mul(m1, m2);
    assert(dd * dd == d4v) by (nonlinear_arith)
        requires dd == q.d * q.d, d4v == q.d * q.d * q.d * q.d,
    ;
    assert(ipd == dd * pd);
    assert(m1.m11 == pd * a11 && m1.m12 == pd * a12 && m1.m13 == pd * a13
        && m1.m21 == pd * a21 && m1.m22 == pd * a22 && m1.m23 == pd * a23
        && m1.m31 == pd * a31 && m1.m32 == pd * a32 && m1.m33 == pd * a33
        && m1.m14 == v.p.x * dd && m1.m24 == v.p.y * dd && m1.m34 == v.p.z * dd
        && m1.m41 == 0 && m1.m42 == 0 && m1.m43 == 0
        && m1.m44 == pd * dd && m1.den == pd * dd);
    assert(m2.m11 == ipd * a11 && m2.m12 == ipd * a21 && m2.m13 == ipd * a31
        && m2.m21 == ipd * a12 && m2.m22 == ipd * a22 && m2.m23 == ipd * a32
        && m2.m31 == ipd * a13 && m2.m32 == ipd * a23 && m2.m33 == ipd * a33
        && m2.m14 == ip.x * dd && m2.m24 == ip.y * dd && m2.m34 == ip.z * dd
        && m2.m41 == 0 && m2.m42 == 0 && m2.m43 == 0
        && m2.m44 == ipd * dd && m2.den == ipd * dd);
    // The rotation block: rows of the two scaled matrices pair into the
    // orthogonality sums, commuted where the larger row index comes first.
    assert(a21 * a11 + a22 * a12 + a23 * a13 == a11 * a21 + a12 * a22 + a13 * a23)
        by (nonlinear_arith);
    assert(a31 * a11 + a32 * a12 + a33 * a13 == a11 * a31 + a12 * a32 + a13 * a33)
        by (nonlinear_arith);
    assert(a31 * a21 + a32 * a22 + a33 * a23 == a21 * a31 + a22 * a32 + a23 * a33)
        by (nonlinear_arith);
    assert(m1.m14 * m2.m41 == 0 && m1.m14 * m2.m42 == 0 && m1.m14 * m2.m43 == 0
        && m1.m24 * m2.m41 == 0 && m1.m24 * m2.m42 == 0 && m1.m24 * m2.m43 == 0
        && m1.m34 * m2.m41 == 0 && m1.m34 * m2.m42 == 0 && m1.m34 * m2.m43 == 0)
        by (nonlinear_arith)
        requires
            m2.m41 == 0,
            m2.m42 == 0,
            m2.m43 == 0,
    ;
    lemma_scaled_dot(pd, ipd, a11, a12, a13, a11, a12, a13, d4v);
    lemma_scaled_dot(pd, ipd, a11, a12, a13, a21, a22, a23, 0);
    lemma_scaled_dot(pd, ipd, a11, a12, a13, a31, a32, a33, 0);
    lemma_scaled_dot(pd, ipd, a21, a22, a23, a11, a12, a13, 0);
    lemma_scaled_dot(pd, ipd, a21, a22, a23, a21, a22, a23, d4v);
    lemma_scaled_dot(pd, ipd, a21, a22, a23, a31, a32, a33, 0);
    lemma_scaled_dot(pd, ipd, a31, a32, a33, a11, a12, a13, 0);
    lemma_scaled_dot(pd, ipd, a31, a32, a33, a21, a22, a23, 0);
    lemma_scaled_dot(pd, ipd, a31, a32, a33, a31, a32, a33, d4v);
    assert((pd * dd) * (ipd * dd) == (pd * ipd) * (dd * dd)) by (nonlinear_arith);
    assert(pm.m11 == pm.den && pm.m22 == pm.den && pm.m33 == pm.den);
    assert(pm.m12 == 0 && pm.m13 == 0 && pm.m21 == 0 && pm.m23 == 0 && pm.m31 == 0
        && pm.m32 == 0);
    // The translation column: the rotation applied to the inverse position
    // cancels the original position, row by row.
    assert((pd * a11) * (ip.x * dd) == (pd * dd) * (a11 * ip.x)) by (nonlinear_arith);
    assert((pd * a12) * (ip.y * dd) == (pd * dd) * (a12 * ip.y)) by (nonlinear_arith);
    assert((pd * a13) * (ip.z * dd) == (pd * dd) * (a13 * ip.z)) by (nonlinear_arith);
    assert((pd * a21) * (ip.x * dd) == (pd * dd) * (a21 * ip.x)) by (nonlinear_arith);
    assert((pd * a22) * (ip.y * dd) == (pd * dd) * (a22 * ip.y)) by (nonlinear_arith);
    assert((pd * a23) * (ip.z * dd) == (pd * dd) * (a23 * ip.z)) by (nonlinear_arith);
    assert((pd * a31) * (ip.x * dd) == (pd * dd) * (a31 * ip.x)) by (nonlinear_arith);
    assert((pd * a32) * (ip.y * dd) == (pd * dd) * (a32 * ip.y)) by (nonlinear_arith);
    assert((pd * a33) * (ip.z * dd) == (pd * dd) * (a33 * ip.z)) by (nonlinear_arith);
    lemma_mul_is_distributive_add(pd * dd, a11 * ip.x + a12 * ip.y, a13 * ip.z);
    lemma_mul_is_distributive_add(pd * dd, a11 * ip.x, a12 * ip.y);
    lemma_mul_is_distributive_add(pd * dd, a21 * ip.x + a22 * ip.y, a23 * ip.z);
    lemma_mul_is_distributive_add(pd * dd, a21 * ip.x, a22 * ip.y);
    lemma_mul_is_distributive_add(pd * dd, a31 * ip.x + a32 * ip.y, a33 * ip.z);
    lemma_mul_is_distributive_add(pd * dd, a31 * ip.x, a32 * ip.y);
    assert((pd * dd) * (-(d4v * v.p.x)) == -((pd * dd) * (d4v * v.p.x))) by (nonlinear_arith);
    assert((pd * dd) * (-(d4v * v.p.y)) == -((pd * dd) * (d4v * v.p.y))) by (nonlinear_arith);
    assert((pd * dd) * (-(d4v * v.p.z)) == -((pd * dd) * (d4v * v.p.z))) by (nonlinear_arith);
    assert((v.p.x * dd) * (ipd * dd) == (pd * dd) * (d4v * v.p.x)) by (nonlinear_arith)
        requires ipd == dd * pd, d4v == dd * dd,
    ;
    assert((v.p.y * dd) * (ipd * dd) == (pd * dd) * (d4v * v.p.y)) by (nonlinear_arith)
        requires ipd == dd * pd, d4v == dd * dd,
    ;
    assert((v.p.z * dd) * (ipd * dd) == (pd * dd) * (d4v * v.p.z)) by (nonlinear_arith)
        requires ipd == dd * pd, d4v == dd * dd,
    ;
    assert(pm.m14 == 0 && pm.m24 == 0 && pm.m34 == 0);
    // The bottom row is zero except the corner, which carries the shared
    // denominator.
    assert(pm.m41 == 0 && pm.m42 == 0 && pm.m43 == 0 && pm.m44 == pm.den) by (nonlinear_arith)
        requires
            pm.m41 == m1.m41 * m2.m11 + m1.m42 * m2.m21 + m1.m43 * m2.m31 + m1.m44 * m2.m41,
            pm.m42 == m1.m41 * m2.m12 + m1.m42 * m2.m22 + m1.m43 * m2.m32 + m1.m44 * m2.m42,
            pm.m43 == m1.m41 * m2.m13 + m1.m42 * m2.m23 + m1.m43 * m2.m33 + m1.m44 * m2.m43,
            pm.m44 == m1.m41 * m2.m14 + m1.m42 * m2.m24 + m1.m43 * m2.m34 + m1.m44 * m2.m44,
            pm.den == m1.den * m2.den,
            m1.m41 == 0,
            m1.m42 == 0,
            m1.m43 == 0,
            m2.m41 == 0,
            m2.m42 == 0,
            m2.m43 == 0,
            m1.m44 == m1.den,
            m2.m44 == m2.den,
    ;
}

/// Fixed point: the identity pose is its own inverse, exactly.
pub proof fn lemma_fixed_point()
    ensures
        pose_inverse(pose_identity()) == pose_identity(),
{
    let id = pose_identity();
    let inv = pose_inverse(id);
    lemma_pure_rotation(id);
    assert(inv.q == id.q);
    assert(inv.p.d == 1);
}

/// Pure rotation: with a zero position, the inverse keeps the zero
/// position and conjugates the orientation.
pub proof fn lemma_pure_rotation(v: PoseV)
    requires
        v.p.x == 0,
        v.p.y == 0,
        v.p.z == 0,
    ensures
        pose_inverse(v).q == quat_conj(v.q),
        pose_inverse(v).p.x == 0,
        pose_inverse(v).p.y == 0,
        pose_inverse(v).p.z == 0,
{
    let cq = quat_conj(v.q);
    let ip = pose_inverse(v).p;
    assert(ip.x == 0 && ip.y == 0 && ip.z == 0) by (nonlinear_arith)
        requires
            ip.x == r11(cq) * (-v.p.x) + r12(cq) * (-v.p.y) + r13(cq) * (-v.p.z),
            ip.y == r21(cq) * (-v.p.x) + r22(cq) * (-v.p.y) + r23(cq) * (-v.p.z),
            ip.z == r31(cq) * (-v.p.x) + r32(cq) * (-v.p.y) + r33(cq) * (-v.p.z),
            v.p.x == 0,
            v.p.y == 0,
            v.p.z == 0,
    ;
}

/// Pure translation: with the identity orientation, the inverse keeps the
/// orientation and negates the position as a rational value.
pub proof fn lemma_pure_translation(v: PoseV)
    requires
        v.q.x == 0,
        v.q.y == 0,
        v.q.z == 0,
        v.q.w == v.q.d,
    ensures
        pose_inverse(v).q == v.q,
        pose_inverse(v).p.x * v.p.d == (-v.p.x) * pose_inverse(v).p.d,
        pose_inverse(v).p.y * v.p.d == (-v.p.y) * pose_inverse(v).p.d,
        pose_inverse(v).p.z * v.p.d == (-v.p.z) * pose_inverse(v).p.d,
{
    let q = v.q;
    let d = q.d;
    let cq = quat_conj(q);
    let ip = pose_inverse(v).p;
    assert(r11(cq) == d * d && r12(cq) == 0 && r13(cq) == 0 && r21(cq) == 0 && r22(cq) == d * d
        && r23(cq) == 0 && r31(cq) == 0 && r32(cq) == 0 && r33(cq) == d * d)
        by (nonlinear_arith)
        requires
            cq.x == 0,
            cq.y == 0,
            cq.z == 0,
            cq.d == d,
            r11(cq) == cq.d * cq.d - 2 * (cq.y * cq.y + cq.z * cq.z),
            r12(cq) == 2 * (cq.x * cq.y - cq.z * cq.w),
            r13(cq) == 2 * (cq.x * cq.z + cq.y * cq.w),
            r21(cq) == 2 * (cq.x * cq.y + cq.z * cq.w),
            r22(cq) == cq.d * cq.d - 2 * (cq.x * cq.x + cq.z * cq.z),
            r23(cq) == 2 * (cq.y * cq.z - cq.x * cq.w),
            r31(cq) == 2 * (cq.x * cq.z - cq.y * cq.w),
            r32(cq) == 2 * (cq.y * cq.z + cq.x * cq.w),
            r33(cq) == cq.d * cq.d - 2 * (cq.x * cq.x + cq.y * cq.y),
    ;
    assert(ip.x == d * d * (-v.p.x) && ip.y == d * d * (-v.p.y) && ip.z == d * d * (-v.p.z))
        by (nonlinear_arith)
        requires
            ip.x == r11(cq) * (-v.p.x) + r12(cq) * (-v.p.y) + r13(cq) * (-v.p.z),
            ip.y == r21(cq) * (-v.p.x) + r22(cq) * (-v.p.y) + r23(cq) * (-v.p.z),
            ip.z == r31(cq) * (-v.p.x) + r32(cq) * (-v.p.y) + r33(cq) * (-v.p.z),
            r11(cq) == d * d,
            r22(cq) == d * d,
            r33(cq) == d * d,
            r12(cq) == 0,
            r13(cq) == 0,
            r21(cq) == 0,
            r23(cq) == 0,
            r31(cq) == 0,
            r32(cq) == 0,
    ;
    assert(ip.x * v.p.d == (-v.p.x) * ip.d && ip.y * v.p.d == (-v.p.y) * ip.d
        && ip.z * v.p.d == (-v.p.z) * ip.d) by (nonlinear_arith)
        requires
            ip.x == d * d * (-v.p.x),
            ip.y == d * d * (-v.p.y),
            ip.z == d * d * (-v.p.z),
            ip.d == d * d * v.p.d,
    ;
}

} // verus!
