//! Exact rational points, quaternions and homogeneous 4x4 matrices.
//!
//! A coordinate is a rational number held as an `i128` numerator over a
//! positive `i128` denominator shared by the whole vector or matrix.  All
//! operations below are ring operations (no division), so values stay exact;
//! fixed budgets on the inputs keep every intermediate product inside
//! 128-bit signed arithmetic.

use vstd::prelude::*;

verus! {

/// Largest magnitude allowed for a quaternion component or denominator.
pub const QUAT_LIMIT: i128 = 0x1_0000;

/// Largest magnitude allowed for a stored position component or denominator.
pub const POS_LIMIT: i128 = 0x10_0000_0000_0000_0000_0000_0000;

/// Largest position magnitude on which `matrix` and `Inverse` operate.
pub const OP_LIMIT: i128 = 0x1000_0000_0000_0000;

/// Largest matrix entry magnitude accepted by `Matrix4::multiply`.
pub const ENTRY_LIMIT: i128 = 0x2000_0000_0000_0000;

/// A 3-D point with homogeneous weight 1: the value is (x/d, y/d, z/d).
#[derive(Clone, Copy, PartialEq, Eq, Structural, Debug)]
pub struct Point3 {
    pub x: i128,
    pub y: i128,
    pub z: i128,
    pub d: i128,
}

/// A quaternion (x, y, z, w), each component divided by `d`.
#[derive(Clone, Copy, PartialEq, Eq, Structural, Debug)]
pub struct Quat {
    pub x: i128,
    pub y: i128,
    pub z: i128,
    pub w: i128,
    pub d: i128,
}

/// A homogeneous 4x4 matrix; entry `mij` sits at row `i`, column `j`, and
/// the value of each entry is `mij / den`.  Points are column vectors, so
/// the matrix acts on the left and the translation sits in column 4.
#[derive(Clone, Copy, PartialEq, Eq, Structural, Debug)]
pub struct Matrix4 {
    pub m11: i128, pub m12: i128, pub m13: i128, pub m14: i128,
    pub m21: i128, pub m22: i128, pub m23: i128, pub m24: i128,
    pub m31: i128, pub m32: i128, pub m33: i128, pub m34: i128,
    pub m41: i128, pub m42: i128, pub m43: i128, pub m44: i128,
    pub den: i128,
}

/// Mathematical value of a `Point3`.
pub struct Pt3V {
    pub x: int,
    pub y: int,
    pub z: int,
    pub d: int,
}

/// Mathematical value of a `Quat`.
pub struct QuatV {
    pub x: int,
    pub y: int,
    pub z: int,
    pub w: int,
    pub d: int,
}

/// Mathematical value of a `Matrix4`.
pub struct Mat4V {
    pub m11: int, pub m12: int, pub m13: int, pub m14: int,
    pub m21: int, pub m22: int, pub m23: int, pub m24: int,
    pub m31: int, pub m32: int, pub m33: int, pub m34: int,
    pub m41: int, pub m42: int, pub m43: int, pub m44: int,
    pub den: int,
}

impl View for Point3 {
    type V = Pt3V;

    open spec fn view(&self) -> Pt3V {
        Pt3V { x: self.x as int, y: self.y as int, z: self.z as int, d: self.d as int }
    }
}

impl View for Quat {
    type V = QuatV;

    open spec fn view(&self) -> QuatV {
        QuatV {
            x: self.x as int,
            y: self.y as int,
            z: self.z as int,
            w: self.w as int,
            d: self.d as int,
        }
    }
}

impl View for Matrix4 {
    type V = Mat4V;

    open spec fn view(&self) -> Mat4V {
        Mat4V {
            m11: self.m11 as int, m12: self.m12 as int, m13: self.m13 as int, m14: self.m14 as int,
            m21: self.m21 as int, m22: self.m22 as int, m23: self.m23 as int, m24: self.m24 as int,
            m31: self.m31 as int, m32: self.m32 as int, m33: self.m33 as int, m34: self.m34 as int,
            m41: self.m41 as int, m42: self.m42 as int, m43: self.m43 as int, m44: self.m44 as int,
            den: self.den as int,
        }
    }
}

/// A well-formed point: positive denominator, components within budget.
pub open spec fn pt_wf(p: Pt3V) -> bool {
    &&& 1 <= p.d <= POS_LIMIT as int
    &&& -(POS_LIMIT as int) <= p.x <= POS_LIMIT as int
    &&& -(POS_LIMIT as int) <= p.y <= POS_LIMIT as int
    &&& -(POS_LIMIT as int) <= p.z <= POS_LIMIT as int
}

/// A point small enough for `matrix` and `Inverse` to operate on exactly.
pub open spec fn pt_small(p: Pt3V) -> bool {
    &&& 1 <= p.d <= OP_LIMIT as int
    &&& -(OP_LIMIT as int) <= p.x <= OP_LIMIT as int
    &&& -(OP_LIMIT as int) <= p.y <= OP_LIMIT as int
    &&& -(OP_LIMIT as int) <= p.z <= OP_LIMIT as int
}

/// A well-formed quaternion: positive denominator, components within budget.
pub open spec fn quat_wf(q: QuatV) -> bool {
    &&& 1 <= q.d <= QUAT_LIMIT as int
    &&& -(QUAT_LIMIT as int) <= q.x <= QUAT_LIMIT as int
    &&& -(QUAT_LIMIT as int) <= q.y <= QUAT_LIMIT as int
    &&& -(QUAT_LIMIT as int) <= q.z <= QUAT_LIMIT as int
    &&& -(QUAT_LIMIT as int) <= q.w <= QUAT_LIMIT as int
}

/// A genuine unit quaternion: the squared component sum equals the squared
/// denominator, so the represented rational 4-vector has norm 1.
pub open spec fn is_unit(q: QuatV) -> bool {
    q.x * q.x + q.y * q.y + q.z * q.z + q.w * q.w == q.d * q.d
}

/// The quaternion conjugate, which inverts a unit quaternion's rotation.
pub open spec fn quat_conj(q: QuatV) -> QuatV {
    QuatV { x: -q.x, y: -q.y, z: -q.z, w: q.w, d: q.d }
}

/// Two points denote the same rational vector.
pub open spec fn pt_value_eq(a: Pt3V, b: Pt3V) -> bool {
    &&& a.x * b.d == b.x * a.d
    &&& a.y * b.d == b.y * a.d
    &&& a.z * b.d == b.z * a.d
}

/// Two quaternions denote the same rational 4-vector.
pub open spec fn quat_value_eq(a: QuatV, b: QuatV) -> bool {
    &&& a.x * b.d == b.x * a.d
    &&& a.y * b.d == b.y * a.d
    &&& a.z * b.d == b.z * a.d
    &&& a.w * b.d == b.w * a.d
}

/// Two matrices denote the same rational 4x4 matrix.
pub open spec fn m4_value_eq(a: Mat4V, b: Mat4V) -> bool {
    &&& a.m11 * b.den == b.m11 * a.den
    &&& a.m12 * b.den == b.m12 * a.den
    &&& a.m13 * b.den == b.m13 * a.den
    &&& a.m14 * b.den == b.m14 * a.den
    &&& a.m21 * b.den == b.m21 * a.den
    &&& a.m22 * b.den == b.m22 * a.den
    &&& a.m23 * b.den == b.m23 * a.den
    &&& a.m24 * b.den == b.m24 * a.den
    &&& a.m31 * b.den == b.m31 * a.den
    &&& a.m32 * b.den == b.m32 * a.den
    &&& a.m33 * b.den == b.m33 * a.den
    &&& a.m34 * b.den == b.m34 * a.den
    &&& a.m41 * b.den == b.m41 * a.den
    &&& a.m42 * b.den == b.m42 * a.den
    &&& a.m43 * b.den == b.m43 * a.den
    &&& a.m44 * b.den == b.m44 * a.den
}

/// Entries of the integer rotation matrix of `q`, scaled by `q.d * q.d`:
/// dividing each entry by the squared denominator gives the usual rotation
/// matrix of the unit quaternion (x, y, z, w) / d.
pub open spec fn r11(q: QuatV) -> int {
    q.d * q.d - 2 * (q.y * q.y + q.z * q.z)
}

pub open spec fn r12(q: QuatV) -> int {
    2 * (q.x * q.y - q.z * q.w)
}

pub open spec fn r13(q: QuatV) -> int {
    2 * (q.x * q.z + q.y * q.w)
}

pub open spec fn r21(q: QuatV) -> int {
    2 * (q.x * q.y + q.z * q.w)
}

pub open spec fn r22(q: QuatV) -> int {
    q.d * q.d - 2 * (q.x * q.x + q.z * q.z)
}

pub open spec fn r23(q: QuatV) -> int {
    2 * (q.y * q.z - q.x * q.w)
}

pub open spec fn r31(q: QuatV) -> int {
    2 * (q.x * q.z - q.y * q.w)
}

pub open spec fn r32(q: QuatV) -> int {
    2 * (q.y * q.z + q.x * q.w)
}

pub open spec fn r33(q: QuatV) -> int {
    q.d * q.d - 2 * (q.x * q.x + q.y * q.y)
}

/// The homogeneous rotation matrix of `q`, with denominator `q.d * q.d`.
pub open spec fn rot_mat(q: QuatV) -> Mat4V {
    Mat4V {
        m11: r11(q), m12: r12(q), m13: r13(q), m14: 0,
        m21: r21(q), m22: r22(q), m23: r23(q), m24: 0,
        m31: r31(q), m32: r32(q), m33: r33(q), m34: 0,
        m41: 0, m42: 0, m43: 0, m44: q.d * q.d,
        den: q.d * q.d,
    }
}

/// The homogeneous translation matrix of `p`, with denominator `p.d`.
pub open spec fn trans_mat(p: Pt3V) -> Mat4V {
    Mat4V {
        m11: p.d, m12: 0, m13: 0, m14: p.x,
        m21: 0, m22: p.d, m23: 0, m24: p.y,
        m31: 0, m32: 0, m33: p.d, m34: p.z,
        m41: 0, m42: 0, m43: 0, m44: p.d,
        den: p.d,
    }
}

/// The 4x4 identity matrix.
pub open spec fn m4_ident() -> Mat4V {
    Mat4V {
        m11: 1, m12: 0, m13: 0, m14: 0,
        m21: 0, m22: 1, m23: 0, m24: 0,
        m31: 0, m32: 0, m33: 1, m34: 0,
        m41: 0, m42: 0, m43: 0, m44: 1,
        den: 1,
    }
}

/// Exact matrix product: numerators multiply row by column and the
/// denominators multiply.
pub open spec fn m4_mul(a: Mat4V, b: Mat4V) -> Mat4V {
    Mat4V {
        m11: a.m11 * b.m11 + a.m12 * b.m21 + a.m13 * b.m31 + a.m14 * b.m41,
        m12: a.m11 * b.m12 + a.m12 * b.m22 + a.m13 * b.m32 + a.m14 * b.m42,
        m13: a.m11 * b.m13 + a.m12 * b.m23 + a.m13 * b.m33 + a.m14 * b.m43,
        m14: a.m11 * b.m14 + a.m12 * b.m24 + a.m13 * b.m34 + a.m14 * b.m44,
        m21: a.m21 * b.m11 + a.m22 * b.m21 + a.m23 * b.m31 + a.m24 * b.m41,
        m22: a.m21 * b.m12 + a.m22 * b.m22 + a.m23 * b.m32 + a.m24 * b.m42,
        m23: a.m21 * b.m13 + a.m22 * b.m23 + a.m23 * b.m33 + a.m24 * b.m43,
        m24: a.m21 * b.m14 + a.m22 * b.m24 + a.m23 * b.m34 + a.m24 * b.m44,
        m31: a.m31 * b.m11 + a.m32 * b.m21 + a.m33 * b.m31 + a.m34 * b.m41,
        m32: a.m31 * b.m12 + a.m32 * b.m22 + a.m33 * b.m32 + a.m34 * b.m42,
        m33: a.m31 * b.m13 + a.m32 * b.m23 + a.m33 * b.m33 + a.m34 * b.m43,
        m34: a.m31 * b.m14 + a.m32 * b.m24 + a.m33 * b.m34 + a.m34 * b.m44,
        m41: a.m41 * b.m11 + a.m42 * b.m21 + a.m43 * b.m31 + a.m44 * b.m41,
        m42: a.m41 * b.m12 + a.m42 * b.m22 + a.m43 * b.m32 + a.m44 * b.m42,
        m43: a.m41 * b.m13 + a.m42 * b.m23 + a.m43 * b.m33 + a.m44 * b.m43,
        m44: a.m41 * b.m14 + a.m42 * b.m24 + a.m43 * b.m34 + a.m44 * b.m44,
        den: a.den * b.den,
    }
}

/// Every entry of `m` has magnitude at most `b`, and the denominator is
/// positive and at most `b`.
pub open spec fn m4_bounded(m: Mat4V, b: int) -> bool {
    &&& 0 < m.den <= b
    &&& -b <= m.m11 <= b && -b <= m.m12 <= b && -b <= m.m13 <= b && -b <= m.m14 <= b
    &&& -b <= m.m21 <= b && -b <= m.m22 <= b && -b <= m.m23 <= b && -b <= m.m24 <= b
    &&& -b <= m.m31 <= b && -b <= m.m32 <= b && -b <= m.m33 <= b && -b <= m.m34 <= b
    &&& -b <= m.m41 <= b && -b <= m.m42 <= b && -b <= m.m43 <= b && -b <= m.m44 <= b
}

/// Bounds the magnitude of a product by the product of the bounds.
pub proof fn lemma_mul_bound(a: int, b: int, la: int, lb: int) by (nonlinear_arith)
    requires
        -la <= a <= la,
        -lb <= b <= lb,
        0 <= la,
        0 <= lb,
    ensures
        -(la * lb) <= a * b <= la * lb,
{
}

/// A product of positive factors is positive.
pub proof fn lemma_mul_pos(a: int, b: int) by (nonlinear_arith)
    requires
        0 < a,
        0 < b,
    ensures
        0 < a * b,
{
}

/// Exact dot product of two rows of four entries within the entry budget.
fn dot4(a0: i128, a1: i128, a2: i128, a3: i128, b0: i128, b1: i128, b2: i128, b3: i128)
    -> (r: i128)
    requires
        -ENTRY_LIMIT <= a0 <= ENTRY_LIMIT,
        -ENTRY_LIMIT <= a1 <= ENTRY_LIMIT,
        -ENTRY_LIMIT <= a2 <= ENTRY_LIMIT,
        -ENTRY_LIMIT <= a3 <= ENTRY_LIMIT,
        -ENTRY_LIMIT <= b0 <= ENTRY_LIMIT,
        -ENTRY_LIMIT <= b1 <= ENTRY_LIMIT,
        -ENTRY_LIMIT <= b2 <= ENTRY_LIMIT,
        -ENTRY_LIMIT <= b3 <= ENTRY_LIMIT,
    ensures
        r == a0 * b0 + a1 * b1 + a2 * b2 + a3 * b3,
{
    proof {
        lemma_mul_bound(a0 as int, b0 as int, ENTRY_LIMIT as int, ENTRY_LIMIT as int);
        lemma_mul_bound(a1 as int, b1 as int, ENTRY_LIMIT as int, ENTRY_LIMIT as int);
        lemma_mul_bound(a2 as int, b2 as int, ENTRY_LIMIT as int, ENTRY_LIMIT as int);
        lemma_mul_bound(a3 as int, b3 as int, ENTRY_LIMIT as int, ENTRY_LIMIT as int);
    }
    a0 * b0 + a1 * b1 + a2 * b2 + a3 * b3
}

impl Matrix4 {
    /// The exact product `self * rhs` in the column-vector convention:
    /// applying the result first rotates or translates by `rhs`, then by
    /// `self`.
    pub fn multiply(&self, rhs: &Matrix4) -> (r: Matrix4)
        requires
            m4_bounded(self@, ENTRY_LIMIT as int),
            m4_bounded(rhs@, ENTRY_LIMIT as int),
        ensures
            r@ == m4_mul(self@, rhs@),
    {
        proof {
            lemma_mul_bound(self.den as int, rhs.den as int, ENTRY_LIMIT as int, ENTRY_LIMIT as int);
            lemma_mul_pos(self.den as int, rhs.den as int);
        }
        Matrix4 {
            m11: dot4(self.m11, self.m12, self.m13, self.m14, rhs.m11, rhs.m21, rhs.m31, rhs.m41),
            m12: dot4(self.m11, self.m12, self.m13, self.m14, rhs.m12, rhs.m22, rhs.m32, rhs.m42),
            m13: dot4(self.m11, self.m12, self.m13, self.m14, rhs.m13, rhs.m23, rhs.m33, rhs.m43),
            m14: dot4(self.m11, self.m12, self.m13, self.m14, rhs.m14, rhs.m24, rhs.m34, rhs.m44),
            m21: dot4(self.m21, self.m22, self.m23, self.m24, rhs.m11, rhs.m21, rhs.m31, rhs.m41),
            m22: dot4(self.m21, self.m22, self.m23, self.m24, rhs.m12, rhs.m22, rhs.m32, rhs.m42),
            m23: dot4(self.m21, self.m22, self.m23, self.m24, rhs.m13, rhs.m23, rhs.m33, rhs.m43),
            m24: dot4(self.m21, self.m22, self.m23, self.m24, rhs.m14, rhs.m24, rhs.m34, rhs.m44),
            m31: dot4(self.m31, self.m32, self.m33, self.m34, rhs.m11, rhs.m21, rhs.m31, rhs.m41),
            m32: dot4(self.m31, self.m32, self.m33, self.m34, rhs.m12, rhs.m22, rhs.m32, rhs.m42),
            m33: dot4(self.m31, self.m32, self.m33, self.m34, rhs.m13, rhs.m23, rhs.m33, rhs.m43),
            m34: dot4(self.m31, self.m32, self.m33, self.m34, rhs.m14, rhs.m24, rhs.m34, rhs.m44),
            m41: dot4(self.m41, self.m42, self.m43, self.m44, rhs.m11, rhs.m21, rhs.m31, rhs.m41),
            m42: dot4(self.m41, self.m42, self.m43, self.m44, rhs.m12, rhs.m22, rhs.m32, rhs.m42),
            m43: dot4(self.m41, self.m42, self.m43, self.m44, rhs.m13, rhs.m23, rhs.m33, rhs.m43),
            m44: dot4(self.m41, self.m42, self.m43, self.m44, rhs.m14, rhs.m24, rhs.m34, rhs.m44),
            den: self.den * rhs.den,
        }
    }
}

/// Builds the homogeneous translation matrix of `p`; no arithmetic is
/// involved, the components are placed in column 4 over denominator `p.d`.
pub fn translation_matrix(p: &Point3) -> (r: Matrix4)
    ensures
        r@ == trans_mat(p@),
{
    Matrix4 {
        m11: p.d, m12: 0, m13: 0, m14: p.x,
        m21: 0, m22: p.d, m23: 0, m24: p.y,
        m31: 0, m32: 0, m33: p.d, m34: p.z,
        m41: 0, m42: 0, m43: 0, m44: p.d,
        den: p.d,
    }
}

/// Builds the homogeneous rotation matrix of `q` over denominator
/// `q.d * q.d`; for a unit `q` this is a proper rotation.
pub fn rotation_matrix(q: &Quat) -> (r: Matrix4)
    requires
        quat_wf(q@),
    ensures
        r@ == rot_mat(q@),
{
    proof {
        let l = QUAT_LIMIT as int;
        lemma_mul_bound(q.x as int, q.x as int, l, l);
        lemma_mul_bound(q.y as int, q.y as int, l, l);
        lemma_mul_bound(q.z as int, q.z as int, l, l);
        lemma_mul_bound(q.w as int, q.w as int, l, l);
        lemma_mul_bound(q.d as int, q.d as int, l, l);
        lemma_mul_bound(q.x as int, q.y as int, l, l);
        lemma_mul_bound(q.z as int, q.w as int, l, l);
        lemma_mul_bound(q.x as int, q.z as int, l, l);
        lemma_mul_bound(q.y as int, q.w as int, l, l);
        lemma_mul_bound(q.y as int, q.z as int, l, l);
        lemma_mul_bound(q.x as int, q.w as int, l, l);
    }
    let dd: i128 = q.d * q.d;
    Matrix4 {
        m11: dd - 2 * (q.y * q.y + q.z * q.z),
        m12: 2 * (q.x * q.y - q.z * q.w),
        m13: 2 * (q.x * q.z + q.y * q.w),
        m14: 0,
        m21: 2 * (q.x * q.y + q.z * q.w),
        m22: dd - 2 * (q.x * q.x + q.z * q.z),
        m23: 2 * (q.y * q.z - q.x * q.w),
        m24: 0,
        m31: 2 * (q.x * q.z - q.y * q.w),
        m32: 2 * (q.y * q.z + q.x * q.w),
        m33: dd - 2 * (q.x * q.x + q.y * q.y),
        m34: 0,
        m41: 0, m42: 0, m43: 0, m44: dd,
        den: dd,
    }
}

} // verus!
