//! The rigid transform itself: a position and a unit quaternion, with the
//! translation and rotation matrices derived once at construction, a
//! composed homogeneous matrix, and a closed-form inverse.

use vstd::prelude::*;

use crate::linalg::{
    lemma_mul_bound, lemma_mul_pos, m4_bounded, m4_mul, pt_small, pt_wf, quat_conj,
    quat_wf, r11, r12, r13, r21, r22, r23, r31, r32, r33, rot_mat, rotation_matrix, trans_mat,
    translation_matrix, Mat4V, Matrix4, Point3, Pt3V, Quat, QuatV, ENTRY_LIMIT, OP_LIMIT,
    QUAT_LIMIT,
};

verus! {

/// Magnitude bound on an entry of the integer rotation matrix of a
/// well-formed quaternion: `5 * QUAT_LIMIT * QUAT_LIMIT`.
pub const ROT_LIMIT: i128 = 0x5_0000_0000;

/// Mathematical value of a rigid transform: the (position, orientation)
/// pair it was built from.
pub struct PoseV {
    pub p: Pt3V,
    pub q: QuatV,
}

/// The identity pose: zero translation, identity quaternion.
pub open spec fn pose_identity() -> PoseV {
    PoseV {
        p: Pt3V { x: 0, y: 0, z: 0, d: 1 },
        q: QuatV { x: 0, y: 0, z: 0, w: 1, d: 1 },
    }
}

/// The composed homogeneous matrix of a pose: translate of rotate, so the
/// rotation applies to a point first and the translation is added after.
pub open spec fn pose_matrix(v: PoseV) -> Mat4V {
    m4_mul(trans_mat(v.p), rot_mat(v.q))
}

/// The inverse pose: the conjugate orientation, and the translation column
/// of the conjugated translation matrix `R^-1 * T^-1 * R`, which equals
/// the rotation matrix of the conjugate applied to the negated position,
/// over denominator `q.d * q.d * p.d`.
pub open spec fn pose_inverse(v: PoseV) -> PoseV {
    let cq = quat_conj(v.q);
    PoseV {
        p: Pt3V {
            x: r11(cq) * (-v.p.x) + r12(cq) * (-v.p.y) + r13(cq) * (-v.p.z),
            y: r21(cq) * (-v.p.x) + r22(cq) * (-v.p.y) + r23(cq) * (-v.p.z),
            z: r31(cq) * (-v.p.x) + r32(cq) * (-v.p.y) + r33(cq) * (-v.p.z),
            d: v.q.d * v.q.d * v.p.d,
        },
        q: cq,
    }
}

/// Two poses denote the same position and orientation as rational values.
pub open spec fn pose_value_eq(a: PoseV, b: PoseV) -> bool {
    &&& crate::linalg::pt_value_eq(a.p, b.p)
    &&& crate::linalg::quat_value_eq(a.q, b.q)
}

/// The entries of the integer rotation matrix of a well-formed quaternion
/// stay within `ROT_LIMIT`, and its denominator is positive.
pub proof fn lemma_rot_mat_bounded(q: QuatV)
    requires
        quat_wf(q),
    ensures
        m4_bounded(rot_mat(q), ROT_LIMIT as int),
        m4_bounded(rot_mat(q), ENTRY_LIMIT as int),
{
    let l = QUAT_LIMIT as int;
    lemma_mul_bound(q.x, q.x, l, l);
    lemma_mul_bound(q.y, q.y, l, l);
    lemma_mul_bound(q.z, q.z, l, l);
    lemma_mul_bound(q.w, q.w, l, l);
    lemma_mul_bound(q.d, q.d, l, l);
    lemma_mul_bound(q.x, q.y, l, l);
    lemma_mul_bound(q.z, q.w, l, l);
    lemma_mul_bound(q.x, q.z, l, l);
    lemma_mul_bound(q.y, q.w, l, l);
    lemma_mul_bound(q.y, q.z, l, l);
    lemma_mul_bound(q.x, q.w, l, l);
    lemma_mul_pos(q.d, q.d);
}

/// A rigid spatial transform: a 3-D position and a quaternion orientation,
/// with the translation matrix `T` and rotation matrix `R` of the pair
/// derived at construction and never mutated afterwards.
///
/// The orientation is meant to be a unit quaternion (`is_unit`); this is a
/// documented precondition of the rotation semantics, not an enforced one:
/// construction performs no normalization, and a non-unit orientation
/// yields a scaled, non-rigid rotation matrix, exactly as stored.
pub struct XRRigidTransform {
    position: Point3,
    orientation: Quat,
    translate: Matrix4,
    rotate: Matrix4,
}

impl View for XRRigidTransform {
    type V = PoseV;

    closed spec fn view(&self) -> PoseV {
        PoseV { p: self.position@, q: self.orientation@ }
    }
}

impl XRRigidTransform {
    /// Well-formed transform: both components within their budgets, and the
    /// cached matrices are exactly those derived from the components.
    pub closed spec fn wf(&self) -> bool {
        &&& pt_wf(self@.p)
        &&& quat_wf(self@.q)
        &&& self.translate@ == trans_mat(self@.p)
        &&& self.rotate@ == rot_mat(self@.q)
    }

    /// Builds a transform from a position and an orientation, deriving and
    /// caching the translation and rotation matrices.  The orientation is
    /// not normalized here; callers own that responsibility.
    pub fn new(position: Point3, orientation: Quat) -> (r: XRRigidTransform)
        requires
            pt_wf(position@),
            quat_wf(orientation@),
        ensures
            r@ == (PoseV { p: position@, q: orientation@ }),
            r.wf(),
    {
        let translate = translation_matrix(&position);
        let rotate = rotation_matrix(&orientation);
        XRRigidTransform { position, orientation, translate, rotate }
    }

    /// The identity transform: position (0, 0, 0), orientation (0, 0, 0, 1).
    pub fn identity() -> (r: XRRigidTransform)
        ensures
            r@ == pose_identity(),
            r.wf(),
    {
        XRRigidTransform::new(
            Point3 { x: 0, y: 0, z: 0, d: 1 },
            Quat { x: 0, y: 0, z: 0, w: 1, d: 1 },
        )
    }

    /// The stored position.
    #[allow(non_snake_case)]
    pub fn Position(&self) -> (r: Point3)
        ensures
            r@ == self@.p,
    {
        self.position
    }

    /// The stored orientation.
    #[allow(non_snake_case)]
    pub fn Orientation(&self) -> (r: Quat)
        ensures
            r@ == self@.q,
    {
        self.orientation
    }

    /// The composed homogeneous matrix `T * R`: a point is rotated by the
    /// orientation first, then translated by the position.
    pub fn matrix(&self) -> (r: Matrix4)
        requires
            self.wf(),
            pt_small(self@.p),
        ensures
            r@ == pose_matrix(self@),
    {
        proof {
            lemma_rot_mat_bounded(self@.q);
        }
        self.translate.multiply(&self.rotate)
    }

    /// The transform that undoes this one, as a new (position, orientation)
    /// pair built through `new`.
    ///
    /// With `M = T * R`, the raw inverse `R^-1 * T^-1` is re-associated as
    /// `(R^-1 * T^-1 * R) * R^-1 = T' * R'`: the orientation of the result
    /// is the conjugate quaternion, and its position is the translation
    /// column of the pure translation `T' = R^-1 * T^-1 * R`.  Since the
    /// last column of `R` is (0, 0, 0, den), that column equals, as a
    /// rational value, the last column of `R^-1 * T^-1`, which is what the
    /// body reads off; `crate::laws::lemma_identity_law` certifies that the
    /// re-associated pair undoes this transform exactly.
    #[allow(non_snake_case)]
    pub fn Inverse(&self) -> (r: XRRigidTransform)
        requires
            self.wf(),
            pt_small(self@.p),
        ensures
            r@ == pose_inverse(self@),
            r.wf(),
    {
        let cq = Quat {
            x: -self.orientation.x,
            y: -self.orientation.y,
            z: -self.orientation.z,
            w: self.orientation.w,
            d: self.orientation.d,
        };
        let r_inv = rotation_matrix(&cq);
        let neg_pos = Point3 {
            x: -self.position.x,
            y: -self.position.y,
            z: -self.position.z,
            d: self.position.d,
        };
        let t_inv = translation_matrix(&neg_pos);
        proof {
            lemma_rot_mat_bounded(cq@);
        }
        let m = r_inv.multiply(&t_inv);
        proof {
            let rl = ROT_LIMIT as int;
            let ol = OP_LIMIT as int;
            lemma_mul_bound(r11(cq@), -self@.p.x, rl, ol);
            lemma_mul_bound(r12(cq@), -self@.p.y, rl, ol);
            lemma_mul_bound(r13(cq@), -self@.p.z, rl, ol);
            lemma_mul_bound(r21(cq@), -self@.p.x, rl, ol);
            lemma_mul_bound(r22(cq@), -self@.p.y, rl, ol);
            lemma_mul_bound(r23(cq@), -self@.p.z, rl, ol);
            lemma_mul_bound(r31(cq@), -self@.p.x, rl, ol);
            lemma_mul_bound(r32(cq@), -self@.p.y, rl, ol);
            lemma_mul_bound(r33(cq@), -self@.p.z, rl, ol);
            lemma_mul_bound(cq@.d, cq@.d, QUAT_LIMIT as int, QUAT_LIMIT as int);
            lemma_mul_pos(cq@.d, cq@.d);
            lemma_mul_bound(cq@.d * cq@.d, self@.p.d, 0x1_0000_0000, ol);
            lemma_mul_pos(cq@.d * cq@.d, self@.p.d);
        }
        let new_pos = Point3 { x: m.m14, y: m.m24, z: m.m34, d: m.den };
        XRRigidTransform::new(new_pos, cq)
    }
}

} // verus!
