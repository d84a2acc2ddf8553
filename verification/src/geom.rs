//! Exact integer geometry: vectors, rotation quaternions, and affine
//! transforms.
//!
//! A `Quat` carries integer components and need not be normalized: it stands
//! for the rotation of its real-valued normalization, applied by the
//! conjugation formula with an exact division by the squared norm, rounded
//! toward zero. Every ninety-degree rotation about a principal axis is
//! representable exactly (for instance `x = 1, w = 1` for a quarter turn
//! about the first axis).

use vstd::prelude::*;
use crate::scalar::div_trunc;
use crate::scalar::lemma_mul_bound;
use crate::scalar::lemma_tdiv_bound;
use crate::scalar::lemma_tdiv_exact;
use crate::scalar::tdiv;

verus! {

/// Largest magnitude allowed for a vertex coordinate or translation
/// component.
pub const COORD_MAX: i64 = 16777216;

/// Largest magnitude allowed for a scale component.
pub const SCALE_MAX: i64 = 1024;

/// Largest magnitude allowed for a quaternion component.
pub const QUAT_MAX: i64 = 1024;

/// Largest magnitude a vector may have when it enters a rotation:
/// a coordinate already multiplied by a scale component.
pub const ROT_IN_MAX: i64 = SCALE_MAX * COORD_MAX;

/// Largest magnitude of one entry of the (norm-scaled) rotation matrix.
pub const MAT_MAX: i64 = 4 * QUAT_MAX * QUAT_MAX;

/// Largest magnitude a rotated coordinate can reach before the division by
/// the squared norm.
pub const ROT_NUM_MAX: i64 = 3 * MAT_MAX * ROT_IN_MAX;

/// A 3-component integer vector: a vertex coordinate triple or a direction.
#[derive(Clone, Copy, PartialEq, Eq, Structural, Debug)]
pub struct Vec3 {
    pub x: i64,
    pub y: i64,
    pub z: i64,
}

/// The mathematical value of a `Vec3`: the same triple over unbounded
/// integers.
pub struct V3 {
    pub x: int,
    pub y: int,
    pub z: int,
}

impl View for Vec3 {
    type V = V3;

    open spec fn view(&self) -> V3 {
        V3 { x: self.x as int, y: self.y as int, z: self.z as int }
    }
}

impl Vec3 {
    /// Every component is within `b` of zero.
    pub open spec fn bounded(self, b: int) -> bool {
        -b <= self.x <= b && -b <= self.y <= b && -b <= self.z <= b
    }
}

/// A rotation, as an integer quaternion with vector part `(x, y, z)` and
/// scalar part `w`.
#[derive(Clone, Copy, PartialEq, Eq, Structural, Debug)]
pub struct Quat {
    pub x: i64,
    pub y: i64,
    pub z: i64,
    pub w: i64,
}

/// Squared norm of a quaternion.
pub open spec fn norm2(q: Quat) -> int {
    q.w * q.w + q.x * q.x + q.y * q.y + q.z * q.z
}

/// First coordinate of `v` rotated by `q`: the first row of the rotation
/// matrix of `q`, scaled by the squared norm, applied to `v` and divided
/// back, rounding toward zero.
pub open spec fn rot_x(q: Quat, vx: int, vy: int, vz: int) -> int {
    tdiv(
        (q.w * q.w + q.x * q.x - q.y * q.y - q.z * q.z) * vx + 2 * (q.x * q.y - q.w * q.z) * vy + 2
            * (q.x * q.z + q.w * q.y) * vz,
        norm2(q),
    )
}

/// Second coordinate of `v` rotated by `q`.
pub open spec fn rot_y(q: Quat, vx: int, vy: int, vz: int) -> int {
    tdiv(
        2 * (q.x * q.y + q.w * q.z) * vx + (q.w * q.w - q.x * q.x + q.y * q.y - q.z * q.z) * vy + 2
            * (q.y * q.z - q.w * q.x) * vz,
        norm2(q),
    )
}

/// Third coordinate of `v` rotated by `q`.
pub open spec fn rot_z(q: Quat, vx: int, vy: int, vz: int) -> int {
    tdiv(
        2 * (q.x * q.z - q.w * q.y) * vx + 2 * (q.y * q.z + q.w * q.x) * vy + (q.w * q.w - q.x
            * q.x - q.y * q.y + q.z * q.z) * vz,
        norm2(q),
    )
}

/// `v` rotated by `q`, as a mathematical triple.
pub open spec fn rot_v(q: Quat, v: V3) -> V3 {
    V3 {
        x: rot_x(q, v.x, v.y, v.z),
        y: rot_y(q, v.x, v.y, v.z),
        z: rot_z(q, v.x, v.y, v.z),
    }
}

impl Quat {
    /// A usable rotation: not the zero quaternion, components bounded.
    pub open spec fn wf(self) -> bool {
        norm2(self) >= 1 && -QUAT_MAX <= self.x <= QUAT_MAX && -QUAT_MAX <= self.y <= QUAT_MAX
            && -QUAT_MAX <= self.z <= QUAT_MAX && -QUAT_MAX <= self.w <= QUAT_MAX
    }

    /// The rotation is the identity: with exact integer components the
    /// numerical tolerance of "near identity" collapses to the vector part
    /// being exactly zero.
    pub open spec fn is_identity(self) -> bool {
        self.x == 0 && self.y == 0 && self.z == 0
    }

    /// Tests whether this rotation leaves every vector in place.
    pub fn is_near_identity(&self) -> (r: bool)
        ensures
            r == self.is_identity(),
    {
        self.x == 0 && self.y == 0 && self.z == 0
    }

    /// Rotates a direction vector. Directions never carry scale or
    /// translation.
    pub fn rotate(&self, v: Vec3) -> (r: Vec3)
        requires
            self.wf(),
            v.bounded(COORD_MAX as int),
        ensures
            r@ == rot_v(*self, v@),
            r.bounded(ROT_NUM_MAX as int),
    {
        rotate_raw(self, v.x, v.y, v.z)
    }
}

/// Rotates the integer vector `(vx, vy, vz)` by `q`: forms the rotation
/// matrix of `q` scaled by the squared norm, applies it, and divides each
/// coordinate back, rounding toward zero.
fn rotate_raw(q: &Quat, vx: i64, vy: i64, vz: i64) -> (r: Vec3)
    requires
        q.wf(),
        -ROT_IN_MAX <= vx <= ROT_IN_MAX,
        -ROT_IN_MAX <= vy <= ROT_IN_MAX,
        -ROT_IN_MAX <= vz <= ROT_IN_MAX,
    ensures
        r.x as int == rot_x(*q, vx as int, vy as int, vz as int),
        r.y as int == rot_y(*q, vx as int, vy as int, vz as int),
        r.z as int == rot_z(*q, vx as int, vy as int, vz as int),
        r.bounded(ROT_NUM_MAX as int),
{
    proof {
        let qm = QUAT_MAX as int;
        lemma_mul_bound(q.w as int, q.w as int, qm, qm);
        lemma_mul_bound(q.x as int, q.x as int, qm, qm);
        lemma_mul_bound(q.y as int, q.y as int, qm, qm);
        lemma_mul_bound(q.z as int, q.z as int, qm, qm);
        lemma_mul_bound(q.x as int, q.y as int, qm, qm);
        lemma_mul_bound(q.x as int, q.z as int, qm, qm);
        lemma_mul_bound(q.y as int, q.z as int, qm, qm);
        lemma_mul_bound(q.w as int, q.x as int, qm, qm);
        lemma_mul_bound(q.w as int, q.y as int, qm, qm);
        lemma_mul_bound(q.w as int, q.z as int, qm, qm);
    }
    let ww: i64 = q.w * q.w;
    let xx: i64 = q.x * q.x;
    let yy: i64 = q.y * q.y;
    let zz: i64 = q.z * q.z;
    let xy: i64 = q.x * q.y;
    let xz: i64 = q.x * q.z;
    let yz: i64 = q.y * q.z;
    let wx: i64 = q.w * q.x;
    let wy: i64 = q.w * q.y;
    let wz: i64 = q.w * q.z;
    let n: i64 = ww + xx + yy + zz;
    let m00: i64 = ww + xx - yy - zz;
    let m01: i64 = 2 * (xy - wz);
    let m02: i64 = 2 * (xz + wy);
    let m10: i64 = 2 * (xy + wz);
    let m11: i64 = ww - xx + yy - zz;
    let m12: i64 = 2 * (yz - wx);
    let m20: i64 = 2 * (xz - wy);
    let m21: i64 = 2 * (yz + wx);
    let m22: i64 = ww - xx - yy + zz;
    proof {
        let mm = MAT_MAX as int;
        let vm = ROT_IN_MAX as int;
        lemma_mul_bound(m00 as int, vx as int, mm, vm);
        lemma_mul_bound(m01 as int, vy as int, mm, vm);
        lemma_mul_bound(m02 as int, vz as int, mm, vm);
        lemma_mul_bound(m10 as int, vx as int, mm, vm);
        lemma_mul_bound(m11 as int, vy as int, mm, vm);
        lemma_mul_bound(m12 as int, vz as int, mm, vm);
        lemma_mul_bound(m20 as int, vx as int, mm, vm);
        lemma_mul_bound(m21 as int, vy as int, mm, vm);
        lemma_mul_bound(m22 as int, vz as int, mm, vm);
    }
    let nx: i64 = m00 * vx + m01 * vy + m02 * vz;
    let ny: i64 = m10 * vx + m11 * vy + m12 * vz;
    let nz: i64 = m20 * vx + m21 * vy + m22 * vz;
    proof {
        lemma_tdiv_bound(nx as int, n as int);
        lemma_tdiv_bound(ny as int, n as int);
        lemma_tdiv_bound(nz as int, n as int);
    }
    Vec3 { x: div_trunc(nx, n), y: div_trunc(ny, n), z: div_trunc(nz, n) }
}

/// The identity rotation leaves every vector exactly in place.
pub proof fn lemma_rotate_identity(q: Quat, v: V3)
    requires
        q.wf(),
        q.is_identity(),
    ensures
        rot_v(q, v) == v,
{
    assert((q.w * q.w + q.x * q.x - q.y * q.y - q.z * q.z) * v.x + 2 * (q.x * q.y - q.w * q.z)
        * v.y + 2 * (q.x * q.z + q.w * q.y) * v.z == v.x * norm2(q)) by (nonlinear_arith)
        requires
            q.x == 0,
            q.y == 0,
            q.z == 0,
    ;
    assert(2 * (q.x * q.y + q.w * q.z) * v.x + (q.w * q.w - q.x * q.x + q.y * q.y - q.z * q.z)
        * v.y + 2 * (q.y * q.z - q.w * q.x) * v.z == v.y * norm2(q)) by (nonlinear_arith)
        requires
            q.x == 0,
            q.y == 0,
            q.z == 0,
    ;
    assert(2 * (q.x * q.z - q.w * q.y) * v.x + 2 * (q.y * q.z + q.w * q.x) * v.y + (q.w * q.w - q.x
        * q.x - q.y * q.y + q.z * q.z) * v.z == v.z * norm2(q)) by (nonlinear_arith)
        requires
            q.x == 0,
            q.y == 0,
            q.z == 0,
    ;
    lemma_tdiv_exact(v.x, norm2(q));
    lemma_tdiv_exact(v.y, norm2(q));
    lemma_tdiv_exact(v.z, norm2(q));
}

/// A rigid-plus-scale affine transform: scale first, then rotation, then
/// translation, the order in which scene hierarchies compose the three
/// factors.
#[derive(Clone, Copy, PartialEq, Eq, Structural, Debug)]
pub struct Transform {
    pub translation: Vec3,
    pub rotation: Quat,
    pub scale: Vec3,
}

/// A point transformed by the full affine transform: scaled, rotated, then
/// translated.
pub open spec fn tp_v(t: Transform, p: V3) -> V3 {
    let sx = t.scale.x * p.x;
    let sy = t.scale.y * p.y;
    let sz = t.scale.z * p.z;
    V3 {
        x: rot_x(t.rotation, sx, sy, sz) + t.translation.x,
        y: rot_y(t.rotation, sx, sy, sz) + t.translation.y,
        z: rot_z(t.rotation, sx, sy, sz) + t.translation.z,
    }
}

impl Transform {
    /// A usable transform: rotation well formed, scale and translation
    /// bounded.
    pub open spec fn wf(self) -> bool {
        self.rotation.wf() && self.scale.bounded(SCALE_MAX as int) && self.translation.bounded(
            COORD_MAX as int,
        )
    }

    /// The whole transform is the identity: no translation, identity
    /// rotation, unit scale.
    pub open spec fn is_identity(self) -> bool {
        self.rotation.is_identity() && self.translation.x == 0 && self.translation.y == 0
            && self.translation.z == 0 && self.scale.x == 1 && self.scale.y == 1 && self.scale.z
            == 1
    }

    /// The identity transform.
    pub fn identity() -> (r: Transform)
        ensures
            r.wf(),
            r.is_identity(),
    {
        Transform {
            translation: Vec3 { x: 0, y: 0, z: 0 },
            rotation: Quat { x: 0, y: 0, z: 0, w: 1 },
            scale: Vec3 { x: 1, y: 1, z: 1 },
        }
    }

    /// Applies the full affine transform to a point: scale, then rotation,
    /// then translation.
    pub fn transform_point(&self, p: Vec3) -> (r: Vec3)
        requires
            self.wf(),
            p.bounded(COORD_MAX as int),
        ensures
            r@ == tp_v(*self, p@),
    {
        proof {
            lemma_mul_bound(self.scale.x as int, p.x as int, SCALE_MAX as int, COORD_MAX as int);
            lemma_mul_bound(self.scale.y as int, p.y as int, SCALE_MAX as int, COORD_MAX as int);
            lemma_mul_bound(self.scale.z as int, p.z as int, SCALE_MAX as int, COORD_MAX as int);
        }
        let sx: i64 = self.scale.x * p.x;
        let sy: i64 = self.scale.y * p.y;
        let sz: i64 = self.scale.z * p.z;
        let r = rotate_raw(&self.rotation, sx, sy, sz);
        Vec3 {
            x: r.x + self.translation.x,
            y: r.y + self.translation.y,
            z: r.z + self.translation.z,
        }
    }
}

/// The identity transform maps every point to itself.
pub proof fn lemma_transform_point_identity(t: Transform, p: V3)
    requires
        t.wf(),
        t.is_identity(),
    ensures
        tp_v(t, p) == p,
{
    assert(1 * p.x == p.x) by (nonlinear_arith);
    assert(1 * p.y == p.y) by (nonlinear_arith);
    assert(1 * p.z == p.z) by (nonlinear_arith);
    lemma_rotate_identity(t.rotation, p);
}

/// Under identity rotation and unit scale, a point moves by exactly the
/// translation vector.
pub proof fn lemma_transform_point_translation(t: Transform, p: V3)
    requires
        t.wf(),
        t.rotation.is_identity(),
        t.scale.x == 1 && t.scale.y == 1 && t.scale.z == 1,
    ensures
        tp_v(t, p) == (V3 {
            x: p.x + t.translation.x,
            y: p.y + t.translation.y,
            z: p.z + t.translation.z,
        }),
{
    assert(1 * p.x == p.x) by (nonlinear_arith);
    assert(1 * p.y == p.y) by (nonlinear_arith);
    assert(1 * p.z == p.z) by (nonlinear_arith);
    lemma_rotate_identity(t.rotation, p);
}

} // verus!
