//! The mesh and the baking operation.
//!
//! A `Mesh` owns up to three per-vertex attribute buffers: positions,
//! normals and tangents, each either absent or a sequence of coordinate
//! triples. Baking applies an affine transform permanently to the vertex
//! data: positions receive the full transform (scale, then rotation, then
//! translation); normals and tangents receive the rotation only, since
//! directions are unaffected by translation and no inverse-transpose
//! correction is attempted for non-uniform scale — a deliberate, documented
//! approximation, exact only for uniform scale or pure rotation.
//!
//! When the rotation is the identity, the normal and tangent passes are
//! skipped entirely: those buffers are returned untouched.

use vstd::prelude::*;
use crate::geom::COORD_MAX;
use crate::geom::Quat;
use crate::geom::Transform;
use crate::geom::V3;
use crate::geom::Vec3;
use crate::geom::lemma_rotate_identity;
use crate::geom::lemma_transform_point_identity;
use crate::geom::lemma_transform_point_translation;
use crate::geom::rot_v;
use crate::geom::tp_v;

verus! {

/// A mesh: optional per-vertex position, normal and tangent buffers.
/// An absent buffer is simply skipped by every operation; it is never an
/// error.
#[derive(Clone, PartialEq, Debug)]
pub struct Mesh {
    pub positions: Option<Vec<Vec3>>,
    pub normals: Option<Vec<Vec3>>,
    pub tangents: Option<Vec<Vec3>>,
}

/// The mathematical value of a buffer: the sequence of its coordinate
/// triples.
pub open spec fn buf_view(b: Option<Vec<Vec3>>) -> Option<Seq<V3>> {
    match b {
        None => None,
        Some(v) => Some(v@.map_values(|p: Vec3| p@)),
    }
}

/// The mathematical value of a mesh: its three optional sequences.
#[verifier::ext_equal]
pub struct MeshView {
    pub positions: Option<Seq<V3>>,
    pub normals: Option<Seq<V3>>,
    pub tangents: Option<Seq<V3>>,
}

impl View for Mesh {
    type V = MeshView;

    open spec fn view(&self) -> MeshView {
        MeshView {
            positions: buf_view(self.positions),
            normals: buf_view(self.normals),
            tangents: buf_view(self.tangents),
        }
    }
}

/// Every triple of a buffer has all components within `bound` of zero.
pub open spec fn buf_bounded(b: Option<Vec<Vec3>>, bound: int) -> bool {
    match b {
        None => true,
        Some(v) => forall|i: int| 0 <= i < v@.len() ==> (#[trigger] v@[i]).bounded(bound),
    }
}

/// Maps a present buffer elementwise; an absent buffer stays absent.
pub open spec fn map_buf(b: Option<Seq<V3>>, f: spec_fn(V3) -> V3) -> Option<Seq<V3>> {
    match b {
        None => None,
        Some(s) => Some(s.map_values(f)),
    }
}

/// Number of triples in a buffer; zero when absent.
pub open spec fn buf_len(b: Option<Seq<V3>>) -> nat {
    match b {
        None => 0,
        Some(s) => s.len(),
    }
}

/// What baking a mesh value with `t` yields: positions fully transformed,
/// directions rotated only, and both direction buffers left untouched when
/// the rotation is the identity.
pub open spec fn bake_spec(m: MeshView, t: Transform) -> MeshView {
    MeshView {
        positions: map_buf(m.positions, |p: V3| tp_v(t, p)),
        normals: if t.rotation.is_identity() {
            m.normals
        } else {
            map_buf(m.normals, |v: V3| rot_v(t.rotation, v))
        },
        tangents: if t.rotation.is_identity() {
            m.tangents
        } else {
            map_buf(m.tangents, |v: V3| rot_v(t.rotation, v))
        },
    }
}

impl Mesh {
    /// A mesh the baking operation accepts: every coordinate within the
    /// range that keeps the integer arithmetic exact.
    pub open spec fn wf(self) -> bool {
        buf_bounded(self.positions, COORD_MAX as int) && buf_bounded(
            self.normals,
            COORD_MAX as int,
        ) && buf_bounded(self.tangents, COORD_MAX as int)
    }

    /// A mesh with no attribute buffers at all.
    pub fn empty() -> (r: Mesh)
        ensures
            r@.positions is None,
            r@.normals is None,
            r@.tangents is None,
            r.wf(),
    {
        Mesh { positions: None, normals: None, tangents: None }
    }
}

/// Replaces each triple of `ps` by the fully transformed point.
fn transform_points(ps: &mut Vec<Vec3>, t: &Transform)
    requires
        t.wf(),
        forall|i: int| 0 <= i < old(ps)@.len() ==> (#[trigger] old(ps)@[i]).bounded(
            COORD_MAX as int,
        ),
    ensures
        final(ps)@.map_values(|p: Vec3| p@) == old(ps)@.map_values(|p: Vec3| p@).map_values(
            |p: V3| tp_v(*t, p),
        ),
{
    let mut i: usize = 0;
    while i < ps.len()
        invariant
            t.wf(),
            i <= ps@.len(),
            ps@.len() == old(ps)@.len(),
            forall|j: int| 0 <= j < i ==> (#[trigger] ps@[j])@ == tp_v(*t, old(ps)@[j]@),
            forall|j: int| i <= j < ps@.len() ==> ps@[j] == old(ps)@[j],
            forall|j: int| 0 <= j < old(ps)@.len() ==> (#[trigger] old(ps)@[j]).bounded(
                COORD_MAX as int,
            ),
        decreases ps@.len() - i,
    {
        let p = ps[i];
        let w = t.transform_point(p);
        ps.set(i, w);
        i = i + 1;
    }
    proof {
        assert(ps@.map_values(|p: Vec3| p@) =~= old(ps)@.map_values(|p: Vec3| p@).map_values(
            |p: V3| tp_v(*t, p),
        ));
    }
}

/// Replaces each triple of `vs` by the rotated direction.
fn rotate_dirs(vs: &mut Vec<Vec3>, q: &Quat)
    requires
        q.wf(),
        forall|i: int| 0 <= i < old(vs)@.len() ==> (#[trigger] old(vs)@[i]).bounded(
            COORD_MAX as int,
        ),
    ensures
        final(vs)@.map_values(|p: Vec3| p@) == old(vs)@.map_values(|p: Vec3| p@).map_values(
            |v: V3| rot_v(*q, v),
        ),
{
    let mut i: usize = 0;
    while i < vs.len()
        invariant
            q.wf(),
            i <= vs@.len(),
            vs@.len() == old(vs)@.len(),
            forall|j: int| 0 <= j < i ==> (#[trigger] vs@[j])@ == rot_v(*q, old(vs)@[j]@),
            forall|j: int| i <= j < vs@.len() ==> vs@[j] == old(vs)@[j],
            forall|j: int| 0 <= j < old(vs)@.len() ==> (#[trigger] old(vs)@[j]).bounded(
                COORD_MAX as int,
            ),
        decreases vs@.len() - i,
    {
        let p = vs[i];
        let w = q.rotate(p);
        vs.set(i, w);
        i = i + 1;
    }
    proof {
        assert(vs@.map_values(|p: Vec3| p@) =~= old(vs)@.map_values(|p: Vec3| p@).map_values(
            |v: V3| rot_v(*q, v),
        ));
    }
}

/// Baking: applying a transform permanently to a value's own data, as
/// opposed to carrying the transform beside it.
pub trait Bake<T>: Sized {
    /// The inputs on which baking is defined.
    spec fn bake_req(self, transform: T) -> bool;

    /// The exact relation between the input, the transform and the result.
    spec fn bake_ens(self, transform: T, r: Self) -> bool;

    /// Applies `transform` to the receiver's own data and returns the
    /// receiver, so that calls can be chained.
    fn bake(self, transform: T) -> (r: Self)
        requires
            self.bake_req(transform),
        ensures
            self.bake_ens(transform, r),
    ;
}

impl Bake<Transform> for Mesh {
    /// Both values must be within the exact-arithmetic ranges.
    open spec fn bake_req(self, transform: Transform) -> bool {
        self.wf() && transform.wf()
    }

    /// The result is exactly `bake_spec` of the mesh value.
    open spec fn bake_ens(self, transform: Transform, r: Mesh) -> bool {
        r@ == bake_spec(self@, transform)
    }

    fn bake(self, transform: Transform) -> (r: Mesh) {
        let Mesh { positions, normals, tangents } = self;
        let positions = match positions {
            None => None,
            Some(mut v) => {
                transform_points(&mut v, &transform);
                Some(v)
            },
        };
        // Directions are unaffected by an identity rotation: skip both
        // passes entirely.
        if transform.rotation.is_near_identity() {
            return Mesh { positions, normals, tangents };
        }
        let normals = match normals {
            None => None,
            Some(mut v) => {
                rotate_dirs(&mut v, &transform.rotation);
                Some(v)
            },
        };
        let tangents = match tangents {
            None => None,
            Some(mut v) => {
                rotate_dirs(&mut v, &transform.rotation);
                Some(v)
            },
        };
        Mesh { positions, normals, tangents }
    }
}

/// Baking with the identity transform leaves the mesh value unchanged.
pub proof fn lemma_bake_identity(m: MeshView, t: Transform)
    requires
        t.wf(),
        t.is_identity(),
    ensures
        bake_spec(m, t) == m,
{
    match m.positions {
        None => {},
        Some(s) => {
            assert forall|i: int| 0 <= i < s.len() implies s.map_values(|p: V3| tp_v(t, p))[i]
                == s[i] by {
                lemma_transform_point_identity(t, s[i]);
            }
            assert(s.map_values(|p: V3| tp_v(t, p)) =~= s);
        },
    }
}

/// Baking with identity rotation and unit scale shifts every position by
/// exactly the translation vector and leaves normals and tangents
/// untouched.
pub proof fn lemma_bake_pure_translation(m: MeshView, t: Transform)
    requires
        t.wf(),
        t.rotation.is_identity(),
        t.scale.x == 1 && t.scale.y == 1 && t.scale.z == 1,
    ensures
        bake_spec(m, t).normals == m.normals,
        bake_spec(m, t).tangents == m.tangents,
        bake_spec(m, t).positions == map_buf(
            m.positions,
            |p: V3| (V3 {
                x: p.x + t.translation.x,
                y: p.y + t.translation.y,
                z: p.z + t.translation.z,
            }),
        ),
{
    match m.positions {
        None => {},
        Some(s) => {
            let shift = |p: V3|
                (V3 {
                    x: p.x + t.translation.x,
                    y: p.y + t.translation.y,
                    z: p.z + t.translation.z,
                });
            assert forall|i: int| 0 <= i < s.len() implies s.map_values(|p: V3| tp_v(t, p))[i]
                == s.map_values(shift)[i] by {
                lemma_transform_point_translation(t, s[i]);
            }
            assert(s.map_values(|p: V3| tp_v(t, p)) =~= s.map_values(shift));
        },
    }
}

/// Baking twice with the identity transform is the same as baking once.
pub proof fn lemma_bake_identity_idempotent(m: MeshView, t: Transform)
    requires
        t.wf(),
        t.is_identity(),
    ensures
        bake_spec(bake_spec(m, t), t) == bake_spec(m, t),
{
    lemma_bake_identity(m, t);
    lemma_bake_identity(bake_spec(m, t), t);
}

/// Baking never invents or discards a buffer and never changes a buffer's
/// length: an absent buffer stays absent, a present one keeps its vertex
/// count, so buffers of equal length stay of equal length.
pub proof fn lemma_bake_preserves_layout(m: MeshView, t: Transform)
    ensures
        (bake_spec(m, t).positions is Some) <==> (m.positions is Some),
        (bake_spec(m, t).normals is Some) <==> (m.normals is Some),
        (bake_spec(m, t).tangents is Some) <==> (m.tangents is Some),
        buf_len(bake_spec(m, t).positions) == buf_len(m.positions),
        buf_len(bake_spec(m, t).normals) == buf_len(m.normals),
        buf_len(bake_spec(m, t).tangents) == buf_len(m.tangents),
{
}

/// Every normal and tangent of a baked mesh is the original direction
/// rotated alone: scale and translation never reach a direction buffer.
/// This holds through the fast path as well, because an identity rotation
/// fixes every direction.
pub proof fn lemma_bake_rotates_directions(m: MeshView, t: Transform, i: int)
    requires
        t.wf(),
    ensures
        m.normals is Some && 0 <= i < buf_len(m.normals) ==> (bake_spec(
            m,
            t,
        ).normals matches Some(ns) && ns[i] == rot_v(t.rotation, m.normals->Some_0[i])),
        m.tangents is Some && 0 <= i < buf_len(m.tangents) ==> (bake_spec(
            m,
            t,
        ).tangents matches Some(ts) && ts[i] == rot_v(t.rotation, m.tangents->Some_0[i])),
{
    if t.rotation.is_identity() {
        if m.normals is Some && 0 <= i < buf_len(m.normals) {
            lemma_rotate_identity(t.rotation, m.normals->Some_0[i]);
        }
        if m.tangents is Some && 0 <= i < buf_len(m.tangents) {
            lemma_rotate_identity(t.rotation, m.tangents->Some_0[i]);
        }
    }
}

} // verus!
