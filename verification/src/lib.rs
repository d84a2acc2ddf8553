//! Verified mesh baking.
//!
//! A mesh owns optional per-vertex attribute buffers (positions, normals,
//! tangents). Baking permanently applies an affine transform — scale, then
//! rotation, then translation — to the position buffer, and the rotation
//! alone to the normal and tangent buffers, so the mesh can afterwards be
//! treated as already standing in its final pose.
//!
//! All coordinates are exact integers (fixed-point values chosen by the
//! caller); rotations are integer quaternions applied by conjugation and
//! exact division by the squared norm, rounded toward zero.

pub mod geom;
pub mod mesh;
pub mod scalar;
