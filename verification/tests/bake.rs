use mesh_bake::geom::Quat;
use mesh_bake::geom::Transform;
use mesh_bake::geom::Vec3;
use mesh_bake::mesh::Bake;
use mesh_bake::mesh::Mesh;

fn v(x: i64, y: i64, z: i64) -> Vec3 {
    Vec3 { x, y, z }
}

fn sample_mesh() -> Mesh {
    Mesh {
        positions: Some(vec![v(1, 0, 0), v(0, 1, 0), v(65536, -65536, 4096)]),
        normals: Some(vec![v(1, 0, 0), v(0, 1, 0), v(0, 0, 1)]),
        tangents: Some(vec![v(0, 0, 1), v(1, 0, 0), v(0, 1, 0)]),
    }
}

fn identity() -> Transform {
    Transform {
        translation: v(0, 0, 0),
        rotation: Quat { x: 0, y: 0, z: 0, w: 1 },
        scale: v(1, 1, 1),
    }
}

#[test]
fn identity_bake_changes_nothing() {
    let m = sample_mesh();
    let baked = m.clone().bake(identity());
    assert_eq!(baked, m);
}

#[test]
fn pure_translation_shifts_positions_only() {
    let m = sample_mesh();
    let t = Transform {
        translation: v(5, -3, 2),
        rotation: Quat { x: 0, y: 0, z: 0, w: 1 },
        scale: v(1, 1, 1),
    };
    let baked = m.clone().bake(t);
    assert_eq!(
        baked.positions,
        Some(vec![v(6, -3, 2), v(5, -2, 2), v(65541, -65539, 4098)])
    );
    assert_eq!(baked.normals, m.normals);
    assert_eq!(baked.tangents, m.tangents);
}

#[test]
fn quarter_turn_rotates_positions_and_normals_alike() {
    let m = Mesh {
        positions: Some(vec![v(1, 0, 0)]),
        normals: Some(vec![v(1, 0, 0)]),
        tangents: None,
    };
    let t = Transform {
        translation: v(0, 0, 0),
        rotation: Quat { x: 0, y: 0, z: 1, w: 1 },
        scale: v(1, 1, 1),
    };
    let baked = m.bake(t);
    assert_eq!(baked.positions, Some(vec![v(0, 1, 0)]));
    assert_eq!(baked.normals, Some(vec![v(0, 1, 0)]));
}

#[test]
fn combined_transform_scales_positions_but_not_normals() {
    let m = Mesh {
        positions: Some(vec![v(1, 0, 0)]),
        normals: Some(vec![v(1, 0, 0)]),
        tangents: None,
    };
    let t = Transform {
        translation: v(0, 1, 0),
        rotation: Quat { x: 0, y: 1, z: 0, w: 0 },
        scale: v(2, 1, 1),
    };
    let baked = m.bake(t);
    // Position: scaled to (2,0,0), half-turned to (-2,0,0), shifted to (-2,1,0).
    assert_eq!(baked.positions, Some(vec![v(-2, 1, 0)]));
    // Normal: rotation only, no scale, no translation.
    assert_eq!(baked.normals, Some(vec![v(-1, 0, 0)]));
}

#[test]
fn missing_tangents_are_skipped() {
    let m = Mesh {
        positions: Some(vec![v(1, 2, 3)]),
        normals: Some(vec![v(0, 0, 1)]),
        tangents: None,
    };
    let t = Transform {
        translation: v(1, 1, 1),
        rotation: Quat { x: 1, y: 0, z: 0, w: 1 },
        scale: v(1, 1, 1),
    };
    let baked = m.bake(t);
    assert!(baked.tangents.is_none());
    assert_eq!(baked.positions, Some(vec![v(2, -2, 3)]));
    assert_eq!(baked.normals, Some(vec![v(0, -1, 0)]));
}

#[test]
fn mesh_with_no_buffers_bakes_to_itself() {
    let m = Mesh::empty();
    let t = Transform {
        translation: v(9, 9, 9),
        rotation: Quat { x: 1, y: 1, z: 1, w: 1 },
        scale: v(3, 3, 3),
    };
    let baked = m.bake(t);
    assert!(baked.positions.is_none());
    assert!(baked.normals.is_none());
    assert!(baked.tangents.is_none());
}

#[test]
fn empty_buffers_stay_empty() {
    let m = Mesh {
        positions: Some(vec![]),
        normals: Some(vec![]),
        tangents: Some(vec![]),
    };
    let baked = m.bake(identity());
    assert_eq!(baked.positions, Some(vec![]));
    assert_eq!(baked.normals, Some(vec![]));
    assert_eq!(baked.tangents, Some(vec![]));
}

#[test]
fn near_identity_rotation_skips_direction_passes() {
    // Translation and scale are non-trivial, but the rotation is an
    // identity: directions must come back untouched.
    let m = sample_mesh();
    let t = Transform {
        translation: v(100, 200, 300),
        rotation: Quat { x: 0, y: 0, z: 0, w: 5 },
        scale: v(2, 2, 2),
    };
    let baked = m.clone().bake(t);
    assert_eq!(baked.normals, m.normals);
    assert_eq!(baked.tangents, m.tangents);
    assert_eq!(
        baked.positions,
        Some(vec![
            v(102, 200, 300),
            v(100, 202, 300),
            v(131172, -130872, 8492)
        ])
    );
}

#[test]
fn identity_bake_twice_equals_once() {
    let m = sample_mesh();
    let once = m.clone().bake(identity());
    let twice = m.bake(identity()).bake(identity());
    assert_eq!(twice, once);
}

#[test]
fn bakes_chain_fluently() {
    let quarter = Transform {
        translation: v(0, 0, 0),
        rotation: Quat { x: 0, y: 0, z: 1, w: 1 },
        scale: v(1, 1, 1),
    };
    let m = Mesh {
        positions: Some(vec![v(1, 0, 0)]),
        normals: None,
        tangents: None,
    };
    let baked = m.bake(quarter).bake(quarter);
    assert_eq!(baked.positions, Some(vec![v(-1, 0, 0)]));
}

#[test]
fn truncation_shows_up_in_direction_buffers() {
    let m = Mesh {
        positions: None,
        normals: Some(vec![v(0, 65536, 0), v(0, -65536, 0)]),
        tangents: None,
    };
    let t = Transform {
        translation: v(0, 0, 0),
        rotation: Quat { x: 1, y: 0, z: 0, w: 2 },
        scale: v(1, 1, 1),
    };
    let baked = m.bake(t);
    assert_eq!(
        baked.normals,
        Some(vec![v(0, 39321, 52428), v(0, -39321, -52428)])
    );
}
