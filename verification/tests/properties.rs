use frustum_culling::{Aabb, Affine3, CascadesFrusta, CubemapFrusta, Frustum, HalfSpace, Mat3, Sphere, Vec3, Vec4};

fn b(x: f32) -> u32 {
    x.to_bits()
}

fn f(x: u32) -> f32 {
    f32::from_bits(x)
}

fn v3(x: f32, y: f32, z: f32) -> Vec3 {
    Vec3::new(b(x), b(y), b(z))
}

fn v4(x: f32, y: f32, z: f32, w: f32) -> Vec4 {
    Vec4::new(b(x), b(y), b(z), b(w))
}

fn identity_affine() -> Affine3 {
    Affine3 {
        matrix3: Mat3 {
            x_axis: v3(1.0, 0.0, 0.0),
            y_axis: v3(0.0, 1.0, 0.0),
            z_axis: v3(0.0, 0.0, 1.0),
        },
        translation: v3(0.0, 0.0, 0.0),
    }
}

/// The cube `(-1, 1)^3` as a frustum: left, right, top, bottom planes,
/// then near (`z > -1`, index 4) and far (`z < 1`, index 5).
fn cube_frustum() -> Frustum {
    Frustum {
        half_spaces: [
            HalfSpace::new(v4(1.0, 0.0, 0.0, 1.0)),
            HalfSpace::new(v4(-1.0, 0.0, 0.0, 1.0)),
            HalfSpace::new(v4(0.0, 1.0, 0.0, 1.0)),
            HalfSpace::new(v4(0.0, -1.0, 0.0, 1.0)),
            HalfSpace::new(v4(0.0, 0.0, 1.0, 1.0)),
            HalfSpace::new(v4(0.0, 0.0, -1.0, 1.0)),
        ],
    }
}

#[test]
fn from_min_max_exact_values() {
    let aabb = Aabb::from_min_max(v3(1.0, -2.0, 0.0), v3(3.0, 4.0, 10.0));
    assert_eq!(aabb.center, v3(2.0, 1.0, 5.0));
    assert_eq!(aabb.half_extents, v3(1.0, 3.0, 5.0));
    assert_eq!(aabb.min(), v3(1.0, -2.0, 0.0));
    assert_eq!(aabb.max(), v3(3.0, 4.0, 10.0));
}

#[test]
fn enclosing_bounds_every_point() {
    let points = vec![
        v3(-1.5, 2.25, 0.5),
        v3(3.5, -1.25, 0.5),
        v3(0.0, 0.0, 7.0),
    ];
    let aabb = Aabb::enclosing(&points).unwrap();
    assert_eq!(aabb.min(), v3(-1.5, -1.25, 0.5));
    assert_eq!(aabb.max(), v3(3.5, 2.25, 7.0));
    let (min, max) = (aabb.min(), aabb.max());
    for p in &points {
        assert!(f(min.x) <= f(p.x) && f(p.x) <= f(max.x));
        assert!(f(min.y) <= f(p.y) && f(p.y) <= f(max.y));
        assert!(f(min.z) <= f(p.z) && f(p.z) <= f(max.z));
    }
    // Tightness: each bound equals some point's coordinate.
    assert!(points.iter().any(|p| p.x == min.x));
    assert!(points.iter().any(|p| p.y == min.y));
    assert!(points.iter().any(|p| p.z == min.z));
    assert!(points.iter().any(|p| p.x == max.x));
    assert!(points.iter().any(|p| p.y == max.y));
    assert!(points.iter().any(|p| p.z == max.z));
}

#[test]
fn half_space_new_normalizes() {
    let hs = HalfSpace::new(v4(3.0, 0.0, 0.0, 6.0));
    assert_eq!(hs.normal(), v3(1.0, 0.0, 0.0));
    assert_eq!(hs.d(), b(2.0));

    let hs = HalfSpace::new(v4(1.0, 2.0, 2.0, 3.0));
    let n = hs.normal();
    assert_eq!(n, v3(1.0 / 3.0, 2.0 / 3.0, 2.0 / 3.0));
    assert_eq!(hs.d(), b(1.0));
    let len = (f(n.x) * f(n.x) + f(n.y) * f(n.y) + f(n.z) * f(n.z)).sqrt();
    assert!((len - 1.0).abs() < 1.0e-6);

    let hs = HalfSpace::new(v4(0.3, -0.7, 1.1, -4.2));
    let n = hs.normal();
    let len = (f(n.x) * f(n.x) + f(n.y) * f(n.y) + f(n.z) * f(n.z)).sqrt();
    assert!((len - 1.0).abs() < 1.0e-6);
}

#[test]
fn half_space_accessors_pack_normal_and_distance() {
    let hs = HalfSpace::new(v4(0.0, 5.0, 0.0, -10.0));
    assert_eq!(hs.normal_d(), v4(0.0, 1.0, 0.0, -2.0));
    assert_eq!(hs.normal(), v3(0.0, 1.0, 0.0));
    assert_eq!(hs.d(), b(-2.0));
}

#[test]
fn aabb_relative_radius_axis_aligned() {
    let aabb = Aabb { center: v3(0.0, 0.0, 0.0), half_extents: v3(1.0, 2.0, 3.0) };
    let m = identity_affine().matrix3;
    assert_eq!(aabb.relative_radius(&v3(1.0, 0.0, 0.0), &m), b(1.0));
    assert_eq!(aabb.relative_radius(&v3(0.0, -1.0, 0.0), &m), b(2.0));
    assert_eq!(aabb.relative_radius(&v3(0.0, 0.0, 1.0), &m), b(3.0));
}

#[test]
fn sphere_intersects_obb_by_distance() {
    let aabb = Aabb { center: v3(0.0, 0.0, 0.0), half_extents: v3(1.0, 1.0, 1.0) };
    let transform = identity_affine();
    let near = Sphere { center: v3(1.5, 0.0, 0.0), radius: b(1.0) };
    assert!(near.intersects_obb(&aabb, &transform));
    let far_away = Sphere { center: v3(2.5, 0.0, 0.0), radius: b(1.0) };
    assert!(!far_away.intersects_obb(&aabb, &transform));
    // Exact touching is not an intersection: the comparison is strict.
    let touching = Sphere { center: v3(2.0, 0.0, 0.0), radius: b(1.0) };
    assert!(!touching.intersects_obb(&aabb, &transform));
}

#[test]
fn aabb_from_sphere_round_trip() {
    let sphere = Sphere { center: v3(1.0, 2.0, 3.0), radius: b(2.0) };
    let aabb = Aabb::from(sphere.clone());
    assert_eq!(aabb.center, sphere.center);
    assert_eq!(aabb.half_extents, v3(2.0, 2.0, 2.0));
    assert_eq!(aabb.half_extents, Vec3 { x: sphere.radius, y: sphere.radius, z: sphere.radius });
}

#[test]
fn intersects_sphere_far_toggle_only_changes_far_plane() {
    let frustum = cube_frustum();
    let beyond_far = Sphere { center: v3(0.0, 0.0, 2.5), radius: b(1.0) };
    assert!(!frustum.intersects_sphere(&beyond_far, true));
    assert!(frustum.intersects_sphere(&beyond_far, false));

    let inside = Sphere { center: v3(0.0, 0.0, 0.0), radius: b(0.5) };
    assert!(frustum.intersects_sphere(&inside, true));
    assert!(frustum.intersects_sphere(&inside, false));

    let beyond_left = Sphere { center: v3(-2.5, 0.0, 0.0), radius: b(1.0) };
    assert!(!frustum.intersects_sphere(&beyond_left, true));
    assert!(!frustum.intersects_sphere(&beyond_left, false));
}

#[test]
fn intersects_obb_near_far_toggles() {
    let frustum = cube_frustum();
    let transform = identity_affine();
    let beyond_far = Aabb { center: v3(0.0, 0.0, 2.5), half_extents: v3(0.5, 0.5, 0.5) };
    assert!(!frustum.intersects_obb(&beyond_far, &transform, true, true));
    assert!(!frustum.intersects_obb(&beyond_far, &transform, false, true));
    assert!(frustum.intersects_obb(&beyond_far, &transform, true, false));

    let beyond_near = Aabb { center: v3(0.0, 0.0, -2.5), half_extents: v3(0.5, 0.5, 0.5) };
    assert!(!frustum.intersects_obb(&beyond_near, &transform, true, true));
    assert!(!frustum.intersects_obb(&beyond_near, &transform, true, false));
    assert!(frustum.intersects_obb(&beyond_near, &transform, false, true));
}

#[test]
fn contains_aabb_implies_intersects_obb() {
    let frustum = cube_frustum();
    let transform = identity_affine();
    let inside = Aabb { center: v3(0.0, 0.0, 0.0), half_extents: v3(0.5, 0.5, 0.5) };
    assert!(frustum.contains_aabb(&inside, &transform));
    assert!(frustum.intersects_obb(&inside, &transform, true, true));

    // The converse fails: a box straddling every plane intersects but is
    // not contained.
    let straddling = Aabb { center: v3(0.0, 0.0, 0.0), half_extents: v3(1.5, 1.5, 1.5) };
    assert!(!frustum.contains_aabb(&straddling, &transform));
    assert!(frustum.intersects_obb(&straddling, &transform, true, true));

    // Exactly touching the planes counts as not contained: the comparison
    // is strict.
    let touching = Aabb { center: v3(0.0, 0.0, 0.0), half_extents: v3(1.0, 1.0, 1.0) };
    assert!(!frustum.contains_aabb(&touching, &transform));
    assert!(!inside.is_in_half_space(&HalfSpace::new(v4(1.0, 0.0, 0.0, -0.5)), &transform));
}

#[test]
fn cubemap_frusta_iteration_and_update() {
    let f = cube_frustum();
    let mut cubemap = CubemapFrusta { frusta: [f, f, f, f, f, f] };
    let faces = cubemap.iter();
    assert_eq!(faces.len(), 6);
    for face in &faces {
        assert_eq!(face.half_spaces[5].normal_d(), v4(0.0, 0.0, -1.0, 1.0));
    }
    let replacement = Frustum::default();
    cubemap.iter_mut()[2] = replacement;
    assert_eq!(cubemap.frusta[2].half_spaces[5].normal_d(), v4(0.0, 0.0, 0.0, 0.0));
    assert_eq!(cubemap.frusta[1].half_spaces[5].normal_d(), v4(0.0, 0.0, -1.0, 1.0));
}

#[test]
fn cascades_frusta_keyed_by_entity() {
    let mut cascades = CascadesFrusta::default();
    assert!(cascades.frusta.is_empty());
    cascades.frusta.insert(7, vec![cube_frustum(), Frustum::default()]);
    cascades.frusta.insert(40, vec![cube_frustum()]);
    assert_eq!(cascades.frusta.len(), 2);
    assert_eq!(cascades.frusta.get(&7).unwrap().len(), 2);
    cascades.frusta.remove(&7);
    assert!(cascades.frusta.get(&7).is_none());
    assert_eq!(cascades.frusta.len(), 1);
}

#[test]
fn from_clip_from_world_extracts_ordered_planes() {
    // An orthographic-style clip-from-world matrix: clip x, y, z are the
    // world coordinates scaled to the unit cube, w is 1. The extracted
    // planes must bound that cube in left, right, top, bottom, near, far
    // order.
    let m = frustum_culling::Mat4 {
        x_axis: v4(0.5, 0.0, 0.0, 0.0),
        y_axis: v4(0.0, 0.5, 0.0, 0.0),
        z_axis: v4(0.0, 0.0, 0.5, 0.0),
        w_axis: v4(0.0, 0.0, 0.0, 1.0),
    };
    let frustum = Frustum::from_clip_from_world(&m);
    assert_eq!(frustum.half_spaces[0].normal_d(), v4(1.0, 0.0, 0.0, 2.0));
    assert_eq!(frustum.half_spaces[1].normal_d(), v4(-1.0, 0.0, 0.0, 2.0));
    assert_eq!(frustum.half_spaces[2].normal_d(), v4(0.0, 1.0, 0.0, 2.0));
    assert_eq!(frustum.half_spaces[3].normal_d(), v4(0.0, -1.0, 0.0, 2.0));
    assert_eq!(frustum.half_spaces[4].normal_d(), v4(0.0, 0.0, 1.0, 2.0));
    assert_eq!(frustum.half_spaces[5].normal_d(), v4(0.0, 0.0, -1.0, 2.0));
    let inside = Sphere { center: v3(0.0, 0.0, 0.0), radius: b(1.0) };
    assert!(frustum.intersects_sphere(&inside, true));
    let outside = Sphere { center: v3(4.0, 0.0, 0.0), radius: b(1.0) };
    assert!(!frustum.intersects_sphere(&outside, true));
}

#[test]
fn from_clip_from_world_custom_far_replaces_far_plane() {
    let m = frustum_culling::Mat4 {
        x_axis: v4(0.5, 0.0, 0.0, 0.0),
        y_axis: v4(0.0, 0.5, 0.0, 0.0),
        z_axis: v4(0.0, 0.0, 0.5, 0.0),
        w_axis: v4(0.0, 0.0, 0.0, 1.0),
    };
    let frustum = Frustum::from_clip_from_world_custom_far(
        &m,
        &v3(0.0, 0.0, 0.0),
        &v3(0.0, 0.0, 1.0),
        b(10.0),
    );
    // Side and near planes as before.
    assert_eq!(frustum.half_spaces[0].normal_d(), v4(1.0, 0.0, 0.0, 2.0));
    assert_eq!(frustum.half_spaces[4].normal_d(), v4(0.0, 0.0, 1.0, 2.0));
    // The far plane passes through (0, 0, -10) with normal +z.
    assert_eq!(frustum.half_spaces[5].normal_d(), v4(0.0, 0.0, 1.0, 10.0));
}

#[test]
fn default_values_are_zeroed() {
    let aabb = Aabb::default();
    assert_eq!(aabb.center, v3(0.0, 0.0, 0.0));
    assert_eq!(aabb.half_extents, v3(0.0, 0.0, 0.0));
    let sphere = Sphere::default();
    assert_eq!(sphere.center, v3(0.0, 0.0, 0.0));
    assert_eq!(sphere.radius, b(0.0));
    let frustum = Frustum::default();
    for half_space in &frustum.half_spaces {
        assert_eq!(half_space.normal_d(), v4(0.0, 0.0, 0.0, 0.0));
    }
    let cubemap = CubemapFrusta::default();
    assert_eq!(cubemap.iter().len(), 6);
}
