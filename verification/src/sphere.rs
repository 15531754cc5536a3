//! Bounding spheres.
use vstd::prelude::*;

use crate::aabb::{relative_radius_bits, Aabb};
use crate::float_bits::{add_bits, fp_add, fp_lt, lt_bits, ZERO_BITS};
use crate::linear::{
    length3, length3_bits, sdiv3, sdiv3_bits, splat3_bits, sub3, sub3_bits, transform_point3,
    transform_point3_bits, Affine3, Vec3,
};

verus! {

/// A bounding sphere: a center and a radius.
#[derive(Clone, Debug)]
pub struct Sphere {
    pub center: Vec3,
    pub radius: u32,
}

/// What `intersects_obb` decides: the box center is carried to world
/// space; `d` is its distance to the sphere center; the box's relative
/// radius is taken along the unit direction from the sphere to the box;
/// and the two intersect iff `d < radius + relative_radius`. When the two
/// centers coincide the direction divides zero by zero and the NaN bits
/// propagate into a false comparison; nothing is checked.
pub open spec fn sphere_intersects_obb_bits(sphere: Sphere, aabb: Aabb, world_from_local: Affine3) -> bool {
    let v = sub3_bits(transform_point3_bits(world_from_local, aabb.center), sphere.center);
    let d = length3_bits(v);
    let relative_radius = relative_radius_bits(aabb, sdiv3_bits(v, d), world_from_local.matrix3);
    lt_bits(d, add_bits(sphere.radius, relative_radius))
}

impl Sphere {
    /// Whether the sphere intersects the oriented box that `aabb` becomes
    /// under `world_from_local`.
    pub fn intersects_obb(&self, aabb: &Aabb, world_from_local: &Affine3) -> (r: bool)
        ensures
            r == sphere_intersects_obb_bits(*self, *aabb, *world_from_local),
    {
        let aabb_center_world = transform_point3(world_from_local, aabb.center);
        let v = sub3(aabb_center_world, self.center);
        let d = length3(v);
        let relative_radius = aabb.relative_radius(&sdiv3(v, d), &world_from_local.matrix3);
        fp_lt(d, fp_add(self.radius, relative_radius))
    }
}

impl Default for Sphere {
    /// The degenerate sphere at the origin.
    fn default() -> (r: Sphere)
        ensures
            r == (Sphere { center: splat3_bits(ZERO_BITS), radius: ZERO_BITS }),
    {
        Sphere { center: Vec3 { x: ZERO_BITS, y: ZERO_BITS, z: ZERO_BITS }, radius: ZERO_BITS }
    }
}

} // verus!
