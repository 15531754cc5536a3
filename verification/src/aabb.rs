//! Axis-aligned bounding boxes.
use vstd::prelude::*;

use crate::float_bits::{
    add_bits, fp_add, fp_lt, is_nan_bits, le_bits, lt_bits, min_bits, max_bits, HALF_BITS,
    ZERO_BITS,
};
use crate::half_space::HalfSpace;
use crate::linear::{
    abs3, abs3_bits, add3, add3_bits, dot3, dot3_bits, mat3_abs, mat3_abs_bits, mat3_mul_vec3,
    mat3_mul_vec3_bits, max3, max3_bits, min3, min3_bits, smul3, smul3_bits, splat3_bits,
    sub3, sub3_bits, transform_point3, transform_point3_bits, truncate_bits, Affine3, Mat3,
    Vec3,
};
use crate::sphere::Sphere;

verus! {

/// An axis-aligned bounding box, defined by a center and by the distances
/// from the center to each face along the axes.
///
/// It describes the box `[center - half_extents, center + half_extents]`
/// in whatever local space it is expressed, and is read during culling to
/// decide whether the entity that carries it can be skipped.
#[derive(Clone, Copy, Debug, PartialEq, Eq, Structural)]
pub struct Aabb {
    pub center: Vec3,
    pub half_extents: Vec3,
}

/// What `from_min_max` computes: the center is half the sum of the two
/// corners, the half-extents half their difference.
pub open spec fn aabb_from_min_max_bits(minimum: Vec3, maximum: Vec3) -> Aabb {
    Aabb {
        center: smul3_bits(HALF_BITS, add3_bits(maximum, minimum)),
        half_extents: smul3_bits(HALF_BITS, sub3_bits(maximum, minimum)),
    }
}

/// The component-wise minimum of a non-empty point sequence, folded in
/// order from the first point on.
pub open spec fn enclosing_min_bits(points: Seq<Vec3>) -> Vec3
    recommends
        points.len() > 0,
    decreases points.len(),
{
    if points.len() <= 1 {
        points[0]
    } else {
        min3_bits(enclosing_min_bits(points.drop_last()), points.last())
    }
}

/// The component-wise maximum of a non-empty point sequence, folded in
/// order from the first point on.
pub open spec fn enclosing_max_bits(points: Seq<Vec3>) -> Vec3
    recommends
        points.len() > 0,
    decreases points.len(),
{
    if points.len() <= 1 {
        points[0]
    } else {
        max3_bits(enclosing_max_bits(points.drop_last()), points.last())
    }
}

/// What `relative_radius` computes: the plane normal dotted with each
/// column of the world transform's linear part, the absolute values of
/// those three projections dotted with the half-extents.
pub open spec fn relative_radius_bits(aabb: Aabb, p_normal: Vec3, world_from_local: Mat3) -> u32 {
    dot3_bits(
        abs3_bits(
            Vec3 {
                x: dot3_bits(p_normal, world_from_local.x_axis),
                y: dot3_bits(p_normal, world_from_local.y_axis),
                z: dot3_bits(p_normal, world_from_local.z_axis),
            },
        ),
        aabb.half_extents,
    )
}

/// What `is_in_half_space` decides: the half-extents carried to world
/// space through the absolute transform, collapsed onto the plane normal
/// to a radius `r`; the box center carried to world space; and the box is
/// in the half-space iff its center's signed distance exceeds `r`.
pub open spec fn aabb_in_half_space_bits(aabb: Aabb, half_space: HalfSpace, world_from_local: Affine3) -> bool {
    let half_extents_world = mat3_mul_vec3_bits(
        mat3_abs_bits(world_from_local.matrix3),
        abs3_bits(aabb.half_extents),
    );
    let p_normal = truncate_bits(half_space.normal_d);
    let r = dot3_bits(half_extents_world, abs3_bits(p_normal));
    let signed_distance = add_bits(
        dot3_bits(p_normal, transform_point3_bits(world_from_local, aabb.center)),
        half_space.normal_d.w,
    );
    lt_bits(r, signed_distance)
}

impl Aabb {
    /// The box whose corners are the given minimum and maximum. The caller
    /// keeps `minimum <= maximum` per axis; nothing is validated, and a
    /// violation yields negative half-extents that downstream tests take
    /// as they are.
    pub fn from_min_max(minimum: Vec3, maximum: Vec3) -> (r: Aabb)
        ensures
            r == aabb_from_min_max_bits(minimum, maximum),
    {
        let center = smul3(HALF_BITS, add3(maximum, minimum));
        let half_extents = smul3(HALF_BITS, sub3(maximum, minimum));
        Aabb { center, half_extents }
    }

    /// The bounding box enclosing the given points: `from_min_max` of
    /// their component-wise minimum and maximum. Yields nothing iff the
    /// point sequence is empty.
    pub fn enclosing(points: &Vec<Vec3>) -> (r: Option<Aabb>)
        ensures
            r is None <==> points@.len() == 0,
            points@.len() > 0 ==> r == Some(
                aabb_from_min_max_bits(enclosing_min_bits(points@), enclosing_max_bits(points@)),
            ),
    {
        if points.len() == 0 {
            return None;
        }
        let mut minimum = points[0];
        let mut maximum = points[0];
        let mut i: usize = 1;
        while i < points.len()
            invariant
                1 <= i <= points@.len(),
                minimum == enclosing_min_bits(points@.subrange(0, i as int)),
                maximum == enclosing_max_bits(points@.subrange(0, i as int)),
            decreases points@.len() - i,
        {
            proof {
                assert(points@.subrange(0, i + 1).drop_last() =~= points@.subrange(0, i as int));
                assert(points@.subrange(0, i + 1).last() == points@[i as int]);
            }
            minimum = min3(minimum, points[i]);
            maximum = max3(maximum, points[i]);
            i = i + 1;
        }
        proof {
            assert(points@.subrange(0, points@.len() as int) =~= points@);
        }
        Some(Aabb::from_min_max(minimum, maximum))
    }

    /// The minimum corner: center minus half-extents.
    pub fn min(&self) -> (r: Vec3)
        ensures
            r == sub3_bits(self.center, self.half_extents),
    {
        sub3(self.center, self.half_extents)
    }

    /// The maximum corner: center plus half-extents.
    pub fn max(&self) -> (r: Vec3)
        ensures
            r == add3_bits(self.center, self.half_extents),
    {
        add3(self.center, self.half_extents)
    }

    /// The box's effective radius along a plane normal, after the box's
    /// local axes are carried through the linear (rotation and scale) part
    /// of a world transform: the separating-axis projection used by the
    /// oriented-box tests.
    pub fn relative_radius(&self, p_normal: &Vec3, world_from_local: &Mat3) -> (r: u32)
        ensures
            r == relative_radius_bits(*self, *p_normal, *world_from_local),
    {
        let projections = Vec3 {
            x: dot3(*p_normal, world_from_local.x_axis),
            y: dot3(*p_normal, world_from_local.y_axis),
            z: dot3(*p_normal, world_from_local.z_axis),
        };
        dot3(abs3(projections), self.half_extents)
    }

    /// Whether the box, carried to world space, lies strictly on the
    /// interior side of the half-space's plane: a conservative test that
    /// answers false whenever the box crosses or touches the plane.
    pub fn is_in_half_space(&self, half_space: &HalfSpace, world_from_local: &Affine3) -> (r: bool)
        ensures
            r == aabb_in_half_space_bits(*self, *half_space, *world_from_local),
    {
        let half_extents_world = mat3_mul_vec3(
            mat3_abs(world_from_local.matrix3),
            abs3(self.half_extents),
        );
        let p_normal = half_space.normal();
        let r = dot3(half_extents_world, abs3(p_normal));
        let aabb_center_world = transform_point3(world_from_local, self.center);
        let signed_distance = fp_add(dot3(p_normal, aabb_center_world), half_space.d());
        fp_lt(r, signed_distance)
    }
}

impl Default for Aabb {
    /// The degenerate box at the origin.
    fn default() -> (r: Aabb)
        ensures
            r == (Aabb {
                center: splat3_bits(ZERO_BITS),
                half_extents: splat3_bits(ZERO_BITS),
            }),
    {
        Aabb {
            center: Vec3 { x: ZERO_BITS, y: ZERO_BITS, z: ZERO_BITS },
            half_extents: Vec3 { x: ZERO_BITS, y: ZERO_BITS, z: ZERO_BITS },
        }
    }
}

impl From<Sphere> for Aabb {
    /// The cube of side `2 * radius` around the sphere's center.
    fn from(sphere: Sphere) -> (r: Aabb) {
        Aabb { center: sphere.center, half_extents: Vec3::splat(sphere.radius) }
    }
}

impl vstd::std_specs::convert::FromSpecImpl<Sphere> for Aabb {
    open spec fn obeys_from_spec() -> bool {
        true
    }

    open spec fn from_spec(sphere: Sphere) -> Aabb {
        Aabb { center: sphere.center, half_extents: splat3_bits(sphere.radius) }
    }
}

/// Law: converting a sphere to a box keeps the sphere's center exactly and
/// splats its radius into every half-extent.
pub proof fn lemma_aabb_from_sphere(sphere: Sphere)
    ensures
        <Aabb as vstd::std_specs::convert::FromSpec<Sphere>>::from_spec(sphere) == (Aabb {
            center: sphere.center,
            half_extents: splat3_bits(sphere.radius),
        }),
        <Aabb as vstd::std_specs::convert::FromSpec<Sphere>>::obeys_from_spec(),
{
}

/// Law: every point of a non-NaN point set lies, component by component,
/// between the folded minimum and the folded maximum that `enclosing`
/// turns into a box.
pub proof fn lemma_enclosing_bounds(points: Seq<Vec3>)
    requires
        points.len() > 0,
        forall|i: int|
            0 <= i < points.len() ==> !is_nan_bits(#[trigger] points[i].x)
                && !is_nan_bits(points[i].y) && !is_nan_bits(points[i].z),
    ensures
        forall|i: int|
            0 <= i < points.len() ==> le_bits(enclosing_min_bits(points).x, #[trigger] points[i].x)
                && le_bits(enclosing_min_bits(points).y, points[i].y)
                && le_bits(enclosing_min_bits(points).z, points[i].z)
                && le_bits(points[i].x, enclosing_max_bits(points).x)
                && le_bits(points[i].y, enclosing_max_bits(points).y)
                && le_bits(points[i].z, enclosing_max_bits(points).z),
    decreases points.len(),
{
    if points.len() > 1 {
        lemma_enclosing_bounds(points.drop_last());
        assert forall|i: int| 0 <= i < points.len() - 1 implies points.drop_last()[i] == points[i] by {}
    }
}

/// Law: the folded minimum and maximum are tight — each of their
/// components equals the corresponding coordinate of some point of the
/// set.
pub proof fn lemma_enclosing_tight(points: Seq<Vec3>)
    requires
        points.len() > 0,
    ensures
        exists|i: int| 0 <= i < points.len() && enclosing_min_bits(points).x == #[trigger] points[i].x,
        exists|i: int| 0 <= i < points.len() && enclosing_min_bits(points).y == #[trigger] points[i].y,
        exists|i: int| 0 <= i < points.len() && enclosing_min_bits(points).z == #[trigger] points[i].z,
        exists|i: int| 0 <= i < points.len() && enclosing_max_bits(points).x == #[trigger] points[i].x,
        exists|i: int| 0 <= i < points.len() && enclosing_max_bits(points).y == #[trigger] points[i].y,
        exists|i: int| 0 <= i < points.len() && enclosing_max_bits(points).z == #[trigger] points[i].z,
    decreases points.len(),
{
    if points.len() == 1 {
        assert(enclosing_min_bits(points).x == points[0].x);
        assert(enclosing_min_bits(points).y == points[0].y);
        assert(enclosing_min_bits(points).z == points[0].z);
        assert(enclosing_max_bits(points).x == points[0].x);
        assert(enclosing_max_bits(points).y == points[0].y);
        assert(enclosing_max_bits(points).z == points[0].z);
    } else {
        let prefix = points.drop_last();
        let last = points.len() - 1;
        lemma_enclosing_tight(prefix);
        assert(enclosing_min_bits(points) == min3_bits(enclosing_min_bits(prefix), points[last]));
        assert(enclosing_max_bits(points) == max3_bits(enclosing_max_bits(prefix), points[last]));
        assert(forall|i: int| 0 <= i < prefix.len() ==> #[trigger] prefix[i] == points[i]);
        if enclosing_min_bits(points).x != points[last].x {
            let j = choose|j: int|
                0 <= j < prefix.len() && enclosing_min_bits(prefix).x == #[trigger] prefix[j].x;
            assert(enclosing_min_bits(points).x == points[j].x);
        }
        if enclosing_min_bits(points).y != points[last].y {
            let j = choose|j: int|
                0 <= j < prefix.len() && enclosing_min_bits(prefix).y == #[trigger] prefix[j].y;
            assert(enclosing_min_bits(points).y == points[j].y);
        }
        if enclosing_min_bits(points).z != points[last].z {
            let j = choose|j: int|
                0 <= j < prefix.len() && enclosing_min_bits(prefix).z == #[trigger] prefix[j].z;
            assert(enclosing_min_bits(points).z == points[j].z);
        }
        if enclosing_max_bits(points).x != points[last].x {
            let j = choose|j: int|
                0 <= j < prefix.len() && enclosing_max_bits(prefix).x == #[trigger] prefix[j].x;
            assert(enclosing_max_bits(points).x == points[j].x);
        }
        if enclosing_max_bits(points).y != points[last].y {
            let j = choose|j: int|
                0 <= j < prefix.len() && enclosing_max_bits(prefix).y == #[trigger] prefix[j].y;
            assert(enclosing_max_bits(points).y == points[j].y);
        }
        if enclosing_max_bits(points).z != points[last].z {
            let j = choose|j: int|
                0 <= j < prefix.len() && enclosing_max_bits(prefix).z == #[trigger] prefix[j].z;
            assert(enclosing_max_bits(points).z == points[j].z);
        }
    }
}

} // verus!
