//! View frusta: six ordered half-spaces, and the culling tests against
//! spheres and oriented boxes.
use vstd::prelude::*;

use std::collections::HashMap;

use crate::aabb::{aabb_in_half_space_bits, relative_radius_bits, Aabb};
use crate::float_bits::{
    add_bits, fp_add, fp_le, fp_neg, le_bits, lt_bits, neg_bits, ONE_BITS, ZERO_BITS,
};
use crate::half_space::{half_space_new_bits, HalfSpace};
use crate::linear::{
    add4, add4_bits, dot3, dot3_bits, dot4, dot4_bits, extend3, extend_bits, mat4_row_bits,
    smul3, smul3_bits, sub3, sub3_bits, sub4, sub4_bits, transform_point3,
    transform_point3_bits, truncate_bits, Affine3, Mat4, Vec3, Vec4,
};
use crate::sphere::Sphere;

verus! {

/// A region of 3D space defined by the intersection of six half-spaces,
/// ordered left, right, top, bottom, near, far, whose normals point toward
/// the interior. The culling tests address the near and far planes by
/// their fixed indices 4 and 5, so any construction must keep this order.
#[derive(Clone, Copy, Debug)]
pub struct Frustum {
    pub half_spaces: [HalfSpace; 6],
}

/// Plane `i` of the five extracted from a clip-from-world matrix: the sum
/// of row 3 and row `i / 2` for even `i` (left, top, near), their
/// difference for odd `i` (right, bottom), each normalized.
pub open spec fn no_far_plane_bits(clip_from_world: Mat4, i: int) -> HalfSpace {
    let row3 = mat4_row_bits(clip_from_world, 3);
    let row = mat4_row_bits(clip_from_world, i / 2);
    if i % 2 == 0 {
        half_space_new_bits(add4_bits(row3, row))
    } else {
        half_space_new_bits(sub4_bits(row3, row))
    }
}

/// The far plane extracted from a clip-from-world matrix: row 3 minus
/// row 2, normalized.
pub open spec fn far_plane_bits(clip_from_world: Mat4) -> HalfSpace {
    half_space_new_bits(
        sub4_bits(mat4_row_bits(clip_from_world, 3), mat4_row_bits(clip_from_world, 2)),
    )
}

/// A far plane built directly: it passes through
/// `view_translation - far * view_backward` with normal `view_backward`.
pub open spec fn custom_far_plane_bits(view_translation: Vec3, view_backward: Vec3, far: u32) -> HalfSpace {
    let far_center = sub3_bits(view_translation, smul3_bits(far, view_backward));
    half_space_new_bits(
        extend_bits(view_backward, neg_bits(dot3_bits(view_backward, far_center))),
    )
}

/// Whether the sphere lies entirely beyond plane `i` of the frustum:
/// the plane's packed normal and distance dotted with the homogeneous
/// sphere center, plus the radius, comes out at or below zero.
pub open spec fn sphere_beyond_plane(frustum: Frustum, sphere: Sphere, i: int) -> bool {
    le_bits(
        add_bits(
            dot4_bits(frustum.half_spaces[i].normal_d, extend_bits(sphere.center, ONE_BITS)),
            sphere.radius,
        ),
        ZERO_BITS,
    )
}

/// What `intersects_sphere` decides: no tested plane excludes the sphere.
/// The far plane, index 5, is tested only when `intersect_far` holds.
pub open spec fn spec_intersects_sphere(frustum: Frustum, sphere: Sphere, intersect_far: bool) -> bool {
    forall|i: int|
        0 <= i < (if intersect_far { 6int } else { 5int }) ==> !#[trigger] sphere_beyond_plane(
            frustum,
            sphere,
            i,
        )
}

/// Whether the oriented box lies entirely beyond plane `i` of the
/// frustum: the plane dotted with the homogeneous world-space box center,
/// plus the box's relative radius along the plane normal, comes out at or
/// below zero.
pub open spec fn obb_beyond_plane(frustum: Frustum, aabb: Aabb, world_from_local: Affine3, i: int) -> bool {
    le_bits(
        add_bits(
            dot4_bits(
                frustum.half_spaces[i].normal_d,
                extend_bits(transform_point3_bits(world_from_local, aabb.center), ONE_BITS),
            ),
            relative_radius_bits(
                aabb,
                truncate_bits(frustum.half_spaces[i].normal_d),
                world_from_local.matrix3,
            ),
        ),
        ZERO_BITS,
    )
}

/// Whether plane `i` is left out of the oriented-box test by the near and
/// far toggles: index 4 is the near plane, index 5 the far plane.
pub open spec fn obb_plane_skipped(i: int, intersect_near: bool, intersect_far: bool) -> bool {
    ||| i == 4 && !intersect_near
    ||| i == 5 && !intersect_far
}

/// What `intersects_obb` decides: no plane that the toggles keep excludes
/// the box.
pub open spec fn spec_intersects_obb(
    frustum: Frustum,
    aabb: Aabb,
    world_from_local: Affine3,
    intersect_near: bool,
    intersect_far: bool,
) -> bool {
    forall|i: int|
        0 <= i < 6 && !obb_plane_skipped(i, intersect_near, intersect_far)
            ==> !#[trigger] obb_beyond_plane(frustum, aabb, world_from_local, i)
}

/// What `contains_aabb` decides: the box lies strictly inside every one
/// of the six half-spaces.
pub open spec fn spec_contains_aabb(frustum: Frustum, aabb: Aabb, world_from_local: Affine3) -> bool {
    forall|i: int|
        0 <= i < 6 ==> #[trigger] aabb_in_half_space_bits(
            aabb,
            frustum.half_spaces[i],
            world_from_local,
        )
}

impl Frustum {
    /// The left, right, top, bottom and near planes extracted from
    /// `clip_from_world`, with a zero placeholder in the far slot.
    fn from_clip_from_world_no_far(clip_from_world: &Mat4) -> (r: Frustum)
        ensures
            forall|i: int| 0 <= i < 5 ==> r.half_spaces[i] == no_far_plane_bits(*clip_from_world, i),
            r.half_spaces[5] == (HalfSpace {
                normal_d: Vec4 { x: ZERO_BITS, y: ZERO_BITS, z: ZERO_BITS, w: ZERO_BITS },
            }),
    {
        let row0 = clip_from_world.row(0);
        let row1 = clip_from_world.row(1);
        let row2 = clip_from_world.row(2);
        let row3 = clip_from_world.row(3);
        let half_spaces = [
            HalfSpace::new(add4(row3, row0)),
            HalfSpace::new(sub4(row3, row0)),
            HalfSpace::new(add4(row3, row1)),
            HalfSpace::new(sub4(row3, row1)),
            HalfSpace::new(add4(row3, row2)),
            HalfSpace::default(),
        ];
        Frustum { half_spaces }
    }

    /// The frustum derived from `clip_from_world`: five planes as sums and
    /// differences of matrix rows, and the far plane as row 3 minus row 2,
    /// each normalized.
    pub fn from_clip_from_world(clip_from_world: &Mat4) -> (r: Frustum)
        ensures
            forall|i: int| 0 <= i < 5 ==> r.half_spaces[i] == no_far_plane_bits(*clip_from_world, i),
            r.half_spaces[5] == far_plane_bits(*clip_from_world),
    {
        let base = Frustum::from_clip_from_world_no_far(clip_from_world);
        let far = HalfSpace::new(sub4(clip_from_world.row(3), clip_from_world.row(2)));
        Frustum {
            half_spaces: [
                base.half_spaces[0],
                base.half_spaces[1],
                base.half_spaces[2],
                base.half_spaces[3],
                base.half_spaces[4],
                far,
            ],
        }
    }

    /// The frustum derived from `clip_from_world`, but with the far plane
    /// replaced by one built through `view_translation - far * view_backward`
    /// with normal `view_backward` — for projections whose own far plane
    /// is not the desired culling distance.
    pub fn from_clip_from_world_custom_far(
        clip_from_world: &Mat4,
        view_translation: &Vec3,
        view_backward: &Vec3,
        far: u32,
    ) -> (r: Frustum)
        ensures
            forall|i: int| 0 <= i < 5 ==> r.half_spaces[i] == no_far_plane_bits(*clip_from_world, i),
            r.half_spaces[5] == custom_far_plane_bits(*view_translation, *view_backward, far),
    {
        let base = Frustum::from_clip_from_world_no_far(clip_from_world);
        let far_center = sub3(*view_translation, smul3(far, *view_backward));
        let far_half_space = HalfSpace::new(
            extend3(*view_backward, fp_neg(dot3(*view_backward, far_center))),
        );
        Frustum {
            half_spaces: [
                base.half_spaces[0],
                base.half_spaces[1],
                base.half_spaces[2],
                base.half_spaces[3],
                base.half_spaces[4],
                far_half_space,
            ],
        }
    }

    /// Whether the sphere intersects the frustum: each tested plane may
    /// exclude it, and the far plane is tested only when `intersect_far`
    /// holds. Planes are tested independently, so the answer is
    /// conservative: true can come back for a sphere outside a frustum
    /// corner.
    #[verifier::loop_isolation(false)]
    pub fn intersects_sphere(&self, sphere: &Sphere, intersect_far: bool) -> (r: bool)
        ensures
            r == spec_intersects_sphere(*self, *sphere, intersect_far),
    {
        let sphere_center = extend3(sphere.center, ONE_BITS);
        let max: usize = if intersect_far {
            6
        } else {
            5
        };
        let mut i: usize = 0;
        while i < max
            invariant
                i <= max,
                forall|j: int| 0 <= j < i ==> !#[trigger] sphere_beyond_plane(*self, *sphere, j),
            decreases max - i,
        {
            let half_space = self.half_spaces[i];
            if fp_le(fp_add(dot4(half_space.normal_d, sphere_center), sphere.radius), ZERO_BITS) {
                proof {
                    assert(sphere_beyond_plane(*self, *sphere, i as int));
                }
                return false;
            }
            i = i + 1;
        }
        true
    }

    /// Whether the oriented box that `aabb` becomes under
    /// `world_from_local` intersects the frustum, the near and far planes
    /// being tested only when their toggles hold.
    #[verifier::loop_isolation(false)]
    pub fn intersects_obb(
        &self,
        aabb: &Aabb,
        world_from_local: &Affine3,
        intersect_near: bool,
        intersect_far: bool,
    ) -> (r: bool)
        ensures
            r == spec_intersects_obb(*self, *aabb, *world_from_local, intersect_near, intersect_far),
    {
        let aabb_center_world = extend3(
            transform_point3(world_from_local, aabb.center),
            ONE_BITS,
        );
        let mut i: usize = 0;
        while i < 6
            invariant
                i <= 6,
                forall|j: int|
                    0 <= j < i && !obb_plane_skipped(j, intersect_near, intersect_far)
                        ==> !#[trigger] obb_beyond_plane(*self, *aabb, *world_from_local, j),
            decreases 6 - i,
        {
            let skip = (i == 4 && !intersect_near) || (i == 5 && !intersect_far);
            if !skip {
                let half_space = self.half_spaces[i];
                let p_normal = half_space.normal();
                let relative_radius = aabb.relative_radius(&p_normal, &world_from_local.matrix3);
                if fp_le(
                    fp_add(dot4(half_space.normal_d, aabb_center_world), relative_radius),
                    ZERO_BITS,
                ) {
                    proof {
                        assert(obb_beyond_plane(*self, *aabb, *world_from_local, i as int));
                    }
                    return false;
                }
            }
            i = i + 1;
        }
        true
    }

    /// Whether the frustum strictly contains the oriented box: the box
    /// must lie on the interior side of all six planes, with no boundary
    /// touching permitted. Strictly stronger than the intersection test.
    #[verifier::loop_isolation(false)]
    pub fn contains_aabb(&self, aabb: &Aabb, world_from_local: &Affine3) -> (r: bool)
        ensures
            r == spec_contains_aabb(*self, *aabb, *world_from_local),
    {
        let mut i: usize = 0;
        while i < 6
            invariant
                i <= 6,
                forall|j: int|
                    0 <= j < i ==> #[trigger] aabb_in_half_space_bits(
                        *aabb,
                        self.half_spaces[j],
                        *world_from_local,
                    ),
            decreases 6 - i,
        {
            if !aabb.is_in_half_space(&self.half_spaces[i], world_from_local) {
                return false;
            }
            i = i + 1;
        }
        true
    }
}

impl Default for Frustum {
    /// The frustum of six all-zero half-spaces.
    fn default() -> (r: Frustum)
        ensures
            forall|i: int| 0 <= i < 6 ==> r.half_spaces[i] == (HalfSpace {
                normal_d: Vec4 { x: ZERO_BITS, y: ZERO_BITS, z: ZERO_BITS, w: ZERO_BITS },
            }),
    {
        Frustum {
            half_spaces: [
                HalfSpace::default(),
                HalfSpace::default(),
                HalfSpace::default(),
                HalfSpace::default(),
                HalfSpace::default(),
                HalfSpace::default(),
            ],
        }
    }
}

/// Law: a sphere strictly within every half-space — each plane value
/// strictly above zero — intersects the frustum, with or without the far
/// plane.
pub proof fn lemma_intersects_sphere_inside(frustum: Frustum, sphere: Sphere)
    requires
        forall|i: int|
            0 <= i < 6 ==> lt_bits(
                ZERO_BITS,
                add_bits(
                    #[trigger] dot4_bits(
                        frustum.half_spaces[i].normal_d,
                        extend_bits(sphere.center, ONE_BITS),
                    ),
                    sphere.radius,
                ),
            ),
    ensures
        spec_intersects_sphere(frustum, sphere, true),
        spec_intersects_sphere(frustum, sphere, false),
{
}

/// Law: a sphere entirely beyond any single tested plane fails the
/// intersection test; a plane other than the far one excludes it whether
/// or not the far plane is tested.
pub proof fn lemma_intersects_sphere_excluded(frustum: Frustum, sphere: Sphere, i: int)
    requires
        0 <= i < 6,
        sphere_beyond_plane(frustum, sphere, i),
    ensures
        !spec_intersects_sphere(frustum, sphere, true),
        i < 5 ==> !spec_intersects_sphere(frustum, sphere, false),
{
}

/// Law: the far toggle changes only the far plane's contribution — the
/// test with the far plane is exactly the test without it, conjoined with
/// the far plane not excluding the sphere.
pub proof fn lemma_intersects_sphere_far_toggle(frustum: Frustum, sphere: Sphere)
    ensures
        spec_intersects_sphere(frustum, sphere, true) == (spec_intersects_sphere(
            frustum,
            sphere,
            false,
        ) && !sphere_beyond_plane(frustum, sphere, 5)),
{
}

/// Law: an oriented box strictly within every half-space — each plane
/// value strictly above zero — intersects the frustum under any setting
/// of the near and far toggles.
pub proof fn lemma_intersects_obb_inside(
    frustum: Frustum,
    aabb: Aabb,
    world_from_local: Affine3,
    intersect_near: bool,
    intersect_far: bool,
)
    requires
        forall|i: int|
            0 <= i < 6 ==> lt_bits(
                ZERO_BITS,
                add_bits(
                    #[trigger] dot4_bits(
                        frustum.half_spaces[i].normal_d,
                        extend_bits(
                            transform_point3_bits(world_from_local, aabb.center),
                            ONE_BITS,
                        ),
                    ),
                    relative_radius_bits(
                        aabb,
                        truncate_bits(frustum.half_spaces[i].normal_d),
                        world_from_local.matrix3,
                    ),
                ),
            ),
    ensures
        spec_intersects_obb(frustum, aabb, world_from_local, intersect_near, intersect_far),
{
}

/// Law: an oriented box entirely beyond any single plane that the toggles
/// keep fails the intersection test.
pub proof fn lemma_intersects_obb_excluded(
    frustum: Frustum,
    aabb: Aabb,
    world_from_local: Affine3,
    i: int,
    intersect_near: bool,
    intersect_far: bool,
)
    requires
        0 <= i < 6,
        !obb_plane_skipped(i, intersect_near, intersect_far),
        obb_beyond_plane(frustum, aabb, world_from_local, i),
    ensures
        !spec_intersects_obb(frustum, aabb, world_from_local, intersect_near, intersect_far),
{
}

/// Law: the near and far toggles change only their own planes'
/// contributions — each toggled test is exactly the test with both planes
/// off, conjoined with the kept planes not excluding the box.
pub proof fn lemma_intersects_obb_toggles(frustum: Frustum, aabb: Aabb, world_from_local: Affine3)
    ensures
        spec_intersects_obb(frustum, aabb, world_from_local, true, true) == (spec_intersects_obb(
            frustum,
            aabb,
            world_from_local,
            false,
            false,
        ) && !obb_beyond_plane(frustum, aabb, world_from_local, 4) && !obb_beyond_plane(
            frustum,
            aabb,
            world_from_local,
            5,
        )),
        spec_intersects_obb(frustum, aabb, world_from_local, true, false) == (spec_intersects_obb(
            frustum,
            aabb,
            world_from_local,
            false,
            false,
        ) && !obb_beyond_plane(frustum, aabb, world_from_local, 4)),
        spec_intersects_obb(frustum, aabb, world_from_local, false, true) == (spec_intersects_obb(
            frustum,
            aabb,
            world_from_local,
            false,
            false,
        ) && !obb_beyond_plane(frustum, aabb, world_from_local, 5)),
{
}

/// A fixed array of six frusta, one per face of a cubemap.
#[derive(Clone, Debug)]
pub struct CubemapFrusta {
    pub frusta: [Frustum; 6],
}

impl CubemapFrusta {
    /// The six frusta in face order, as a fresh vector of copies.
    pub fn iter(&self) -> (r: Vec<Frustum>)
        ensures
            r@.len() == 6,
            forall|i: int| 0 <= i < 6 ==> r@[i] == self.frusta[i],
    {
        let mut v: Vec<Frustum> = Vec::new();
        let mut i: usize = 0;
        while i < 6
            invariant
                i <= 6,
                v@.len() == i,
                forall|j: int| 0 <= j < i ==> v@[j] == self.frusta[j],
            decreases 6 - i,
        {
            v.push(self.frusta[i]);
            i = i + 1;
        }
        v
    }

    /// A mutable borrow of the six frusta, for updating them in place.
    pub fn iter_mut(&mut self) -> (r: &mut [Frustum; 6])
        ensures
            *r == old(self).frusta,
            final(self).frusta == *final(r),
    {
        &mut self.frusta
    }
}

impl Default for CubemapFrusta {
    /// Six default frusta.
    fn default() -> (r: CubemapFrusta)
        ensures
            forall|i: int, j: int|
                0 <= i < 6 && 0 <= j < 6 ==> r.frusta[i].half_spaces[j] == (HalfSpace {
                    normal_d: Vec4 { x: ZERO_BITS, y: ZERO_BITS, z: ZERO_BITS, w: ZERO_BITS },
                }),
    {
        let f = Frustum::default();
        CubemapFrusta { frusta: [f, f, f, f, f, f] }
    }
}

/// The frusta of a light's shadow cascades, one ordered sequence per
/// entity, keyed by an opaque entity identifier.
#[derive(Debug)]
pub struct CascadesFrusta {
    pub frusta: HashMap<u64, Vec<Frustum>>,
}

impl Default for CascadesFrusta {
    /// No entities, no frusta.
    fn default() -> (r: CascadesFrusta)
        ensures
            r.frusta@ == Map::<u64, Vec<Frustum>>::empty(),
    {
        CascadesFrusta { frusta: HashMap::new() }
    }
}

} // verus!
