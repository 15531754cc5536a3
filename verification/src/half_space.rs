//! Half-spaces: one side of a bisecting plane.
use vstd::prelude::*;

use crate::float_bits::{div_bits, fp_div, ONE_BITS, ZERO_BITS};
use crate::linear::{
    length3, length3_bits, truncate4, truncate_bits, vmuls4, vmuls4_bits, Vec3, Vec4,
};

verus! {

/// A region of 3D space: an open set whose border is a bisecting plane.
///
/// Characterized by the plane's unit normal, pointing into the half-space,
/// and the signed distance along the normal from the plane to the origin,
/// packed into one 4-component vector. A point `p` lies within the
/// half-space when `dot(normal, p) + d > 0`.
#[derive(Clone, Copy, Debug)]
pub struct HalfSpace {
    pub normal_d: Vec4,
}

/// What construction computes: the first three components normalized by
/// the reciprocal of their length, the distance rescaled by the same
/// factor. On a degenerate (zero-length) normal the reciprocal is not
/// finite and the non-finite bits propagate; nothing is checked.
pub open spec fn half_space_new_bits(normal_d: Vec4) -> HalfSpace {
    HalfSpace {
        normal_d: vmuls4_bits(
            normal_d,
            div_bits(ONE_BITS, length3_bits(truncate_bits(normal_d))),
        ),
    }
}

impl HalfSpace {
    /// Constructs a `HalfSpace` from a 4-component vector whose first three
    /// components are the plane's normal and whose last is the signed
    /// distance from the plane to the origin. The normal part is
    /// normalized and the distance rescaled by the same reciprocal length.
    pub fn new(normal_d: Vec4) -> (r: HalfSpace)
        ensures
            r == half_space_new_bits(normal_d),
    {
        let recip_len = fp_div(ONE_BITS, length3(truncate4(normal_d)));
        HalfSpace { normal_d: vmuls4(normal_d, recip_len) }
    }

    /// The unit normal of the bisecting plane.
    pub fn normal(&self) -> (r: Vec3)
        ensures
            r == truncate_bits(self.normal_d),
    {
        truncate4(self.normal_d)
    }

    /// The signed distance from the bisecting plane to the origin along
    /// the normal.
    pub fn d(&self) -> (r: u32)
        ensures
            r == self.normal_d.w,
    {
        self.normal_d.w
    }

    /// The normal and the signed distance, packed together.
    pub fn normal_d(&self) -> (r: Vec4)
        ensures
            r == self.normal_d,
    {
        self.normal_d
    }
}

impl Default for HalfSpace {
    /// The all-zero half-space, as a placeholder value.
    fn default() -> (r: HalfSpace)
        ensures
            r == (HalfSpace {
                normal_d: Vec4 { x: ZERO_BITS, y: ZERO_BITS, z: ZERO_BITS, w: ZERO_BITS },
            }),
    {
        HalfSpace { normal_d: Vec4 { x: ZERO_BITS, y: ZERO_BITS, z: ZERO_BITS, w: ZERO_BITS } }
    }
}

} // verus!
