//! Vectors, matrices and affine transforms over binary32 bit patterns.
//!
//! These are the library's own models of the 3- and 4-component vectors,
//! the 3x3 linear part of a world transform, and the 4x4 homogeneous
//! projection matrix it consumes. Components are bit patterns as in
//! [`crate::float_bits`]; every operation's contract states the exact
//! composition of scalar operations it performs, in the evaluation order
//! the executable code uses.
use vstd::prelude::*;

use crate::float_bits::{
    abs_bits, add_bits, div_bits, fp_abs, fp_add, fp_div, fp_max, fp_min, fp_mul, fp_sqrt, fp_sub,
    max_bits, min_bits, mul_bits, sqrt_bits, sub_bits,
};

verus! {

/// A 3-component vector of binary32 bit patterns.
#[derive(Clone, Copy, Debug, PartialEq, Eq, Structural)]
pub struct Vec3 {
    pub x: u32,
    pub y: u32,
    pub z: u32,
}

/// A 4-component vector of binary32 bit patterns.
#[derive(Clone, Copy, Debug, PartialEq, Eq, Structural)]
pub struct Vec4 {
    pub x: u32,
    pub y: u32,
    pub z: u32,
    pub w: u32,
}

/// A 3x3 matrix, stored as its three column vectors.
#[derive(Clone, Copy, Debug, PartialEq, Eq, Structural)]
pub struct Mat3 {
    pub x_axis: Vec3,
    pub y_axis: Vec3,
    pub z_axis: Vec3,
}

/// A 4x4 matrix, stored as its four column vectors.
#[derive(Clone, Copy, Debug, PartialEq, Eq, Structural)]
pub struct Mat4 {
    pub x_axis: Vec4,
    pub y_axis: Vec4,
    pub z_axis: Vec4,
    pub w_axis: Vec4,
}

/// An affine transform: a 3x3 linear part (rotation and scale) and a
/// translation.
#[derive(Clone, Copy, Debug, PartialEq, Eq, Structural)]
pub struct Affine3 {
    pub matrix3: Mat3,
    pub translation: Vec3,
}

impl Vec3 {
    pub fn new(x: u32, y: u32, z: u32) -> (r: Vec3)
        ensures
            r == (Vec3 { x, y, z }),
    {
        Vec3 { x, y, z }
    }

    /// The vector with the given bit pattern in all three components.
    pub fn splat(s: u32) -> (r: Vec3)
        ensures
            r == splat3_bits(s),
    {
        Vec3 { x: s, y: s, z: s }
    }
}

impl Vec4 {
    pub fn new(x: u32, y: u32, z: u32, w: u32) -> (r: Vec4)
        ensures
            r == (Vec4 { x, y, z, w }),
    {
        Vec4 { x, y, z, w }
    }
}

pub open spec fn splat3_bits(s: u32) -> Vec3 {
    Vec3 { x: s, y: s, z: s }
}

pub open spec fn add3_bits(a: Vec3, b: Vec3) -> Vec3 {
    Vec3 { x: add_bits(a.x, b.x), y: add_bits(a.y, b.y), z: add_bits(a.z, b.z) }
}

pub open spec fn sub3_bits(a: Vec3, b: Vec3) -> Vec3 {
    Vec3 { x: sub_bits(a.x, b.x), y: sub_bits(a.y, b.y), z: sub_bits(a.z, b.z) }
}

/// A scalar times a vector, the scalar being the left operand of each
/// component product.
pub open spec fn smul3_bits(s: u32, v: Vec3) -> Vec3 {
    Vec3 { x: mul_bits(s, v.x), y: mul_bits(s, v.y), z: mul_bits(s, v.z) }
}

/// A vector times a scalar, the scalar being the right operand of each
/// component product.
pub open spec fn vmuls3_bits(v: Vec3, s: u32) -> Vec3 {
    Vec3 { x: mul_bits(v.x, s), y: mul_bits(v.y, s), z: mul_bits(v.z, s) }
}

/// A vector divided by a scalar, component by component.
pub open spec fn sdiv3_bits(v: Vec3, s: u32) -> Vec3 {
    Vec3 { x: div_bits(v.x, s), y: div_bits(v.y, s), z: div_bits(v.z, s) }
}

pub open spec fn abs3_bits(v: Vec3) -> Vec3 {
    Vec3 { x: abs_bits(v.x), y: abs_bits(v.y), z: abs_bits(v.z) }
}

pub open spec fn min3_bits(a: Vec3, b: Vec3) -> Vec3 {
    Vec3 { x: min_bits(a.x, b.x), y: min_bits(a.y, b.y), z: min_bits(a.z, b.z) }
}

pub open spec fn max3_bits(a: Vec3, b: Vec3) -> Vec3 {
    Vec3 { x: max_bits(a.x, b.x), y: max_bits(a.y, b.y), z: max_bits(a.z, b.z) }
}

/// The 3-component dot product, summed left to right.
pub open spec fn dot3_bits(a: Vec3, b: Vec3) -> u32 {
    add_bits(add_bits(mul_bits(a.x, b.x), mul_bits(a.y, b.y)), mul_bits(a.z, b.z))
}

/// The Euclidean length: the square root of the dot product with itself.
pub open spec fn length3_bits(v: Vec3) -> u32 {
    sqrt_bits(dot3_bits(v, v))
}

pub open spec fn add4_bits(a: Vec4, b: Vec4) -> Vec4 {
    Vec4 {
        x: add_bits(a.x, b.x),
        y: add_bits(a.y, b.y),
        z: add_bits(a.z, b.z),
        w: add_bits(a.w, b.w),
    }
}

pub open spec fn sub4_bits(a: Vec4, b: Vec4) -> Vec4 {
    Vec4 {
        x: sub_bits(a.x, b.x),
        y: sub_bits(a.y, b.y),
        z: sub_bits(a.z, b.z),
        w: sub_bits(a.w, b.w),
    }
}

/// A 4-component vector times a scalar, the scalar being the right operand
/// of each component product.
pub open spec fn vmuls4_bits(v: Vec4, s: u32) -> Vec4 {
    Vec4 { x: mul_bits(v.x, s), y: mul_bits(v.y, s), z: mul_bits(v.z, s), w: mul_bits(v.w, s) }
}

/// The 4-component dot product, summed pairwise:
/// `(x*x' + y*y') + (z*z' + w*w')`.
pub open spec fn dot4_bits(a: Vec4, b: Vec4) -> u32 {
    add_bits(
        add_bits(mul_bits(a.x, b.x), mul_bits(a.y, b.y)),
        add_bits(mul_bits(a.z, b.z), mul_bits(a.w, b.w)),
    )
}

/// The first three components of a 4-component vector.
pub open spec fn truncate_bits(v: Vec4) -> Vec3 {
    Vec3 { x: v.x, y: v.y, z: v.z }
}

/// A 3-component vector extended with a fourth component.
pub open spec fn extend_bits(v: Vec3, w: u32) -> Vec4 {
    Vec4 { x: v.x, y: v.y, z: v.z, w }
}

/// The matrix with every entry replaced by its absolute value.
pub open spec fn mat3_abs_bits(m: Mat3) -> Mat3 {
    Mat3 { x_axis: abs3_bits(m.x_axis), y_axis: abs3_bits(m.y_axis), z_axis: abs3_bits(m.z_axis) }
}

/// A 3x3 matrix applied to a vector: the columns scaled by the vector's
/// components and summed left to right.
pub open spec fn mat3_mul_vec3_bits(m: Mat3, v: Vec3) -> Vec3 {
    add3_bits(add3_bits(vmuls3_bits(m.x_axis, v.x), vmuls3_bits(m.y_axis, v.y)), vmuls3_bits(m.z_axis, v.z))
}

/// An affine transform applied to a point: the linear part applied to the
/// point, then the translation added.
pub open spec fn transform_point3_bits(t: Affine3, p: Vec3) -> Vec3 {
    add3_bits(mat3_mul_vec3_bits(t.matrix3, p), t.translation)
}

/// The component of a 4-component vector selected by index.
pub open spec fn vec4_comp(v: Vec4, i: int) -> u32 {
    if i == 0 {
        v.x
    } else if i == 1 {
        v.y
    } else if i == 2 {
        v.z
    } else {
        v.w
    }
}

/// Row `i` of a column-major 4x4 matrix.
pub open spec fn mat4_row_bits(m: Mat4, i: int) -> Vec4 {
    Vec4 {
        x: vec4_comp(m.x_axis, i),
        y: vec4_comp(m.y_axis, i),
        z: vec4_comp(m.z_axis, i),
        w: vec4_comp(m.w_axis, i),
    }
}

impl Mat4 {
    /// Row `i` of the matrix, assembled from the stored columns.
    pub fn row(&self, i: usize) -> (r: Vec4)
        requires
            i < 4,
        ensures
            r == mat4_row_bits(*self, i as int),
    {
        Vec4 {
            x: vec4_index(self.x_axis, i),
            y: vec4_index(self.y_axis, i),
            z: vec4_index(self.z_axis, i),
            w: vec4_index(self.w_axis, i),
        }
    }
}

fn vec4_index(v: Vec4, i: usize) -> (r: u32)
    requires
        i < 4,
    ensures
        r == vec4_comp(v, i as int),
{
    if i == 0 {
        v.x
    } else if i == 1 {
        v.y
    } else if i == 2 {
        v.z
    } else {
        v.w
    }
}

pub(crate) fn add3(a: Vec3, b: Vec3) -> (r: Vec3)
    ensures
        r == add3_bits(a, b),
{
    Vec3 { x: fp_add(a.x, b.x), y: fp_add(a.y, b.y), z: fp_add(a.z, b.z) }
}

pub(crate) fn sub3(a: Vec3, b: Vec3) -> (r: Vec3)
    ensures
        r == sub3_bits(a, b),
{
    Vec3 { x: fp_sub(a.x, b.x), y: fp_sub(a.y, b.y), z: fp_sub(a.z, b.z) }
}

pub(crate) fn smul3(s: u32, v: Vec3) -> (r: Vec3)
    ensures
        r == smul3_bits(s, v),
{
    Vec3 { x: fp_mul(s, v.x), y: fp_mul(s, v.y), z: fp_mul(s, v.z) }
}

pub(crate) fn vmuls3(v: Vec3, s: u32) -> (r: Vec3)
    ensures
        r == vmuls3_bits(v, s),
{
    Vec3 { x: fp_mul(v.x, s), y: fp_mul(v.y, s), z: fp_mul(v.z, s) }
}

pub(crate) fn sdiv3(v: Vec3, s: u32) -> (r: Vec3)
    ensures
        r == sdiv3_bits(v, s),
{
    Vec3 { x: fp_div(v.x, s), y: fp_div(v.y, s), z: fp_div(v.z, s) }
}

pub(crate) fn abs3(v: Vec3) -> (r: Vec3)
    ensures
        r == abs3_bits(v),
{
    Vec3 { x: fp_abs(v.x), y: fp_abs(v.y), z: fp_abs(v.z) }
}

pub(crate) fn min3(a: Vec3, b: Vec3) -> (r: Vec3)
    ensures
        r == min3_bits(a, b),
{
    Vec3 { x: fp_min(a.x, b.x), y: fp_min(a.y, b.y), z: fp_min(a.z, b.z) }
}

pub(crate) fn max3(a: Vec3, b: Vec3) -> (r: Vec3)
    ensures
        r == max3_bits(a, b),
{
    Vec3 { x: fp_max(a.x, b.x), y: fp_max(a.y, b.y), z: fp_max(a.z, b.z) }
}

pub(crate) fn dot3(a: Vec3, b: Vec3) -> (r: u32)
    ensures
        r == dot3_bits(a, b),
{
    fp_add(fp_add(fp_mul(a.x, b.x), fp_mul(a.y, b.y)), fp_mul(a.z, b.z))
}

pub(crate) fn length3(v: Vec3) -> (r: u32)
    ensures
        r == length3_bits(v),
{
    fp_sqrt(dot3(v, v))
}

pub(crate) fn add4(a: Vec4, b: Vec4) -> (r: Vec4)
    ensures
        r == add4_bits(a, b),
{
    Vec4 {
        x: fp_add(a.x, b.x),
        y: fp_add(a.y, b.y),
        z: fp_add(a.z, b.z),
        w: fp_add(a.w, b.w),
    }
}

pub(crate) fn sub4(a: Vec4, b: Vec4) -> (r: Vec4)
    ensures
        r == sub4_bits(a, b),
{
    Vec4 {
        x: fp_sub(a.x, b.x),
        y: fp_sub(a.y, b.y),
        z: fp_sub(a.z, b.z),
        w: fp_sub(a.w, b.w),
    }
}

pub(crate) fn vmuls4(v: Vec4, s: u32) -> (r: Vec4)
    ensures
        r == vmuls4_bits(v, s),
{
    Vec4 { x: fp_mul(v.x, s), y: fp_mul(v.y, s), z: fp_mul(v.z, s), w: fp_mul(v.w, s) }
}

pub(crate) fn dot4(a: Vec4, b: Vec4) -> (r: u32)
    ensures
        r == dot4_bits(a, b),
{
    fp_add(
        fp_add(fp_mul(a.x, b.x), fp_mul(a.y, b.y)),
        fp_add(fp_mul(a.z, b.z), fp_mul(a.w, b.w)),
    )
}

pub(crate) fn truncate4(v: Vec4) -> (r: Vec3)
    ensures
        r == truncate_bits(v),
{
    Vec3 { x: v.x, y: v.y, z: v.z }
}

pub(crate) fn extend3(v: Vec3, w: u32) -> (r: Vec4)
    ensures
        r == extend_bits(v, w),
{
    Vec4 { x: v.x, y: v.y, z: v.z, w }
}

pub(crate) fn mat3_abs(m: Mat3) -> (r: Mat3)
    ensures
        r == mat3_abs_bits(m),
{
    Mat3 { x_axis: abs3(m.x_axis), y_axis: abs3(m.y_axis), z_axis: abs3(m.z_axis) }
}

pub(crate) fn mat3_mul_vec3(m: Mat3, v: Vec3) -> (r: Vec3)
    ensures
        r == mat3_mul_vec3_bits(m, v),
{
    add3(add3(vmuls3(m.x_axis, v.x), vmuls3(m.y_axis, v.y)), vmuls3(m.z_axis, v.z))
}

pub(crate) fn transform_point3(t: &Affine3, p: Vec3) -> (r: Vec3)
    ensures
        r == transform_point3_bits(*t, p),
{
    add3(mat3_mul_vec3(t.matrix3, p), t.translation)
}

} // verus!
