//! Bounding primitives for view-frustum culling: axis-aligned bounding
//! boxes, bounding spheres, half-spaces, and frusta of six half-spaces,
//! together with the conservative intersection and containment tests used
//! to decide whether an object can be skipped before rendering.
//!
//! All scalars are IEEE 754 binary32 values carried as their bit patterns;
//! see [`float_bits`].
pub mod aabb;
pub mod float_bits;
pub mod frustum;
pub mod half_space;
pub mod linear;
pub mod sphere;

pub use aabb::Aabb;
pub use frustum::{CascadesFrusta, CubemapFrusta, Frustum};
pub use half_space::HalfSpace;
pub use linear::{Affine3, Mat3, Mat4, Vec3, Vec4};
pub use sphere::Sphere;
