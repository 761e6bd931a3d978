//! Input-driven state of an interactive 3D viewport: a first-person camera
//! controller kept in fixed-point angle units, and the per-frame runtime that
//! keeps the presentable surface and its depth buffer at matching sizes.

pub mod camera;
pub mod runtime;
