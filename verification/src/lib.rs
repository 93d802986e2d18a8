//! The decisions of an offline Monte-Carlo path tracer.
//!
//! A path tracer estimates the light that reaches each pixel of a camera by
//! following random light paths through a scene. Its numbers are binary32
//! and its arithmetic is rounded; what it decides from those numbers is
//! exact, and is what this crate states and proves: which root of an
//! intersection equation counts, whether a crossing lies on a quad, which
//! of the meetings along a ray is the nearest, what leaves a surface, and
//! when a path ends.
//!
//! The caller computes in machine arithmetic and hands the results over by
//! their encodings ([`scalar::Scalar`]). A scene is built from objects that
//! implement [`hittables::Hittable`].
pub mod canvas;
pub mod hittables;
pub mod materials;
pub mod render;
pub mod scalar;
pub mod vector;
