//! Verified core of a path-tracing renderer.
//!
//! The numeric rendering kernel (vector arithmetic, intersection math,
//! material scattering) works on floating-point data and lives in the
//! surrounding application.  This crate holds the parts of the renderer
//! whose behaviour is exact and provable: the supersampling argument
//! parser and its grid layout, the mesh face-record parser with its
//! index bookkeeping, the byte layout of the output pixel buffer, and
//! the depth/termination policy of the path tracer.

pub mod anti_aliasing;
pub mod image;
pub mod mesh;
pub mod raytrace;
pub mod scene;
pub mod text;
