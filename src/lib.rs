//! Procedural cube-sphere geometry, instance layout and camera input handling.
//!
//! Geometry is kept exact: a face of the sphere is described by integer points
//! on a cube scaled by `resolution - 1`, so that every vertex is the
//! normalisation of an exactly known, non-zero direction.  Grid placements are
//! exact rationals.  Turning these into `f32` data is left to the renderer.
pub mod controller;
pub mod error;
pub mod grid;
pub mod mesh;
pub mod sphere;
pub mod vector;

pub use controller::{CameraController, CameraMove, InputEvent, Key, Motion};
pub use error::GeometryError;
pub use grid::{build_grid, Instance, Rotation, Spacing};
pub use mesh::Mesh;
pub use sphere::Sphere;
pub use vector::{Direction, Vec3i};
