//! A computational-geometry kernel over 2D polygons and 3D triangle meshes.
//!
//! The kernel classifies polygon vertices as convex or concave, fan-
//! triangulates polygons with at most one concave vertex, builds
//! vertex-to-vertex and vertex-to-face incidence maps over indexed
//! triangle meshes, and supplies the index-level scaffolding of
//! angle-weighted vertex-normal computation.
//!
//! Scalars are 64-bit integers, so every geometric predicate is exact and
//! provable. Mesh topology is generic over the vertex payload, which the
//! adjacency algorithms never read. Floating-point work — sampling a
//! circle, normalizing a vector, weighting by angles — stays outside the
//! kernel, driven by the index plans and exact sums computed here.

pub mod cardinal_direction;
pub mod common_properties;
pub mod mesh;
pub mod mesh_normal_calculation;
pub mod polygon;
pub mod property_map;
pub mod triangle_vertex_mesh;
pub mod util;
pub mod vector;
