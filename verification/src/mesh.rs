//! The mesh abstraction.
//!
//! A mesh is any indexed surface representation whose vertices carry a
//! payload of type `V`. The kernel's one implementation is the
//! triangle-vertex mesh.

use vstd::prelude::*;

use crate::triangle_vertex_mesh::TriangleVertexMesh;

verus! {

/// Marker for indexed surface representations over vertex payload `V`.
pub trait Mesh<V> {

}

impl<V> Mesh<V> for TriangleVertexMesh<V> {

}

} // verus!
