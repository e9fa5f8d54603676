//! Embedding plane geometry into space.
//!
//! A polygon lives in the plane; to make a mesh of it, each 2D point is
//! placed into the 3D plane orthogonal to a chosen axis, with a fixed
//! value on that axis.

use vstd::prelude::*;

use crate::cardinal_direction::CardinalDirection;
use crate::cardinal_direction::as_index;
use crate::cardinal_direction::plane_indices;
use crate::vector::Vec2l;
use crate::vector::Vec3l;

verus! {

/// The point of space whose coordinate on `axis` is `default_value` and
/// whose two remaining coordinates, in increasing position order, are the
/// point's plane coordinates.
pub open spec fn spec_embed_to_3(axis: CardinalDirection, default_value: i64, point: Vec2l) -> Vec3l {
    match axis {
        CardinalDirection::X => Vec3l { x: default_value, y: point.x, z: point.y },
        CardinalDirection::Y => Vec3l { x: point.x, y: default_value, z: point.y },
        CardinalDirection::Z => Vec3l { x: point.x, y: point.y, z: default_value },
    }
}

/// Embeds one plane point into the 3D plane orthogonal to `axis`, placing
/// `default_value` on that axis.
pub fn embed_to_3(axis: CardinalDirection, default_value: i64, point: Vec2l) -> (r: Vec3l)
    ensures
        r == spec_embed_to_3(axis, default_value, point),
{
    let idx = as_index(&axis);
    let plane = plane_indices(axis);

    let mut coords: [i64; 3] = [0, 0, 0];
    coords[idx] = default_value;
    coords[plane.0] = point.x();
    coords[plane.1] = point.y();

    Vec3l { x: coords[0], y: coords[1], z: coords[2] }
}

/// Embeds a list of plane points into the 3D plane orthogonal to `axis`,
/// placing `default_value` on that axis, keeping their order.
pub fn embed_vertices_to_3(axis: CardinalDirection, default_value: i64, points: Vec<Vec2l>) -> (r:
    Vec<Vec3l>)
    ensures
        r@.len() == points@.len(),
        forall|i: int|
            0 <= i < points@.len() ==> (#[trigger] r@[i]) == spec_embed_to_3(
                axis,
                default_value,
                points@[i],
            ),
{
    let l = points.len();
    let mut new_vertices: Vec<Vec3l> = Vec::with_capacity(l);

    let mut i: usize = 0;
    while i < l
        invariant
            l == points@.len(),
            0 <= i <= l,
            new_vertices@.len() == i,
            forall|j: int|
                0 <= j < i ==> (#[trigger] new_vertices@[j]) == spec_embed_to_3(
                    axis,
                    default_value,
                    points@[j],
                ),
        decreases l - i,
    {
        let v = embed_to_3(axis, default_value, points[i]);
        new_vertices.push(v);
        i = i + 1;
    }

    new_vertices
}

} // verus!
