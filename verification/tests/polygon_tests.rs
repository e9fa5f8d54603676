use cg_rust::polygon::Polygon;
use cg_rust::vector::Vec2l;

fn polygon_of(points: &[(i64, i64)]) -> Polygon {
    let mut poly = Polygon::new();
    let mut v: Vec<Vec2l> = Vec::new();
    for &(x, y) in points {
        v.push(Vec2l::new(x, y));
    }
    poly.push_vector(v);
    poly
}

#[test]
fn test_is_triangle_convex() {
    // The triangle (0, 0), (1, 0), (0.5, 0.66), at integer scale 100.
    let poly = polygon_of(&[(0, 0), (100, 0), (50, 66)]);

    let convex = poly.is_convex();
    assert_eq!(convex.unwrap(), true);
}

#[test]
fn test_is_rect_convex() {
    let poly = polygon_of(&[(0, 0), (1, 0), (1, 1), (0, 1)]);

    let convex = poly.is_convex();
    assert_eq!(convex.unwrap(), true);
}

#[test]
fn test_is_concave() {
    // The quad (0, 0), (1, 0), (0.1, 0.1), (0, 1), at integer scale 10.
    let poly = polygon_of(&[(0, 0), (10, 0), (1, 1), (0, 10)]);

    let convex = poly.is_convex();
    assert_eq!(convex.unwrap(), false);
}

#[test]
fn test_is_collinear_triangle_convex() {
    // The quad (0, 0), (1, 0), (0.5, 0.5), (0, 1), at integer scale 2:
    // vertex 2 lies on the segment from vertex 1 to vertex 3.
    let poly = polygon_of(&[(0, 0), (2, 0), (1, 1), (0, 2)]);

    let convex = poly.is_convex();
    assert_eq!(convex.unwrap(), true);
}

#[test]
fn test_regular_fan_triangulation() {
    // A convex octagon (a regular octagon of radius 100, rounded to the
    // integer grid).
    let poly = polygon_of(&[
        (100, 0),
        (71, 71),
        (0, 100),
        (-71, 71),
        (-100, 0),
        (-71, -71),
        (0, -100),
        (71, -71),
    ]);

    let triangulation = poly.triangulate();

    assert_eq!(triangulation.is_some(), true);

    let indices = triangulation.unwrap();

    assert_eq!(indices.len(), 6 * 3);
}

#[test]
fn test_one_convex_vertex_fan_triangulation() {
    // The quad (0, 0), (1, 0), (1, 1), (0, 1) with the inward point
    // (0.5, 0.5) appended, at integer scale 2.
    let poly = polygon_of(&[(0, 0), (2, 0), (2, 2), (0, 2), (1, 1)]);

    let triangulation = poly.triangulate();

    assert_eq!(triangulation.is_some(), true);

    let indices = triangulation.unwrap();

    assert_eq!(indices.len(), 3 * 3);
    assert_eq!(indices[0], 4);
}

#[test]
fn convex_fan_has_exact_indices() {
    // A convex polygon is fanned from vertex 0: for the square the two
    // triangles are (0, 1, 2) and (0, 2, 3).
    let poly = polygon_of(&[(0, 0), (2, 0), (2, 2), (0, 2)]);
    let indices = poly.triangulate().unwrap();
    assert_eq!(indices, vec![0, 1, 2, 0, 2, 3]);
}

#[test]
fn concave_fan_has_exact_indices() {
    // With a single concave vertex the fan apex is that vertex: here
    // vertex 4, so the triangles walk the boundary from it.
    let poly = polygon_of(&[(0, 0), (2, 0), (2, 2), (0, 2), (1, 1)]);
    let indices = poly.triangulate().unwrap();
    assert_eq!(indices, vec![4, 0, 1, 4, 1, 2, 4, 2, 3]);
}

#[test]
fn fan_covers_every_vertex() {
    // A convex hexagon triangulates into exactly n - 2 = 4 triangles
    // whose indices cover every vertex 0..6.
    let poly = polygon_of(&[(100, 0), (50, 87), (-50, 87), (-100, 0), (-50, -87), (50, -87)]);
    let indices = poly.triangulate().unwrap();
    assert_eq!(indices.len(), 3 * 4);
    let mut seen = [false; 6];
    for &i in &indices {
        assert!(i < 6);
        seen[i] = true;
    }
    assert!(seen.iter().all(|&s| s));
}

#[test]
fn square_with_inward_point_has_one_concave_vertex() {
    let convex = polygon_of(&[(0, 0), (2, 0), (2, 2), (0, 2)]);
    assert_eq!(convex.is_convex(), Some(true));
    assert_eq!(convex.get_concave_vertices().unwrap(), Vec::<usize>::new());

    let dented = polygon_of(&[(0, 0), (2, 0), (2, 2), (0, 2), (1, 1)]);
    assert_eq!(dented.is_convex(), Some(false));
    assert_eq!(dented.get_concave_vertices().unwrap(), vec![4]);

    let triangles = dented.triangulate().unwrap();
    assert_eq!(triangles.len(), 3 * 3);
    assert_eq!(triangles[0], 4);
}

#[test]
fn collinear_vertex_is_not_concave() {
    let poly = polygon_of(&[(0, 0), (2, 0), (1, 1), (0, 2)]);
    assert_eq!(poly.get_concave_vertices().unwrap(), Vec::<usize>::new());
    assert_eq!(poly.is_convex(), Some(true));
}

#[test]
fn fewer_than_three_points_is_undefined() {
    for n in 0..3usize {
        let mut poly = Polygon::new();
        for i in 0..n {
            poly.push(Vec2l::new(i as i64, 0));
        }
        assert!(poly.get_concave_vertices().is_none());
        assert!(poly.is_convex().is_none());
        assert!(poly.triangulate().is_none());
    }
}

#[test]
fn two_concave_vertices_defeat_triangulation() {
    // A six-point boundary with two dents, one on each side.
    let poly = polygon_of(&[(0, 0), (4, 0), (2, 1), (4, 4), (0, 4), (2, 3)]);
    let concave = poly.get_concave_vertices().unwrap();
    assert_eq!(concave, vec![2, 5]);
    assert!(poly.triangulate().is_none());
}

#[test]
fn rounded_regular_polygons_are_convex() {
    // Regular polygons, sampled counter-clockwise on a large circle and
    // rounded to the integer grid, stay convex for every corner count.
    let radius = 1_000_000.0_f64;
    for k in 3..=16usize {
        let mut poly = Polygon::with_capacity(k);
        let step = std::f64::consts::TAU / (k as f64);
        for i in 0..k {
            let angle = step * (i as f64);
            poly.push(Vec2l::new(
                (radius * angle.cos()).round() as i64,
                (radius * angle.sin()).round() as i64,
            ));
        }
        assert_eq!(poly.is_convex(), Some(true), "corner count {}", k);
        assert_eq!(poly.get_concave_vertices().unwrap(), Vec::<usize>::new());
        assert_eq!(poly.triangulate().unwrap().len(), 3 * (k - 2));
    }
}

#[test]
fn push_and_get_points_round_trip() {
    let mut poly = Polygon::with_capacity(2);
    assert!(poly.get_points().is_empty());
    poly.push(Vec2l::new(3, -4));
    poly.push(Vec2l::new(5, 6));
    let pts = poly.get_points();
    assert_eq!(pts.len(), 2);
    assert_eq!((pts[0].x(), pts[0].y()), (3, -4));
    assert_eq!((pts[1].x(), pts[1].y()), (5, 6));
}
