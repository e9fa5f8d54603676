use cg_rust::cardinal_direction::CardinalDirection;
use cg_rust::cardinal_direction::as_index;
use cg_rust::cardinal_direction::plane_indices;
use cg_rust::common_properties::NormalMap;
use cg_rust::polygon::Polygon;
use cg_rust::property_map::PropertyType;
use cg_rust::util::embed_to_3;
use cg_rust::util::embed_vertices_to_3;
use cg_rust::vector::Vec2i;
use cg_rust::vector::Vec2l;
use cg_rust::vector::Vec3i;
use cg_rust::vector::Vec3l;

#[test]
fn cardinal_indices() {
    assert_eq!(as_index(&CardinalDirection::X), 0);
    assert_eq!(as_index(&CardinalDirection::Y), 1);
    assert_eq!(as_index(&CardinalDirection::Z), 2);
    assert_eq!(plane_indices(CardinalDirection::X), (1, 2));
    assert_eq!(plane_indices(CardinalDirection::Y), (0, 2));
    assert_eq!(plane_indices(CardinalDirection::Z), (0, 1));
}

#[test]
fn embed_places_coordinates_per_axis() {
    let p = Vec2l::new(7, 9);
    assert_eq!(embed_to_3(CardinalDirection::X, -1, p), Vec3l::new(-1, 7, 9));
    assert_eq!(embed_to_3(CardinalDirection::Y, -1, p), Vec3l::new(7, -1, 9));
    assert_eq!(embed_to_3(CardinalDirection::Z, -1, p), Vec3l::new(7, 9, -1));
}

#[test]
fn embed_vertices_keeps_order() {
    let pts = vec![Vec2l::new(1, 2), Vec2l::new(3, 4), Vec2l::new(5, 6)];
    let out = embed_vertices_to_3(CardinalDirection::Z, 10, pts);
    assert_eq!(
        out,
        vec![Vec3l::new(1, 2, 10), Vec3l::new(3, 4, 10), Vec3l::new(5, 6, 10)]
    );
}

#[test]
fn normal_map_slots() {
    let mut map: NormalMap<Vec2l> = NormalMap::with_size(3);
    assert_eq!(map.len(), 3);
    for i in 0..3 {
        assert!(map.get(i).is_none());
    }
    map.set(1, Vec2l::new(4, 5));
    assert_eq!(map.get(1), Some(&Vec2l::new(4, 5)));
    assert!(map.get(0).is_none());
    map.push(Vec2l::new(6, 7));
    assert_eq!(map.len(), 4);
    assert_eq!(map.get(3), Some(&Vec2l::new(6, 7)));
    assert_eq!(NormalMap::<Vec2l>::property_type(), PropertyType::NORMAL);
}

#[test]
fn property_store_rejects_duplicates_and_unregistered_kinds() {
    let mut poly = Polygon::new();
    // The normal container can be added once.
    assert!(poly.get_vertex_property(PropertyType::NORMAL).is_none());
    assert!(poly.add_vertex_property(PropertyType::NORMAL));
    assert!(!poly.add_vertex_property(PropertyType::NORMAL));
    assert!(poly.get_vertex_property(PropertyType::NORMAL).is_some());
    // No container kind is registered for colors.
    assert!(!poly.add_vertex_property(PropertyType::COLOR));
    assert!(poly.get_vertex_property(PropertyType::COLOR).is_none());
}

#[test]
fn polygon_property_map_stores_values() {
    let mut poly = Polygon::new();
    poly.push(Vec2l::new(0, 0));
    poly.push(Vec2l::new(1, 0));
    assert!(poly.add_vertex_property(PropertyType::NORMAL));
    let map = poly.get_vertex_property(PropertyType::NORMAL).unwrap();
    map.push(Vec2l::new(0, 1));
    map.push(Vec2l::new(1, 1));
    let map = poly.get_vertex_property(PropertyType::NORMAL).unwrap();
    assert_eq!(map.len(), 2);
    assert_eq!(map.get(0), Some(&Vec2l::new(0, 1)));
    assert_eq!(map.get(1), Some(&Vec2l::new(1, 1)));
}

#[test]
fn vector_products_are_exact() {
    let a = Vec2l::new(3, 4);
    let b = Vec2l::new(-2, 5);
    assert_eq!(Vec2l::dot(a, b), 3 * -2 + 4 * 5);
    assert_eq!(Vec2l::wedge(a, b), 3 * 5 - 4 * -2);
    // The wedge is antisymmetric.
    assert_eq!(Vec2l::wedge(b, a), -Vec2l::wedge(a, b));

    let c = Vec3l::new(1, 2, 3);
    let d = Vec3l::new(4, 5, 6);
    assert_eq!(Vec3l::dot(c, d), 4 + 10 + 18);
    assert_eq!(Vec3l::wedge(c, d), Vec3l::new(-3, 6, -3));
    // The cross product is orthogonal to both factors.
    assert_eq!(Vec3l::dot(Vec3l::wedge(c, d), c), 0);
    assert_eq!(Vec3l::dot(Vec3l::wedge(c, d), d), 0);
}

#[test]
fn vector_arithmetic_operators() {
    let a = Vec2l::new(1, 2);
    let b = Vec2l::new(10, 20);
    assert_eq!(a + b, Vec2l::new(11, 22));
    assert_eq!(b - a, Vec2l::new(9, 18));
    assert_eq!(a * 3, Vec2l::new(3, 6));

    let c = Vec3l::new(1, 2, 3);
    let d = Vec3l::new(10, 20, 30);
    assert_eq!(c + d, Vec3l::new(11, 22, 33));
    assert_eq!(d - c, Vec3l::new(9, 18, 27));
    assert_eq!(c * -2, Vec3l::new(-2, -4, -6));
    assert_eq!((c.x(), c.y(), c.z()), (1, 2, 3));
}

#[test]
fn small_vector_products_are_exact() {
    let a = Vec2i::new(3, 4);
    let b = Vec2i::new(-2, 5);
    assert_eq!(Vec2i::dot(a, b), 14);
    assert_eq!(Vec2i::wedge(a, b), 23);
    assert_eq!(a + b, Vec2i::new(1, 9));
    assert_eq!(a - b, Vec2i::new(5, -1));
    assert_eq!(b * 2, Vec2i::new(-4, 10));
    assert_eq!((a.x(), a.y()), (3, 4));

    let c = Vec3i::new(1, 2, 3);
    let d = Vec3i::new(4, 5, 6);
    assert_eq!(Vec3i::dot(c, d), 32);
    assert_eq!(Vec3i::wedge(c, d), Vec3i::new(-3, 6, -3));
    assert_eq!(c + d, Vec3i::new(5, 7, 9));
    assert_eq!(d - c, Vec3i::new(3, 3, 3));
    assert_eq!(c * -1, Vec3i::new(-1, -2, -3));
    assert_eq!((c.x(), c.y(), c.z()), (1, 2, 3));
}
