use raytracer::mesh::Triangle;
use raytracer::scene::{emissive_triangle_indices, has_emissive, MaterialKind};

#[test]
fn test_has_emissive() {
    assert!(has_emissive(&vec![MaterialKind::Emissive]));
    assert!(has_emissive(&vec![
        MaterialKind::Lambertian,
        MaterialKind::Emissive
    ]));
    assert!(!has_emissive(&vec![
        MaterialKind::Lambertian,
        MaterialKind::Metal,
        MaterialKind::Dielectric
    ]));
    assert!(!has_emissive(&Vec::new()));
}

#[test]
fn test_emissive_triangle_indices_single() {
    let kinds = vec![MaterialKind::Emissive];
    let triangles = vec![Triangle::new([0, 1, 2], 0)];
    assert_eq!(emissive_triangle_indices(&kinds, &triangles), vec![0]);
}

#[test]
fn test_emissive_triangle_indices_mixed() {
    let kinds = vec![MaterialKind::Lambertian, MaterialKind::Emissive];
    let triangles = vec![
        Triangle::new([0, 1, 2], 0),
        Triangle::new([1, 2, 3], 1),
        Triangle::new([2, 3, 4], 0),
        Triangle::new([3, 4, 5], 1),
    ];
    assert_eq!(emissive_triangle_indices(&kinds, &triangles), vec![1, 3]);
}

#[test]
fn test_emissive_triangle_indices_none() {
    let kinds = vec![MaterialKind::Metal];
    let triangles = vec![Triangle::new([0, 1, 2], 0)];
    assert_eq!(
        emissive_triangle_indices(&kinds, &triangles),
        Vec::<usize>::new()
    );
}
