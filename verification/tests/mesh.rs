use raytracer::mesh::{get_tuple_index, parse_next, FaceFormat, IndexHelper, Triangle};

#[test]
fn test_determine_format_vpos() {
    assert_eq!(FaceFormat::determine_format("12"), FaceFormat::VPos);
}

#[test]
fn test_determine_format_vpos_uv() {
    assert_eq!(FaceFormat::determine_format("12/3"), FaceFormat::VPosUv);
}

#[test]
fn test_determine_format_vpos_n() {
    assert_eq!(FaceFormat::determine_format("12//3"), FaceFormat::VPosN);
}

#[test]
fn test_determine_format_vpos_uv_n() {
    assert_eq!(FaceFormat::determine_format("12/3/4"), FaceFormat::VPosUvN);
}

#[test]
fn test_triangle_new() {
    let t = Triangle::new([0, 1, 2], 7);
    assert_eq!(t.vertex_idx, [0, 1, 2]);
    assert_eq!(t.normal_idx, None);
    assert_eq!(t.uv_idx, None);
    assert_eq!(t.material_idx, 7);
}

#[test]
fn test_index_helper_counts() {
    let mut h = IndexHelper::new();
    assert_eq!((h.vertex_count, h.uv_count, h.normals_count), (0, 0, 0));
    h.add_object(3, 2, 1);
    assert_eq!((h.vertex_count, h.uv_count, h.normals_count), (3, 2, 1));
    h.add_object(4, 0, 2);
    assert_eq!((h.vertex_count, h.uv_count, h.normals_count), (7, 2, 3));
}

#[test]
fn test_index_helper_local_indices() {
    let mut h = IndexHelper::new();
    h.add_object(3, 2, 1);
    assert_eq!(h.get_vertex_index(4), 0);
    assert_eq!(h.get_vertex_index(6), 2);
    assert_eq!(h.get_uv_index(3), 0);
    assert_eq!(h.get_normals_index(2), 0);
}

#[test]
fn test_parse_next() {
    assert_eq!(parse_next("42"), 42);
    assert_eq!(parse_next("+7"), 7);
    assert_eq!(parse_next("0"), 0);
}

#[test]
fn test_get_tuple_index_single_slash() {
    let tokens = vec!["10/2".to_string(), "11/3".to_string(), "12/4".to_string()];
    let (first, second) = get_tuple_index(&tokens, "/");
    assert_eq!(first, [10, 11, 12]);
    assert_eq!(second, [2, 3, 4]);
}

#[test]
fn test_get_tuple_index_double_slash() {
    let tokens = vec!["10//2".to_string(), "11//3".to_string()];
    let (first, second) = get_tuple_index(&tokens, "//");
    assert_eq!(first, [10, 11, 0]);
    assert_eq!(second, [2, 3, 0]);
}

#[test]
fn test_get_triangle_vpos() {
    let tokens = vec!["5".to_string(), "7".to_string(), "9".to_string()];
    let mut h = IndexHelper::new();
    h.add_object(4, 0, 0);
    let t = FaceFormat::VPos.get_triangle(&tokens, &h, 3);
    assert_eq!(t.vertex_idx, [0, 2, 4]);
    assert_eq!(t.normal_idx, None);
    assert_eq!(t.uv_idx, None);
    assert_eq!(t.material_idx, 3);
}

#[test]
fn test_get_triangle_vpos_uv() {
    let tokens = vec!["5/2".to_string(), "6/3".to_string(), "7/4".to_string()];
    let mut h = IndexHelper::new();
    h.add_object(4, 1, 0);
    let t = FaceFormat::VPosUv.get_triangle(&tokens, &h, 0);
    assert_eq!(t.vertex_idx, [0, 1, 2]);
    assert_eq!(t.uv_idx, Some([0, 1, 2]));
    assert_eq!(t.normal_idx, None);
}

#[test]
fn test_get_triangle_vpos_n() {
    let tokens = vec!["5//2".to_string(), "6//3".to_string(), "7//4".to_string()];
    let mut h = IndexHelper::new();
    h.add_object(4, 0, 1);
    let t = FaceFormat::VPosN.get_triangle(&tokens, &h, 0);
    assert_eq!(t.vertex_idx, [0, 1, 2]);
    assert_eq!(t.normal_idx, Some([0, 1, 2]));
    assert_eq!(t.uv_idx, None);
}

#[test]
fn test_get_triangle_vpos_uv_n() {
    let tokens = vec![
        "5/2/3".to_string(),
        "6/3/4".to_string(),
        "7/4/5".to_string(),
    ];
    let mut h = IndexHelper::new();
    h.add_object(4, 1, 2);
    let t = FaceFormat::VPosUvN.get_triangle(&tokens, &h, 1);
    assert_eq!(t.vertex_idx, [0, 1, 2]);
    assert_eq!(t.uv_idx, Some([0, 1, 2]));
    assert_eq!(t.normal_idx, Some([0, 1, 2]));
    assert_eq!(t.material_idx, 1);
}

#[test]
fn test_tokens_ok() {
    let mut h = IndexHelper::new();
    h.add_object(4, 1, 2);
    let good = vec!["5/2/3".to_string(), "6/3/4".to_string(), "7/4/5".to_string()];
    assert!(FaceFormat::VPosUvN.tokens_ok(&good, &h));
    let low_vertex = vec!["4/2/3".to_string(), "6/3/4".to_string(), "7/4/5".to_string()];
    assert!(!FaceFormat::VPosUvN.tokens_ok(&low_vertex, &h));
    let malformed = vec!["5/x/3".to_string(), "6/3/4".to_string(), "7/4/5".to_string()];
    assert!(!FaceFormat::VPosUvN.tokens_ok(&malformed, &h));
    let short = vec!["5".to_string(), "6".to_string()];
    assert!(!FaceFormat::VPos.tokens_ok(&short, &h));
    assert!(FaceFormat::VPos.tokens_ok(&vec!["5".to_string(), "6".to_string(), "7".to_string()], &h));
    assert!(FaceFormat::VPosN.tokens_ok(
        &vec!["5//3".to_string(), "6//4".to_string(), "7//5".to_string()],
        &h
    ));
    assert!(!FaceFormat::VPosUv.tokens_ok(
        &vec!["5//3".to_string(), "6//4".to_string(), "7//5".to_string()],
        &h
    ));
}

#[test]
fn test_get_triangle_vpos_extra_tokens_ignored() {
    let tokens = vec![
        "1".to_string(),
        "2".to_string(),
        "3".to_string(),
        "4".to_string(),
    ];
    let h = IndexHelper::new();
    let t = FaceFormat::VPos.get_triangle(&tokens, &h, 0);
    assert_eq!(t.vertex_idx, [0, 1, 2]);
}
