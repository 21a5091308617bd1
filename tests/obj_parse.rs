use terrain_engine::obj_parse::{line_kind, parse_face_vertex, parse_index, FaceVertex, ObjLineKind};

#[test]
fn lines_are_told_apart_by_their_first_two_bytes() {
    assert_eq!(line_kind(b"v 1.0 2.0 3.0"), ObjLineKind::Vertex);
    assert_eq!(line_kind(b"vt 0.5 0.5"), ObjLineKind::TextureCoord);
    assert_eq!(line_kind(b"vn 0 1 0"), ObjLineKind::Normal);
    assert_eq!(line_kind(b"f 1/1/1 2/2/1 3/3/1"), ObjLineKind::Face);
    assert_eq!(line_kind(b"o Cube"), ObjLineKind::Object);
    assert_eq!(line_kind(b"# comment"), ObjLineKind::Other);
    assert_eq!(line_kind(b"vp 1 2"), ObjLineKind::Other);
    assert_eq!(line_kind(b"v"), ObjLineKind::Other);
    assert_eq!(line_kind(b""), ObjLineKind::Other);
}

#[test]
fn indices_turn_from_one_based_to_zero_based() {
    assert_eq!(parse_index(b"1"), Some(0));
    assert_eq!(parse_index(b"42"), Some(41));
    assert_eq!(parse_index(b"+3"), Some(2));
    assert_eq!(parse_index(b"007"), Some(6));
}

#[test]
fn malformed_or_zero_indices_are_refused() {
    assert_eq!(parse_index(b"0"), None);
    assert_eq!(parse_index(b""), None);
    assert_eq!(parse_index(b"+"), None);
    assert_eq!(parse_index(b"-1"), None);
    assert_eq!(parse_index(b"12a"), None);
    assert_eq!(parse_index(b" 1"), None);
}

#[test]
fn indices_up_to_the_largest_usize_are_read() {
    let max = usize::MAX.to_string();
    assert_eq!(parse_index(max.as_bytes()), Some(usize::MAX - 1));
    assert_eq!(parse_index(b"18446744073709551616"), None);
    assert_eq!(parse_index(b"99999999999999999999999"), None);
}

#[test]
fn face_vertex_with_all_three_indices() {
    assert_eq!(
        parse_face_vertex(b"3/2/1"),
        Some(FaceVertex { vertex: 2, texture: Some(1), normal: 0 })
    );
    assert_eq!(
        parse_face_vertex(b"3/2/1/9"),
        Some(FaceVertex { vertex: 2, texture: Some(1), normal: 0 })
    );
}

#[test]
fn face_vertex_without_texture() {
    assert_eq!(
        parse_face_vertex(b"7//1"),
        Some(FaceVertex { vertex: 6, texture: None, normal: 0 })
    );
}

#[test]
fn face_vertex_with_missing_or_bad_fields_is_refused() {
    assert_eq!(parse_face_vertex(b"3/2"), None);
    assert_eq!(parse_face_vertex(b"3"), None);
    assert_eq!(parse_face_vertex(b"3/2/"), None);
    assert_eq!(parse_face_vertex(b"a/2/1"), None);
    assert_eq!(parse_face_vertex(b"3/x/1"), None);
    assert_eq!(parse_face_vertex(b"0/1/1"), None);
}
