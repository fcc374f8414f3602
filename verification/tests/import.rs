use ennona::fixed::{isqrt, Color, Vec3};
use ennona::import::{
    assemble_ply, avg_vertex_distance, avg_vertex_position, import_image, import_kind, Face,
    ImportError, ImportKind, PropertyValue, Vertex,
};

fn vert(x: i64, y: i64, z: i64) -> Vertex {
    Vertex { position: Vec3 { x, y, z }, color: Color { r: 0, g: 0, b: 0 } }
}

#[test]
fn fan_triangulation_of_a_quad() {
    let vertices = vec![vert(0, 0, 0), vert(1, 0, 0), vert(1, 1, 0), vert(0, 1, 0)];
    let faces = vec![Face { vertex_index: vec![0, 1, 2, 3] }];
    let d = assemble_ply(&vertices, &faces).unwrap();
    assert_eq!(d.face_indices, vec![0, 1, 2, 0, 2, 3]);
    assert_eq!(d.face_vertices.len(), 4);
    assert!(d.point_vertices.is_empty());
}

#[test]
fn dedup_keeps_first_use_order_and_partitions_points() {
    let vertices = vec![vert(0, 0, 0), vert(1, 0, 0), vert(2, 0, 0), vert(3, 0, 0), vert(4, 0, 0)];
    let faces = vec![
        Face { vertex_index: vec![1, 2, 3] },
        Face { vertex_index: vec![3, 2, 4] },
    ];
    let d = assemble_ply(&vertices, &faces).unwrap();
    // First-use order of the referenced vertices: 1, 2, 3, 4.
    assert_eq!(d.face_vertices.len(), 4);
    assert_eq!(d.face_vertices[0], vert(1, 0, 0));
    assert_eq!(d.face_vertices[1], vert(2, 0, 0));
    assert_eq!(d.face_vertices[2], vert(3, 0, 0));
    assert_eq!(d.face_vertices[3], vert(4, 0, 0));
    assert_eq!(d.face_indices, vec![0, 1, 2, 2, 1, 3]);
    // Vertex 0 is referenced by no face, so it is drawn as a point.
    assert_eq!(d.point_vertices, vec![vert(0, 0, 0)]);
}

#[test]
fn short_faces_yield_no_triangles() {
    let vertices = vec![vert(0, 0, 0), vert(1, 0, 0)];
    let faces = vec![Face { vertex_index: vec![0, 1] }];
    let d = assemble_ply(&vertices, &faces).unwrap();
    assert!(d.face_indices.is_empty());
    assert_eq!(d.face_vertices.len(), 2);
    assert!(d.point_vertices.is_empty());
}

#[test]
fn face_index_out_of_range_rejects_import() {
    let vertices = vec![vert(0, 0, 0), vert(1, 0, 0), vert(2, 0, 0)];
    let faces = vec![Face { vertex_index: vec![0, 7, 1] }];
    assert_eq!(assemble_ply(&vertices, &faces).unwrap_err(), ImportError::InvalidFaceIndex);
}

#[test]
fn negative_face_index_rejects_import() {
    let vertices = vec![vert(0, 0, 0)];
    let faces = vec![Face { vertex_index: vec![-1] }];
    assert_eq!(assemble_ply(&vertices, &faces).unwrap_err(), ImportError::InvalidFaceIndex);
}

#[test]
fn vertex_properties_set_coordinates_and_colors() {
    let mut v = Vertex::new();
    v.set_property(&"x".to_string(), PropertyValue::Scalar(1_500_000)).unwrap();
    v.set_property(&"y".to_string(), PropertyValue::Scalar(-2_000_000)).unwrap();
    v.set_property(&"z".to_string(), PropertyValue::Scalar(42)).unwrap();
    v.set_property(&"red".to_string(), PropertyValue::Byte(255)).unwrap();
    v.set_property(&"green".to_string(), PropertyValue::Byte(0)).unwrap();
    v.set_property(&"blue".to_string(), PropertyValue::Byte(51)).unwrap();
    assert_eq!(v.position, Vec3 { x: 1_500_000, y: -2_000_000, z: 42 });
    assert_eq!(v.color.r, 1_000_000);
    assert_eq!(v.color.g, 0);
    assert_eq!(v.color.b, 200_000);
}

#[test]
fn unexpected_vertex_property_fails_loudly() {
    let mut v = Vertex::new();
    let r = v.set_property(&"nx".to_string(), PropertyValue::Scalar(1));
    assert_eq!(r.unwrap_err(), ImportError::UnexpectedProperty);
    let r = v.set_property(&"x".to_string(), PropertyValue::Byte(1));
    assert_eq!(r.unwrap_err(), ImportError::UnexpectedProperty);
}

#[test]
fn out_of_range_coordinate_is_rejected() {
    let mut v = Vertex::new();
    let r = v.set_property(&"x".to_string(), PropertyValue::Scalar(i64::MAX));
    assert_eq!(r.unwrap_err(), ImportError::ValueOutOfRange);
    assert_eq!(v.position, Vec3 { x: 0, y: 0, z: 0 });
}

#[test]
fn face_property_sets_the_corner_list() {
    let mut f = Face::new();
    f.set_property(&"vertex_index".to_string(), PropertyValue::IndexList(vec![3, 1, 2])).unwrap();
    assert_eq!(f.vertex_index, vec![3, 1, 2]);
    let r = f.set_property(&"x".to_string(), PropertyValue::Scalar(1));
    assert_eq!(r.unwrap_err(), ImportError::UnexpectedProperty);
}

#[test]
fn extension_selects_the_import_path() {
    assert_eq!(import_kind(&"ply".to_string()), ImportKind::Ply);
    assert_eq!(import_kind(&"png".to_string()), ImportKind::Image);
    assert_eq!(import_kind(&"jpg".to_string()), ImportKind::Image);
    assert_eq!(import_kind(&"jpeg".to_string()), ImportKind::Image);
    assert_eq!(import_kind(&"txt".to_string()), ImportKind::Unknown);
    assert_eq!(import_kind(&"".to_string()), ImportKind::Unknown);
}

#[test]
fn average_position_is_the_coordinate_mean() {
    let vs = vec![vert(0, 0, 0), vert(2, 4, 6)];
    assert_eq!(avg_vertex_position(&vs), Some(Vec3 { x: 1, y: 2, z: 3 }));
    assert_eq!(avg_vertex_position(&Vec::new()), None);
}

#[test]
fn average_distance_uses_integer_square_roots() {
    let center = Vec3 { x: 0, y: 0, z: 0 };
    let vs = vec![vert(3, 4, 0), vert(0, 0, 0)];
    // Distances 5 and 0 average (truncating) to 2.
    assert_eq!(avg_vertex_distance(center, &vs), 2);
    assert_eq!(avg_vertex_distance(center, &Vec::new()), 0);
}

#[test]
fn integer_square_root_is_exact() {
    assert_eq!(isqrt(0), 0);
    assert_eq!(isqrt(1), 1);
    assert_eq!(isqrt(24), 4);
    assert_eq!(isqrt(25), 5);
    assert_eq!(isqrt(1_000_000_000_000), 1_000_000);
}

#[test]
fn image_import_round_trips_dimensions_and_pixels() {
    let pixels: Vec<u8> = (0..24).map(|i| (i * 10) as u8).collect();
    let img = image::RgbaImage::from_raw(3, 2, pixels.clone()).unwrap();
    let mut bytes: Vec<u8> = Vec::new();
    img.write_to(&mut std::io::Cursor::new(&mut bytes), image::ImageFormat::Png).unwrap();
    let raster = import_image(&bytes).unwrap();
    assert_eq!(raster.width, 3);
    assert_eq!(raster.height, 2);
    assert_eq!(raster.rgba.len(), 24);
    assert_eq!(raster.rgba, pixels);
}

#[test]
fn undecodable_bytes_are_rejected() {
    let bytes = vec![1u8, 2, 3, 4];
    assert_eq!(import_image(&bytes).unwrap_err(), ImportError::DecodeFailed);
}

#[test]
fn geometry_without_faces_is_all_points() {
    let vertices = vec![vert(1, 2, 3), vert(4, 5, 6)];
    let d = assemble_ply(&vertices, &Vec::new()).unwrap();
    assert_eq!(d.point_vertices, vertices);
    assert!(d.face_vertices.is_empty());
    assert!(d.face_indices.is_empty());
}

#[test]
fn a_repeated_corner_keeps_its_first_position() {
    let vertices = vec![vert(0, 0, 0), vert(1, 0, 0), vert(2, 0, 0)];
    let faces = vec![Face { vertex_index: vec![2, 2, 1] }];
    let d = assemble_ply(&vertices, &faces).unwrap();
    // First-use order is 2 then 1; the repeated corner reuses position 0.
    assert_eq!(d.face_vertices, vec![vert(2, 0, 0), vert(1, 0, 0)]);
    assert_eq!(d.face_indices, vec![0, 0, 1]);
    assert_eq!(d.point_vertices, vec![vert(0, 0, 0)]);
}
