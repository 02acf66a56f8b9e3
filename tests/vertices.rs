use skia_safe::geometry::{Color, Point, Rect};
use skia_safe::vertices::{
    Attribute, AttributeType, Bone, Builder, BuilderFlags, Unsupported, VertexMode, Vertices,
};

fn pt(x: f32, y: f32) -> Point {
    Point::new(x.to_bits(), y.to_bits())
}

fn triangle() -> Vertices {
    let positions = [pt(0.0, 0.0), pt(1.0, 0.0), pt(0.0, 1.0)];
    let texs = [pt(0.0, 0.0), pt(1.0, 0.0), pt(0.0, 1.0)];
    let colors = [Color(0xFFFFFFFF), Color(0xFFFFFFFF), Color(0xFFFFFFFF)];
    Vertices::new_copy(VertexMode::Triangles, &positions, &texs, &colors, None, 7)
}

#[test]
fn test_vertices_vertex_mode_naming() {
    let _ = VertexMode::Triangles;
}

#[test]
fn test_attribute_layout() {
    assert_eq!(std::mem::size_of::<Attribute>(), std::mem::size_of::<u8>());
    assert_eq!(std::mem::align_of::<Attribute>(), std::mem::align_of::<u8>());
}

#[test]
fn value_type_layouts_match_native() {
    assert_eq!(std::mem::size_of::<Point>(), 8);
    assert_eq!(std::mem::size_of::<Color>(), 4);
    assert_eq!(std::mem::size_of::<Rect>(), 16);
    assert_eq!(std::mem::align_of::<Point>(), 4);
    assert_eq!(std::mem::align_of::<Rect>(), 4);
}

#[test]
fn attribute_sizes() {
    assert_eq!(Attribute::new(AttributeType::Float).channel_count(), 1);
    assert_eq!(Attribute::new(AttributeType::Float3).bytes_per_vertex(), 12);
    assert_eq!(Attribute::new(AttributeType::Byte4UNorm).channel_count(), 4);
    assert_eq!(Attribute::new(AttributeType::Byte4UNorm).bytes_per_vertex(), 4);
    assert_eq!(Attribute::default().tp, AttributeType::Float);
}

#[test]
fn new_copy_triangle_round_trips() {
    let v = triangle();
    assert!(v.approximate_size() > 0);
    let bytes = v.encode();
    let d = Vertices::decode(&bytes, 8).expect("decodes");
    assert_eq!(d.unique_id(), 8);
    assert_eq!(d.mode(), v.mode());
    assert_eq!(d.positions(), v.positions());
    assert_eq!(d.tex_coords(), v.tex_coords());
    assert_eq!(d.colors(), v.colors());
    assert_eq!(d.indices(), v.indices());
    assert_eq!(d.bounds(), v.bounds());
    assert_eq!(d.encode(), bytes);
}

#[test]
fn new_copy_accessors() {
    let v = triangle();
    assert_eq!(v.unique_id(), 7);
    assert_eq!(v.vertex_count(), 3);
    assert_eq!(v.index_count(), 0);
    assert!(v.has_tex_coords());
    assert!(v.has_colors());
    assert!(!v.has_indices());
    assert!(!v.has_bones());
    assert!(!v.is_volatile());
    assert!(v.bone_indices().is_none());
    assert!(v.bone_weights().is_none());
    assert_eq!(v.colors().unwrap()[1], Color(0xFFFFFFFF));
    assert_eq!(
        *v.bounds(),
        Rect { left: 0f32.to_bits(), top: 0f32.to_bits(), right: 1f32.to_bits(), bottom: 1f32.to_bits() }
    );
    // header, positions, texture coordinates, colors
    assert_eq!(v.approximate_size(), 16 + 24 + 24 + 12);
}

#[test]
fn new_copy_keeps_indices_but_not_empty_ones() {
    let p = [pt(0.0, 0.0), pt(2.0, -3.0), pt(-1.5, 4.0)];
    let c = [Color(1), Color(2), Color(3)];
    let v = Vertices::new_copy(VertexMode::TriangleFan, &p, &p, &c, Some(&[0, 2, 1]), 1);
    assert_eq!(v.indices(), Some(&[0u16, 2, 1][..]));
    assert_eq!(v.index_count(), 3);
    assert_eq!(v.approximate_size(), 16 + 24 + 24 + 12 + 6);
    assert_eq!(v.bounds().left, (-1.5f32).to_bits());
    assert_eq!(v.bounds().top, (-3.0f32).to_bits());
    assert_eq!(v.bounds().right, 2f32.to_bits());
    assert_eq!(v.bounds().bottom, 4f32.to_bits());
    let e = Vertices::new_copy(VertexMode::Triangles, &p, &p, &c, Some(&[]), 1);
    assert!(e.indices().is_none());
    let d = Vertices::decode(&v.encode(), 2).unwrap();
    assert_eq!(d.indices(), v.indices());
    assert_eq!(d.mode(), VertexMode::TriangleFan);
}

#[test]
fn empty_mesh_has_empty_bounds() {
    let v = Vertices::new_copy(VertexMode::Triangles, &[], &[], &[], None, 3);
    assert_eq!(*v.bounds(), Rect::new_empty());
    assert_eq!(v.vertex_count(), 0);
    assert_eq!(v.tex_coords(), Some(&[][..]));
    let d = Vertices::decode(&v.encode(), 3).unwrap();
    assert_eq!(d.positions().len(), 0);
}

#[test]
fn encode_layout_is_little_endian_words() {
    let v = triangle();
    let b = v.encode();
    // header: mode, vertex count, index count, flags (tex coords and colors)
    assert_eq!(&b[0..16], &[0, 0, 0, 0, 3, 0, 0, 0, 0, 0, 0, 0, 3, 0, 0, 0]);
    assert_eq!(b.len(), 16 + 4 * (6 + 6 + 3));
    // second position's x is 1.0
    assert_eq!(&b[24..28], &1f32.to_bits().to_le_bytes());
}

#[test]
fn decode_rejects_malformed_bytes() {
    let b = triangle().encode();
    assert!(Vertices::decode(&b[..b.len() - 1], 0).is_none());
    assert!(Vertices::decode(&b[..b.len() - 4], 0).is_none());
    assert!(Vertices::decode(&[], 0).is_none());
    let mut bad_mode = b.clone();
    bad_mode[0] = 3;
    assert!(Vertices::decode(&bad_mode, 0).is_none());
    let mut bad_flags = b.clone();
    bad_flags[12] = 4;
    assert!(Vertices::decode(&bad_flags, 0).is_none());
    let p = [pt(0.0, 0.0)];
    let c = [Color(0)];
    let mut big_index = Vertices::new_copy(VertexMode::Triangles, &p, &p, &c, Some(&[0]), 0).encode();
    let n = big_index.len();
    big_index[n - 2] = 1;
    assert!(Vertices::decode(&big_index, 0).is_none());
}

#[test]
fn builder_without_optional_arrays() {
    let mut b = Builder::new(VertexMode::Triangles, 4, 6, BuilderFlags::empty(), 11);
    assert!(b.is_valid());
    assert_eq!(b.positions().len(), 4);
    assert_eq!(b.indices().map(|i| i.len()), Some(6));
    assert!(b.tex_coords().is_none());
    assert!(b.colors().is_none());
    assert!(b.bone_indices().is_none());
    assert!(b.bone_weights().is_none());
    assert!(!b.is_volatile());
    let mut z = Builder::new(VertexMode::Triangles, 4, 0, BuilderFlags::empty(), 12);
    assert!(z.indices().is_none());
}

#[test]
fn builder_detach_keeps_what_was_written() {
    let flags = BuilderFlags::has_tex_coords().union(BuilderFlags::has_colors());
    assert_eq!(flags.bits(), 3);
    assert!(flags.contains(BuilderFlags::has_colors()));
    let mut b = Builder::new(VertexMode::TriangleStrip, 3, 3, flags, 5);
    b.positions()[1] = pt(5.0, 6.0);
    b.tex_coords().unwrap()[2] = pt(1.0, 1.0);
    b.colors().unwrap()[0] = Color(0xFF00FF00);
    b.indices().unwrap().copy_from_slice(&[2, 1, 0]);
    let v = b.detach();
    assert_eq!(v.unique_id(), 5);
    assert_eq!(v.mode(), VertexMode::TriangleStrip);
    assert_eq!(v.positions(), &[pt(0.0, 0.0), pt(5.0, 6.0), pt(0.0, 0.0)]);
    assert_eq!(v.tex_coords().unwrap()[2], pt(1.0, 1.0));
    assert_eq!(v.colors().unwrap(), &[Color(0xFF00FF00), Color(0), Color(0)]);
    assert_eq!(v.indices(), Some(&[2u16, 1, 0][..]));
    assert_eq!(v.bounds().right, 5f32.to_bits());
}

#[test]
fn builder_flags_from_bits() {
    assert_eq!(BuilderFlags::from_bits_truncate(7).bits(), 3);
    assert_eq!(BuilderFlags::all().bits(), 3);
    assert!(!BuilderFlags::empty().contains(BuilderFlags::has_tex_coords()));
}

#[test]
fn apply_bones_is_unsupported() {
    let v = triangle();
    let bones = [Bone { values: [0; 6] }];
    assert!(matches!(v.apply_bones(&bones), Err(Unsupported::RemovedWithoutReplacement)));
}
