use renderkit::layout::{Usage, VertexAttributes};

#[test]
fn channel_slots_and_components() {
    assert_eq!(Usage::POSITIONS.position(), 0);
    assert_eq!(Usage::COLORS.position(), 1);
    assert_eq!(Usage::NORMALS.position(), 2);
    assert_eq!(Usage::TEXCOORDS.position(), 3);
    assert_eq!(Usage::INDICES.position(), 4);

    assert_eq!(Usage::POSITIONS.offset(), 3);
    assert_eq!(Usage::COLORS.offset(), 4);
    assert_eq!(Usage::NORMALS.offset(), 3);
    assert_eq!(Usage::TEXCOORDS.offset(), 2);
    assert_eq!(Usage::INDICES.offset(), 3);
}

#[test]
fn stride_is_sum_of_enabled_components() {
    assert_eq!(VertexAttributes::with(true, true, false, false).vertex_size, 7);
    assert_eq!(VertexAttributes::with(true, true, false, true).vertex_size, 9);
    assert_eq!(VertexAttributes::with(true, true, true, true).vertex_size, 12);
    assert_eq!(VertexAttributes::with(false, false, false, false).vertex_size, 0);
    assert_eq!(VertexAttributes::with(false, true, false, true).vertex_size, 6);
    assert_eq!(VertexAttributes::with(true, false, true, false).vertex_size, 6);
}

#[test]
fn offsets_partition_the_stride_in_order() {
    let all = VertexAttributes::with(true, true, true, true);
    assert_eq!(all.offset(Usage::POSITIONS), 0);
    assert_eq!(all.offset(Usage::COLORS), 3);
    assert_eq!(all.offset(Usage::NORMALS), 7);
    assert_eq!(all.offset(Usage::TEXCOORDS), 10);
    // strictly increasing, non-overlapping, and ending at the stride
    assert_eq!(all.offset(Usage::POSITIONS) + Usage::POSITIONS.offset(), all.offset(Usage::COLORS));
    assert_eq!(all.offset(Usage::COLORS) + Usage::COLORS.offset(), all.offset(Usage::NORMALS));
    assert_eq!(all.offset(Usage::NORMALS) + Usage::NORMALS.offset(), all.offset(Usage::TEXCOORDS));
    assert_eq!(all.offset(Usage::TEXCOORDS) + Usage::TEXCOORDS.offset(), all.vertex_size);

    let skip = VertexAttributes::with(true, false, true, true);
    assert_eq!(skip.offset(Usage::POSITIONS), 0);
    assert_eq!(skip.offset(Usage::NORMALS), 3);
    assert_eq!(skip.offset(Usage::TEXCOORDS), 6);
}

#[test]
fn disabled_channel_offset_is_zero_sentinel() {
    let a = VertexAttributes::with(true, false, false, true);
    assert_eq!(a.offset(Usage::COLORS), 0);
    assert_eq!(a.offset(Usage::NORMALS), 0);
    assert_eq!(a.offset(Usage::INDICES), 0);
    assert!(!a.usage(Usage::COLORS));
    assert!(!a.usage(Usage::NORMALS));
    assert!(a.usage(Usage::POSITIONS));
    assert!(a.usage(Usage::TEXCOORDS));
    assert!(!a.usage(Usage::INDICES));
}
