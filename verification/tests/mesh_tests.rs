use renderkit::layout::{Usage, VertexAttributes};
use renderkit::mesh::Mesh;
use renderkit::vertex_array::{DrawCommand, VertexArrayObject};

#[test]
fn vertex_deinterleaves_into_channel_buffers() {
    let mut m = Mesh::new(VertexAttributes::with(true, true, false, true));
    m.vertex(&[1, 2, 3, 4, 5, 6, 7, 8, 9]);
    m.vertex(&[11, 12, 13, 14, 15, 16, 17, 18, 19]);
    assert_eq!(
        m.channel_buffer(Usage::POSITIONS).data().as_slice(),
        &[1, 2, 3, 11, 12, 13]
    );
    assert_eq!(
        m.channel_buffer(Usage::COLORS).data().as_slice(),
        &[4, 5, 6, 7, 14, 15, 16, 17]
    );
    assert_eq!(m.channel_buffer(Usage::TEXCOORDS).data().as_slice(), &[8, 9, 18, 19]);
}

#[test]
fn clear_empties_every_channel_and_marks_dirty() {
    let mut m = Mesh::new(VertexAttributes::with(true, true, true, true));
    m.vertex(&[1, 2, 3, 4, 5, 6, 7, 8, 9, 10, 11, 12]);
    m.vertex(&[1, 2, 3, 4, 5, 6, 7, 8, 9, 10, 11, 12]);
    m.indices(&[0, 1, 2]);
    m.clear();
    for u in [Usage::POSITIONS, Usage::COLORS, Usage::NORMALS, Usage::TEXCOORDS] {
        let b = m.channel_buffer(u);
        assert_eq!(b.len(), 0);
        assert!(b.is_dirty());
    }
    assert_eq!(m.index_buffer().len(), 0);
    assert!(m.index_buffer().is_dirty());
}

#[test]
fn render_decides_indexed_or_array_draw() {
    let mut m = Mesh::new(VertexAttributes::with(true, false, false, false));
    m.vertex(&[1, 2, 3]);
    m.vertex(&[4, 5, 6]);
    m.vertex(&[7, 8, 9]);
    m.bind();
    assert_eq!(m.render(), DrawCommand::Arrays { count: 3 });
    m.unbind();

    m.indices(&[0, 1, 2, 2, 1, 0]);
    m.bind();
    assert_eq!(m.render(), DrawCommand::Indexed { count: 6 });
}

#[test]
fn bind_reports_exactly_the_dirty_buffers() {
    let mut v = VertexArrayObject::new(VertexAttributes::with(true, true, false, false));
    let ups = v.bind();
    assert_eq!(ups, vec![false, false, false]);
    v.unbind();
    v.vertex(&[1, 2, 3, 4, 5, 6, 7]);
    let ups = v.bind();
    assert_eq!(ups, vec![true, true, false]);
    let ups = v.bind();
    assert_eq!(ups, vec![false, false, false]);
}

#[test]
fn vertex_offsets_follow_the_layout() {
    let m = Mesh::new(VertexAttributes::with(true, false, false, true));
    assert_eq!(m.get_vertex_offset(Usage::POSITIONS), 0);
    assert_eq!(m.get_vertex_offset(Usage::TEXCOORDS), 3);
    // a channel the layout does not carry reports the full stride
    assert_eq!(m.get_vertex_offset(Usage::COLORS), 5);
}

#[test]
fn empty_layout_mesh_draws_nothing() {
    let mut m = Mesh::new(VertexAttributes::with(false, false, false, false));
    m.vertex(&[]);
    m.bind();
    assert_eq!(m.render(), DrawCommand::Arrays { count: 0 });
}
