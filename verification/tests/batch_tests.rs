use renderkit::mesh_renderer::MeshRenderer;
use renderkit::texture::Texture;
use renderkit::texture_renderer::{DrawBatch, TextureRenderer};
use renderkit::vertex_array::DrawCommand;
use renderkit::{CELL_ONE, CELL_ZERO};

fn tex(id: u32, w: u32, h: u32) -> Texture {
    Texture::from_image(id, w, h, vec![0u8; (4 * w * h) as usize])
}

fn identity_cells() -> Vec<u32> {
    let mut m = vec![0u32; 16];
    for i in 0..4 {
        m[i * 4 + i] = 1.0f32.to_bits();
    }
    m
}

fn pos(v: i32) -> u32 {
    v as u32
}

#[test]
fn cell_constants_match_float_bit_patterns() {
    assert_eq!(CELL_ONE, 1.0f32.to_bits());
    assert_eq!(CELL_ZERO, 0.0f32.to_bits());
}

#[test]
fn quad_emits_six_vertices_with_exact_corners() {
    let t = tex(1, 8, 8);
    let mut tr = TextureRenderer::new();
    tr.begin(&identity_cells());
    let flushed = tr.texture(&t, 10, 20, 100, 50, CELL_ZERO, CELL_ZERO, CELL_ONE, CELL_ONE);
    assert!(flushed.is_none());
    let batch = tr.end().expect("one draw at end");
    assert_eq!(batch.tex, 1);
    assert_eq!(batch.vertex_count, 6);
    assert_eq!(batch.combined, identity_cells());
    // positions: (10,20),(10,70),(110,70),(110,70),(110,20),(10,20), z = 0
    assert_eq!(
        batch.positions,
        vec![
            pos(10),
            pos(20),
            0,
            pos(10),
            pos(70),
            0,
            pos(110),
            pos(70),
            0,
            pos(110),
            pos(70),
            0,
            pos(110),
            pos(20),
            0,
            pos(10),
            pos(20),
            0,
        ]
    );
    // matching texture-coordinate corners
    let u0 = CELL_ZERO;
    let u1 = CELL_ONE;
    assert_eq!(
        batch.tex_coords,
        vec![u0, u0, u0, u1, u1, u1, u1, u1, u1, u0, u0, u0]
    );
    // full-opacity white on all six vertices
    assert_eq!(batch.colors, vec![CELL_ONE; 24]);
}

#[test]
fn same_texture_quads_issue_exactly_one_draw() {
    let t = tex(7, 4, 4);
    let mut tr = TextureRenderer::new();
    tr.begin(&identity_cells());
    let mut draws: Vec<DrawBatch> = Vec::new();
    for i in 0..5 {
        if let Some(b) = tr.texture(&t, i, 0, 4, 4, CELL_ZERO, CELL_ZERO, CELL_ONE, CELL_ONE) {
            draws.push(b);
        }
    }
    if let Some(b) = tr.end() {
        draws.push(b);
    }
    assert_eq!(draws.len(), 1);
    assert_eq!(draws[0].tex, 7);
    assert_eq!(draws[0].vertex_count, 30);
}

#[test]
fn alternating_textures_issue_one_draw_per_quad_in_order() {
    let t1 = tex(1, 4, 4);
    let t2 = tex(2, 4, 4);
    let mut tr = TextureRenderer::new();
    tr.begin(&identity_cells());
    let mut draws: Vec<DrawBatch> = Vec::new();
    for q in [&t1, &t2, &t1, &t2] {
        if let Some(b) = tr.texture(q, 0, 0, 4, 4, CELL_ZERO, CELL_ZERO, CELL_ONE, CELL_ONE) {
            draws.push(b);
        }
    }
    if let Some(b) = tr.end() {
        draws.push(b);
    }
    let order: Vec<u32> = draws.iter().map(|b| b.tex).collect();
    assert_eq!(order, vec![1, 2, 1, 2]);
    for b in &draws {
        assert_eq!(b.vertex_count, 6);
    }
}

#[test]
fn flush_without_open_session_or_texture_is_a_no_op() {
    let mut tr = TextureRenderer::new();
    assert!(tr.flush().is_none());
    tr.begin(&identity_cells());
    assert!(tr.flush().is_none());
    assert!(tr.end().is_none());
}

#[test]
fn manual_flush_mid_session_draws_the_pending_run() {
    let t = tex(3, 4, 4);
    let mut tr = TextureRenderer::new();
    tr.begin(&identity_cells());
    tr.texture(&t, 0, 0, 4, 4, CELL_ZERO, CELL_ZERO, CELL_ONE, CELL_ONE);
    let b = tr.flush().expect("pending geometry drawn");
    assert_eq!(b.tex, 3);
    assert_eq!(b.vertex_count, 6);
    // nothing left afterwards
    assert!(tr.end().is_none());
}

#[test]
fn texture_xy_draws_at_native_size_with_full_uv_range() {
    let t = tex(4, 16, 8);
    let mut tr = TextureRenderer::new();
    tr.begin(&identity_cells());
    assert!(tr.texture_xy(&t, 5, 6).is_none());
    let b = tr.end().expect("one draw at end");
    assert_eq!(b.positions[0], pos(5));
    assert_eq!(b.positions[1], pos(6));
    assert_eq!(b.positions[6], pos(21)); // x + width
    assert_eq!(b.positions[7], pos(14)); // y + height
    assert_eq!(b.tex_coords[0], CELL_ZERO);
    assert_eq!(b.tex_coords[4], CELL_ONE);
    assert_eq!(b.tex_coords[5], CELL_ONE);
}

#[test]
fn negative_coordinates_round_trip_through_cells() {
    let t = tex(5, 4, 4);
    let mut tr = TextureRenderer::new();
    tr.begin(&identity_cells());
    tr.texture(&t, -10, -20, 4, 4, CELL_ZERO, CELL_ZERO, CELL_ONE, CELL_ONE);
    let b = tr.end().unwrap();
    assert_eq!(b.positions[0] as i32, -10);
    assert_eq!(b.positions[1] as i32, -20);
    assert_eq!(b.positions[6] as i32, -6);
    assert_eq!(b.positions[7] as i32, -16);
}

#[test]
fn primitive_batch_accumulates_colored_vertices() {
    let mut mr = MeshRenderer::new();
    mr.color(CELL_ONE, CELL_ZERO, CELL_ZERO, CELL_ONE);
    mr.vertex(1, 2, 3);
    mr.color(CELL_ZERO, CELL_ONE, CELL_ZERO, CELL_ONE);
    mr.vertex(4, 5, 6);
    assert_eq!(
        mr.channel_buffer(renderkit::layout::Usage::POSITIONS).data().as_slice(),
        &[1, 2, 3, 4, 5, 6]
    );
    assert_eq!(
        mr.channel_buffer(renderkit::layout::Usage::COLORS).data().as_slice(),
        &[CELL_ONE, CELL_ZERO, CELL_ZERO, CELL_ONE, CELL_ZERO, CELL_ONE, CELL_ZERO, CELL_ONE]
    );
    mr.bind();
    assert_eq!(mr.render(), DrawCommand::Arrays { count: 2 });
    mr.unbind();
    mr.clear();
    assert_eq!(mr.channel_buffer(renderkit::layout::Usage::POSITIONS).len(), 0);
    assert!(mr.channel_buffer(renderkit::layout::Usage::POSITIONS).is_dirty());
}

#[test]
fn primitive_batch_setters_for_absent_channels_are_no_ops() {
    let mut mr = MeshRenderer::new();
    mr.normal(1, 2, 3);
    mr.tex_coord(4, 5);
    mr.color(CELL_ONE, CELL_ONE, CELL_ONE, CELL_ONE);
    mr.vertex(7, 8, 9);
    assert_eq!(
        mr.channel_buffer(renderkit::layout::Usage::POSITIONS).data().as_slice(),
        &[7, 8, 9]
    );
    assert_eq!(
        mr.channel_buffer(renderkit::layout::Usage::COLORS).data().as_slice(),
        &[CELL_ONE, CELL_ONE, CELL_ONE, CELL_ONE]
    );
}

#[test]
fn staged_color_resets_after_each_vertex() {
    let mut mr = MeshRenderer::new();
    mr.color(CELL_ONE, CELL_ONE, CELL_ONE, CELL_ONE);
    mr.vertex(1, 1, 1);
    // the scratch vertex was zeroed, so the next vertex is untinted
    mr.vertex(2, 2, 2);
    assert_eq!(
        mr.channel_buffer(renderkit::layout::Usage::COLORS).data().as_slice(),
        &[CELL_ONE, CELL_ONE, CELL_ONE, CELL_ONE, 0, 0, 0, 0]
    );
}
