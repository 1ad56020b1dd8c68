//! The texture batcher: accumulates screen-space textured quads and issues
//! one draw per maximal run of quads sharing a texture. A session runs from
//! `begin` to `end`; a quad drawn against a different texture than its
//! predecessor flushes the accumulated geometry first. Every draw the host
//! must issue is handed out as a `DrawBatch` value, in paint order.
//!
//! Quad positions are screen-space integer coordinates; their cells carry
//! the coordinate in two's complement, and the host converts them to its
//! pipeline's number format on upload. Color and texture-coordinate cells
//! pass through untouched.

use vstd::prelude::*;

use crate::layout::Usage;
use crate::mesh::Mesh;
use crate::shader::ShaderProgram;
use crate::texture::Texture;
use crate::{patched, zero_seq, CELL_ONE};

verus! {

/// The cell carrying a screen coordinate: its two's-complement bits.
pub open spec fn cell_of(v: int) -> u32 {
    v as u32
}

/// The eighteen position cells of one quad: two triangles over the corners
/// `(x, y)`, `(x, y+h)`, `(x+w, y+h)`, `(x+w, y)`, split along the diagonal
/// from the bottom-right to the top-left corner, all at depth zero.
pub open spec fn quad_positions(x: int, y: int, w: int, h: int) -> Seq<u32> {
    seq![
        cell_of(x),
        cell_of(y),
        0u32,
        cell_of(x),
        cell_of(y + h),
        0u32,
        cell_of(x + w),
        cell_of(y + h),
        0u32,
        cell_of(x + w),
        cell_of(y + h),
        0u32,
        cell_of(x + w),
        cell_of(y),
        0u32,
        cell_of(x),
        cell_of(y),
        0u32,
    ]
}

/// The twenty-four color cells of one quad: full-opacity white on all six
/// vertices.
pub open spec fn quad_colors() -> Seq<u32> {
    Seq::new(24, |i: int| CELL_ONE)
}

/// The twelve texture-coordinate cells of one quad, matching the position
/// corners.
pub open spec fn quad_tex_coords(u: u32, v: u32, u2: u32, v2: u32) -> Seq<u32> {
    seq![u, v, u, v2, u2, v2, u2, v2, u2, v, u, v]
}

/// The part of a session's state that decides when a draw is issued: the
/// texture of the open run, and whether unflushed geometry exists.
pub struct BatchSnap {
    pub cur: Option<u32>,
    pub dirty: bool,
}

/// The state right after `begin`: no current texture, nothing unflushed.
pub open spec fn fresh_snap() -> BatchSnap {
    BatchSnap { cur: None, dirty: false }
}

/// How one quad call moves the session state: the quad's texture becomes
/// current and geometry is pending.
pub open spec fn step_tex(s: BatchSnap, t: u32) -> BatchSnap {
    BatchSnap { cur: Some(t), dirty: true }
}

/// The draws one quad call issues: the previous run's texture, exactly when
/// a run is open and the quad switches textures.
pub open spec fn emitted(s: BatchSnap, t: u32) -> Seq<u32> {
    match s.cur {
        Some(c) => if c != t {
            seq![c]
        } else {
            Seq::<u32>::empty()
        },
        None => Seq::<u32>::empty(),
    }
}

/// The session state after a sequence of quad calls.
pub open spec fn run_snap(s: BatchSnap, texs: Seq<u32>) -> BatchSnap
    decreases texs.len(),
{
    if texs.len() == 0 {
        s
    } else {
        run_snap(step_tex(s, texs[0]), texs.drop_first())
    }
}

/// The draws a sequence of quad calls issues, in order.
pub open spec fn run_draws(s: BatchSnap, texs: Seq<u32>) -> Seq<u32>
    decreases texs.len(),
{
    if texs.len() == 0 {
        Seq::<u32>::empty()
    } else {
        emitted(s, texs[0]) + run_draws(step_tex(s, texs[0]), texs.drop_first())
    }
}

/// The draws `end` issues: the current run's texture when geometry is
/// pending.
pub open spec fn end_draws(s: BatchSnap) -> Seq<u32> {
    if s.dirty {
        match s.cur {
            Some(c) => seq![c],
            None => Seq::<u32>::empty(),
        }
    } else {
        Seq::<u32>::empty()
    }
}

/// Every draw one whole session issues, in order: one quad call per entry
/// of `texs`, bracketed by `begin` and `end`.
pub open spec fn session_draws(texs: Seq<u32>) -> Seq<u32> {
    run_draws(fresh_snap(), texs) + end_draws(run_snap(fresh_snap(), texs))
}

proof fn lemma_run_same(t: u32, texs: Seq<u32>)
    requires
        forall|i: int| 0 <= i < texs.len() ==> texs[i] == t,
    ensures
        run_draws(BatchSnap { cur: Some(t), dirty: true }, texs) == Seq::<u32>::empty(),
        run_snap(BatchSnap { cur: Some(t), dirty: true }, texs) == (BatchSnap {
            cur: Some(t),
            dirty: true,
        }),
    decreases texs.len(),
{
    let s = BatchSnap { cur: Some(t), dirty: true };
    if texs.len() > 0 {
        assert(step_tex(s, texs[0]) == s);
        lemma_run_same(t, texs.drop_first());
        assert(emitted(s, texs[0]) + Seq::<u32>::empty() =~= Seq::<u32>::empty());
    }
}

/// Law: a session that draws all its quads against one texture issues no
/// draw before `end`, and `end` issues exactly one draw against that
/// texture — none at all when the session drew nothing.
pub proof fn lemma_same_texture_session(t: u32, n: nat)
    ensures
        session_draws(Seq::new(n, |i: int| t)) == if n == 0 {
            Seq::<u32>::empty()
        } else {
            seq![t]
        },
{
    let texs = Seq::new(n, |i: int| t);
    if n == 0 {
        assert(session_draws(texs) =~= Seq::<u32>::empty());
    } else {
        let s1 = step_tex(fresh_snap(), t);
        assert(s1 == BatchSnap { cur: Some(t), dirty: true });
        lemma_run_same(t, texs.drop_first());
        assert(run_draws(fresh_snap(), texs) == emitted(fresh_snap(), texs[0]) + run_draws(
            s1,
            texs.drop_first(),
        ));
        assert(session_draws(texs) =~= seq![t]);
    }
}

proof fn lemma_run_switching(texs: Seq<u32>, c: u32)
    requires
        forall|i: int| 0 < i < texs.len() ==> #[trigger] texs[i] != texs[i - 1],
        texs.len() > 0 ==> texs[0] != c,
    ensures
        run_draws(BatchSnap { cur: Some(c), dirty: true }, texs) + end_draws(
            run_snap(BatchSnap { cur: Some(c), dirty: true }, texs),
        ) == seq![c] + texs,
    decreases texs.len(),
{
    let s = BatchSnap { cur: Some(c), dirty: true };
    if texs.len() == 0 {
        assert(run_draws(s, texs) + end_draws(run_snap(s, texs)) =~= seq![c] + texs);
    } else {
        let t0 = texs[0];
        let rest = texs.drop_first();
        assert(step_tex(s, t0) == BatchSnap { cur: Some(t0), dirty: true });
        assert(forall|i: int| 0 < i < rest.len() ==> #[trigger] rest[i] != rest[i - 1]) by {
            assert(forall|i: int|
                0 < i < rest.len() ==> #[trigger] rest[i] == texs[i + 1] && rest[i - 1] == texs[i]);
        }
        assert(rest.len() > 0 ==> rest[0] != t0);
        lemma_run_switching(rest, t0);
        assert(emitted(s, t0) == seq![c]);
        assert(run_draws(s, texs) + end_draws(run_snap(s, texs)) =~= seq![c] + (run_draws(
            BatchSnap { cur: Some(t0), dirty: true },
            rest,
        ) + end_draws(run_snap(BatchSnap { cur: Some(t0), dirty: true }, rest))));
        assert(seq![c] + (seq![t0] + rest) =~= seq![c] + texs);
    }
}

/// Law: when no two consecutive quads of a session share a texture, every
/// quad after the first flushes its predecessor and `end` flushes the last:
/// the session issues exactly one draw per quad, against the quads'
/// textures in call order — four alternating quads T1, T2, T1, T2 issue
/// four draws in that order.
pub proof fn lemma_switching_session(texs: Seq<u32>)
    requires
        texs.len() > 0,
        forall|i: int| 0 < i < texs.len() ==> #[trigger] texs[i] != texs[i - 1],
    ensures
        session_draws(texs) == texs,
{
    let t0 = texs[0];
    let rest = texs.drop_first();
    assert(emitted(fresh_snap(), t0) == Seq::<u32>::empty());
    assert(step_tex(fresh_snap(), t0) == BatchSnap { cur: Some(t0), dirty: true });
    assert(forall|i: int| 0 < i < rest.len() ==> #[trigger] rest[i] != rest[i - 1]) by {
        assert(forall|i: int|
            0 < i < rest.len() ==> #[trigger] rest[i] == texs[i + 1] && rest[i - 1] == texs[i]);
    }
    assert(rest.len() > 0 ==> rest[0] != t0);
    lemma_run_switching(rest, t0);
    assert(session_draws(texs) =~= Seq::<u32>::empty() + (run_draws(
        BatchSnap { cur: Some(t0), dirty: true },
        rest,
    ) + end_draws(run_snap(BatchSnap { cur: Some(t0), dirty: true }, rest))));
    assert(Seq::<u32>::empty() + (seq![t0] + rest) =~= texs);
}

/// Everything the host needs to issue one draw call: the texture to bind,
/// the transform to set, and the geometry to upload — `vertex_count`
/// vertices, with three position cells, four color cells and two
/// texture-coordinate cells each.
pub struct DrawBatch {
    pub tex: u32,
    pub combined: Vec<u32>,
    pub positions: Vec<u32>,
    pub colors: Vec<u32>,
    pub tex_coords: Vec<u32>,
    pub vertex_count: usize,
}

/// A stateful quad builder over a position+color+texture-coordinate mesh,
/// with automatic flush on texture change. The host enables alpha blending
/// at `begin`, disables it at `end`, and issues one draw call per
/// `DrawBatch` these methods return, in the order they are returned.
pub struct TextureRenderer {
    shader: ShaderProgram,
    mesh: Mesh,
    next_vertex: Vec<u32>,
    last_tex: Option<u32>,
    combined: Option<Vec<u32>>,
    dirty: bool,
}

impl TextureRenderer {
    /// The accumulated position cells.
    pub closed spec fn positions(self) -> Seq<u32> {
        self.mesh.buf(Usage::POSITIONS)
    }

    /// The accumulated color cells.
    pub closed spec fn colors(self) -> Seq<u32> {
        self.mesh.buf(Usage::COLORS)
    }

    /// The accumulated texture-coordinate cells.
    pub closed spec fn tex_coords(self) -> Seq<u32> {
        self.mesh.buf(Usage::TEXCOORDS)
    }

    /// The scratch cells of the vertex under construction.
    pub closed spec fn scratch(self) -> Seq<u32> {
        self.next_vertex@
    }

    /// Whether a session is open: a transform was recorded by `begin` and
    /// not yet cleared by `end`.
    pub closed spec fn is_open(self) -> bool {
        self.combined is Some
    }

    /// The open session's transform cells.
    pub closed spec fn transform(self) -> Seq<u32> {
        match self.combined {
            Some(m) => m@,
            None => Seq::<u32>::empty(),
        }
    }

    /// The texture of the open run, if any quad was drawn since the last
    /// flush boundary.
    pub closed spec fn cur_tex(self) -> Option<u32> {
        self.last_tex
    }

    /// Whether unflushed geometry exists.
    pub closed spec fn spec_dirty(self) -> bool {
        self.dirty
    }

    /// The flush-deciding part of the state.
    pub open spec fn snap(self) -> BatchSnap {
        BatchSnap { cur: self.cur_tex(), dirty: self.spec_dirty() }
    }

    /// The shader-program model.
    pub closed spec fn spec_shader(self) -> ShaderProgram {
        self.shader
    }

    /// Number of accumulated vertices.
    pub open spec fn vertex_count(self) -> int {
        self.positions().len() as int / 3
    }

    /// The mesh carries exactly positions, colors and texture coordinates;
    /// the scratch vertex spans one stride; a recorded transform has
    /// sixteen cells; a closed session has no current texture and nothing
    /// unflushed; pending geometry always has a texture to be drawn
    /// against; and the three channels hold the same number of vertices.
    pub closed spec fn wf(self) -> bool {
        &&& self.mesh.wf()
        &&& self.mesh.spec_attribs().enabled(Usage::POSITIONS)
        &&& self.mesh.spec_attribs().enabled(Usage::COLORS)
        &&& !self.mesh.spec_attribs().enabled(Usage::NORMALS)
        &&& self.mesh.spec_attribs().enabled(Usage::TEXCOORDS)
        &&& self.next_vertex@.len() == self.mesh.spec_attribs().stride()
        &&& self.mesh.index_data() == Seq::<u32>::empty()
        &&& (self.combined matches Some(m) ==> m@.len() == 16)
        &&& (self.combined is None ==> self.last_tex is None && !self.dirty)
        &&& (self.dirty ==> self.last_tex is Some)
        &&& self.positions().len() % 3 == 0
        &&& self.colors().len() * 3 == self.positions().len() * 4
        &&& self.tex_coords().len() * 3 == self.positions().len() * 2
    }

    /// A fresh, closed batcher with empty buffers and a fresh
    /// shader-program model. The host compiles and links the two shader
    /// stages it renders with, then records the link.
    pub fn new() -> (r: TextureRenderer)
        ensures
            r.wf(),
            !r.is_open(),
            r.snap() == fresh_snap(),
            r.positions() == Seq::<u32>::empty(),
            r.colors() == Seq::<u32>::empty(),
            r.tex_coords() == Seq::<u32>::empty(),
            r.scratch() == zero_seq(9),
            !r.spec_shader().spec_linked(),
    {
        let attribs = crate::layout::VertexAttributes::with(true, true, false, true);
        let mesh = Mesh::new(attribs);
        let next_vertex = crate::zeroed_cells(attribs.stride_val() as usize);
        TextureRenderer {
            shader: ShaderProgram::new(),
            mesh,
            next_vertex,
            last_tex: None,
            combined: None,
            dirty: false,
        }
    }

    /// Whether a session is open.
    pub fn open(&self) -> (o: bool)
        ensures
            o == self.is_open(),
    {
        self.combined.is_some()
    }

    /// The shader-program model this batcher renders with.
    pub fn shader_ref(&self) -> (s: &ShaderProgram)
        ensures
            s == self.spec_shader(),
    {
        &self.shader
    }

    /// Mutable access to the shader-program model, for the host's link and
    /// uniform-location bookkeeping.
    pub fn shader_mut(&mut self) -> (s: &mut ShaderProgram)
        ensures
            *s == old(self).spec_shader(),
            final(self).spec_shader() == *final(s),
            final(self).positions() == old(self).positions(),
            final(self).colors() == old(self).colors(),
            final(self).tex_coords() == old(self).tex_coords(),
            final(self).scratch() == old(self).scratch(),
            final(self).snap() == old(self).snap(),
            final(self).is_open() == old(self).is_open(),
            final(self).transform() == old(self).transform(),
            final(self).wf() == old(self).wf(),
    {
        &mut self.shader
    }

    /// Opens a session: records the combined transform under which every
    /// flush of this session draws, with no current texture and nothing
    /// pending. The host enables alpha blending (source alpha, one minus
    /// source alpha) when it opens a session.
    pub fn begin(&mut self, combined: &[u32])
        requires
            old(self).wf(),
            !old(self).is_open(),
            combined@.len() == 16,
        ensures
            final(self).wf(),
            final(self).is_open(),
            final(self).transform() == combined@,
            final(self).snap() == fresh_snap(),
            final(self).positions() == old(self).positions(),
            final(self).colors() == old(self).colors(),
            final(self).tex_coords() == old(self).tex_coords(),
            final(self).scratch() == old(self).scratch(),
            final(self).spec_shader() == old(self).spec_shader(),
    {
        self.combined = Some(vstd::slice::slice_to_vec(combined));
    }

    /// Stages a four-cell color into the scratch vertex.
    pub fn color(&mut self, r: u32, g: u32, b: u32, a: u32)
        requires
            old(self).wf(),
        ensures
            final(self).wf(),
            final(self).scratch() == patched(old(self).scratch(), 3, seq![r, g, b, a]),
            final(self).positions() == old(self).positions(),
            final(self).colors() == old(self).colors(),
            final(self).tex_coords() == old(self).tex_coords(),
            final(self).snap() == old(self).snap(),
            final(self).is_open() == old(self).is_open(),
            final(self).transform() == old(self).transform(),
            final(self).spec_shader() == old(self).spec_shader(),
    {
        let offset = self.mesh.get_vertex_offset(Usage::COLORS) as usize;
        proof {
            self.mesh.lemma_wf();
            crate::layout::lemma_layout_partition(self.mesh.spec_attribs());
        }
        self.next_vertex.set(offset, r);
        self.next_vertex.set(offset + 1, g);
        self.next_vertex.set(offset + 2, b);
        self.next_vertex.set(offset + 3, a);
        assert(self.next_vertex@ =~= patched(old(self).scratch(), 3, seq![r, g, b, a]));
    }

    /// Stages a two-cell texture coordinate into the scratch vertex.
    pub fn tex_coord(&mut self, u: u32, v: u32)
        requires
            old(self).wf(),
        ensures
            final(self).wf(),
            final(self).scratch() == patched(old(self).scratch(), 7, seq![u, v]),
            final(self).positions() == old(self).positions(),
            final(self).colors() == old(self).colors(),
            final(self).tex_coords() == old(self).tex_coords(),
            final(self).snap() == old(self).snap(),
            final(self).is_open() == old(self).is_open(),
            final(self).transform() == old(self).transform(),
            final(self).spec_shader() == old(self).spec_shader(),
    {
        let offset = self.mesh.get_vertex_offset(Usage::TEXCOORDS) as usize;
        proof {
            self.mesh.lemma_wf();
            crate::layout::lemma_layout_partition(self.mesh.spec_attribs());
        }
        self.next_vertex.set(offset, u);
        self.next_vertex.set(offset + 1, v);
        assert(self.next_vertex@ =~= patched(old(self).scratch(), 7, seq![u, v]));
    }

    /// Writes the position into the scratch vertex, appends the completed
    /// vertex — position, staged color, staged texture coordinate — to the
    /// mesh, and resets the scratch vertex to zero. Appending a vertex does
    /// not by itself mark the session dirty; only quads do.
    pub fn vertex(&mut self, x: i32, y: i32, z: i32)
        requires
            old(self).wf(),
        ensures
            final(self).wf(),
            final(self).positions() == old(self).positions() + seq![
                cell_of(x as int),
                cell_of(y as int),
                cell_of(z as int),
            ],
            final(self).colors() == old(self).colors() + old(self).scratch().subrange(3, 7),
            final(self).tex_coords() == old(self).tex_coords() + old(self).scratch().subrange(7, 9),
            final(self).scratch() == zero_seq(9),
            final(self).snap() == old(self).snap(),
            final(self).is_open() == old(self).is_open(),
            final(self).transform() == old(self).transform(),
            final(self).spec_shader() == old(self).spec_shader(),
    {
        proof {
            self.mesh.lemma_wf();
            crate::layout::lemma_layout_partition(self.mesh.spec_attribs());
        }
        self.next_vertex.set(0, x as u32);
        self.next_vertex.set(1, y as u32);
        self.next_vertex.set(2, z as u32);
        let ghost staged = self.next_vertex@;
        self.mesh.vertex(self.next_vertex.as_slice());
        proof {
            let a = self.mesh.spec_attribs();
            assert(staged.subrange(a.off(Usage::POSITIONS), a.off(Usage::POSITIONS) + 3) =~= seq![
                cell_of(x as int),
                cell_of(y as int),
                cell_of(z as int),
            ]);
            assert(staged.subrange(a.off(Usage::COLORS), a.off(Usage::COLORS) + 4) =~= old(
                self,
            ).scratch().subrange(3, 7));
            assert(staged.subrange(a.off(Usage::TEXCOORDS), a.off(Usage::TEXCOORDS) + 2) =~= old(
                self,
            ).scratch().subrange(7, 9));
        }
        let n = self.next_vertex.len();
        self.next_vertex = crate::zeroed_cells(n);
    }

    /// Issues the pending geometry as one draw against the current texture
    /// and the session transform, and clears it. A no-op outside a session
    /// or before any quad was drawn. This is the sole way a draw leaves the
    /// batcher mid-session.
    pub fn flush(&mut self) -> (flushed: Option<DrawBatch>)
        requires
            old(self).wf(),
        ensures
            final(self).wf(),
            old(self).is_open() && old(self).cur_tex() is Some ==> {
                &&& flushed matches Some(b)
                &&& b.tex == old(self).cur_tex().unwrap()
                &&& b.combined@ == old(self).transform()
                &&& b.positions@ == old(self).positions()
                &&& b.colors@ == old(self).colors()
                &&& b.tex_coords@ == old(self).tex_coords()
                &&& b.vertex_count as int == old(self).vertex_count()
                &&& final(self).positions() == Seq::<u32>::empty()
                &&& final(self).colors() == Seq::<u32>::empty()
                &&& final(self).tex_coords() == Seq::<u32>::empty()
                &&& !final(self).spec_dirty()
                &&& final(self).cur_tex() == old(self).cur_tex()
                &&& final(self).is_open()
                &&& final(self).transform() == old(self).transform()
                &&& final(self).scratch() == old(self).scratch()
                &&& final(self).spec_shader() == old(self).spec_shader()
            },
            !(old(self).is_open() && old(self).cur_tex() is Some) ==> flushed is None
                && *final(self) == *old(self),
    {
        if self.last_tex.is_none() || self.combined.is_none() {
            return None;
        }
        let tex: u32 = match self.last_tex {
            Some(t) => t,
            None => {
                return None;
            },
        };
        let combined: Vec<u32> = match &self.combined {
            Some(m) => vstd::slice::slice_to_vec(m.as_slice()),
            None => {
                return None;
            },
        };
        proof {
            self.mesh.lemma_wf();
        }
        let positions = vstd::slice::slice_to_vec(
            self.mesh.channel_buffer(Usage::POSITIONS).data().as_slice(),
        );
        let colors = vstd::slice::slice_to_vec(
            self.mesh.channel_buffer(Usage::COLORS).data().as_slice(),
        );
        let tex_coords = vstd::slice::slice_to_vec(
            self.mesh.channel_buffer(Usage::TEXCOORDS).data().as_slice(),
        );
        let vertex_count = positions.len() / 3;
        self.mesh.clear();
        self.dirty = false;
        Some(DrawBatch { tex, combined, positions, colors, tex_coords, vertex_count })
    }

    /// Closes the session: flushes pending geometry, clears the transform
    /// and the current texture. The host disables blending when a session
    /// closes and issues the returned draw, if any, before doing so.
    pub fn end(&mut self) -> (flushed: Option<DrawBatch>)
        requires
            old(self).wf(),
        ensures
            final(self).wf(),
            !final(self).is_open(),
            final(self).snap() == fresh_snap(),
            final(self).scratch() == old(self).scratch(),
            final(self).spec_shader() == old(self).spec_shader(),
            old(self).spec_dirty() ==> {
                &&& flushed matches Some(b)
                &&& end_draws(old(self).snap()) == seq![b.tex]
                &&& b.tex == old(self).cur_tex().unwrap()
                &&& b.combined@ == old(self).transform()
                &&& b.positions@ == old(self).positions()
                &&& b.colors@ == old(self).colors()
                &&& b.tex_coords@ == old(self).tex_coords()
                &&& b.vertex_count as int == old(self).vertex_count()
                &&& final(self).positions() == Seq::<u32>::empty()
                &&& final(self).colors() == Seq::<u32>::empty()
                &&& final(self).tex_coords() == Seq::<u32>::empty()
            },
            !old(self).spec_dirty() ==> {
                &&& flushed is None
                &&& end_draws(old(self).snap()) == Seq::<u32>::empty()
                &&& final(self).positions() == old(self).positions()
                &&& final(self).colors() == old(self).colors()
                &&& final(self).tex_coords() == old(self).tex_coords()
            },
    {
        let mut flushed: Option<DrawBatch> = None;
        if self.dirty {
            flushed = self.flush();
        }
        self.combined = None;
        self.last_tex = None;
        flushed
    }

    /// Draws one textured quad at `(x, y)` with extent `(width, height)`
    /// and texture-coordinate corners `(u, v)` to `(u2, v2)`. The first quad
    /// of a session adopts its texture without a draw; a quad whose texture
    /// differs from the current one first flushes everything accumulated —
    /// the returned draw — and then starts a new run. Six vertices are
    /// appended: two triangles over the quad's corners, each vertex tinted
    /// full-opacity white and carrying its texture-coordinate corner.
    #[verifier::rlimit(100)]
    pub fn texture(
        &mut self,
        tex: &Texture,
        x: i32,
        y: i32,
        width: i32,
        height: i32,
        u: u32,
        v: u32,
        u2: u32,
        v2: u32,
    ) -> (flushed: Option<DrawBatch>)
        requires
            old(self).wf(),
            old(self).is_open(),
            i32::MIN <= x + width <= i32::MAX,
            i32::MIN <= y + height <= i32::MAX,
        ensures
            final(self).wf(),
            final(self).is_open(),
            final(self).transform() == old(self).transform(),
            final(self).spec_shader() == old(self).spec_shader(),
            final(self).snap() == step_tex(old(self).snap(), tex.spec_id()),
            final(self).scratch() == zero_seq(9),
            flushed matches Some(b) ==> {
                &&& emitted(old(self).snap(), tex.spec_id()) == seq![b.tex]
                &&& b.tex == old(self).cur_tex().unwrap()
                &&& b.combined@ == old(self).transform()
                &&& b.positions@ == old(self).positions()
                &&& b.colors@ == old(self).colors()
                &&& b.tex_coords@ == old(self).tex_coords()
                &&& b.vertex_count as int == old(self).vertex_count()
                &&& final(self).positions() == quad_positions(x as int, y as int, width as int, height as int)
                &&& final(self).colors() == quad_colors()
                &&& final(self).tex_coords() == quad_tex_coords(u, v, u2, v2)
            },
            flushed is None ==> {
                &&& emitted(old(self).snap(), tex.spec_id()) == Seq::<u32>::empty()
                &&& final(self).positions() == old(self).positions() + quad_positions(
                    x as int,
                    y as int,
                    width as int,
                    height as int,
                )
                &&& final(self).colors() == old(self).colors() + quad_colors()
                &&& final(self).tex_coords() == old(self).tex_coords() + quad_tex_coords(
                    u,
                    v,
                    u2,
                    v2,
                )
            },
    {
        let tid = tex.id();
        if self.last_tex.is_none() {
            self.last_tex = Some(tid);
        }
        let cur: u32 = match self.last_tex {
            Some(c) => c,
            None => tid,
        };
        let mut flushed: Option<DrawBatch> = None;
        if cur != tid {
            flushed = self.flush();
            self.last_tex = Some(tid);
        }
        self.dirty = true;
        let ghost base_p = if flushed is Some { Seq::<u32>::empty() } else { old(self).positions() };
        let ghost base_c = if flushed is Some { Seq::<u32>::empty() } else { old(self).colors() };
        let ghost base_t = if flushed is Some { Seq::<u32>::empty() } else { old(
            self,
        ).tex_coords() };

        self.color(CELL_ONE, CELL_ONE, CELL_ONE, CELL_ONE);
        self.tex_coord(u, v);
        self.vertex(x, y, 0);

        self.color(CELL_ONE, CELL_ONE, CELL_ONE, CELL_ONE);
        self.tex_coord(u, v2);
        self.vertex(x, y + height, 0);

        self.color(CELL_ONE, CELL_ONE, CELL_ONE, CELL_ONE);
        self.tex_coord(u2, v2);
        self.vertex(x + width, y + height, 0);

        self.color(CELL_ONE, CELL_ONE, CELL_ONE, CELL_ONE);
        self.tex_coord(u2, v2);
        self.vertex(x + width, y + height, 0);

        self.color(CELL_ONE, CELL_ONE, CELL_ONE, CELL_ONE);
        self.tex_coord(u2, v);
        self.vertex(x + width, y, 0);

        self.color(CELL_ONE, CELL_ONE, CELL_ONE, CELL_ONE);
        self.tex_coord(u, v);
        self.vertex(x, y, 0);

        proof {
            assert(self.positions() =~= base_p + quad_positions(
                x as int,
                y as int,
                width as int,
                height as int,
            ));
            assert(self.colors() =~= base_c + quad_colors());
            assert(self.tex_coords() =~= base_t + quad_tex_coords(u, v, u2, v2));
            if flushed is Some {
                assert(self.positions() =~= quad_positions(
                    x as int,
                    y as int,
                    width as int,
                    height as int,
                ));
                assert(self.colors() =~= quad_colors());
                assert(self.tex_coords() =~= quad_tex_coords(u, v, u2, v2));
            }
        }
        flushed
    }

    /// Draws the whole texture at its native size at `(x, y)`, with the
    /// full texture-coordinate range.
    pub fn texture_xy(&mut self, tex: &Texture, x: i32, y: i32) -> (flushed: Option<DrawBatch>)
        requires
            old(self).wf(),
            old(self).is_open(),
            tex.spec_width() <= i32::MAX,
            tex.spec_height() <= i32::MAX,
            i32::MIN <= x + tex.spec_width() <= i32::MAX,
            i32::MIN <= y + tex.spec_height() <= i32::MAX,
        ensures
            final(self).wf(),
            final(self).is_open(),
            final(self).transform() == old(self).transform(),
            final(self).spec_shader() == old(self).spec_shader(),
            final(self).snap() == step_tex(old(self).snap(), tex.spec_id()),
            final(self).scratch() == zero_seq(9),
            flushed matches Some(b) ==> {
                &&& emitted(old(self).snap(), tex.spec_id()) == seq![b.tex]
                &&& b.tex == old(self).cur_tex().unwrap()
                &&& b.positions@ == old(self).positions()
                &&& final(self).positions() == quad_positions(
                    x as int,
                    y as int,
                    tex.spec_width() as int,
                    tex.spec_height() as int,
                )
                &&& final(self).colors() == quad_colors()
                &&& final(self).tex_coords() == quad_tex_coords(
                    crate::CELL_ZERO,
                    crate::CELL_ZERO,
                    CELL_ONE,
                    CELL_ONE,
                )
            },
            flushed is None ==> {
                &&& emitted(old(self).snap(), tex.spec_id()) == Seq::<u32>::empty()
                &&& final(self).positions() == old(self).positions() + quad_positions(
                    x as int,
                    y as int,
                    tex.spec_width() as int,
                    tex.spec_height() as int,
                )
                &&& final(self).colors() == old(self).colors() + quad_colors()
                &&& final(self).tex_coords() == old(self).tex_coords() + quad_tex_coords(
                    crate::CELL_ZERO,
                    crate::CELL_ZERO,
                    CELL_ONE,
                    CELL_ONE,
                )
            },
    {
        let w = tex.width() as i32;
        let h = tex.height() as i32;
        self.texture(tex, x, y, w, h, crate::CELL_ZERO, crate::CELL_ZERO, CELL_ONE, CELL_ONE)
    }
}

} // verus!
