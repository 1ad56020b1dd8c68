//! An immediate-mode primitive batcher: per-channel setters stage cells into
//! a scratch vertex, `vertex` completes and appends it, and one render call
//! draws everything accumulated since the last clear, with alpha blending
//! enabled around the single draw call by the host.

use vstd::prelude::*;

use crate::buffer::VertexBufferObject;
use crate::layout::Usage;
use crate::mesh::Mesh;
use crate::shader::ShaderProgram;
use crate::vertex_array::DrawCommand;
use crate::{patched, zero_seq};

verus! {

/// A stateful vertex builder over one mesh carrying positions and colors.
/// Setters for channels the layout does not carry are silent no-ops.
pub struct MeshRenderer {
    shader: ShaderProgram,
    mesh: Mesh,
    next_vertex: Vec<u32>,
}

impl MeshRenderer {
    /// The accumulated position cells.
    pub closed spec fn positions(self) -> Seq<u32> {
        self.mesh.buf(Usage::POSITIONS)
    }

    /// The accumulated color cells.
    pub closed spec fn colors(self) -> Seq<u32> {
        self.mesh.buf(Usage::COLORS)
    }

    /// The scratch cells of the vertex under construction.
    pub closed spec fn scratch(self) -> Seq<u32> {
        self.next_vertex@
    }

    /// Whether the mesh is bound.
    pub closed spec fn spec_bound(self) -> bool {
        self.mesh.spec_bound()
    }

    /// The mesh carries exactly positions and colors and the scratch vertex
    /// spans one full stride.
    pub closed spec fn wf(self) -> bool {
        &&& self.mesh.wf()
        &&& self.mesh.spec_attribs().enabled(Usage::POSITIONS)
        &&& self.mesh.spec_attribs().enabled(Usage::COLORS)
        &&& !self.mesh.spec_attribs().enabled(Usage::NORMALS)
        &&& !self.mesh.spec_attribs().enabled(Usage::TEXCOORDS)
        &&& self.next_vertex@.len() == self.mesh.spec_attribs().stride()
        &&& self.mesh.index_data() == Seq::<u32>::empty()
    }

    /// A fresh batcher over a position+color mesh, with an all-zero scratch
    /// vertex and a fresh shader-program model. The host compiles and links
    /// the two shader stages it renders with, then records the link.
    pub fn new() -> (r: MeshRenderer)
        ensures
            r.wf(),
            r.positions() == Seq::<u32>::empty(),
            r.colors() == Seq::<u32>::empty(),
            r.scratch() == zero_seq(7),
            !r.spec_bound(),
            !r.spec_shader().spec_linked(),
    {
        let attribs = crate::layout::VertexAttributes::with(true, true, false, false);
        let mesh = Mesh::new(attribs);
        let next_vertex = crate::zeroed_cells(attribs.stride_val() as usize);
        MeshRenderer { shader: ShaderProgram::new(), mesh, next_vertex }
    }

    /// The shader-program model this batcher renders with.
    pub fn shader_ref(&self) -> (s: &ShaderProgram)
        ensures
            s == self.spec_shader(),
    {
        &self.shader
    }

    /// Mutable access to the shader-program model, for the host's link and
    /// uniform-location bookkeeping.
    pub fn shader_mut(&mut self) -> (s: &mut ShaderProgram)
        ensures
            *s == old(self).spec_shader(),
            final(self).spec_shader() == *final(s),
            final(self).positions() == old(self).positions(),
            final(self).colors() == old(self).colors(),
            final(self).scratch() == old(self).scratch(),
            final(self).wf() == old(self).wf(),
            final(self).spec_bound() == old(self).spec_bound(),
    {
        &mut self.shader
    }

    /// The shader-program model.
    pub closed spec fn spec_shader(self) -> ShaderProgram {
        self.shader
    }

    /// Stages a four-cell color into the scratch vertex; a no-op when the
    /// layout carries no color channel.
    pub fn color(&mut self, r: u32, g: u32, b: u32, a: u32)
        requires
            old(self).wf(),
        ensures
            final(self).wf(),
            final(self).scratch() == patched(
                old(self).scratch(),
                old(self).off_of(Usage::COLORS),
                seq![r, g, b, a],
            ),
            final(self).positions() == old(self).positions(),
            final(self).colors() == old(self).colors(),
            final(self).spec_bound() == old(self).spec_bound(),
            final(self).spec_shader() == old(self).spec_shader(),
    {
        let offset = self.mesh.get_vertex_offset(Usage::COLORS) as usize;
        proof {
            self.mesh.lemma_wf();
            crate::layout::lemma_layout_partition(self.mesh.spec_attribs());
        }
        self.next_vertex.set(offset, r);
        self.next_vertex.set(offset + 1, g);
        self.next_vertex.set(offset + 2, b);
        self.next_vertex.set(offset + 3, a);
        assert(self.next_vertex@ =~= patched(
            old(self).scratch(),
            old(self).off_of(Usage::COLORS),
            seq![r, g, b, a],
        ));
    }

    /// Offset at which one channel's cells sit inside the scratch vertex.
    pub open spec fn off_of(self, usage: Usage) -> int {
        self.spec_attribs().off(usage)
    }

    /// The batcher's layout.
    pub closed spec fn spec_attribs(self) -> crate::layout::VertexAttributes {
        self.mesh.spec_attribs()
    }

    /// Stages a three-cell normal; a no-op for this batcher's layout, which
    /// carries no normal channel.
    pub fn normal(&mut self, x: u32, y: u32, z: u32)
        requires
            old(self).wf(),
        ensures
            final(self).wf(),
            *final(self) == *old(self),
    {
        if self.mesh.attribs().usage(Usage::NORMALS) {
            let offset = self.mesh.get_vertex_offset(Usage::NORMALS) as usize;
            proof {
                self.mesh.lemma_wf();
                crate::layout::lemma_layout_partition(self.mesh.spec_attribs());
            }
            self.next_vertex.set(offset, x);
            self.next_vertex.set(offset + 1, y);
            self.next_vertex.set(offset + 2, z);
        }
    }

    /// Stages a two-cell texture coordinate; a no-op for this batcher's
    /// layout, which carries no texture-coordinate channel.
    pub fn tex_coord(&mut self, u: u32, v: u32)
        requires
            old(self).wf(),
        ensures
            final(self).wf(),
            *final(self) == *old(self),
    {
        if self.mesh.attribs().usage(Usage::TEXCOORDS) {
            let offset = self.mesh.get_vertex_offset(Usage::TEXCOORDS) as usize;
            proof {
                self.mesh.lemma_wf();
                crate::layout::lemma_layout_partition(self.mesh.spec_attribs());
            }
            self.next_vertex.set(offset, u);
            self.next_vertex.set(offset + 1, v);
        }
    }

    /// Writes the position into the scratch vertex, appends the completed
    /// vertex to the mesh — the position cells and the staged color cells —
    /// and resets the scratch vertex to zero.
    pub fn vertex(&mut self, x: u32, y: u32, z: u32)
        requires
            old(self).wf(),
        ensures
            final(self).wf(),
            final(self).positions() == old(self).positions() + seq![x, y, z],
            final(self).colors() == old(self).colors() + old(self).scratch().subrange(
                old(self).off_of(Usage::COLORS),
                old(self).off_of(Usage::COLORS) + 4,
            ),
            final(self).scratch() == zero_seq(old(self).scratch().len() as int),
            final(self).spec_bound() == old(self).spec_bound(),
            final(self).spec_shader() == old(self).spec_shader(),
    {
        proof {
            self.mesh.lemma_wf();
            crate::layout::lemma_layout_partition(self.mesh.spec_attribs());
        }
        self.next_vertex.set(0, x);
        self.next_vertex.set(1, y);
        self.next_vertex.set(2, z);
        let ghost staged = self.next_vertex@;
        self.mesh.vertex(self.next_vertex.as_slice());
        proof {
            assert(staged.subrange(
                self.spec_attribs().off(Usage::POSITIONS),
                self.spec_attribs().off(Usage::POSITIONS) + 3,
            ) =~= seq![x, y, z]);
            assert(staged.subrange(
                self.spec_attribs().off(Usage::COLORS),
                self.spec_attribs().off(Usage::COLORS) + 4,
            ) =~= old(self).scratch().subrange(
                old(self).off_of(Usage::COLORS),
                old(self).off_of(Usage::COLORS) + 4,
            ));
        }
        let n = self.next_vertex.len();
        self.next_vertex = crate::zeroed_cells(n);
    }

    /// Empties the mesh and resets the scratch vertex to zero; the emptied
    /// buffers stay dirty so the next bind uploads them.
    pub fn clear(&mut self)
        requires
            old(self).wf(),
        ensures
            final(self).wf(),
            final(self).positions() == Seq::<u32>::empty(),
            final(self).colors() == Seq::<u32>::empty(),
            final(self).scratch() == zero_seq(old(self).scratch().len() as int),
            final(self).spec_bound() == old(self).spec_bound(),
            final(self).spec_shader() == old(self).spec_shader(),
    {
        self.mesh.clear();
        let n = self.next_vertex.len();
        self.next_vertex = crate::zeroed_cells(n);
    }

    /// Bind-time upload pass over the mesh's buffers; see `Mesh::bind`.
    pub fn bind(&mut self) -> (uploads: Vec<bool>)
        requires
            old(self).wf(),
        ensures
            final(self).wf(),
            final(self).spec_bound(),
            final(self).positions() == old(self).positions(),
            final(self).colors() == old(self).colors(),
            final(self).scratch() == old(self).scratch(),
            final(self).spec_shader() == old(self).spec_shader(),
            uploads@.len() == 3,
    {
        proof {
            self.mesh.lemma_wf();
        }
        self.mesh.bind()
    }

    /// Marks the mesh no longer bound.
    pub fn unbind(&mut self)
        requires
            old(self).wf(),
        ensures
            final(self).wf(),
            !final(self).spec_bound(),
            final(self).positions() == old(self).positions(),
            final(self).colors() == old(self).colors(),
            final(self).scratch() == old(self).scratch(),
            final(self).spec_shader() == old(self).spec_shader(),
    {
        self.mesh.unbind();
    }

    /// The one draw call for everything accumulated since the last clear:
    /// an array draw over the accumulated vertices. The host wraps it in
    /// alpha blending (source alpha, one minus source alpha).
    pub fn render(&self) -> (cmd: DrawCommand)
        requires
            self.wf(),
            self.spec_bound(),
        ensures
            cmd == (DrawCommand::Arrays { count: (self.positions().len() as int / 3) as usize }),
    {
        proof {
            self.mesh.lemma_draw_shape();
        }
        self.mesh.render()
    }

    /// Read access to one enabled channel's buffer, for the host's upload.
    pub fn channel_buffer(&self, usage: Usage) -> (buf: &VertexBufferObject)
        requires
            self.wf(),
            usage == Usage::POSITIONS || usage == Usage::COLORS,
        ensures
            buf.spec_usage() == usage,
            usage == Usage::POSITIONS ==> buf@ == self.positions(),
            usage == Usage::COLORS ==> buf@ == self.colors(),
    {
        self.mesh.channel_buffer(usage)
    }
}

} // verus!
