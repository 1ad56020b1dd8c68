//! A drawable mesh: a vertex-array object coupled with its attribute layout.
//! The host binds a shader and issues the draw call this type decides.

use vstd::prelude::*;

use crate::buffer::VertexBufferObject;
use crate::layout::{Usage, VertexAttributes};
use crate::vertex_array::{DrawCommand, VertexArrayObject};

verus! {

/// A vertex set with its layout. `vertex` appends one interleaved vertex,
/// `render` decides the draw call for the accumulated contents.
pub struct Mesh {
    vao: VertexArrayObject,
    attribs: VertexAttributes,
}

impl Mesh {
    /// The mesh's layout.
    pub closed spec fn spec_attribs(self) -> VertexAttributes {
        self.attribs
    }

    /// The cells accumulated for one enabled channel.
    pub closed spec fn buf(self, usage: Usage) -> Seq<u32> {
        self.vao.buf(usage)
    }

    /// Whether one enabled channel's buffer awaits an upload.
    pub closed spec fn buf_dirty(self, usage: Usage) -> bool {
        self.vao.buf_dirty(usage)
    }

    /// The accumulated index cells.
    pub closed spec fn index_data(self) -> Seq<u32> {
        self.vao.index_data()
    }

    /// Whether the index buffer awaits an upload.
    pub closed spec fn index_dirty(self) -> bool {
        self.vao.index_dirty()
    }

    /// Whether the vertex set is bound.
    pub closed spec fn spec_bound(self) -> bool {
        self.vao.spec_bound()
    }

    /// The draw decision for the accumulated contents.
    pub closed spec fn spec_draw(self) -> DrawCommand {
        self.vao.spec_draw()
    }

    /// Number of per-channel buffers.
    pub closed spec fn channel_len(self) -> int {
        self.vao.channel_len()
    }

    /// The stored layout is well-formed and is the one the vertex set was
    /// built for.
    pub closed spec fn wf(self) -> bool {
        self.vao.wf() && self.vao.spec_attribs() == self.attribs
    }

    /// What well-formedness guarantees publicly: the layout is well-formed
    /// and there is one buffer per enabled channel.
    pub proof fn lemma_wf(self)
        requires
            self.wf(),
        ensures
            self.spec_attribs().wf(),
            self.channel_len() == self.spec_attribs().enabled_count(),
    {
        self.vao.lemma_wf();
    }

    /// The draw decision, spelled out: indexed over the stored indices when
    /// any are present, else an array draw counting the full vertices of
    /// the first enabled channel's buffer.
    pub proof fn lemma_draw_shape(self)
        requires
            self.wf(),
        ensures
            self.index_data().len() > 0 ==> self.spec_draw() == (DrawCommand::Indexed {
                count: self.index_data().len() as usize,
            }),
            self.index_data().len() == 0 && self.spec_attribs().enabled_count() > 0
                ==> self.spec_draw() == (DrawCommand::Arrays {
                count: (self.buf(self.spec_attribs().first_channel()).len() as int
                    / self.spec_attribs().first_channel().components()) as usize,
            }),
            self.index_data().len() == 0 && self.spec_attribs().enabled_count() == 0
                ==> self.spec_draw() == (DrawCommand::Arrays { count: 0 }),
    {
    }

    /// A mesh with the given layout and empty, clean buffers.
    pub fn new(attribs: VertexAttributes) -> (mesh: Mesh)
        requires
            attribs.wf(),
        ensures
            mesh.wf(),
            mesh.spec_attribs() == attribs,
            !mesh.spec_bound(),
            forall|u: Usage| attribs.enabled(u) ==> mesh.buf(u) == Seq::<u32>::empty(),
            forall|u: Usage| attribs.enabled(u) ==> !mesh.buf_dirty(u),
            mesh.index_data() == Seq::<u32>::empty(),
            !mesh.index_dirty(),
    {
        Mesh { vao: VertexArrayObject::new(attribs), attribs }
    }

    /// The mesh's layout.
    pub fn attribs(&self) -> (a: VertexAttributes)
        ensures
            a == self.spec_attribs(),
    {
        self.attribs
    }

    /// Appends one full interleaved vertex of `stride` cells.
    pub fn vertex(&mut self, data: &[u32])
        requires
            old(self).wf(),
            data@.len() == old(self).spec_attribs().stride(),
        ensures
            final(self).wf(),
            final(self).spec_attribs() == old(self).spec_attribs(),
            final(self).spec_bound() == old(self).spec_bound(),
            forall|u: Usage|
                old(self).spec_attribs().enabled(u) ==> final(self).buf(u) == old(self).buf(u)
                    + data@.subrange(
                    old(self).spec_attribs().off(u),
                    old(self).spec_attribs().off(u) + u.components(),
                ) && final(self).buf_dirty(u),
            final(self).index_data() == old(self).index_data(),
            final(self).index_dirty() == old(self).index_dirty(),
    {
        self.vao.vertex(data);
    }

    /// Appends index cells.
    pub fn indices(&mut self, data: &[u32])
        requires
            old(self).wf(),
        ensures
            final(self).wf(),
            final(self).spec_attribs() == old(self).spec_attribs(),
            final(self).spec_bound() == old(self).spec_bound(),
            final(self).index_data() == old(self).index_data() + data@,
            final(self).index_dirty(),
            forall|u: Usage|
                old(self).spec_attribs().enabled(u) ==> final(self).buf(u) == old(self).buf(u)
                    && final(self).buf_dirty(u) == old(self).buf_dirty(u),
    {
        self.vao.indices(data);
    }

    /// Empties every channel buffer and the index buffer; all stay dirty.
    pub fn clear(&mut self)
        requires
            old(self).wf(),
        ensures
            final(self).wf(),
            final(self).spec_attribs() == old(self).spec_attribs(),
            final(self).spec_bound() == old(self).spec_bound(),
            forall|u: Usage|
                old(self).spec_attribs().enabled(u) ==> final(self).buf(u) == Seq::<u32>::empty()
                    && final(self).buf_dirty(u),
            final(self).index_data() == Seq::<u32>::empty(),
            final(self).index_dirty(),
    {
        self.vao.clear();
    }

    /// Offset of a channel inside one interleaved vertex; the full stride
    /// for a channel the layout does not carry.
    pub fn get_vertex_offset(&self, usage: Usage) -> (off: u8)
        requires
            self.wf(),
        ensures
            off as int == if self.spec_attribs().enabled(usage) {
                self.spec_attribs().off(usage)
            } else {
                self.spec_attribs().stride()
            },
    {
        self.vao.get_vertex_offset(usage)
    }

    /// Bind-time upload pass over all buffers; see
    /// `VertexArrayObject::bind`.
    pub fn bind(&mut self) -> (uploads: Vec<bool>)
        requires
            old(self).wf(),
        ensures
            final(self).wf(),
            final(self).spec_attribs() == old(self).spec_attribs(),
            final(self).spec_bound(),
            uploads@.len() == old(self).channel_len() + 1,
            forall|u: Usage|
                old(self).spec_attribs().enabled(u) ==> final(self).buf(u) == old(self).buf(u)
                    && !final(self).buf_dirty(u) && uploads@[old(self).spec_attribs().chan_index(u)]
                    == old(self).buf_dirty(u),
            final(self).index_data() == old(self).index_data(),
            !final(self).index_dirty(),
            uploads@.last() == old(self).index_dirty(),
    {
        self.vao.bind()
    }

    /// Marks the vertex set no longer bound.
    pub fn unbind(&mut self)
        ensures
            !final(self).spec_bound(),
            final(self).wf() == old(self).wf(),
            final(self).spec_attribs() == old(self).spec_attribs(),
            forall|u: Usage| final(self).buf(u) == old(self).buf(u),
            forall|u: Usage| final(self).buf_dirty(u) == old(self).buf_dirty(u),
            final(self).index_data() == old(self).index_data(),
            final(self).index_dirty() == old(self).index_dirty(),
            final(self).channel_len() == old(self).channel_len(),
    {
        self.vao.unbind();
    }

    /// The draw call the host must issue for the accumulated contents; the
    /// vertex set must have been bound first.
    pub fn render(&self) -> (cmd: DrawCommand)
        requires
            self.wf(),
            self.spec_bound(),
        ensures
            cmd == self.spec_draw(),
    {
        self.vao.render()
    }

    /// Number of per-channel buffers.
    pub fn channel_count(&self) -> (n: usize)
        requires
            self.wf(),
        ensures
            n as int == self.channel_len(),
            n as int == self.spec_attribs().enabled_count(),
    {
        self.vao.channel_count()
    }

    /// Read access to the buffer at one position among the enabled
    /// channels, for the host's upload and attribute-pointer setup.
    pub fn channel_at(&self, i: usize) -> (buf: &VertexBufferObject)
        requires
            self.wf(),
            i < self.channel_len(),
        ensures
            self.spec_attribs().enabled(buf.spec_usage()),
            self.spec_attribs().chan_index(buf.spec_usage()) == i,
            buf@ == self.buf(buf.spec_usage()),
            buf.spec_dirty() == self.buf_dirty(buf.spec_usage()),
    {
        self.vao.channel_at(i)
    }

    /// Read access to one enabled channel's buffer, looked up by channel.
    pub fn channel_buffer(&self, usage: Usage) -> (buf: &VertexBufferObject)
        requires
            self.wf(),
            self.spec_attribs().enabled(usage),
        ensures
            buf.spec_usage() == usage,
            buf@ == self.buf(usage),
            buf.spec_dirty() == self.buf_dirty(usage),
            buf.wf(),
    {
        self.vao.channel_buffer(usage)
    }

    /// Read access to the index buffer, for the host's upload.
    pub fn index_buffer(&self) -> (buf: &VertexBufferObject)
        ensures
            buf@ == self.index_data(),
            buf.spec_dirty() == self.index_dirty(),
    {
        self.vao.index_buffer()
    }
}

} // verus!
