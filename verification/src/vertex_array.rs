//! A vertex-array object model: one buffer per enabled vertex channel, in the
//! fixed channel order, plus a dedicated index buffer. One flat cell array of
//! `stride` cells is de-interleaved into the per-channel buffers.

use vstd::prelude::*;

use crate::buffer::VertexBufferObject;
use crate::layout::{Usage, VertexAttributes};

verus! {

/// The one draw call a bound vertex array asks the host to issue: an indexed
/// draw over the stored indices when the index buffer is non-empty, else an
/// array draw over every accumulated vertex.
#[derive(Clone, Copy, PartialEq, Eq, Structural, Debug)]
pub enum DrawCommand {
    Indexed { count: usize },
    Arrays { count: usize },
}

/// Per-channel cell buffers for one mesh, assembled from flat interleaved
/// vertices. The host's vertex-array handle, attribute pointers and draw
/// calls follow the data and decisions this type hands out.
pub struct VertexArrayObject {
    attribs: VertexAttributes,
    vbos: Vec<VertexBufferObject>,
    vbo_indices: VertexBufferObject,
    bound: bool,
}

impl VertexArrayObject {
    /// The layout this array was built for.
    pub closed spec fn spec_attribs(self) -> VertexAttributes {
        self.attribs
    }

    /// The cells accumulated for one enabled channel.
    pub closed spec fn buf(self, usage: Usage) -> Seq<u32> {
        self.vbos@[self.attribs.chan_index(usage)]@
    }

    /// Whether one enabled channel's buffer awaits an upload.
    pub closed spec fn buf_dirty(self, usage: Usage) -> bool {
        self.vbos@[self.attribs.chan_index(usage)].spec_dirty()
    }

    /// The accumulated index cells.
    pub closed spec fn index_data(self) -> Seq<u32> {
        self.vbo_indices@
    }

    /// Whether the index buffer awaits an upload.
    pub closed spec fn index_dirty(self) -> bool {
        self.vbo_indices.spec_dirty()
    }

    /// Whether the array is bound, so that a draw may be issued.
    pub closed spec fn spec_bound(self) -> bool {
        self.bound
    }

    /// Number of per-channel buffers.
    pub closed spec fn channel_len(self) -> int {
        self.vbos@.len() as int
    }

    /// The channel that the buffer at one position feeds.
    pub closed spec fn channel_usage(self, i: int) -> Usage {
        self.vbos@[i].spec_usage()
    }

    /// One buffer per enabled channel, in the fixed channel order, each
    /// tagged with its channel; the index buffer tagged with the index
    /// channel.
    pub closed spec fn wf(self) -> bool {
        &&& self.attribs.wf()
        &&& self.vbos@.len() == self.attribs.enabled_count()
        &&& forall|i: int|
            0 <= i < self.vbos@.len() ==> (#[trigger] self.vbos@[i]).wf()
                && self.attribs.enabled(self.vbos@[i].spec_usage())
                && self.attribs.chan_index(self.vbos@[i].spec_usage()) == i
        &&& self.vbo_indices.wf()
        &&& self.vbo_indices.spec_usage() == Usage::INDICES
    }

    /// What well-formedness guarantees publicly: the layout is well-formed
    /// and there is one buffer per enabled channel.
    pub proof fn lemma_wf(self)
        requires
            self.wf(),
        ensures
            self.spec_attribs().wf(),
            self.channel_len() == self.spec_attribs().enabled_count(),
    {
    }

    /// In a well-formed array, the buffer at an enabled channel's position
    /// is tagged with that channel.
    pub proof fn lemma_buf_usage(self, usage: Usage)
        requires
            self.wf(),
            self.spec_attribs().enabled(usage),
        ensures
            0 <= self.spec_attribs().chan_index(usage) < self.channel_len(),
            self.channel_usage(self.spec_attribs().chan_index(usage)) == usage,
    {
        let i = self.attribs.chan_index(usage);
        assert(0 <= i < self.vbos@.len());
        let u2 = self.vbos@[i].spec_usage();
        assert(self.attribs.enabled(u2) && self.attribs.chan_index(u2) == i);
        assert(u2 == usage) by {
            match usage {
                Usage::POSITIONS => {},
                Usage::COLORS => {},
                Usage::NORMALS => {},
                Usage::TEXCOORDS => {},
                Usage::INDICES => {},
            }
        }
    }

    /// Builds the per-channel buffers for a layout, all empty and clean.
    pub fn new(attribs: VertexAttributes) -> (vao: VertexArrayObject)
        requires
            attribs.wf(),
        ensures
            vao.wf(),
            vao.spec_attribs() == attribs,
            !vao.spec_bound(),
            forall|u: Usage| attribs.enabled(u) ==> vao.buf(u) == Seq::<u32>::empty(),
            forall|u: Usage| attribs.enabled(u) ==> !vao.buf_dirty(u),
            vao.index_data() == Seq::<u32>::empty(),
            !vao.index_dirty(),
    {
        let mut vbos: Vec<VertexBufferObject> = Vec::new();
        if attribs.usage(Usage::POSITIONS) {
            vbos.push(VertexBufferObject::new(Usage::POSITIONS));
        }
        if attribs.usage(Usage::COLORS) {
            vbos.push(VertexBufferObject::new(Usage::COLORS));
        }
        if attribs.usage(Usage::NORMALS) {
            vbos.push(VertexBufferObject::new(Usage::NORMALS));
        }
        if attribs.usage(Usage::TEXCOORDS) {
            vbos.push(VertexBufferObject::new(Usage::TEXCOORDS));
        }
        let vao = VertexArrayObject {
            attribs,
            vbos,
            vbo_indices: VertexBufferObject::new(Usage::INDICES),
            bound: false,
        };
        proof {
            assert forall|u: Usage| attribs.enabled(u) implies vao.buf(u) == Seq::<u32>::empty()
                && !vao.buf_dirty(u) by {
                assert(0 <= attribs.chan_index(u) < vao.vbos@.len());
            }
        }
        vao
    }

    /// The layout this array was built for.
    pub fn attribs(&self) -> (a: VertexAttributes)
        ensures
            a == self.spec_attribs(),
    {
        self.attribs
    }

    /// Appends one full interleaved vertex: each enabled channel receives
    /// its `components` cells, taken from the flat array at the channel's
    /// layout offset.
    pub fn vertex(&mut self, data: &[u32])
        requires
            old(self).wf(),
            data@.len() == old(self).spec_attribs().stride(),
        ensures
            final(self).wf(),
            final(self).spec_attribs() == old(self).spec_attribs(),
            final(self).spec_bound() == old(self).spec_bound(),
            forall|u: Usage|
                old(self).spec_attribs().enabled(u) ==> final(self).buf(u) == old(self).buf(u)
                    + data@.subrange(
                    old(self).spec_attribs().off(u),
                    old(self).spec_attribs().off(u) + u.components(),
                ) && final(self).buf_dirty(u),
            final(self).index_data() == old(self).index_data(),
            final(self).index_dirty() == old(self).index_dirty(),
    {
        let ghost a = self.attribs;
        let mut offset: usize = 0;
        let mut i: usize = 0;
        while i < self.vbos.len()
            invariant
                self.wf(),
                self.attribs == a,
                data@.len() == a.stride(),
                i <= self.vbos@.len(),
                offset as int == a.prefix_components(i as int),
                self.bound == old(self).spec_bound(),
                self.vbo_indices == old(self).vbo_indices,
                self.vbos@.len() == old(self).vbos@.len(),
                forall|j: int|
                    0 <= j < self.vbos@.len() ==> (#[trigger] self.vbos@[j]).spec_usage()
                        == old(self).vbos@[j].spec_usage(),
                forall|j: int|
                    i <= j < self.vbos@.len() ==> #[trigger] self.vbos@[j] == old(self).vbos@[j],
                forall|j: int|
                    0 <= j < i ==> (#[trigger] self.vbos@[j])@ == old(self).vbos@[j]@
                        + data@.subrange(
                        a.off(old(self).vbos@[j].spec_usage()),
                        a.off(old(self).vbos@[j].spec_usage())
                            + old(self).vbos@[j].spec_usage().components(),
                    ) && self.vbos@[j].spec_dirty(),
            decreases self.vbos@.len() - i,
        {
            let u = self.vbos[i].usage();
            let comp = u.offset() as usize;
            proof {
                assert(a.enabled(u) && a.chan_index(u) == i);
                assert(a.prefix_components(i as int) == a.off(u));
                assert(a.prefix_components(i + 1 as int) == a.off(u) + u.components());
                assert(a.off(u) + u.components() <= a.stride());
            }
            let part = vstd::slice::slice_subrange(data, offset, offset + comp);
            self.vbos[i].add_data_slice(part);
            offset = offset + comp;
            i = i + 1;
        }
        proof {
            assert forall|u: Usage| a.enabled(u) implies self.buf(u) == old(self).buf(u)
                + data@.subrange(a.off(u), a.off(u) + u.components()) && self.buf_dirty(u) by {
                old(self).lemma_buf_usage(u);
            }
        }
    }

    /// Appends index cells to the index buffer.
    pub fn indices(&mut self, data: &[u32])
        requires
            old(self).wf(),
        ensures
            final(self).wf(),
            final(self).spec_attribs() == old(self).spec_attribs(),
            final(self).spec_bound() == old(self).spec_bound(),
            final(self).index_data() == old(self).index_data() + data@,
            final(self).index_dirty(),
            forall|u: Usage|
                old(self).spec_attribs().enabled(u) ==> final(self).buf(u) == old(self).buf(u)
                    && final(self).buf_dirty(u) == old(self).buf_dirty(u),
    {
        self.vbo_indices.add_data_slice(data);
    }

    /// Empties every channel buffer and the index buffer, leaving all of
    /// them dirty so the next bind uploads the (now empty) contents.
    pub fn clear(&mut self)
        requires
            old(self).wf(),
        ensures
            final(self).wf(),
            final(self).spec_attribs() == old(self).spec_attribs(),
            final(self).spec_bound() == old(self).spec_bound(),
            forall|u: Usage|
                old(self).spec_attribs().enabled(u) ==> final(self).buf(u) == Seq::<u32>::empty()
                    && final(self).buf_dirty(u),
            final(self).index_data() == Seq::<u32>::empty(),
            final(self).index_dirty(),
    {
        let mut i: usize = 0;
        while i < self.vbos.len()
            invariant
                self.wf(),
                self.attribs == old(self).spec_attribs(),
                i <= self.vbos@.len(),
                self.bound == old(self).spec_bound(),
                self.vbo_indices == old(self).vbo_indices,
                self.vbos@.len() == old(self).vbos@.len(),
                forall|j: int|
                    0 <= j < self.vbos@.len() ==> (#[trigger] self.vbos@[j]).spec_usage()
                        == old(self).vbos@[j].spec_usage(),
                forall|j: int|
                    0 <= j < i ==> (#[trigger] self.vbos@[j])@ == Seq::<u32>::empty()
                        && self.vbos@[j].spec_dirty(),
            decreases self.vbos@.len() - i,
        {
            self.vbos[i].clear();
            i = i + 1;
        }
        self.vbo_indices.clear();
        proof {
            assert forall|u: Usage| old(self).spec_attribs().enabled(u) implies self.buf(u)
                == Seq::<u32>::empty() && self.buf_dirty(u) by {
                old(self).lemma_buf_usage(u);
            }
        }
    }

    /// Offset of a channel inside one interleaved vertex, as the buffers
    /// record it: the layout offset for an enabled channel, the full stride
    /// for a channel this array does not carry.
    pub fn get_vertex_offset(&self, usage: Usage) -> (off: u8)
        requires
            self.wf(),
        ensures
            off as int == if self.spec_attribs().enabled(usage) {
                self.spec_attribs().off(usage)
            } else {
                self.spec_attribs().stride()
            },
    {
        if self.attribs.usage(usage) {
            self.attribs.offset(usage)
        } else {
            self.attribs.stride_val()
        }
    }

    /// Bind-time upload pass: marks the array bound, clears every dirty
    /// flag, and reports which buffers the host must upload — one flag per
    /// enabled channel in the fixed channel order, then one for the index
    /// buffer. Binding again with no intervening mutation reports that
    /// nothing needs uploading.
    pub fn bind(&mut self) -> (uploads: Vec<bool>)
        requires
            old(self).wf(),
        ensures
            final(self).wf(),
            final(self).spec_attribs() == old(self).spec_attribs(),
            final(self).spec_bound(),
            uploads@.len() == old(self).channel_len() + 1,
            forall|u: Usage|
                old(self).spec_attribs().enabled(u) ==> final(self).buf(u) == old(self).buf(u)
                    && !final(self).buf_dirty(u) && uploads@[old(self).spec_attribs().chan_index(u)]
                    == old(self).buf_dirty(u),
            final(self).index_data() == old(self).index_data(),
            !final(self).index_dirty(),
            uploads@.last() == old(self).index_dirty(),
    {
        let mut uploads: Vec<bool> = Vec::new();
        let mut i: usize = 0;
        while i < self.vbos.len()
            invariant
                self.wf(),
                self.attribs == old(self).spec_attribs(),
                i <= self.vbos@.len(),
                uploads@.len() == i,
                self.bound == old(self).bound,
                self.vbo_indices == old(self).vbo_indices,
                self.vbos@.len() == old(self).vbos@.len(),
                forall|j: int|
                    0 <= j < self.vbos@.len() ==> (#[trigger] self.vbos@[j]).spec_usage()
                        == old(self).vbos@[j].spec_usage(),
                forall|j: int|
                    i <= j < self.vbos@.len() ==> #[trigger] self.vbos@[j] == old(self).vbos@[j],
                forall|j: int|
                    0 <= j < i ==> (#[trigger] self.vbos@[j])@ == old(self).vbos@[j]@
                        && !self.vbos@[j].spec_dirty() && uploads@[j] == old(
                        self,
                    ).vbos@[j].spec_dirty(),
            decreases self.vbos@.len() - i,
        {
            let up = self.vbos[i].bind();
            uploads.push(up);
            i = i + 1;
        }
        let up_idx = self.vbo_indices.bind();
        uploads.push(up_idx);
        self.bound = true;
        proof {
            assert forall|u: Usage| old(self).spec_attribs().enabled(u) implies self.buf(u)
                == old(self).buf(u) && !self.buf_dirty(u) && uploads@[old(
                self,
            ).spec_attribs().chan_index(u)] == old(self).buf_dirty(u) by {
                old(self).lemma_buf_usage(u);
            }
        }
        uploads
    }

    /// Marks the array no longer bound.
    pub fn unbind(&mut self)
        ensures
            !final(self).spec_bound(),
            final(self).wf() == old(self).wf(),
            final(self).spec_attribs() == old(self).spec_attribs(),
            forall|u: Usage| final(self).buf(u) == old(self).buf(u),
            forall|u: Usage| final(self).buf_dirty(u) == old(self).buf_dirty(u),
            final(self).index_data() == old(self).index_data(),
            final(self).index_dirty() == old(self).index_dirty(),
            final(self).channel_len() == old(self).channel_len(),
    {
        self.bound = false;
    }

    /// Number of per-channel buffers.
    pub fn channel_count(&self) -> (n: usize)
        ensures
            n as int == self.channel_len(),
            self.wf() ==> n as int == self.spec_attribs().enabled_count(),
    {
        self.vbos.len()
    }

    /// Read access to the buffer at one position among the enabled
    /// channels, for the host's upload and attribute-pointer setup.
    pub fn channel_at(&self, i: usize) -> (buf: &VertexBufferObject)
        requires
            i < self.channel_len(),
        ensures
            buf.spec_usage() == self.channel_usage(i as int),
            self.wf() ==> self.spec_attribs().enabled(buf.spec_usage())
                && self.spec_attribs().chan_index(buf.spec_usage()) == i && buf@ == self.buf(
                buf.spec_usage(),
            ) && buf.spec_dirty() == self.buf_dirty(buf.spec_usage()),
    {
        &self.vbos[i]
    }

    /// Read access to one enabled channel's buffer, looked up by channel.
    pub fn channel_buffer(&self, usage: Usage) -> (buf: &VertexBufferObject)
        requires
            self.wf(),
            self.spec_attribs().enabled(usage),
        ensures
            buf.spec_usage() == usage,
            buf@ == self.buf(usage),
            buf.spec_dirty() == self.buf_dirty(usage),
            buf.wf(),
    {
        proof {
            self.lemma_buf_usage(usage);
        }
        let i = self.attribs.buffer_index(usage) as usize;
        &self.vbos[i]
    }

    /// Read access to the index buffer.
    pub fn index_buffer(&self) -> (buf: &VertexBufferObject)
        ensures
            buf@ == self.index_data(),
            buf.spec_dirty() == self.index_dirty(),
    {
        &self.vbo_indices
    }

    /// The draw call the host must issue for the accumulated contents: an
    /// indexed draw over the stored indices when any are present, else an
    /// array draw over every accumulated vertex. Rendering an unbound array
    /// is a programming error and is ruled out by contract.
    pub fn render(&self) -> (cmd: DrawCommand)
        requires
            self.wf(),
            self.spec_bound(),
        ensures
            cmd == self.spec_draw(),
    {
        if self.vbo_indices.len() > 0 {
            DrawCommand::Indexed { count: self.vbo_indices.len() }
        } else {
            if self.vbos.len() > 0 {
                proof {
                    let u0 = self.vbos@[0].spec_usage();
                    assert(self.spec_attribs().enabled(u0) && self.spec_attribs().chan_index(u0)
                        == 0);
                    assert(u0 == self.spec_attribs().first_channel()) by {
                        match u0 {
                            Usage::POSITIONS => {},
                            Usage::COLORS => {},
                            Usage::NORMALS => {},
                            Usage::TEXCOORDS => {},
                            Usage::INDICES => {},
                        }
                    }
                }
                let comp = self.vbos[0].usage().offset() as usize;
                DrawCommand::Arrays { count: self.vbos[0].len() / comp }
            } else {
                DrawCommand::Arrays { count: 0 }
            }
        }
    }

    /// The draw decision: indexed when indices are stored, else an array
    /// draw whose count is the number of full vertices in the first enabled
    /// channel's buffer.
    pub open spec fn spec_draw(self) -> DrawCommand {
        if self.index_data().len() > 0 {
            DrawCommand::Indexed { count: self.index_data().len() as usize }
        } else if self.spec_attribs().enabled_count() > 0 {
            DrawCommand::Arrays {
                count: (self.buf(self.spec_attribs().first_channel()).len() as int
                    / self.spec_attribs().first_channel().components()) as usize,
            }
        } else {
            DrawCommand::Arrays { count: 0 }
        }
    }
}

} // verus!
