//! One growable per-channel buffer backing a GPU buffer object: a list of
//! 32-bit cells, a write cursor, and a dirty flag that stays set from any
//! mutation until the next bind hands the contents to the host for upload.

use vstd::prelude::*;

use crate::layout::Usage;

verus! {

/// CPU-side contents of one GPU buffer object. The host owns the actual
/// buffer handle; this type decides what the handle must hold. Cells of a
/// vertex channel are 32-bit float bit patterns to the host, cells of the
/// index channel are unsigned integers; the growing and dirty-tracking
/// contract is the same for both.
pub struct VertexBufferObject {
    usage: Usage,
    data: Vec<u32>,
    offset: usize,
    dirty: bool,
}

impl VertexBufferObject {
    /// The cells currently stored, oldest first.
    pub closed spec fn view(&self) -> Seq<u32> {
        self.data@
    }

    /// The channel this buffer feeds.
    pub closed spec fn spec_usage(&self) -> Usage {
        self.usage
    }

    /// Whether a mutation has happened since the last bind.
    pub closed spec fn spec_dirty(&self) -> bool {
        self.dirty
    }

    /// The write cursor always equals the number of stored cells.
    pub closed spec fn wf(&self) -> bool {
        self.offset == self.data@.len()
    }

    /// A fresh, empty, clean buffer for the given channel.
    pub fn new(usage: Usage) -> (buf: VertexBufferObject)
        ensures
            buf.wf(),
            buf@ == Seq::<u32>::empty(),
            buf.spec_usage() == usage,
            !buf.spec_dirty(),
    {
        VertexBufferObject { usage, data: Vec::new(), offset: 0, dirty: false }
    }

    /// The channel this buffer feeds.
    pub fn usage(&self) -> (u: Usage)
        ensures
            u == self.spec_usage(),
    {
        self.usage
    }

    /// Number of stored cells.
    pub fn len(&self) -> (n: usize)
        requires
            self.wf(),
        ensures
            n == self@.len(),
    {
        self.offset
    }

    /// Whether the host must re-upload on the next bind.
    pub fn is_dirty(&self) -> (d: bool)
        ensures
            d == self.spec_dirty(),
    {
        self.dirty
    }

    /// Read access to the stored cells, for the host's upload.
    pub fn data(&self) -> (d: &Vec<u32>)
        ensures
            d@ == self@,
    {
        &self.data
    }

    /// Replaces the contents with exactly the given cells.
    pub fn set_data(&mut self, data: &[u32])
        ensures
            final(self).wf(),
            final(self)@ == data@,
            final(self).spec_dirty(),
            final(self).spec_usage() == old(self).spec_usage(),
    {
        self.data.clear();
        let mut i: usize = 0;
        while i < data.len()
            invariant
                i <= data@.len(),
                self.data@ == data@.subrange(0, i as int),
                self.usage == old(self).spec_usage(),
            decreases data@.len() - i,
        {
            self.data.push(data[i]);
            i = i + 1;
            assert(self.data@ =~= data@.subrange(0, i as int));
        }
        assert(self.data@ =~= data@);
        self.offset = self.data.len();
        self.dirty = true;
    }

    /// Appends all given cells.
    pub fn add_data_slice(&mut self, data: &[u32])
        ensures
            final(self).wf(),
            final(self)@ == old(self)@ + data@,
            final(self).spec_dirty(),
            final(self).spec_usage() == old(self).spec_usage(),
    {
        let mut i: usize = 0;
        while i < data.len()
            invariant
                i <= data@.len(),
                self.data@ == old(self)@ + data@.subrange(0, i as int),
                self.usage == old(self).spec_usage(),
            decreases data@.len() - i,
        {
            self.data.push(data[i]);
            i = i + 1;
            assert(self.data@ =~= old(self)@ + data@.subrange(0, i as int));
        }
        assert(self.data@ =~= old(self)@ + data@);
        self.offset = self.data.len();
        self.dirty = true;
    }

    /// Appends one cell.
    pub fn add_data(&mut self, value: u32)
        ensures
            final(self).wf(),
            final(self)@ == old(self)@.push(value),
            final(self).spec_dirty(),
            final(self).spec_usage() == old(self).spec_usage(),
    {
        self.data.push(value);
        self.offset = self.data.len();
        self.dirty = true;
    }

    /// Empties the buffer and resets the write cursor.
    pub fn clear(&mut self)
        ensures
            final(self).wf(),
            final(self)@ == Seq::<u32>::empty(),
            final(self).spec_dirty(),
            final(self).spec_usage() == old(self).spec_usage(),
    {
        self.data.clear();
        self.offset = 0;
        self.dirty = true;
    }

    /// Bind-time upload decision: reports whether the host must upload the
    /// contents to the GPU buffer, and clears the dirty flag. Calling it
    /// again with no intervening mutation reports that no upload is needed,
    /// so repeated binds upload at most once.
    pub fn bind(&mut self) -> (upload: bool)
        ensures
            upload == old(self).spec_dirty(),
            final(self)@ == old(self)@,
            !final(self).spec_dirty(),
            final(self).spec_usage() == old(self).spec_usage(),
            final(self).wf() == old(self).wf(),
    {
        let was_dirty = self.dirty;
        self.dirty = false;
        was_dirty
    }
}

} // verus!
