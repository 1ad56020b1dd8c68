//! Vertex channels and attribute layouts: which per-vertex channels a mesh
//! carries, each channel's component count, and the computed offsets that
//! interleave one full vertex into a flat cell array.

use vstd::prelude::*;

verus! {

/// A per-vertex data channel. Each channel has a fixed binding slot and a
/// fixed number of 32-bit components per vertex.
#[derive(Clone, Copy, PartialEq, Eq, Structural, Debug)]
#[allow(non_camel_case_types)]
pub enum Usage {
    POSITIONS,
    COLORS,
    NORMALS,
    TEXCOORDS,
    INDICES,
}

impl Usage {
    /// Binding slot of the channel, in the fixed channel order.
    pub open spec fn slot(self) -> int {
        match self {
            Usage::POSITIONS => 0,
            Usage::COLORS => 1,
            Usage::NORMALS => 2,
            Usage::TEXCOORDS => 3,
            Usage::INDICES => 4,
        }
    }

    /// Number of 32-bit components one vertex contributes to this channel.
    /// The index channel's count is nominal: indices never join the vertex
    /// stride.
    pub open spec fn components(self) -> int {
        match self {
            Usage::POSITIONS => 3,
            Usage::COLORS => 4,
            Usage::NORMALS => 3,
            Usage::TEXCOORDS => 2,
            Usage::INDICES => 3,
        }
    }

    /// Binding slot of the channel.
    pub fn position(&self) -> (p: u8)
        ensures
            p as int == self.slot(),
    {
        match *self {
            Usage::POSITIONS => 0,
            Usage::COLORS => 1,
            Usage::NORMALS => 2,
            Usage::TEXCOORDS => 3,
            Usage::INDICES => 4,
        }
    }

    /// Component count of the channel.
    pub fn offset(&self) -> (n: u8)
        ensures
            n as int == self.components(),
    {
        match *self {
            Usage::POSITIONS => 3,
            Usage::COLORS => 4,
            Usage::NORMALS => 3,
            Usage::TEXCOORDS => 2,
            Usage::INDICES => 3,
        }
    }
}

/// The set of channels a mesh carries, with the derived total component count
/// (`vertex_size`) of one interleaved vertex.
#[derive(Clone, Copy)]
pub struct VertexAttributes {
    pub vertex_size: u8,
    pub has_positions: bool,
    pub has_colors: bool,
    pub has_normals: bool,
    pub has_tex_coords: bool,
}

impl VertexAttributes {
    /// Whether the layout carries the given channel. The index channel is
    /// tracked separately from the vertex layout and is never enabled here.
    pub open spec fn enabled(self, usage: Usage) -> bool {
        match usage {
            Usage::POSITIONS => self.has_positions,
            Usage::COLORS => self.has_colors,
            Usage::NORMALS => self.has_normals,
            Usage::TEXCOORDS => self.has_tex_coords,
            Usage::INDICES => false,
        }
    }

    /// Sum of the enabled channels' component counts.
    pub open spec fn stride(self) -> int {
        (if self.has_positions { 3int } else { 0int })
            + (if self.has_colors { 4int } else { 0int })
            + (if self.has_normals { 3int } else { 0int })
            + (if self.has_tex_coords { 2int } else { 0int })
    }

    /// Offset of a channel inside one interleaved vertex: the sum of the
    /// component counts of the enabled channels that precede it in the fixed
    /// channel order.
    pub open spec fn off(self, usage: Usage) -> int {
        (if self.has_positions && 0 < usage.slot() { 3int } else { 0int })
            + (if self.has_colors && 1 < usage.slot() { 4int } else { 0int })
            + (if self.has_normals && 2 < usage.slot() { 3int } else { 0int })
            + (if self.has_tex_coords && 3 < usage.slot() { 2int } else { 0int })
    }

    /// The derived `vertex_size` field agrees with the enabled channels.
    pub open spec fn wf(self) -> bool {
        self.vertex_size as int == self.stride()
    }

    /// Number of enabled vertex channels.
    pub open spec fn enabled_count(self) -> int {
        (if self.has_positions { 1int } else { 0int })
            + (if self.has_colors { 1int } else { 0int })
            + (if self.has_normals { 1int } else { 0int })
            + (if self.has_tex_coords { 1int } else { 0int })
    }

    /// Position of a channel among the enabled channels, in the fixed
    /// channel order: the number of enabled channels that precede it.
    pub open spec fn chan_index(self, usage: Usage) -> int {
        (if self.has_positions && 0 < usage.slot() { 1int } else { 0int })
            + (if self.has_colors && 1 < usage.slot() { 1int } else { 0int })
            + (if self.has_normals && 2 < usage.slot() { 1int } else { 0int })
            + (if self.has_tex_coords && 3 < usage.slot() { 1int } else { 0int })
    }

    /// The first enabled channel in the fixed channel order; meaningful only
    /// when at least one channel is enabled (the index channel stands in for
    /// the empty layout).
    pub open spec fn first_channel(self) -> Usage {
        if self.has_positions {
            Usage::POSITIONS
        } else if self.has_colors {
            Usage::COLORS
        } else if self.has_normals {
            Usage::NORMALS
        } else if self.has_tex_coords {
            Usage::TEXCOORDS
        } else {
            Usage::INDICES
        }
    }

    /// Sum of the component counts of the enabled channels whose position
    /// among the enabled channels is below `k`; equals `off` at a channel's
    /// own position and `stride` at `enabled_count`.
    pub open spec fn prefix_components(self, k: int) -> int {
        (if self.has_positions && self.chan_index(Usage::POSITIONS) < k { 3int } else { 0int })
            + (if self.has_colors && self.chan_index(Usage::COLORS) < k { 4int } else { 0int })
            + (if self.has_normals && self.chan_index(Usage::NORMALS) < k { 3int } else { 0int })
            + (if self.has_tex_coords && self.chan_index(Usage::TEXCOORDS) < k { 2int } else { 0int })
    }

    /// Builds a layout from one flag per vertex channel.
    pub fn with(
        has_positions: bool,
        has_colors: bool,
        has_normals: bool,
        has_tex_coords: bool,
    ) -> (va: VertexAttributes)
        ensures
            va.wf(),
            va.enabled(Usage::POSITIONS) == has_positions,
            va.enabled(Usage::COLORS) == has_colors,
            va.enabled(Usage::NORMALS) == has_normals,
            va.enabled(Usage::TEXCOORDS) == has_tex_coords,
            !va.enabled(Usage::INDICES),
    {
        let mut va = VertexAttributes {
            vertex_size: 0,
            has_positions,
            has_colors,
            has_normals,
            has_tex_coords,
        };
        if has_positions {
            va.vertex_size = va.vertex_size + Usage::POSITIONS.offset();
        }
        if has_colors {
            va.vertex_size = va.vertex_size + Usage::COLORS.offset();
        }
        if has_normals {
            va.vertex_size = va.vertex_size + Usage::NORMALS.offset();
        }
        if has_tex_coords {
            va.vertex_size = va.vertex_size + Usage::TEXCOORDS.offset();
        }
        va
    }

    /// Offset of the given channel inside one interleaved vertex, or the
    /// sentinel 0 when the channel is not enabled. Callers must check
    /// `usage()` first: a disabled channel has no meaningful offset.
    pub fn offset(&self, usage: Usage) -> (off: u8)
        ensures
            off as int == if self.enabled(usage) {
                self.off(usage)
            } else {
                0int
            },
    {
        let mut off: u8 = 0;
        if self.has_positions {
            if usage == Usage::POSITIONS {
                return off;
            }
            off = off + Usage::POSITIONS.offset();
        }
        if self.has_colors {
            if usage == Usage::COLORS {
                return off;
            }
            off = off + Usage::COLORS.offset();
        }
        if self.has_normals {
            if usage == Usage::NORMALS {
                return off;
            }
            off = off + Usage::NORMALS.offset();
        }
        if self.has_tex_coords {
            if usage == Usage::TEXCOORDS {
                return off;
            }
        }
        0
    }

    /// Whether the layout carries the given channel.
    pub fn usage(&self, usage: Usage) -> (has: bool)
        ensures
            has == self.enabled(usage),
    {
        (usage == Usage::POSITIONS && self.has_positions)
            || (usage == Usage::COLORS && self.has_colors)
            || (usage == Usage::NORMALS && self.has_normals)
            || (usage == Usage::TEXCOORDS && self.has_tex_coords)
    }

    /// Position of an enabled channel among the enabled channels.
    pub fn buffer_index(&self, usage: Usage) -> (i: u8)
        ensures
            i as int == self.chan_index(usage),
    {
        let mut i: u8 = 0;
        let slot = usage.position();
        if self.has_positions && 0 < slot {
            i = i + 1;
        }
        if self.has_colors && 1 < slot {
            i = i + 1;
        }
        if self.has_normals && 2 < slot {
            i = i + 1;
        }
        if self.has_tex_coords && 3 < slot {
            i = i + 1;
        }
        i
    }

    /// The total stride as an exec value.
    pub fn stride_val(&self) -> (s: u8)
        requires
            self.wf(),
        ensures
            s as int == self.stride(),
    {
        self.vertex_size
    }
}

/// Law: in a well-formed layout the stride is the sum of the enabled
/// channels' component counts, every enabled channel's component range lies
/// inside `[0, stride)`, and in the fixed channel order those ranges are
/// strictly increasing and disjoint, leaving no gap between one range's end
/// and the next enabled channel's offset.
pub proof fn lemma_layout_partition(a: VertexAttributes)
    requires
        a.wf(),
    ensures
        a.vertex_size as int == (if a.enabled(Usage::POSITIONS) { 3int } else { 0int })
            + (if a.enabled(Usage::COLORS) { 4int } else { 0int })
            + (if a.enabled(Usage::NORMALS) { 3int } else { 0int })
            + (if a.enabled(Usage::TEXCOORDS) { 2int } else { 0int }),
        forall|u: Usage| a.enabled(u) ==> 0 <= a.off(u) && a.off(u) + u.components() <= a.stride(),
        forall|u1: Usage, u2: Usage|
            a.enabled(u1) && a.enabled(u2) && u1.slot() < u2.slot() ==> a.off(u1)
                + u1.components() <= a.off(u2),
        forall|u1: Usage, u2: Usage|
            a.enabled(u1) && a.enabled(u2) && u1.slot() < u2.slot() && (forall|m: Usage|
                a.enabled(m) ==> !(u1.slot() < m.slot() < u2.slot())) ==> a.off(u1)
                + u1.components() == a.off(u2),
{
    assert forall|u: Usage| a.enabled(u) implies 0 <= a.off(u) && a.off(u) + u.components()
        <= a.stride() by {
        match u {
            Usage::POSITIONS => {},
            Usage::COLORS => {},
            Usage::NORMALS => {},
            Usage::TEXCOORDS => {},
            Usage::INDICES => {},
        }
    }
    assert forall|u1: Usage, u2: Usage|
        a.enabled(u1) && a.enabled(u2) && u1.slot() < u2.slot() implies a.off(u1)
        + u1.components() <= a.off(u2) by {
        match u1 {
            Usage::POSITIONS => {},
            Usage::COLORS => {},
            Usage::NORMALS => {},
            Usage::TEXCOORDS => {},
            Usage::INDICES => {},
        }
    }
    assert forall|u1: Usage, u2: Usage|
        a.enabled(u1) && a.enabled(u2) && u1.slot() < u2.slot() && (forall|m: Usage|
            a.enabled(m) ==> !(u1.slot() < m.slot() < u2.slot())) implies a.off(u1)
        + u1.components() == a.off(u2) by {
        if a.enabled(Usage::POSITIONS) {
            assert(!(u1.slot() < Usage::POSITIONS.slot() < u2.slot()));
        }
        if a.enabled(Usage::COLORS) {
            assert(!(u1.slot() < Usage::COLORS.slot() < u2.slot()));
        }
        if a.enabled(Usage::NORMALS) {
            assert(!(u1.slot() < Usage::NORMALS.slot() < u2.slot()));
        }
        if a.enabled(Usage::TEXCOORDS) {
            assert(!(u1.slot() < Usage::TEXCOORDS.slot() < u2.slot()));
        }
    }
}

} // verus!
