//! A thin model of a real-time rendering toolkit: vertex attribute layouts,
//! per-channel buffer objects with dirty tracking, mesh assembly, a uniform
//! location cache, CPU-side texture images, and two draw batchers.
//!
//! The library is the verified control plane. Vertex scalars are carried as
//! opaque 32-bit cells (`u32`); the host that owns the graphics context
//! decides how each channel's cells are encoded on upload and performs every
//! graphics-API call, driven by the values these types hand out.

use vstd::prelude::*;

pub mod layout;
pub mod buffer;
pub mod vertex_array;
pub mod mesh;
pub mod texture;
pub mod shader;
pub mod mesh_renderer;
pub mod texture_renderer;

verus! {

/// Cell carrying the value zero in every channel encoding the host uses.
pub const CELL_ZERO: u32 = 0;

/// Cell that a host reading channel cells as IEEE 754 binary32 bit patterns
/// interprets as the value one; used for the full-opacity white tint and for
/// the far corner of the full texture-coordinate range.
pub const CELL_ONE: u32 = 0x3F80_0000;

/// A run of `n` zero cells.
pub open spec fn zero_seq(n: int) -> Seq<u32> {
    Seq::new(n as nat, |i: int| 0u32)
}

/// The sequence `s` with the cells at `at .. at + vals.len()` replaced by
/// `vals`; used to state what a scratch-vertex setter writes.
pub open spec fn patched(s: Seq<u32>, at: int, vals: Seq<u32>) -> Seq<u32> {
    Seq::new(
        s.len(),
        |i: int|
            if at <= i < at + vals.len() {
                vals[i - at]
            } else {
                s[i]
            },
    )
}

/// A fresh all-zero scratch vertex of `n` cells.
pub fn zeroed_cells(n: usize) -> (v: Vec<u32>)
    ensures
        v@ == zero_seq(n as int),
{
    let mut v: Vec<u32> = Vec::new();
    let mut i: usize = 0;
    while i < n
        invariant
            i <= n,
            v@.len() == i,
            forall|j: int| 0 <= j < i ==> v@[j] == 0u32,
        decreases n - i,
    {
        v.push(0u32);
        i = i + 1;
    }
    assert(v@ =~= zero_seq(n as int));
    v
}

} // verus!
