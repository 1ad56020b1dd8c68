//! A texture image: the host's texture handle together with the retained
//! CPU-side RGBA pixel buffer. The buffer is flipped vertically once at
//! creation, to match the render coordinate convention, and kept so derived
//! images can be computed without re-reading the source.

use vstd::prelude::*;

use vstd::arithmetic::div_mod::{lemma_div_multiples_vanish, lemma_fundamental_div_mod_converse};
use vstd::arithmetic::mul::lemma_mul_inequality;

verus! {

/// Color factors are fixed-point numbers in units of `1 / FACTOR_ONE`;
/// `FACTOR_ONE` itself is the unit factor that leaves a channel unchanged.
pub const FACTOR_ONE: u32 = 256;

/// The pixel buffer with its rows in reverse order: cell `i` of the result
/// comes from the same column of the mirror row of the source.
pub open spec fn flipped(p: Seq<u8>, width: int, height: int) -> Seq<u8> {
    Seq::new(
        p.len(),
        |i: int| p[(height - 1 - i / (4 * width)) * (4 * width) + i % (4 * width)],
    )
}

/// One channel value scaled by a fixed-point factor and clamped to the
/// representable range: `min(p * f / FACTOR_ONE, 255)`.
pub open spec fn scaled(p: u8, f: u32) -> u8 {
    if p * f / (FACTOR_ONE as int) < 255 {
        (p * f / (FACTOR_ONE as int)) as u8
    } else {
        255u8
    }
}

/// The factor that applies to cell `i` of an RGBA pixel buffer.
pub open spec fn channel_factor(i: int, r: u32, g: u32, b: u32, a: u32) -> u32 {
    if i % 4 == 0 {
        r
    } else if i % 4 == 1 {
        g
    } else if i % 4 == 2 {
        b
    } else {
        a
    }
}

/// A pixel buffer with every channel scaled by its factor.
pub open spec fn multiplied(p: Seq<u8>, r: u32, g: u32, b: u32, a: u32) -> Seq<u8> {
    Seq::new(p.len(), |i: int| scaled(p[i], channel_factor(i, r, g, b, a)))
}

/// A GPU image resource: the host's handle, the dimensions, and the
/// retained (already flipped) pixel buffer. The host allocates the handle,
/// uploads `pixels()` to it, and releases it when the value is dropped.
pub struct Texture {
    id: u32,
    width: u32,
    height: u32,
    original_image: Vec<u8>,
}

impl Texture {
    /// The host's texture handle; also the identity the batchers group by.
    pub closed spec fn spec_id(self) -> u32 {
        self.id
    }

    /// Width in pixels.
    pub closed spec fn spec_width(self) -> u32 {
        self.width
    }

    /// Height in pixels.
    pub closed spec fn spec_height(self) -> u32 {
        self.height
    }

    /// The retained pixel buffer, RGBA, already flipped.
    pub closed spec fn spec_pixels(self) -> Seq<u8> {
        self.original_image@
    }

    /// Four cells per pixel.
    pub closed spec fn wf(self) -> bool {
        self.original_image@.len() == 4 * self.width * self.height
    }

    /// Builds a texture from a decoded RGBA image, flipping it vertically
    /// once so that the retained buffer and the GPU copy follow the render
    /// coordinate convention. The host supplies the decoded cells in row
    /// order, top row first, and the handle it allocated.
    pub fn from_image(id: u32, width: u32, height: u32, pixels: Vec<u8>) -> (tex: Texture)
        requires
            pixels@.len() == 4 * width * height,
        ensures
            tex.wf(),
            tex.spec_id() == id,
            tex.spec_width() == width,
            tex.spec_height() == height,
            tex.spec_pixels() == flipped(pixels@, width as int, height as int),
    {
        let flipped_pixels = flip_vertical(width, height, &pixels);
        Texture { id, width, height, original_image: flipped_pixels }
    }

    /// The host's texture handle.
    pub fn id(&self) -> (id: u32)
        ensures
            id == self.spec_id(),
    {
        self.id
    }

    /// Width in pixels.
    pub fn width(&self) -> (w: u32)
        ensures
            w == self.spec_width(),
    {
        self.width
    }

    /// Height in pixels.
    pub fn height(&self) -> (h: u32)
        ensures
            h == self.spec_height(),
    {
        self.height
    }

    /// Read access to the retained pixel buffer, for the host's upload.
    pub fn pixels(&self) -> (p: &Vec<u8>)
        ensures
            p@ == self.spec_pixels(),
    {
        &self.original_image
    }

    /// A new independent texture whose pixels are this texture's pixels
    /// scaled channel-wise by the given fixed-point factors, each channel
    /// clamped to its representable range. This texture is untouched; the
    /// host supplies the handle for the derived image.
    pub fn multiply(&self, id: u32, r: u32, g: u32, b: u32, a: u32) -> (tex: Texture)
        requires
            self.wf(),
        ensures
            tex.wf(),
            tex.spec_id() == id,
            tex.spec_width() == self.spec_width(),
            tex.spec_height() == self.spec_height(),
            tex.spec_pixels() == multiplied(self.spec_pixels(), r, g, b, a),
    {
        let src = &self.original_image;
        let mut out: Vec<u8> = Vec::new();
        let mut i: usize = 0;
        while i < src.len()
            invariant
                i <= src@.len(),
                src@ == self.spec_pixels(),
                out@.len() == i,
                forall|j: int|
                    0 <= j < i ==> out@[j] == scaled(src@[j], channel_factor(j, r, g, b, a)),
            decreases src@.len() - i,
        {
            let p = src[i];
            let sel: usize = i % 4;
            let f: u32 = if sel == 0 {
                r
            } else if sel == 1 {
                g
            } else if sel == 2 {
                b
            } else {
                a
            };
            proof {
                assert(p as int * f as int <= 255 * 0xFFFF_FFFFint) by (nonlinear_arith)
                    requires
                        p <= 255,
                        f <= 0xFFFF_FFFF,
                ;
            }
            let v: u64 = (p as u64) * (f as u64) / (FACTOR_ONE as u64);
            let cell: u8 = if v < 255 {
                v as u8
            } else {
                255u8
            };
            out.push(cell);
            i = i + 1;
        }
        assert(out@ =~= multiplied(self.spec_pixels(), r, g, b, a));
        Texture { id, width: self.width, height: self.height, original_image: out }
    }
}

/// Reverses the row order of an RGBA pixel buffer.
fn flip_vertical(width: u32, height: u32, pixels: &Vec<u8>) -> (out: Vec<u8>)
    requires
        pixels@.len() == 4 * width * height,
    ensures
        out@ == flipped(pixels@, width as int, height as int),
{
    // bind the length as a machine-word value so the index arithmetic below
    // is known to stay within it
    let total: usize = pixels.len();
    assert(total as int == pixels@.len());
    let mut out: Vec<u8> = Vec::new();
    if width == 0 || height == 0 {
        proof {
            assert(4 * (width as int) * (height as int) == 0) by (nonlinear_arith)
                requires
                    width == 0 || height == 0,
            ;
            assert(out@ =~= flipped(pixels@, width as int, height as int));
        }
        return out;
    }
    let ghost r = 4 * width as int;
    proof {
        assert(pixels@.len() == (height as int) * r) by (nonlinear_arith)
            requires
                pixels@.len() == 4 * width * height,
                r == 4 * width as int,
        ;
        assert(r <= pixels@.len()) by (nonlinear_arith)
            requires
                1 <= height as int,
                pixels@.len() == (height as int) * r,
                0 <= r,
        ;
    }
    let row_bytes: usize = 4 * (width as usize);
    let mut y: usize = 0;
    while y < height as usize
        invariant
            y <= height,
            0 < width && 0 < height,
            r == 4 * width as int,
            row_bytes as int == r,
            pixels@.len() == (height as int) * r,
            pixels@.len() <= usize::MAX,
            out@.len() == y as int * r,
            forall|i: int|
                0 <= i < out@.len() ==> out@[i] == flipped(
                    pixels@,
                    width as int,
                    height as int,
                )[i],
        decreases height - y,
    {
        proof {
            assert((height as int - 1 - y as int) * r + r == (height as int - y as int) * r
                && (y as int) * r + r == (y as int + 1) * r) by (nonlinear_arith);
            lemma_mul_inequality(height as int - y as int, height as int, r);
            lemma_mul_inequality(y as int + 1, height as int, r);
            lemma_mul_inequality(0, height as int - 1 - y as int, r);
            lemma_mul_inequality(height as int - 1 - y as int, height as int, r);
        }
        let src_start: usize = (height as usize - 1 - y) * row_bytes;
        let mut x: usize = 0;
        while x < row_bytes
            invariant
                x <= row_bytes,
                y < height,
                r == 4 * width as int,
                row_bytes as int == r,
                pixels@.len() == (height as int) * r,
                pixels@.len() <= usize::MAX,
                src_start as int == (height as int - 1 - y as int) * r,
                src_start + row_bytes <= pixels@.len(),
                out@.len() == y as int * r + x as int,
                forall|i: int|
                    0 <= i < out@.len() ==> out@[i] == flipped(
                        pixels@,
                        width as int,
                        height as int,
                    )[i],
            decreases row_bytes - x,
        {
            let ghost i = y as int * r + x as int;
            proof {
                assert(i < pixels@.len()) by (nonlinear_arith)
                    requires
                        i == y as int * r + x as int,
                        0 <= x as int,
                        (x as int) < r,
                        (y as int) < (height as int),
                        pixels@.len() == (height as int) * r,
                ;
                lemma_fundamental_div_mod_converse(i, r, y as int, x as int);
                assert(flipped(pixels@, width as int, height as int)[i] == pixels@[src_start as int
                    + x as int]);
            }
            out.push(pixels[src_start + x]);
            x = x + 1;
        }
        y = y + 1;
        proof {
            assert((y - 1) as int * r + r == y as int * r) by (nonlinear_arith);
        }
    }
    proof {
        assert(out@ =~= flipped(pixels@, width as int, height as int));
    }
    out
}

/// Law: scaling every channel by the unit factor is the identity — the
/// derived image is pixel-identical to the source.
pub proof fn lemma_multiply_identity(p: Seq<u8>)
    ensures
        multiplied(p, FACTOR_ONE, FACTOR_ONE, FACTOR_ONE, FACTOR_ONE) =~= p,
{
    assert forall|i: int| 0 <= i < p.len() implies multiplied(
        p,
        FACTOR_ONE,
        FACTOR_ONE,
        FACTOR_ONE,
        FACTOR_ONE,
    )[i] == p[i] by {
        lemma_div_multiples_vanish(p[i] as int, 256);
        assert(p[i] * 256 == 256 * (p[i] as int));
        assert(p[i] * 256 / 256 == p[i] as int);
    }
}

/// Law: scaling the color channels by zero and the alpha channel by the
/// unit factor blacks out every color cell and preserves every alpha cell.
pub proof fn lemma_multiply_black(p: Seq<u8>)
    ensures
        multiplied(p, 0, 0, 0, FACTOR_ONE).len() == p.len(),
        forall|i: int|
            0 <= i < p.len() && i % 4 != 3 ==> multiplied(p, 0, 0, 0, FACTOR_ONE)[i] == 0,
        forall|i: int|
            0 <= i < p.len() && i % 4 == 3 ==> multiplied(p, 0, 0, 0, FACTOR_ONE)[i] == p[i],
{
    assert forall|i: int| 0 <= i < p.len() && i % 4 == 3 implies multiplied(
        p,
        0,
        0,
        0,
        FACTOR_ONE,
    )[i] == p[i] by {
        lemma_div_multiples_vanish(p[i] as int, 256);
        assert(p[i] * 256 == 256 * (p[i] as int));
    }
}

} // verus!
