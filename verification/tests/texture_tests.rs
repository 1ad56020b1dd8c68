use renderkit::texture::{Texture, FACTOR_ONE};

// 2x2 RGBA image, rows top first: row 0 = red-ish, green-ish; row 1 = blue-ish, gray.
fn sample() -> Vec<u8> {
    vec![
        200, 10, 20, 255, 0, 200, 30, 128, // top row
        5, 6, 250, 64, 100, 100, 100, 200, // bottom row
    ]
}

#[test]
fn creation_flips_rows_once() {
    let t = Texture::from_image(1, 2, 2, sample());
    assert_eq!(t.width(), 2);
    assert_eq!(t.height(), 2);
    assert_eq!(t.id(), 1);
    assert_eq!(
        t.pixels().as_slice(),
        &[
            5, 6, 250, 64, 100, 100, 100, 200, // former bottom row first
            200, 10, 20, 255, 0, 200, 30, 128,
        ]
    );
}

#[test]
fn flip_of_single_row_is_identity() {
    let pixels = vec![1, 2, 3, 4, 5, 6, 7, 8];
    let t = Texture::from_image(9, 2, 1, pixels.clone());
    assert_eq!(t.pixels().as_slice(), pixels.as_slice());
}

#[test]
fn multiply_by_one_is_pixel_identical() {
    let t = Texture::from_image(1, 2, 2, sample());
    let m = t.multiply(2, FACTOR_ONE, FACTOR_ONE, FACTOR_ONE, FACTOR_ONE);
    assert_eq!(m.pixels().as_slice(), t.pixels().as_slice());
    assert_eq!(m.width(), t.width());
    assert_eq!(m.height(), t.height());
    assert_eq!(m.id(), 2);
    // the source is untouched
    assert_eq!(t.pixels().len(), 16);
}

#[test]
fn multiply_by_zero_blacks_out_and_preserves_alpha() {
    let t = Texture::from_image(1, 2, 2, sample());
    let m = t.multiply(3, 0, 0, 0, FACTOR_ONE);
    let src = t.pixels();
    let out = m.pixels();
    assert_eq!(out.len(), src.len());
    for i in 0..out.len() {
        if i % 4 == 3 {
            assert_eq!(out[i], src[i]);
        } else {
            assert_eq!(out[i], 0);
        }
    }
}

#[test]
fn multiply_scales_and_clamps() {
    // one pixel: 200, 100, 3, 255
    let t = Texture::from_image(1, 1, 1, vec![200, 100, 3, 255]);
    // doubling clamps 200 to 255; halving truncates
    let m = t.multiply(4, 2 * FACTOR_ONE, FACTOR_ONE / 2, FACTOR_ONE / 2, FACTOR_ONE);
    assert_eq!(m.pixels().as_slice(), &[255, 50, 1, 255]);
}
