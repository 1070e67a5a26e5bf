//! A picture of a pattern table: its 256 tiles laid out 16 by 16, each pixel a two-bit
//! color.
use crate::mapper::byte_or_zero;
use crate::ppu::tile_fetcher::{pixel_color, pixel_color_of};
use vstd::prelude::*;

verus! {

/// The width and the height of the picture, in pixels.
pub const PATTERN_TABLE_SIZE: usize = 128;

/// The color of the pixel at (`x`, `y`) of the picture of `chr`: tile `(y / 8) * 16 + x / 8`,
/// row `y % 8` of the tile, pixel `x % 8` of the row. Bytes past the end of `chr` read as 0.
pub open spec fn pattern_pixel(chr: Seq<u8>, x: int, y: int) -> int {
    let tile = (y / 8) * 16 + x / 8;
    let base = tile * 16 + y % 8;
    pixel_color(byte_or_zero(chr, base), byte_or_zero(chr, base + 8), x % 8)
}

/// The byte at `i` of `chr`, or 0 past its end.
fn byte_at(chr: &[u8], i: usize) -> (r: u8)
    ensures
        r == byte_or_zero(chr@, i as int),
{
    if i < chr.len() {
        chr[i]
    } else {
        0
    }
}

/// Draws the first pattern table of `chr`, row after row: pixel (`x`, `y`) is at `y * 128 + x`.
pub fn decode_pattern_table(chr: &[u8]) -> (r: Vec<u8>)
    ensures
        r@.len() == 128 * 128,
        forall|x: int, y: int|
            0 <= x < 128 && 0 <= y < 128 ==> r@[y * 128 + x] as int == #[trigger] pattern_pixel(chr@, x, y),
{
    let mut pixels: Vec<u8> = Vec::new();
    let mut y: usize = 0;
    while y < PATTERN_TABLE_SIZE
        invariant
            y <= 128,
            pixels@.len() == y * 128,
            forall|x: int, y2: int|
                0 <= x < 128 && 0 <= y2 < y ==> pixels@[y2 * 128 + x] as int == #[trigger] pattern_pixel(chr@, x, y2),
        decreases 128 - y,
    {
        let mut x: usize = 0;
        while x < PATTERN_TABLE_SIZE
            invariant
                y < 128,
                x <= 128,
                pixels@.len() == y * 128 + x,
                forall|x2: int, y2: int|
                    0 <= x2 < 128 && 0 <= y2 < y ==> pixels@[y2 * 128 + x2] as int == #[trigger] pattern_pixel(chr@, x2, y2),
                forall|x2: int| 0 <= x2 < x ==> pixels@[y * 128 + x2] as int == #[trigger] pattern_pixel(chr@, x2, y as int),
            decreases 128 - x,
        {
            let tile = (y / 8) * 16 + x / 8;
            let base = tile * 16 + y % 8;
            let low = byte_at(chr, base);
            let high = byte_at(chr, base + 8);
            let color = pixel_color_of(low, high, (x % 8) as u8);
            proof {
                assert forall|x2: int, y2: int|
                    0 <= x2 < 128 && 0 <= y2 < y implies pixels@.push(color)[y2 * 128 + x2] as int == #[trigger] pattern_pixel(chr@, x2, y2) by {
                    assert(y2 * 128 + x2 < y * 128) by (nonlinear_arith)
                        requires 0 <= x2 < 128, 0 <= y2 < y;
                }
                assert forall|x2: int| 0 <= x2 <= x implies pixels@.push(color)[y * 128 + x2] as int == #[trigger] pattern_pixel(chr@, x2, y as int) by {
                    if x2 < x {
                        assert(pixels@.push(color)[y * 128 + x2] == pixels@[y * 128 + x2]);
                    }
                }
            }
            pixels.push(color);
            x += 1;
        }
        y += 1;
    }
    pixels
}

} // verus!
