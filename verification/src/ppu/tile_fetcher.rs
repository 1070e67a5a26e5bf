use crate::mapper::{Mapper, MapperSource};
use crate::ppu::ppu_reg_v::{coarse_x, coarse_y, fine_y, nametable_select, PPURegV};
use vstd::prelude::*;

verus! {

#[derive(Debug, Clone, Copy, PartialEq, Eq, Structural)]
pub enum TileFetcherState {
    FetchNametable,
    FetchAttribute,
    FetchPatternLow,
    FetchPatternHigh,
}

impl Default for TileFetcherState {
    fn default() -> (r: Self)
        ensures
            r is FetchNametable,
    {
        TileFetcherState::FetchNametable
    }
}

const STATE_CYCLE_LENGTH: u8 = 2;

/// Fetches the background tiles: each fetch takes two cycles, and every fourth fetch
/// completes a tile row of eight pixels.
#[derive(Debug)]
pub struct TileFetcher {
    pub nametable_byte: u8,
    pub attribute_table_byte: u8,
    pub pattern_table_tile_low: u8,
    pub pattern_table_tile_high: u8,
    pub current_state: TileFetcherState,
    pub current_state_cycles: u8,
}

impl Default for TileFetcher {
    fn default() -> (r: Self)
        ensures
            r == TileFetcher::initial(),
    {
        TileFetcher {
            nametable_byte: 0,
            attribute_table_byte: 0,
            pattern_table_tile_low: 0,
            pattern_table_tile_high: 0,
            current_state: TileFetcherState::default(),
            current_state_cycles: 0,
        }
    }
}

/// The fetch that follows each fetch.
pub open spec fn next_state(s: TileFetcherState) -> TileFetcherState {
    match s {
        TileFetcherState::FetchNametable => TileFetcherState::FetchAttribute,
        TileFetcherState::FetchAttribute => TileFetcherState::FetchPatternLow,
        TileFetcherState::FetchPatternLow => TileFetcherState::FetchPatternHigh,
        TileFetcherState::FetchPatternHigh => TileFetcherState::FetchNametable,
    }
}

/// The offset in VRAM of the tile of the nametable that `v` points at.
pub open spec fn tile_offset(v: u16) -> int {
    v as int % 4096
}

/// The address of the attribute byte of the tile that `v` points at: the attribute table
/// follows the 960 tile bytes of its nametable, and one byte covers 4x4 tiles.
pub open spec fn attribute_address(v: u16) -> int {
    0x23C0 + nametable_select(v) * 1024 + (coarse_y(v) / 4) * 8 + coarse_x(v) / 4
}

/// The address of one plane of a tile row in the pattern table.
pub open spec fn pattern_address(base: u16, tile: u8, fine_y: u8, high_plane: bool) -> u16 {
    if high_plane {
        base | ((tile as u16) << 4u16) | 0x08 | fine_y as u16
    } else {
        base | ((tile as u16) << 4u16) | fine_y as u16
    }
}

/// Which of the four 2-bit palette numbers of an attribute byte applies: one per 2x2 tile
/// quadrant.
pub open spec fn palette_number(attribute: u8, v: u16) -> u8 {
    let shift = 4 * ((coarse_y(v) / 2) % 2) + 2 * ((coarse_x(v) / 2) % 2);
    ((attribute as int / pow2_small(shift)) % 4) as u8
}

/// 2 to the power of a small exponent.
pub open spec fn pow2_small(n: int) -> int {
    if n == 0 {
        1
    } else if n == 2 {
        4
    } else if n == 4 {
        16
    } else {
        64
    }
}

/// The two-bit color of pixel `j` (0 = leftmost) of a tile row: bit 0 from the low plane,
/// bit 1 from the high plane.
pub open spec fn pixel_color(low: u8, high: u8, j: int) -> int {
    let b = 7 - j;
    2 * ((high as int / pow2_byte(b)) % 2) + (low as int / pow2_byte(b)) % 2
}

/// 2 to the power of a bit position of a byte.
pub open spec fn pow2_byte(n: int) -> int {
    if n <= 0 {
        1
    } else if n == 1 {
        2
    } else if n == 2 {
        4
    } else if n == 3 {
        8
    } else if n == 4 {
        16
    } else if n == 5 {
        32
    } else if n == 6 {
        64
    } else {
        128
    }
}

/// The palette index of pixel `j`: color 0 is the backdrop, the others pick one of the
/// three colors of the tile's palette.
pub open spec fn pixel_value(low: u8, high: u8, palette: u8, j: int) -> u8 {
    let c = pixel_color(low, high, j);
    if c == 0 {
        0
    } else {
        (palette * 4 + c) as u8
    }
}

/// The eight pixels of a completed tile row.
pub open spec fn tile_pixels(low: u8, high: u8, palette: u8) -> Seq<u8> {
    Seq::new(8, |j: int| pixel_value(low, high, palette, j))
}

/// The two-bit color of pixel `col` (0 = leftmost) of a tile row, from its two pattern
/// planes.
pub fn pixel_color_of(low: u8, high: u8, col: u8) -> (r: u8)
    requires
        col < 8,
    ensures
        r as int == pixel_color(low, high, col as int),
{
    let bit = 7 - col;
    let low_bit = (low >> bit) & 1;
    let high_bit = (high >> bit) & 1;
    assert(bit < 8 ==> ((high >> bit) & 1) << 1 | ((low >> bit) & 1) == 2 * ((high / (if bit == 0 {
        1u8
    } else if bit == 1 {
        2u8
    } else if bit == 2 {
        4u8
    } else if bit == 3 {
        8u8
    } else if bit == 4 {
        16u8
    } else if bit == 5 {
        32u8
    } else if bit == 6 {
        64u8
    } else {
        128u8
    })) % 2) + (low / (if bit == 0 {
        1u8
    } else if bit == 1 {
        2u8
    } else if bit == 2 {
        4u8
    } else if bit == 3 {
        8u8
    } else if bit == 4 {
        16u8
    } else if bit == 5 {
        32u8
    } else if bit == 6 {
        64u8
    } else {
        128u8
    })) % 2) by (bit_vector);
    (high_bit << 1) | low_bit
}

/// Where a fetch stands in the eight-cycle round of the four fetches: two cycles per fetch.
pub open spec fn fetch_phase(t: TileFetcher) -> int {
    let k = match t.current_state {
        TileFetcherState::FetchNametable => 0int,
        TileFetcherState::FetchAttribute => 1,
        TileFetcherState::FetchPatternLow => 2,
        TileFetcherState::FetchPatternHigh => 3,
    };
    2 * k + t.current_state_cycles
}

/// Each cycle moves the fetcher one place on in its round of eight (it starts at place 0);
/// a tile row comes out exactly on the last place, as eight palette indices below 16 of
/// which only the backdrop is a multiple of 4; and the cartridge is consulted only on the
/// second cycles of the two pattern fetches.
pub proof fn lemma_fetch_round<M: Mapper>(
    t: TileFetcher,
    v: u16,
    pattern: u16,
    vram: Seq<u8>,
    ms: M::State,
    other_ms: M::State,
)
    requires
        t.current_state_cycles < 2,
    ensures
        fetch_phase(TileFetcher::initial()) == 0,
        ({
            let (t2, out) = t.spec_step::<M>(v, pattern, vram, ms);
            &&& t2.current_state_cycles < 2
            &&& fetch_phase(t2) == (fetch_phase(t) + 1) % 8
            &&& (out is Some <==> fetch_phase(t) == 7)
            &&& (out matches Some(px) ==> px.len() == 8 && forall|j: int|
                0 <= j < 8 ==> #[trigger] px[j] < 16 && (px[j] % 4 == 0 ==> px[j] == 0))
            &&& (fetch_phase(t) != 5 && fetch_phase(t) != 7) ==> t.spec_step::<M>(
                v,
                pattern,
                vram,
                other_ms,
            ) == (t2, out)
        }),
{
    let (t2, out) = t.spec_step::<M>(v, pattern, vram, ms);
    if let Some(px) = out {
        let low = t.pattern_table_tile_low;
        let high = M::read_value(
            ms,
            MapperSource::PPU,
            pattern_address(pattern, t.nametable_byte, fine_y(v) as u8, true),
        );
        let pal = palette_number(t.attribute_table_byte, v);
        assert(pal < 4);
        assert(px == tile_pixels(low, high, pal));
        assert forall|j: int| 0 <= j < 8 implies #[trigger] px[j] < 16 && (px[j] % 4 == 0 ==> px[j] == 0) by {
            let c = pixel_color(low, high, j);
            assert(0 <= c < 4);
            if c != 0 {
                assert((pal * 4 + c) % 4 == c) by (nonlinear_arith)
                    requires
                        0 < c < 4,
                        0 <= pal,
                ;
            }
        }
    }
}

/// The attribute byte holds one palette for each 2x2-tile quadrant of its 4x4-tile area:
/// bits 0-1 the top left, 2-3 the top right, 4-5 the bottom left and 6-7 the bottom right.
/// Bit 1 of coarse X tells right from left, bit 1 of coarse Y bottom from top.
pub proof fn lemma_attribute_quadrants(attribute: u8, v: u16)
    ensures
        ({
            let right = (v % 32) / 2 % 2 == 1;
            let bottom = (v / 32 % 32) / 2 % 2 == 1;
            palette_number(attribute, v) as int == if !right && !bottom {
                attribute % 4
            } else if right && !bottom {
                attribute / 4 % 4
            } else if !right && bottom {
                attribute / 16 % 4
            } else {
                attribute / 64
            }
        }),
{
}

/// When the fetcher completes a tile row, pixel `j` takes the two bits of column `j` of the
/// pattern planes (low plane in bit 0) as its color, and the palette of the tile's quadrant
/// from the attribute byte: it is 4 times that palette plus the color, or 0 for color 0.
pub proof fn lemma_tile_row_palette<M: Mapper>(
    t: TileFetcher,
    v: u16,
    pattern: u16,
    vram: Seq<u8>,
    ms: M::State,
)
    ensures
        ({
            let (t2, out) = t.spec_step::<M>(v, pattern, vram, ms);
            let right = (v % 32) / 2 % 2 == 1;
            let bottom = (v / 32 % 32) / 2 % 2 == 1;
            let a = t.attribute_table_byte as int;
            let palette = if !right && !bottom {
                a % 4
            } else if right && !bottom {
                a / 4 % 4
            } else if !right && bottom {
                a / 16 % 4
            } else {
                a / 64
            };
            out matches Some(px) ==> forall|j: int|
                0 <= j < 8 ==> {
                    let low = t.pattern_table_tile_low as int;
                    let high = t2.pattern_table_tile_high as int;
                    let bit = 7 - j;
                    let color = 2 * (high / pow2_byte(bit) % 2) + low / pow2_byte(bit) % 2;
                    #[trigger] px[j] as int == if color == 0 {
                        0
                    } else {
                        4 * palette + color
                    }
                }
        }),
{
    lemma_attribute_quadrants(t.attribute_table_byte, v);
}

impl TileFetcher {
    pub open spec fn initial() -> TileFetcher {
        TileFetcher {
            nametable_byte: 0,
            attribute_table_byte: 0,
            pattern_table_tile_low: 0,
            pattern_table_tile_high: 0,
            current_state: TileFetcherState::FetchNametable,
            current_state_cycles: 0,
        }
    }

    /// The fetch that happens on the second cycle of each state, and the pixels it
    /// completes, if any.
    pub open spec fn fetch<M: Mapper>(
        self,
        v: u16,
        pattern: u16,
        vram: Seq<u8>,
        ms: M::State,
    ) -> (TileFetcher, Option<Seq<u8>>) {
        match self.current_state {
            TileFetcherState::FetchNametable => (
                TileFetcher { nametable_byte: vram[tile_offset(v) % vram.len() as int], ..self },
                None,
            ),
            TileFetcherState::FetchAttribute => (
                TileFetcher {
                    attribute_table_byte: vram[(attribute_address(v) - 0x2000) % vram.len() as int],
                    ..self
                },
                None,
            ),
            TileFetcherState::FetchPatternLow => (
                TileFetcher {
                    pattern_table_tile_low: M::read_value(
                        ms,
                        MapperSource::PPU,
                        pattern_address(pattern, self.nametable_byte, fine_y(v) as u8, false),
                    ),
                    ..self
                },
                None,
            ),
            TileFetcherState::FetchPatternHigh => {
                let high = M::read_value(
                    ms,
                    MapperSource::PPU,
                    pattern_address(pattern, self.nametable_byte, fine_y(v) as u8, true),
                );
                (
                    TileFetcher { pattern_table_tile_high: high, ..self },
                    Some(
                        tile_pixels(
                            self.pattern_table_tile_low,
                            high,
                            palette_number(self.attribute_table_byte, v),
                        ),
                    ),
                )
            },
        }
    }

    /// One cycle: the fetch on the second cycle of a state, then the move to the next state
    /// after two cycles.
    pub open spec fn spec_step<M: Mapper>(
        self,
        v: u16,
        pattern: u16,
        vram: Seq<u8>,
        ms: M::State,
    ) -> (TileFetcher, Option<Seq<u8>>) {
        let (t1, out) = if self.current_state_cycles == 1 {
            self.fetch::<M>(v, pattern, vram, ms)
        } else {
            (self, None)
        };
        let t2 = if t1.current_state_cycles + 1 >= 2 {
            TileFetcher { current_state_cycles: 0, current_state: next_state(t1.current_state), ..t1 }
        } else {
            TileFetcher { current_state_cycles: (t1.current_state_cycles + 1) as u8, ..t1 }
        };
        (t2, out)
    }

    /// The pattern reads that the next cycle makes are defined.
    pub open spec fn step_ok<M: Mapper>(self, v: u16, pattern: u16, ms: M::State) -> bool {
        self.current_state_cycles == 1 ==> match self.current_state {
            TileFetcherState::FetchPatternLow => M::read_defined(
                ms,
                MapperSource::PPU,
                pattern_address(pattern, self.nametable_byte, fine_y(v) as u8, false),
            ),
            TileFetcherState::FetchPatternHigh => M::read_defined(
                ms,
                MapperSource::PPU,
                pattern_address(pattern, self.nametable_byte, fine_y(v) as u8, true),
            ),
            _ => true,
        }
    }

    pub fn step<M: Mapper>(
        &mut self,
        reg_v: &PPURegV,
        pattern_table_addr: u16,
        vram: &[u8],
        mapper: &mut M,
    ) -> (r: Option<Vec<u8>>)
        requires
            vram@.len() > 0,
            old(self).current_state_cycles < 2,
            old(self).step_ok::<M>(reg_v.value, pattern_table_addr, old(mapper).state()),
        ensures
            final(mapper).state() == old(mapper).state(),
            final(self).current_state_cycles < 2,
            ({
                let (t, out) = old(self).spec_step::<M>(
                    reg_v.value,
                    pattern_table_addr,
                    vram@,
                    old(mapper).state(),
                );
                &&& *final(self) == t
                &&& match r {
                    Some(px) => out == Some(px@),
                    None => out is None,
                }
            }),
    {
        let mut ret: Option<Vec<u8>> = None;

        if self.current_state_cycles == 1 {
            let reg_value = reg_v.get_value();
            let fine_y = reg_v.get_fine_y();
            let coarse_x = reg_v.get_coarse_x();
            let coarse_y = reg_v.get_coarse_y();

            match self.current_state {
                TileFetcherState::FetchNametable => {
                    // Source: https://www.nesdev.org/wiki/PPU_scrolling#Tile_and_attribute_fetching
                    assert((0x2000 | (reg_value & 0x0FFF)) - 0x2000 == reg_value % 4096)
                        by (bit_vector);
                    let tile_addr = (0x2000 | (reg_value & 0x0FFF)) as usize;
                    let offset = (tile_addr - 0x2000) % vram.len();
                    self.nametable_byte = vram[offset];
                },
                TileFetcherState::FetchAttribute => {
                    // Source: https://www.nesdev.org/wiki/PPU_scrolling#Tile_and_attribute_fetching
                    // The low 12 bits of the attribute address are composed in the following way:
                    //  NN 1111 YYY XXX
                    //  || |||| ||| +++-- high 3 bits of coarse X (x/4)
                    //  || |||| +++------ high 3 bits of coarse Y (y/4)
                    //  || ++++---------- attribute offset (960 bytes)
                    //  ++--------------- nametable select
                    assert(0x23C0 | (reg_value & 0x0C00) | ((reg_value >> 4) & 0x38) | ((reg_value
                        >> 2) & 0x07) == 0x23C0 + ((reg_value / 1024) % 4) * 1024 + (((reg_value
                        / 32) % 32) / 4) * 8 + (reg_value % 32) / 4) by (bit_vector);
                    let attr_addr = (0x23C0 | (reg_value & 0x0C00) | ((reg_value >> 4) & 0x38) | (
                    (reg_value >> 2) & 0x07)) as usize;
                    let offset = (attr_addr - 0x2000) % vram.len();
                    self.attribute_table_byte = vram[offset];
                },
                TileFetcherState::FetchPatternLow => {
                    let tile_addr_low = pattern_table_addr | ((self.nametable_byte as u16) << 4)
                        | fine_y as u16;
                    self.pattern_table_tile_low = mapper.read_byte(MapperSource::PPU, tile_addr_low);
                },
                TileFetcherState::FetchPatternHigh => {
                    let tile_addr_high = pattern_table_addr | ((self.nametable_byte as u16) << 4)
                        | 0x08 | fine_y as u16;
                    self.pattern_table_tile_high = mapper.read_byte(
                        MapperSource::PPU,
                        tile_addr_high,
                    );
                    let shift = ((coarse_y & 0x02) << 1) | (coarse_x & 0x02);
                    let attribute = self.attribute_table_byte;
                    assert(((coarse_y & 0x02) << 1) | (coarse_x & 0x02) == 4 * ((coarse_y / 2) % 2)
                        + 2 * ((coarse_x / 2) % 2)) by (bit_vector);
                    assert(shift == 0 || shift == 2 || shift == 4 || shift == 6 ==> (attribute
                        >> shift) & 0x03 == (attribute / (if shift == 0 {
                        1u8
                    } else if shift == 2 {
                        4u8
                    } else if shift == 4 {
                        16u8
                    } else {
                        64u8
                    })) % 4) by (bit_vector);
                    let palette_num = (self.attribute_table_byte >> shift) & 0x03;

                    // Output 8 pixels for this tile
                    let low = self.pattern_table_tile_low;
                    let high = self.pattern_table_tile_high;
                    let mut pixels: Vec<u8> = Vec::new();
                    let mut bit_pos: u8 = 0;
                    while bit_pos < 8
                        invariant
                            bit_pos <= 8,
                            palette_num < 4,
                            pixels@ =~= Seq::new(
                                bit_pos as nat,
                                |j: int| pixel_value(low, high, palette_num, j),
                            ),
                        decreases 8 - bit_pos,
                    {
                        let color_idx = pixel_color_of(low, high, bit_pos);
                        let value = if color_idx == 0 {
                            0
                        } else {
                            palette_num * 4 + color_idx
                        };
                        pixels.push(value);
                        bit_pos += 1;
                    }
                    ret = Some(pixels);
                },
            }
        }
        self.current_state_cycles += 1;
        if self.current_state_cycles >= STATE_CYCLE_LENGTH {
            self.transition_state();
        }

        ret
    }

    fn transition_state(&mut self)
        ensures
            *final(self) == (TileFetcher {
                current_state_cycles: 0,
                current_state: next_state(old(self).current_state),
                ..*old(self)
            }),
    {
        self.current_state_cycles = 0;
        self.current_state = match self.current_state {
            TileFetcherState::FetchNametable => TileFetcherState::FetchAttribute,
            TileFetcherState::FetchAttribute => TileFetcherState::FetchPatternLow,
            TileFetcherState::FetchPatternLow => TileFetcherState::FetchPatternHigh,
            TileFetcherState::FetchPatternHigh => TileFetcherState::FetchNametable,
        };
    }
}

} // verus!
