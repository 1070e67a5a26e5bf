mod ppu_control;
mod ppu_mask;
mod ppu_reg_v;
mod tile_fetcher;

pub mod nametable;
pub mod pattern_table;
pub mod ppu_reg;

pub use ppu_control::{background_pattern_table, vram_increment, PPUControl};
pub use ppu_mask::{bit_of, lemma_bit_masks, PPUMask};
pub use ppu_reg_v::{
    coarse_x, coarse_y, fine_y, nametable_select, spec_inc_coarse_x, spec_inc_y, PPURegV,
};
pub use tile_fetcher::{fetch_phase, lemma_fetch_round, TileFetcher, TileFetcherState};

use crate::mapper::{Mapper, MapperSource};
use vstd::prelude::*;

verus! {

/// The PPU status register: the flags of its top three bits, each named by a constant that
/// holds its mask.
#[derive(Debug, Clone, Copy, PartialEq, Eq, Structural)]
pub struct PPUStatus {
    pub bits: u8,
}

impl PPUStatus {
    #[allow(non_upper_case_globals)]
    pub const SpriteOverflow: u8 = 0b00100000;

    #[allow(non_upper_case_globals)]
    pub const Sprite0Hit: u8 = 0b01000000;

    #[allow(non_upper_case_globals)]
    pub const VBlank: u8 = 0b10000000;

    /// Keeps only the bits of known flags.
    pub fn from_bits_truncate(bits: u8) -> (r: PPUStatus)
        ensures
            r.bits == bits & 0b11100000,
    {
        PPUStatus { bits: bits & 0b11100000 }
    }

    pub fn bits(&self) -> (r: u8)
        ensures
            r == self.bits,
    {
        self.bits
    }

    pub fn contains(&self, flags: u8) -> (r: bool)
        ensures
            r == (self.bits & flags == flags),
    {
        self.bits & flags == flags
    }

    pub fn insert(&mut self, flags: u8)
        ensures
            final(self).bits == old(self).bits | flags,
    {
        self.bits = self.bits | flags;
    }

    pub fn remove(&mut self, flags: u8)
        ensures
            final(self).bits == old(self).bits & !flags,
    {
        self.bits = self.bits & !flags;
    }
}

#[derive(Debug, Clone, Copy, PartialEq, Eq, Structural)]
pub enum ScanlineRendererState {
    PreRender,
    VisibleScanline,
    PostRender,
    Vblank,
}

pub const SCANLINE_CYCLE_DURATION: u32 = 341;

#[derive(Debug, Clone, Copy, PartialEq, Eq, Structural)]
pub enum WriteLocation {
    First,
    Second,
}

/// Selects which half of a two-write register (PPUSCROLL, PPUADDR) the next write sets.
#[derive(Debug)]
pub struct WriteLatch {
    pub location: WriteLocation,
}

/// The other half of a two-write register.
pub open spec fn other(l: WriteLocation) -> WriteLocation {
    match l {
        WriteLocation::First => WriteLocation::Second,
        WriteLocation::Second => WriteLocation::First,
    }
}

impl WriteLatch {
    pub fn toggle(&mut self)
        ensures
            final(self).location == other(old(self).location),
    {
        if self.location == WriteLocation::First {
            self.location = WriteLocation::Second
        } else {
            self.location = WriteLocation::First
        }
    }

    pub fn clear(&mut self)
        ensures
            final(self).location == WriteLocation::First,
    {
        self.location = WriteLocation::First
    }
}

impl Default for WriteLatch {
    fn default() -> (r: Self)
        ensures
            r.location == WriteLocation::First,
    {
        WriteLatch { location: WriteLocation::First }
    }
}

// Standard NES NTSC system palette (64 colors, RGB)
pub const SYSTEM_PALETTE: [(u8, u8, u8); 64] = [
    (84, 84, 84),
    (0, 30, 116),
    (8, 16, 144),
    (48, 0, 136),
    (68, 0, 100),
    (92, 0, 48),
    (84, 4, 0),
    (60, 24, 0),
    (32, 42, 0),
    (8, 58, 0),
    (0, 64, 0),
    (0, 60, 0),
    (0, 50, 60),
    (0, 0, 0),
    (0, 0, 0),
    (0, 0, 0),
    (152, 150, 152),
    (8, 76, 196),
    (48, 50, 236),
    (92, 30, 228),
    (136, 20, 176),
    (160, 20, 100),
    (152, 34, 32),
    (120, 60, 0),
    (84, 90, 0),
    (40, 114, 0),
    (8, 124, 0),
    (0, 118, 40),
    (0, 102, 120),
    (0, 0, 0),
    (0, 0, 0),
    (0, 0, 0),
    (236, 238, 236),
    (76, 154, 236),
    (120, 124, 236),
    (176, 98, 236),
    (228, 84, 236),
    (236, 88, 180),
    (236, 106, 100),
    (212, 136, 32),
    (160, 170, 0),
    (116, 196, 0),
    (76, 208, 32),
    (56, 204, 108),
    (56, 180, 204),
    (60, 60, 60),
    (0, 0, 0),
    (0, 0, 0),
    (236, 238, 236),
    (168, 204, 236),
    (188, 188, 236),
    (212, 178, 236),
    (236, 174, 236),
    (236, 174, 212),
    (236, 180, 176),
    (228, 196, 144),
    (204, 210, 120),
    (180, 222, 120),
    (168, 226, 144),
    (152, 226, 180),
    (160, 214, 228),
    (160, 162, 160),
    (0, 0, 0),
    (0, 0, 0),
];

/// The abstract state of the PPU: its registers and memories.
pub struct PPUState {
    pub write_latch: WriteLocation,
    pub ppu_mask: u8,
    pub ppu_control: u8,
    pub vram: Seq<u8>,
    pub vram_read_buffer: u8,
    pub oam: Seq<u8>,
    pub oam_address: u8,
    pub status: u8,
    pub scanline: u16,
    pub current_state_cycles: u32,
    pub frame_number: u32,
    pub frame: Seq<u8>,
    pub tile_fetcher: TileFetcher,
    pub reg_v: u16,
    pub reg_t: u16,
    pub fine_x: u8,
    pub palette: Seq<u8>,
}

pub struct PPU {
    pub write_latch: WriteLatch,
    pub ppu_mask: PPUMask,
    pub ppu_control: PPUControl,
    pub vram: Vec<u8>,
    pub vram_read_buffer: u8,
    pub oam: Vec<u8>,
    pub oam_address: u8,
    pub status: PPUStatus,
    pub scanline: u16,
    pub current_state_cycles: u32,
    pub frame_number: u32,
    pub frame: Vec<u8>,
    pub tile_fetcher: TileFetcher,
    pub reg_v: PPURegV,
    pub reg_t: u16,
    pub fine_x: u8,
    pub palette: Vec<u8>,
}

impl View for PPU {
    type V = PPUState;

    open spec fn view(&self) -> PPUState {
        PPUState {
            write_latch: self.write_latch.location,
            ppu_mask: self.ppu_mask.value,
            ppu_control: self.ppu_control.value,
            vram: self.vram@,
            vram_read_buffer: self.vram_read_buffer,
            oam: self.oam@,
            oam_address: self.oam_address,
            status: self.status.bits,
            scanline: self.scanline,
            current_state_cycles: self.current_state_cycles,
            frame_number: self.frame_number,
            frame: self.frame@,
            tile_fetcher: self.tile_fetcher,
            reg_v: self.reg_v.value,
            reg_t: self.reg_t,
            fine_x: self.fine_x,
            palette: self.palette@,
        }
    }
}

/// The size of the frame buffer: 240 rows of 256 pixels of three color bytes.
pub open spec fn frame_len() -> int {
    184320int
}

impl PPUState {
    /// The sizes of the memories, and the counters within their ranges.
    pub open spec fn wf(self) -> bool {
        &&& self.vram.len() == 2048
        &&& self.palette.len() == 64
        &&& self.oam.len() == 256
        &&& self.frame.len() == frame_len()
        &&& self.scanline <= 261
        &&& self.current_state_cycles < 341
        &&& self.tile_fetcher.current_state_cycles < 2
    }

    pub open spec fn rendering_enabled(self) -> bool {
        bit_of(self.ppu_mask, 3) || bit_of(self.ppu_mask, 4)
    }

    pub open spec fn renderer_state(self) -> ScanlineRendererState {
        if self.scanline == 261 {
            ScanlineRendererState::PreRender
        } else if self.scanline <= 239 {
            ScanlineRendererState::VisibleScanline
        } else if self.scanline == 240 {
            ScanlineRendererState::PostRender
        } else {
            ScanlineRendererState::Vblank
        }
    }

    /// A write to PPUADDR: the first write sets the high six bits of the address (bit 14 is
    /// cleared), the second the low byte, and then the address is copied to `v`.
    pub open spec fn after_address_write(self, value: u8) -> PPUState {
        let st = match self.write_latch {
            WriteLocation::First => PPUState {
                reg_t: ((self.reg_t as int % 256) + (value as int % 64) * 256) as u16,
                ..self
            },
            WriteLocation::Second => {
                let t = (self.reg_t as int - self.reg_t as int % 256 + value as int) as u16;
                PPUState { reg_t: t, reg_v: t, ..self }
            },
        };
        PPUState { write_latch: other(self.write_latch), ..st }
    }

    /// A write to PPUSCROLL: the first write sets fine X and coarse X, the second fine Y
    /// and coarse Y.
    pub open spec fn after_scroll_write(self, value: u8) -> PPUState {
        let t = self.reg_t as int;
        let st = match self.write_latch {
            WriteLocation::First => PPUState {
                fine_x: value % 8,
                reg_t: (t - t % 32 + value as int / 8) as u16,
                ..self
            },
            WriteLocation::Second => PPUState {
                reg_t: ((value as int % 8) * 4096 + (value as int / 8) * 32 + ((t / 1024) % 4) * 1024
                    + t % 32) as u16,
                ..self
            },
        };
        PPUState { write_latch: other(self.write_latch), ..st }
    }

    /// A write to PPUCTRL: the two nametable bits also go to bits 10 and 11 of `t`.
    pub open spec fn after_control_write(self, value: u8) -> PPUState {
        let t = self.reg_t as int;
        PPUState {
            ppu_control: value,
            reg_t: (t - ((t / 1024) % 4) * 1024 + (value as int % 4) * 1024) as u16,
            ..self
        }
    }

    /// `v` after an access through PPUDATA.
    pub open spec fn incremented_v(self) -> u16 {
        ((self.reg_v as int + vram_increment(self.ppu_control) as int) % 0x10000) as u16
    }
}

/// A read of the PPU's own address space: pattern tables from the cartridge, nametables
/// through the read buffer (the previous value comes back), palette directly.
pub open spec fn spec_read_ppu<M: Mapper>(st: PPUState, ms: M::State, addr: u16) -> (u8, PPUState) {
    let a = addr as int % 0x4000;
    if a < 0x2000 {
        (M::read_value(ms, MapperSource::PPU, addr), st)
    } else if a < 0x3F00 {
        (
            st.vram_read_buffer,
            PPUState { vram_read_buffer: st.vram[(addr - 0x2000) % st.vram.len() as int], ..st },
        )
    } else {
        (st.palette[(addr - 0x3F00) % st.palette.len() as int], st)
    }
}

pub open spec fn read_ppu_ok<M: Mapper>(ms: M::State, addr: u16) -> bool {
    addr as int % 0x4000 < 0x2000 ==> M::read_defined(ms, MapperSource::PPU, addr)
}

/// A write to the PPU's own address space.
pub open spec fn spec_write_ppu<M: Mapper>(st: PPUState, ms: M::State, addr: u16, value: u8) -> (
    PPUState,
    M::State,
) {
    if addr < 0x2000 {
        (st, M::after_write(ms, MapperSource::PPU, addr, value))
    } else if addr < 0x3F00 {
        (PPUState { vram: st.vram.update((addr - 0x2000) % st.vram.len() as int, value), ..st }, ms)
    } else if addr < 0x4000 {
        (
            PPUState {
                palette: st.palette.update((addr - 0x3F00) % st.palette.len() as int, value),
                ..st
            },
            ms,
        )
    } else {
        (st, ms)
    }
}

/// A CPU read of a PPU register.
pub open spec fn spec_read_register<M: Mapper>(st: PPUState, ms: M::State, addr: u16) -> (
    u8,
    PPUState,
) {
    if addr == ppu_reg::DATA {
        let (value, st1) = spec_read_ppu::<M>(st, ms, st.reg_v);
        (value, PPUState { reg_v: st.incremented_v(), ..st1 })
    } else if addr == ppu_reg::OAM_DATA {
        (st.oam[st.oam_address as int], st)
    } else if addr == ppu_reg::STATUS {
        (
            st.status,
            PPUState {
                status: st.status & !PPUStatus::VBlank,
                write_latch: WriteLocation::First,
                ..st
            },
        )
    } else {
        (0, st)
    }
}

pub open spec fn read_register_ok<M: Mapper>(st: PPUState, ms: M::State, addr: u16) -> bool {
    addr == ppu_reg::DATA ==> read_ppu_ok::<M>(ms, st.reg_v)
}

/// A CPU write to a PPU register.
pub open spec fn spec_write_register<M: Mapper>(
    st: PPUState,
    ms: M::State,
    addr: u16,
    value: u8,
) -> (PPUState, M::State) {
    if addr == ppu_reg::CONTROL {
        (st.after_control_write(value), ms)
    } else if addr == ppu_reg::MASK {
        (PPUState { ppu_mask: value, ..st }, ms)
    } else if addr == ppu_reg::ADDR {
        (st.after_address_write(value), ms)
    } else if addr == ppu_reg::DATA {
        let (st1, ms1) = spec_write_ppu::<M>(st, ms, st.reg_v, value);
        (PPUState { reg_v: st.incremented_v(), ..st1 }, ms1)
    } else if addr == ppu_reg::SCROLL {
        (st.after_scroll_write(value), ms)
    } else if addr == ppu_reg::OAM_ADDR {
        (PPUState { oam_address: value, ..st }, ms)
    } else if addr == ppu_reg::OAM_DATA {
        (
            PPUState {
                oam: st.oam.update(st.oam_address as int, value),
                oam_address: ((st.oam_address + 1) % 256) as u8,
                ..st
            },
            ms,
        )
    } else {
        (st, ms)
    }
}

/// `dst` with the bits of `mask` taken from `src`.
pub open spec fn copy_bits(dst: u16, src: u16, mask: u16) -> u16 {
    (src & mask) | (dst & !mask)
}

/// The RGB color of a pixel's palette index.
pub open spec fn pixel_rgb(palette: Seq<u8>, index: u8) -> (u8, u8, u8) {
    SYSTEM_PALETTE@[(palette[(index & 0x1F) as int] & 0x3F) as int]
}

/// The frame after the first `n` pixels of a tile row are drawn on row `y`: pixel `j` of
/// the row goes to column `x_start + j - fine_x`, when that column is on screen.
pub open spec fn drawn(
    frame: Seq<u8>,
    pixels: Seq<u8>,
    x_start: int,
    fine_x: int,
    y: int,
    palette: Seq<u8>,
    n: int,
) -> Seq<u8> {
    Seq::new(
        frame.len(),
        |k: int|
            {
                let j = (k / 3) % 256 + fine_x - x_start;
                if (k / 3) / 256 == y && 0 <= j < n {
                    let (r, g, b) = pixel_rgb(palette, pixels[j]);
                    if k % 3 == 0 {
                        r
                    } else if k % 3 == 1 {
                        g
                    } else {
                        b
                    }
                } else {
                    frame[k]
                }
            },
    )
}

/// A cycle of a visible scanline between dots 1 and 256: one step of the tile fetcher,
/// the pixels it completes drawn, then the moves to the next tile and the next row.
pub open spec fn visible_fetch<M: Mapper>(st: PPUState, ms: M::State) -> PPUState {
    let (tf, out) = st.tile_fetcher.spec_step::<M>(
        st.reg_v,
        background_pattern_table(st.ppu_control),
        st.vram,
        ms,
    );
    let st1 = PPUState { tile_fetcher: tf, ..st };
    let st2 = match out {
        Some(px) => {
            let f = drawn(
                st1.frame,
                px,
                coarse_x(st1.reg_v) * 8,
                st1.fine_x as int,
                st1.scanline as int,
                st1.palette,
                px.len() as int,
            );
            let st3 = PPUState { frame: f, ..st1 };
            if st.rendering_enabled() {
                PPUState { reg_v: spec_inc_coarse_x(st3.reg_v), ..st3 }
            } else {
                st3
            }
        },
        None => st1,
    };
    if st.current_state_cycles == 256 && st.rendering_enabled() {
        PPUState { reg_v: spec_inc_y(st2.reg_v), ..st2 }
    } else {
        st2
    }
}

/// What one PPU cycle does, by the part of the frame it is in, before the dot counter moves.
pub open spec fn cycle_work<M: Mapper>(st: PPUState, ms: M::State) -> PPUState {
    let c = st.current_state_cycles;
    match st.renderer_state() {
        ScanlineRendererState::PreRender => {
            let st1 = if c == 1 {
                PPUState { status: st.status & !PPUStatus::VBlank, ..st }
            } else {
                st
            };
            if st.rendering_enabled() {
                let st2 = if c == 257 {
                    PPUState { reg_v: copy_bits(st1.reg_v, st1.reg_t, 0x041F), ..st1 }
                } else {
                    st1
                };
                if 280 <= c <= 304 {
                    PPUState { reg_v: copy_bits(st2.reg_v, st2.reg_t, 0x7BE0), ..st2 }
                } else {
                    st2
                }
            } else {
                st1
            }
        },
        ScanlineRendererState::VisibleScanline => {
            let st1 = if 1 <= c <= 256 {
                visible_fetch::<M>(st, ms)
            } else {
                st
            };
            if c == 257 && st.rendering_enabled() {
                PPUState { reg_v: copy_bits(st1.reg_v, st1.reg_t, 0x041F), ..st1 }
            } else {
                st1
            }
        },
        ScanlineRendererState::PostRender => {
            if c == 0 {
                PPUState { frame_number: (st.frame_number + 1) as u32, ..st }
            } else {
                st
            }
        },
        ScanlineRendererState::Vblank => {
            if st.scanline == 241 && c == 1 {
                PPUState { status: st.status | PPUStatus::VBlank, ..st }
            } else {
                st
            }
        },
    }
}

/// One PPU cycle: the cycle's work, then the dot moves on; after dot 340 the next
/// scanline starts, and after scanline 261 the first.
pub open spec fn spec_ppu_step<M: Mapper>(st: PPUState, ms: M::State) -> PPUState {
    let st1 = cycle_work::<M>(st, ms);
    if st1.current_state_cycles + 1 == 341 {
        PPUState {
            current_state_cycles: 0,
            scanline: ((st1.scanline + 1) % 262) as u16,
            ..st1
        }
    } else {
        PPUState { current_state_cycles: (st1.current_state_cycles + 1) as u32, ..st1 }
    }
}

/// The cycle's pattern reads are defined, and the frame counter does not overflow.
pub open spec fn ppu_step_ok<M: Mapper>(st: PPUState, ms: M::State) -> bool {
    &&& (st.renderer_state() is VisibleScanline && 1 <= st.current_state_cycles <= 256)
        ==> st.tile_fetcher.step_ok::<M>(st.reg_v, background_pattern_table(st.ppu_control), ms)
    &&& (st.renderer_state() is PostRender && st.current_state_cycles == 0) ==> st.frame_number
        < u32::MAX
}

/// Each PPU step moves one dot on (dots 0 to 340 of scanlines 0 to 261); the frame counter
/// goes up by one exactly when the step starts at dot 0 of scanline 240; the vertical blank
/// flag is raised at dot 1 of scanline 241 and lowered at dot 1 of scanline 261, and is
/// otherwise left alone.
pub proof fn lemma_step_advances_one_dot<M: Mapper>(st: PPUState, ms: M::State)
    requires
        st.wf(),
        ppu_step_ok::<M>(st, ms),
    ensures
        ({
            let st2 = spec_ppu_step::<M>(st, ms);
            &&& st2.current_state_cycles == (st.current_state_cycles + 1) % 341
            &&& st2.scanline == if st.current_state_cycles == 340 {
                (st.scanline + 1) % 262
            } else {
                st.scanline as int
            }
            &&& st2.frame_number == if st.scanline == 240 && st.current_state_cycles == 0 {
                st.frame_number + 1
            } else {
                st.frame_number as int
            }
            &&& st2.status == if st.scanline == 241 && st.current_state_cycles == 1 {
                st.status | PPUStatus::VBlank
            } else if st.scanline == 261 && st.current_state_cycles == 1 {
                st.status & !PPUStatus::VBlank
            } else {
                st.status
            }
        }),
{
    let st1 = cycle_work::<M>(st, ms);
    assert(st1.current_state_cycles == st.current_state_cycles && st1.scanline == st.scanline);
}

/// Copying the bits of a mask from `src` to `dst`: the masked bits are those of `src`, the
/// others those of `dst`.
pub proof fn lemma_copy_bits(dst: u16, src: u16, mask: u16)
    ensures
        copy_bits(dst, src, mask) & mask == src & mask,
        copy_bits(dst, src, mask) & !mask == dst & !mask,
{
    assert(((src & mask) | (dst & !mask)) & mask == src & mask && ((src & mask) | (dst & !mask)) & !mask
        == dst & !mask) by (bit_vector);
}

/// With rendering on, at dot 257 of a visible scanline or of the pre-render scanline the
/// horizontal position (coarse X, bits 0-4, and the horizontal nametable, bit 10) is copied
/// from `t` to `v`, and on dots 280 to 304 of the pre-render scanline the vertical position
/// (coarse Y, bits 5-9, the vertical nametable, bit 11, and fine Y, bits 12-14); the other
/// bits of `v` are kept.
pub proof fn lemma_scroll_copies<M: Mapper>(st: PPUState, ms: M::State)
    requires
        st.wf(),
        st.rendering_enabled(),
    ensures
        ({
            let v2 = spec_ppu_step::<M>(st, ms).reg_v;
            let c = st.current_state_cycles;
            &&& (st.scanline <= 239 || st.scanline == 261) && c == 257 ==> v2 & 0x041F == st.reg_t
                & 0x041F && v2 & !0x041Fu16 == st.reg_v & !0x041Fu16
            &&& st.scanline == 261 && 280 <= c <= 304 ==> v2 & 0x7BE0 == st.reg_t & 0x7BE0 && v2
                & !0x7BE0u16 == st.reg_v & !0x7BE0u16
        }),
{
    lemma_copy_bits(st.reg_v, st.reg_t, 0x041F);
    lemma_copy_bits(st.reg_v, st.reg_t, 0x7BE0);
}

/// A register write changes the cartridge only by a PPU write at `v`.
pub proof fn lemma_mapper_after_register_write<M: Mapper>(
    st: PPUState,
    ms: M::State,
    addr: u16,
    value: u8,
)
    ensures
        spec_write_register::<M>(st, ms, addr, value).1 == ms || spec_write_register::<M>(
            st,
            ms,
            addr,
            value,
        ).1 == M::after_write(ms, MapperSource::PPU, st.reg_v, value),
{
}

/// Register reads and writes keep the PPU well formed.
pub proof fn lemma_register_access_keeps_wf<M: Mapper>(st: PPUState, ms: M::State, addr: u16, value: u8)
    requires
        st.wf(),
    ensures
        spec_read_register::<M>(st, ms, addr).1.wf(),
        spec_write_register::<M>(st, ms, addr, value).0.wf(),
{
}

/// Reading PPUSTATUS, then writing the high and the low byte of an address to PPUADDR, sets
/// `v` to that address (bit 14 cleared), and leaves the latch ready for a new pair.
pub proof fn lemma_address_after_status_read<M: Mapper>(st: PPUState, ms: M::State, high: u8, low: u8)
    ensures
        ({
            let (_, st1) = spec_read_register::<M>(st, ms, ppu_reg::STATUS);
            let (st2, ms2) = spec_write_register::<M>(st1, ms, ppu_reg::ADDR, high);
            let (st3, ms3) = spec_write_register::<M>(st2, ms2, ppu_reg::ADDR, low);
            &&& st3.reg_v == (high as int % 64) * 256 + low as int
            &&& st3.write_latch is First
            &&& ms3 == ms
        }),
{
}

/// A byte written to OAMDATA is what OAMDATA reads back once OAMADDR is set to the same
/// address again.
pub proof fn lemma_oam_read_after_write<M: Mapper>(st: PPUState, ms: M::State, addr: u8, value: u8)
    requires
        st.wf(),
    ensures
        ({
            let (st1, ms1) = spec_write_register::<M>(st, ms, ppu_reg::OAM_ADDR, addr);
            let (st2, ms2) = spec_write_register::<M>(st1, ms1, ppu_reg::OAM_DATA, value);
            let (st3, ms3) = spec_write_register::<M>(st2, ms2, ppu_reg::OAM_ADDR, addr);
            spec_read_register::<M>(st3, ms3, ppu_reg::OAM_DATA).0 == value
        }),
{
}

/// From a fresh latch, writing the high and then the low byte of an address to PPUADDR sets
/// `t` and `v` to that address (bit 14 cleared), leaves the latch fresh, and changes nothing
/// else.
pub proof fn lemma_address_pair<M: Mapper>(st: PPUState, ms: M::State, high: u8, low: u8)
    requires
        st.write_latch is First,
    ensures
        ({
            let (st1, ms1) = spec_write_register::<M>(st, ms, ppu_reg::ADDR, high);
            let (st2, ms2) = spec_write_register::<M>(st1, ms1, ppu_reg::ADDR, low);
            let a = ((high as int % 64) * 256 + low as int) as u16;
            &&& st2 == PPUState { reg_t: a, reg_v: a, ..st }
            &&& ms2 == ms
        }),
{
    let t = st.reg_t as int;
    let h = high as int % 64;
    let t1 = t % 256 + h * 256;
    assert(0 <= h < 64 && 0 <= t % 256 < 256);
    assert(t1 % 256 == t % 256) by (nonlinear_arith)
        requires
            t1 == t % 256 + h * 256,
            0 <= t % 256 < 256,
            0 <= h,
    ;
    assert(t1 - t1 % 256 == h * 256);
}

/// A byte written through PPUDATA to a nametable address is what PPUDATA gives back, after
/// the address is set again and the read buffer is filled by one read (while the address
/// that the first read moves on to is still a nametable address).
#[verifier::spinoff_prover]
#[verifier::rlimit(50)]
pub proof fn lemma_vram_read_after_write<M: Mapper>(
    st: PPUState,
    ms: M::State,
    high: u8,
    low: u8,
    value: u8,
)
    requires
        st.wf(),
        st.write_latch is First,
        0x20 <= high,
        high as int * 256 + low as int + vram_increment(st.ppu_control) < 0x3F00,
    ensures
        ({
            let (st1, ms1) = spec_write_register::<M>(st, ms, ppu_reg::ADDR, high);
            let (st2, ms2) = spec_write_register::<M>(st1, ms1, ppu_reg::ADDR, low);
            let (st3, ms3) = spec_write_register::<M>(st2, ms2, ppu_reg::DATA, value);
            let (st4, ms4) = spec_write_register::<M>(st3, ms3, ppu_reg::ADDR, high);
            let (st5, ms5) = spec_write_register::<M>(st4, ms4, ppu_reg::ADDR, low);
            let (_, st6) = spec_read_register::<M>(st5, ms5, ppu_reg::DATA);
            spec_read_register::<M>(st6, ms5, ppu_reg::DATA).0 == value
        }),
{
    let a = (high as int * 256 + low as int) as u16;
    let (st1, ms1) = spec_write_register::<M>(st, ms, ppu_reg::ADDR, high);
    let (st2, ms2) = spec_write_register::<M>(st1, ms1, ppu_reg::ADDR, low);
    let (st3, ms3) = spec_write_register::<M>(st2, ms2, ppu_reg::DATA, value);
    let (st4, ms4) = spec_write_register::<M>(st3, ms3, ppu_reg::ADDR, high);
    let (st5, ms5) = spec_write_register::<M>(st4, ms4, ppu_reg::ADDR, low);
    assert(st2.reg_v == a && ms2 == ms && st2.wf() && st2.write_latch is First
        && st2.ppu_control == st.ppu_control) by {
        lemma_address_pair::<M>(st, ms, high, low);
    }
    assert(st3.vram[(a - 0x2000) % 2048] == value && st3.write_latch is First && st3.wf()
        && st3.ppu_control == st.ppu_control) by {
        lemma_nametable_data_write::<M>(st2, ms2, value);
    }
    assert(st5.reg_v == a && st5.vram == st3.vram && st5.wf() && st5.ppu_control == st.ppu_control) by {
        lemma_address_pair::<M>(st3, ms3, high, low);
    }
    lemma_buffered_read::<M>(st5, ms5, value);
}

/// Two PPUDATA reads at a nametable address: the second gives the byte stored there.
proof fn lemma_buffered_read<M: Mapper>(st: PPUState, ms: M::State, value: u8)
    requires
        st.wf(),
        0x2000 <= st.reg_v,
        st.reg_v + vram_increment(st.ppu_control) < 0x3F00,
        st.vram[(st.reg_v - 0x2000) % 2048] == value,
    ensures
        ({
            let (_, st1) = spec_read_register::<M>(st, ms, ppu_reg::DATA);
            spec_read_register::<M>(st1, ms, ppu_reg::DATA).0 == value
        }),
{
    let n = st.incremented_v();
    assert(n as int == st.reg_v as int + vram_increment(st.ppu_control) as int);
    lemma_nametable_data_read::<M>(st, ms);
    let (_, st1) = spec_read_register::<M>(st, ms, ppu_reg::DATA);
    assert(st1.vram_read_buffer == value);
    assert(st1.reg_v == n);
    lemma_data_read_value::<M>(st1, ms);
}

/// A PPUDATA write at a nametable address.
proof fn lemma_nametable_data_write<M: Mapper>(st: PPUState, ms: M::State, value: u8)
    requires
        st.wf(),
        0x2000 <= st.reg_v < 0x3F00,
    ensures
        spec_write_register::<M>(st, ms, ppu_reg::DATA, value) == (PPUState {
            vram: st.vram.update((st.reg_v - 0x2000) % 2048, value),
            reg_v: st.incremented_v(),
            ..st
        }, ms),
{
}

/// A PPUDATA read at a nametable address.
proof fn lemma_nametable_data_read<M: Mapper>(st: PPUState, ms: M::State)
    requires
        st.wf(),
        0x2000 <= st.reg_v < 0x3F00,
    ensures
        spec_read_register::<M>(st, ms, ppu_reg::DATA) == (st.vram_read_buffer, PPUState {
            vram_read_buffer: st.vram[(st.reg_v - 0x2000) % 2048],
            reg_v: st.incremented_v(),
            ..st
        }),
{
}

/// A PPUDATA read returns the read buffer, wherever `v` points but the palette.
proof fn lemma_data_read_value<M: Mapper>(st: PPUState, ms: M::State)
    requires
        0x2000 <= st.reg_v as int % 0x4000 < 0x3F00,
    ensures
        spec_read_register::<M>(st, ms, ppu_reg::DATA).0 == st.vram_read_buffer,
{
}

impl PPU {
    pub const IMG_HEIGHT: usize = 240;

    pub const IMG_WIDTH: usize = 256;

    pub const IMG_BPP: usize = 3;

    pub fn update_vram_address(&mut self, value: u8)
        ensures
            final(self)@ == old(self)@.after_address_write(value),
    {
        let t = self.reg_t;
        match self.write_latch.location {
            WriteLocation::First => {
                // t: .CDEFGH ........ <- d: ..CDEFGH
                // t: Z...... ........ <- 0 (bit Z is cleared)
                assert((t & 0x00FF) | ((value as u16 & 0x3F) << 8u16) == t % 256 + (value % 64)
                    * 256) by (bit_vector);
                self.reg_t = (self.reg_t & 0x00FF) | (value as u16 & 0x3F) << 8;
            },
            WriteLocation::Second => {
                // t: ....... ABCDEFGH <- d: ABCDEFGH
                // v: <...all bits...> <- t: <...all bits...>
                assert((t & 0xFF00) | (value as u16) == t - t % 256 + value) by (bit_vector);
                self.reg_t = (self.reg_t & 0xFF00) | (value as u16);
                self.reg_v.set_value(self.reg_t);
            },
        }
        self.write_latch.toggle();
    }

    pub fn is_rendering_enabled(&self) -> (r: bool)
        ensures
            r == self@.rendering_enabled(),
    {
        self.ppu_mask.is_background_rendering_enabled() || self.ppu_mask.is_sprite_rendering_enabled()
    }

    pub fn update_scroll(&mut self, value: u8)
        ensures
            final(self)@ == old(self)@.after_scroll_write(value),
    {
        let t = self.reg_t;
        match self.write_latch.location {
            WriteLocation::First => {
                assert(value & 0x07 == value % 8) by (bit_vector);
                assert((t & 0xFFE0) | (value as u16 >> 3u16) == t - t % 32 + value / 8)
                    by (bit_vector);
                self.fine_x = value & 0x07;
                // Copy the 5 upper bits of the value to the last 5 bits of t
                // t: ....... ...ABCDE <- d: ABCDE...
                self.reg_t = (self.reg_t & 0xFFE0) | (value as u16 >> 3);
            },
            WriteLocation::Second => {
                // t: FGH..AB CDE..... <- d: ABCDEFGH
                let value16 = value as u16;
                assert(value16 < 256 ==> ((value16 & 0x07) << 12u16) | ((value16 & 0xF8) << 2u16) | (t
                    & 0x0C1F) == (value16 % 8) * 4096 + (value16 / 8) * 32 + ((t / 1024) % 4) * 1024
                    + t % 32) by (bit_vector);
                self.reg_t = ((value16 & 0x07) << 12) | ((value16 & 0xF8) << 2) | (self.reg_t
                    & 0x0C1F);
            },
        }
        self.write_latch.toggle();
    }
}

impl Default for PPU {
    fn default() -> (r: Self)
        ensures
            r@.wf(),
            r@ == PPU::initial(),
    {
        assert(0u8 & 0b11100000u8 == 0) by (bit_vector);
        let ppu = PPU {
            write_latch: WriteLatch::default(),
            vram: vec![0u8; 2048],
            palette: vec![0u8; 64],
            vram_read_buffer: 0,
            ppu_mask: PPUMask::default(),
            ppu_control: PPUControl::default(),
            oam: vec![0u8; 256],
            oam_address: 0,
            status: PPUStatus::from_bits_truncate(0),
            scanline: 261,
            frame_number: 0,
            current_state_cycles: 0,
            frame: vec![0u8; PPU::IMG_HEIGHT * PPU::IMG_WIDTH * PPU::IMG_BPP],
            tile_fetcher: TileFetcher::default(),
            reg_v: PPURegV::default(),
            reg_t: 0,
            fine_x: 0,
        };
        assert(ppu.vram@ =~= Seq::new(2048, |i: int| 0u8));
        assert(ppu.oam@ =~= Seq::new(256, |i: int| 0u8));
        assert(ppu.palette@ =~= Seq::new(64, |i: int| 0u8));
        assert(ppu.frame@ =~= Seq::new(frame_len() as nat, |i: int| 0u8));
        ppu
    }
}

impl PPU {
    /// The power-up state: memories cleared, rendering off, on the pre-render scanline.
    pub open spec fn initial() -> PPUState {
        PPUState {
            write_latch: WriteLocation::First,
            ppu_mask: 0,
            ppu_control: 0,
            vram: Seq::new(2048, |i: int| 0u8),
            vram_read_buffer: 0,
            oam: Seq::new(256, |i: int| 0u8),
            oam_address: 0,
            status: 0,
            scanline: 261,
            current_state_cycles: 0,
            frame_number: 0,
            frame: Seq::new(frame_len() as nat, |i: int| 0u8),
            tile_fetcher: TileFetcher::initial(),
            reg_v: 0,
            reg_t: 0,
            fine_x: 0,
            palette: Seq::new(64, |i: int| 0u8),
        }
    }
}

impl PPU {
    pub fn read_byte_ppu<M: Mapper>(&mut self, mapper: &mut M, addr: u16) -> (r: u8)
        requires
            old(self)@.wf(),
            read_ppu_ok::<M>(old(mapper).state(), addr),
        ensures
            (r, final(self)@) == spec_read_ppu::<M>(old(self)@, old(mapper).state(), addr),
            final(mapper).state() == old(mapper).state(),
    {
        assert(addr & 0x3FFF == addr % 0x4000) by (bit_vector);
        let a = addr & 0x3FFF;
        if a <= 0x1FFF {
            mapper.read_byte(MapperSource::PPU, addr)
        } else if a <= 0x3EFF {
            let value = self.vram_read_buffer;
            let offset = (addr - 0x2000) as usize % self.vram.len();
            self.vram_read_buffer = self.vram[offset];
            value
        } else {
            let offset = (addr - 0x3F00) as usize % self.palette.len();
            self.palette[offset]
        }
    }

    pub fn write_byte_ppu<M: Mapper>(&mut self, mapper: &mut M, addr: u16, value: u8)
        requires
            old(self)@.wf(),
        ensures
            (final(self)@, final(mapper).state()) == spec_write_ppu::<M>(
                old(self)@,
                old(mapper).state(),
                addr,
                value,
            ),
    {
        if addr <= 0x1FFF {
            mapper.write_byte(MapperSource::PPU, addr, value);
        } else if addr <= 0x3EFF {
            let offset = (addr - 0x2000) as usize % self.vram.len();
            self.vram.set(offset, value);
        } else if addr <= 0x3FFF {
            let offset = (addr - 0x3F00) as usize % self.palette.len();
            self.palette.set(offset, value);
        }
    }

    /// A CPU read of the PPU register at `addr`.
    pub fn read_byte<M: Mapper>(&mut self, mapper: &mut M, addr: u16) -> (r: u8)
        requires
            old(self)@.wf(),
            read_register_ok::<M>(old(self)@, old(mapper).state(), addr),
        ensures
            (r, final(self)@) == spec_read_register::<M>(old(self)@, old(mapper).state(), addr),
            final(mapper).state() == old(mapper).state(),
            final(self)@.wf(),
    {
        if addr == ppu_reg::DATA {
            let value = self.read_byte_ppu(mapper, self.reg_v.get_value());
            let next = self.reg_v.get_value().wrapping_add(self.ppu_control.get_vram_address_increment());
            self.reg_v.set_value(next);
            value
        } else if addr == ppu_reg::OAM_DATA {
            self.oam[self.oam_address as usize]
        } else if addr == ppu_reg::STATUS {
            let value = self.status.bits();
            self.status.remove(PPUStatus::VBlank);
            self.write_latch.clear();
            value
        } else {
            0
        }
    }

    /// A CPU write of `value` to the PPU register at `addr`.
    pub fn write_byte<M: Mapper>(&mut self, mapper: &mut M, addr: u16, value: u8)
        requires
            old(self)@.wf(),
        ensures
            (final(self)@, final(mapper).state()) == spec_write_register::<M>(
                old(self)@,
                old(mapper).state(),
                addr,
                value,
            ),
            final(self)@.wf(),
    {
        if addr == ppu_reg::CONTROL {
            self.ppu_control.update(value);
            // Copy the last two bits of the value to the 11/12th bits of reg_t
            let t = self.reg_t;
            assert((t & 0xF3FF) | ((value as u16 & 0x03) << 10u16) == t - ((t / 1024) % 4) * 1024
                + (value % 4) * 1024) by (bit_vector);
            self.reg_t = (self.reg_t & 0xF3FF) | ((value as u16 & 0x03) << 10);
        } else if addr == ppu_reg::MASK {
            self.ppu_mask.update(value);
        } else if addr == ppu_reg::ADDR {
            self.update_vram_address(value);
        } else if addr == ppu_reg::DATA {
            self.write_byte_ppu(mapper, self.reg_v.get_value(), value);
            let next = self.reg_v.get_value().wrapping_add(self.ppu_control.get_vram_address_increment());
            self.reg_v.set_value(next);
        } else if addr == ppu_reg::SCROLL {
            self.update_scroll(value);
        } else if addr == ppu_reg::OAM_ADDR {
            self.oam_address = value;
        } else if addr == ppu_reg::OAM_DATA {
            self.oam.set(self.oam_address as usize, value);
            self.oam_address = self.oam_address.wrapping_add(1);
        }
    }

    pub fn get_state(&self) -> (r: ScanlineRendererState)
        requires
            self.scanline <= 261,
        ensures
            r == self@.renderer_state(),
    {
        match self.scanline {
            261 => ScanlineRendererState::PreRender,
            0..=239 => ScanlineRendererState::VisibleScanline,
            240 => ScanlineRendererState::PostRender,
            _ => ScanlineRendererState::Vblank,
        }
    }

    pub fn is_new_frame_ready(&self) -> (r: bool)
        requires
            self.scanline <= 261,
        ensures
            r == (self@.renderer_state() is PostRender && self.current_state_cycles == 0),
    {
        return self.get_state() == ScanlineRendererState::PostRender && self.current_state_cycles
            == 0;
    }
}

impl PPU {
    /// Draws a tile row of pixels on the current scanline, shifted left by fine X; pixels
    /// that land off screen are dropped.
    fn draw_pixels(&mut self, pixels: &Vec<u8>)
        requires
            old(self)@.wf(),
            old(self).scanline <= 239,
            pixels@.len() == 8,
        ensures
            final(self)@ == (PPUState {
                frame: drawn(
                    old(self)@.frame,
                    pixels@,
                    coarse_x(old(self).reg_v.value) * 8,
                    old(self).fine_x as int,
                    old(self).scanline as int,
                    old(self)@.palette,
                    8,
                ),
                ..old(self)@
            }),
    {
        let x_start = self.reg_v.get_coarse_x() as usize * 8;
        let y = self.scanline as usize;
        let ghost old_frame = self.frame@;
        let ghost old_st = self@;
        let ghost fx = self.fine_x as int;
        assert(drawn(old_frame, pixels@, x_start as int, fx, y as int, old_st.palette, 0) =~= old_frame);
        let mut i: usize = 0;
        while i < pixels.len()
            invariant
                0 <= i <= 8,
                pixels@.len() == 8,
                x_start == coarse_x(self.reg_v.value) * 8,
                x_start <= 248,
                y == self.scanline,
                y <= 239,
                fx == self.fine_x,
                self@ == (PPUState {
                    frame: drawn(old_frame, pixels@, x_start as int, fx, y as int, old_st.palette, i as int),
                    ..old_st
                }),
                old_frame.len() == frame_len(),
                old_st.palette.len() == 64,
            decreases 8 - i,
        {
            let palette_idx = pixels[i];
            // Subtract fine_x to shift the viewport right by fine_x pixels.
            // wrapping_sub produces a value >= IMG_WIDTH for pixels that would
            // land before x=0, which the bounds check discards.
            let x = (x_start + i).wrapping_sub(self.fine_x as usize);
            let ghost before = self.frame@;
            if x < PPU::IMG_WIDTH {
                assert(palette_idx & 0x1F < 32) by (bit_vector);
                let entry = self.palette[(palette_idx & 0x1F) as usize];
                assert(entry & 0x3F < 64) by (bit_vector);
                let system_color_idx = (self.palette[(palette_idx & 0x1F) as usize] & 0x3F) as usize;
                let (r, g, b) = SYSTEM_PALETTE[system_color_idx];
                let frame_offset = (y * PPU::IMG_WIDTH + x) * PPU::IMG_BPP;
                self.frame.set(frame_offset, r);
                self.frame.set(frame_offset + 1, g);
                self.frame.set(frame_offset + 2, b);
                assert forall|k: int| 0 <= k < old_frame.len() implies self.frame@[k] == drawn(
                    old_frame,
                    pixels@,
                    x_start as int,
                    fx,
                    y as int,
                    old_st.palette,
                    i + 1,
                )[k] by {
                    let pix = k / 3;
                    if frame_offset <= k < frame_offset + 3 {
                        assert(k / 3 == y * 256 + x);
                        assert((k / 3) % 256 == x);
                        assert((k / 3) / 256 == y);
                    } else {
                        assert((k / 3) / 256 == y && (k / 3) % 256 == x ==> frame_offset <= k
                            < frame_offset + 3);
                    }
                }
            } else {
                assert forall|k: int| 0 <= k < old_frame.len() implies self.frame@[k] == drawn(
                    old_frame,
                    pixels@,
                    x_start as int,
                    fx,
                    y as int,
                    old_st.palette,
                    i + 1,
                )[k] by {
                    let j = (k / 3) % 256 + fx - x_start;
                    assert(j != i);
                }
            }
            assert(self.frame@ =~= drawn(old_frame, pixels@, x_start as int, fx, y as int, old_st.palette, i + 1));
            i += 1;
        }
    }

    pub fn step<M: Mapper>(&mut self, mapper: &mut M)
        requires
            old(self)@.wf(),
            ppu_step_ok::<M>(old(self)@, old(mapper).state()),
        ensures
            final(self)@ == spec_ppu_step::<M>(old(self)@, old(mapper).state()),
            final(self)@.wf(),
            final(mapper).state() == old(mapper).state(),
    {
        match self.get_state() {
            ScanlineRendererState::PreRender => {
                if self.current_state_cycles == 1 {
                    self.status.remove(PPUStatus::VBlank);
                }
                if self.is_rendering_enabled() {
                    // v: ....A.. ...BCDEF <- t: ....A.. ...BCDEF
                    if self.current_state_cycles == 257 {
                        self.reg_v.set_value(
                            (self.reg_t & 0x041F) | (self.reg_v.get_value() & !0x041F),
                        );
                    }
                    if self.current_state_cycles >= 280 && self.current_state_cycles <= 304 {
                        // At the end of vblank, shortly after the horizontal bits are copied from t to v at dot 257,
                        // the PPU will repeatedly copy the vertical bits from t to v from dots 280 to 304, completing the full initialization of v from t:
                        // v: GHIA.BC DEF..... <- t: GHIA.BC DEF.....
                        self.reg_v.set_value(
                            (self.reg_t & 0x7BE0) | (self.reg_v.get_value() & !0x7BE0),
                        );
                    }
                }
            },
            ScanlineRendererState::VisibleScanline => {
                if self.current_state_cycles >= 1 && self.current_state_cycles <= 256 {
                    let pattern_base = self.ppu_control.get_background_pattern_table_address();
                    let pixels = self.tile_fetcher.step(
                        &self.reg_v,
                        pattern_base,
                        self.vram.as_slice(),
                        mapper,
                    );
                    if let Some(pixels) = pixels {
                        self.draw_pixels(&pixels);
                        if self.is_rendering_enabled() {
                            self.reg_v.inc_coarse_x();
                        }
                    }
                    if self.current_state_cycles == 256 && self.is_rendering_enabled() {
                        self.reg_v.inc_y();
                    }
                }
                if self.current_state_cycles == 257 && self.is_rendering_enabled() {
                    // The PPU copies all bits related to horizontal position from t to v:
                    // v: ....A.. ...BCDEF <- t: ....A.. ...BCDEF
                    self.reg_v.set_value((self.reg_t & 0x041F) | (self.reg_v.get_value() & !0x041F));
                }
            },
            ScanlineRendererState::PostRender => {
                if self.current_state_cycles == 0 {
                    self.frame_number += 1;
                }
            },
            ScanlineRendererState::Vblank => {
                if self.scanline == 241 && self.current_state_cycles == 1 {
                    self.status.insert(PPUStatus::VBlank);
                }
            },
        }

        self.current_state_cycles += 1;
        if self.current_state_cycles == SCANLINE_CYCLE_DURATION {
            self.current_state_cycles = 0;
            self.scanline = (self.scanline + 1) % 262;
        }
    }
}

} // verus!
