use vstd::prelude::*;

verus! {

/// The coarse X scroll: bits 0 to 4.
pub open spec fn coarse_x(v: u16) -> int {
    v as int % 32
}

/// The coarse Y scroll: bits 5 to 9.
pub open spec fn coarse_y(v: u16) -> int {
    (v as int / 32) % 32
}

/// The nametable select: bits 10 and 11.
pub open spec fn nametable_select(v: u16) -> int {
    (v as int / 1024) % 4
}

/// The fine Y scroll: bits 12 to 14.
pub open spec fn fine_y(v: u16) -> int {
    (v as int / 4096) % 8
}

/// `v` with the single bit of value `m` flipped.
pub open spec fn toggle(v: int, m: int) -> int {
    if (v / m) % 2 == 1 {
        v - m
    } else {
        v + m
    }
}

/// `v` with its coarse Y field replaced by `y`.
pub open spec fn with_coarse_y(v: int, y: int) -> int {
    v - ((v / 32) % 32) * 32 + y * 32
}

/// Moving to the next tile: coarse X wraps from 31 to 0 and then switches the horizontal
/// nametable.
pub open spec fn spec_inc_coarse_x(v: u16) -> u16 {
    if coarse_x(v) == 31 {
        toggle(v - 31, 0x0400) as u16
    } else {
        (v + 1) as u16
    }
}

/// Moving to the next pixel row: fine Y counts 0 to 7, then coarse Y moves on. Coarse Y
/// wraps from 29 (the last row of a nametable) to 0 and switches the vertical nametable;
/// from 31 it wraps to 0 without the switch.
pub open spec fn spec_inc_y(v: u16) -> u16 {
    if fine_y(v) < 7 {
        (v + 0x1000) as u16
    } else {
        let base = v - 0x7000;
        if coarse_y(v) == 29 {
            with_coarse_y(toggle(base, 0x0800), 0) as u16
        } else if coarse_y(v) == 31 {
            with_coarse_y(base, 0) as u16
        } else {
            with_coarse_y(base, coarse_y(v) + 1) as u16
        }
    }
}

#[derive(Debug, Clone, Copy, PartialEq, Eq, Structural)]
pub struct PPURegV {
    // Source: https://www.nesdev.org/wiki/PPU_scrolling#PPU_internal_registers
    // yyy NN YYYYY XXXXX
    // ||| || ||||| +++++-- coarse X scroll
    // ||| || +++++-------- coarse Y scroll
    // ||| ++-------------- nametable select
    // +++----------------- fine Y scroll
    pub value: u16,
}

impl Default for PPURegV {
    fn default() -> (r: Self)
        ensures
            r.value == 0,
    {
        PPURegV { value: 0 }
    }
}

impl PPURegV {
    pub fn get_coarse_x(&self) -> (r: u8)
        ensures
            r == coarse_x(self.value),
    {
        let v = self.value;
        assert(v & 0x1F == v % 32) by (bit_vector);
        (self.value & 0x1F) as u8
    }

    pub fn get_coarse_y(&self) -> (r: u8)
        ensures
            r == coarse_y(self.value),
    {
        let v = self.value;
        assert((v >> 5) & 0x1F == (v / 32) % 32) by (bit_vector);
        ((self.value >> 5) & 0x1F) as u8
    }

    pub fn get_fine_y(&self) -> (r: u8)
        ensures
            r == fine_y(self.value),
    {
        let v = self.value;
        assert((v >> 12) & 0x07 == (v / 4096) % 8) by (bit_vector);
        ((self.value >> 12) & 0x07) as u8
    }

    pub fn inc_coarse_x(&mut self)
        ensures
            final(self).value == spec_inc_coarse_x(old(self).value),
    {
        let v = self.value;
        if self.get_coarse_x() == 31 {
            assert(v % 32 == 31 ==> (v & !0x001Fu16) ^ 0x0400u16 == if (v - 31) / 0x0400 % 2 == 1 {
                (v - 31 - 0x0400) as u16
            } else {
                (v - 31 + 0x0400) as u16
            }) by (bit_vector);
            self.value &= !0x001F;  // Set coarse X to 0
            self.value ^= 0x0400;  // switch horizontal nametable
        } else {
            self.value = self.value.wrapping_add(1);
        }
    }

    pub fn inc_y(&mut self)
        ensures
            final(self).value == spec_inc_y(old(self).value),
    {
        let v = self.value;
        // if fine Y < 7
        if (self.value & 0x7000) != 0x7000 {
            assert((v & 0x7000) != 0x7000 ==> v + 0x1000 <= 0xFFFF) by (bit_vector);
            self.value += 0x1000;  // increment fine Y
            let r = self.value;
            assert(r == spec_inc_y(v)) by (bit_vector)
                requires
                    (v & 0x7000) != 0x7000,
                    r == v + 0x1000,
            ;
        } else {
            self.value &= !0x7000;  // fine Y = 0
            let w = self.value;
            let mut y = self.get_coarse_y();  // let y = coarse Y
            let y0 = y;
            // Row 29 is the last row of tiles in a nametable.
            // To wrap to the next nametable when incrementing coarse Y from 29, the vertical nametable is switched by toggling bit 11, and coarse Y wraps to row 0.
            if y == 29 {
                y = 0;  // coarse Y = 0
                self.value ^= 0x0800;  // switch vertical nametable
            }
            // Coarse Y can be set out of bounds (> 29), which will cause the PPU to read the attribute data stored there as tile data.
            // If coarse Y is incremented from 31, it will wrap to 0, but the nametable will not switch.
             else if y == 31 {
                y = 0;  // coarse Y = 0, nametable not switched
            } else {
                y += 1;  // increment coarse Y
            }
            let u = self.value;
            self.value = (self.value & !0x03E0) | ((y as u16) << 5);  // put coarse Y back into v
            let r = self.value;
            assert(r == spec_inc_y(v)) by (bit_vector)
                requires
                    (v & 0x7000) == 0x7000,
                    w == v & !0x7000u16,
                    y0 as int == (w as int / 32) % 32,
                    y0 == 29 ==> (u == w ^ 0x0800u16 && y == 0),
                    y0 == 31 ==> (u == w && y == 0),
                    (y0 != 29 && y0 != 31) ==> (u == w && y as int == y0 as int + 1),
                    r == (u & !0x03E0u16) | ((y as u16) << 5u16),
            ;
        }
    }

    pub fn get_value(&self) -> (r: u16)
        ensures
            r == self.value,
    {
        self.value
    }

    pub fn set_value(&mut self, value: u16)
        ensures
            final(self).value == value,
    {
        self.value = value;
    }
}

} // verus!
