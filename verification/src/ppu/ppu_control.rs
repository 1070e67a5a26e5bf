use crate::ppu::ppu_mask::{bit_of, lemma_bit_masks};
use vstd::prelude::*;

verus! {

#[derive(Debug, Clone, Copy, PartialEq, Eq, Structural)]
pub struct PPUControl {
    // 7  bit  0
    // ---- ----
    // VPHB SINN
    // |||| ||||
    // |||| ||++- Base nametable address (0 = $2000; 1 = $2400; 2 = $2800; 3 = $2C00)
    // |||| |+--- VRAM address increment per CPU read/write of PPUDATA (0: add 1, going across; 1: add 32, going down)
    // |||| +---- Sprite pattern table address for 8x8 sprites (0: $0000; 1: $1000)
    // |||+------ Background pattern table address (0: $0000; 1: $1000)
    // ||+------- Sprite size (0: 8x8 pixels; 1: 8x16 pixels)
    // |+-------- PPU master/slave select
    // +--------- Vblank NMI enable (0: off, 1: on)
    pub value: u8,
}

/// How far the VRAM address moves after each access through PPUDATA.
pub open spec fn vram_increment(control: u8) -> u16 {
    if bit_of(control, 2) {
        32
    } else {
        1
    }
}

/// Where the background tiles' patterns are.
pub open spec fn background_pattern_table(control: u8) -> u16 {
    if bit_of(control, 4) {
        0x1000
    } else {
        0x0000
    }
}

impl PPUControl {
    pub fn update(&mut self, value: u8)
        ensures
            final(self).value == value,
    {
        self.value = value;
    }

    pub fn get_vram_address_increment(&self) -> (r: u16)
        ensures
            r == vram_increment(self.value),
    {
        let value = self.value;
        proof {
            lemma_bit_masks(value);
        }
        if self.value & 0x04 > 0 {
            32
        } else {
            1
        }
    }

    pub fn get_background_pattern_table_address(&self) -> (r: u16)
        ensures
            r == background_pattern_table(self.value),
    {
        let value = self.value;
        proof {
            lemma_bit_masks(value);
        }
        if self.value & 0x10 > 0 {
            0x1000
        } else {
            0x0000
        }
    }

    pub fn is_vblank_nmi_enabled(&self) -> (r: bool)
        ensures
            r == bit_of(self.value, 7),
    {
        let value = self.value;
        proof {
            lemma_bit_masks(value);
        }
        self.value & 0x80 > 0
    }
}

impl Default for PPUControl {
    fn default() -> (r: Self)
        ensures
            r.value == 0,
    {
        PPUControl { value: 0 }
    }
}

} // verus!
