use vstd::prelude::*;

verus! {

/// Whether bit `n` (bit 0 being the least significant) of `value` is set.
pub open spec fn bit_of(value: u8, n: u8) -> bool {
    (value >> n) & 1 == 1
}

/// Testing a bit of a byte with its mask tells whether the bit is set.
pub proof fn lemma_bit_masks(value: u8)
    ensures
        (value & 0x01 > 0) == bit_of(value, 0),
        (value & 0x02 > 0) == bit_of(value, 1),
        (value & 0x04 > 0) == bit_of(value, 2),
        (value & 0x08 > 0) == bit_of(value, 3),
        (value & 0x10 > 0) == bit_of(value, 4),
        (value & 0x20 > 0) == bit_of(value, 5),
        (value & 0x40 > 0) == bit_of(value, 6),
        (value & 0x80 > 0) == bit_of(value, 7),
{
    assert((value & 0x01 > 0) == bit_of(value, 0) && (value & 0x02 > 0) == bit_of(value, 1) && (value
        & 0x04 > 0) == bit_of(value, 2) && (value & 0x08 > 0) == bit_of(value, 3) && (value & 0x10 > 0)
        == bit_of(value, 4) && (value & 0x20 > 0) == bit_of(value, 5) && (value & 0x40 > 0) == bit_of(
        value,
        6,
    ) && (value & 0x80 > 0) == bit_of(value, 7)) by (bit_vector);
}

#[derive(Debug, Clone, Copy, PartialEq, Eq, Structural)]
pub struct PPUMask {
    // 7  bit  0
    // ---- ----
    // BGRs bMmG
    // |||| ||||
    // |||| |||+- Greyscale (0: normal color, 1: greyscale)
    // |||| ||+-- 1: Show background in leftmost 8 pixels of screen, 0: Hide
    // |||| |+--- 1: Show sprites in leftmost 8 pixels of screen, 0: Hide
    // |||| +---- 1: Enable background rendering
    // |||+------ 1: Enable sprite rendering
    // ||+------- Emphasize red (green on PAL/Dendy)
    // |+-------- Emphasize green (red on PAL/Dendy)
    // +--------- Emphasize blue
    pub value: u8,
}

impl PPUMask {
    pub fn is_greyscale(&self) -> (r: bool)
        ensures
            r == bit_of(self.value, 0),
    {
        let value = self.value;
        proof {
            lemma_bit_masks(value);
        }
        self.value & 0x01 > 0
    }

    pub fn show_background_in_leftmost_8_pixels(&self) -> (r: bool)
        ensures
            r == bit_of(self.value, 1),
    {
        let value = self.value;
        proof {
            lemma_bit_masks(value);
        }
        self.value & 0x02 > 0
    }

    pub fn show_sprites_in_leftmost_8_pixels(&self) -> (r: bool)
        ensures
            r == bit_of(self.value, 2),
    {
        let value = self.value;
        proof {
            lemma_bit_masks(value);
        }
        self.value & 0x04 > 0
    }

    pub fn is_background_rendering_enabled(&self) -> (r: bool)
        ensures
            r == bit_of(self.value, 3),
    {
        let value = self.value;
        proof {
            lemma_bit_masks(value);
        }
        self.value & 0x08 > 0
    }

    pub fn is_sprite_rendering_enabled(&self) -> (r: bool)
        ensures
            r == bit_of(self.value, 4),
    {
        let value = self.value;
        proof {
            lemma_bit_masks(value);
        }
        self.value & 0x10 > 0
    }

    pub fn is_red_emphasized(&self) -> (r: bool)
        ensures
            r == bit_of(self.value, 5),
    {
        let value = self.value;
        proof {
            lemma_bit_masks(value);
        }
        self.value & 0x20 > 0
    }

    pub fn is_green_emphasized(&self) -> (r: bool)
        ensures
            r == bit_of(self.value, 6),
    {
        let value = self.value;
        proof {
            lemma_bit_masks(value);
        }
        self.value & 0x40 > 0
    }

    pub fn is_blue_emphasized(&self) -> (r: bool)
        ensures
            r == bit_of(self.value, 7),
    {
        let value = self.value;
        proof {
            lemma_bit_masks(value);
        }
        self.value & 0x80 > 0
    }

    pub fn update(&mut self, value: u8)
        ensures
            final(self).value == value,
    {
        self.value = value;
    }
}

impl Default for PPUMask {
    fn default() -> (r: Self)
        ensures
            r.value == 0,
    {
        PPUMask { value: 0 }
    }
}

} // verus!
