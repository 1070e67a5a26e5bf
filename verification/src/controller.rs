use crate::ppu::bit_of;
use vstd::prelude::*;

verus! {

/// The buttons of a standard controller, one bit each, in the order the controller
/// reports them. Each button is named by a constant that holds its mask.
#[derive(Debug, Clone, Copy, PartialEq, Eq, Structural)]
pub struct ButtonFlags {
    pub bits: u8,
}

impl ButtonFlags {
    #[allow(non_upper_case_globals)]
    pub const A: u8 = 0b00000001;

    #[allow(non_upper_case_globals)]
    pub const B: u8 = 0b00000010;

    #[allow(non_upper_case_globals)]
    pub const Select: u8 = 0b00000100;

    #[allow(non_upper_case_globals)]
    pub const Start: u8 = 0b00001000;

    #[allow(non_upper_case_globals)]
    pub const Up: u8 = 0b00010000;

    #[allow(non_upper_case_globals)]
    pub const Down: u8 = 0b00100000;

    #[allow(non_upper_case_globals)]
    pub const Left: u8 = 0b01000000;

    #[allow(non_upper_case_globals)]
    pub const Right: u8 = 0b10000000;

    pub fn empty() -> (r: ButtonFlags)
        ensures
            r.bits == 0,
    {
        ButtonFlags { bits: 0 }
    }

    /// Every bit of the byte is a button, so no bit is dropped.
    pub fn from_bits_truncate(bits: u8) -> (r: ButtonFlags)
        ensures
            r.bits == bits,
    {
        ButtonFlags { bits }
    }

    pub fn bits(&self) -> (r: u8)
        ensures
            r == self.bits,
    {
        self.bits
    }

    pub fn contains(&self, flags: u8) -> (r: bool)
        ensures
            r == (self.bits & flags == flags),
    {
        self.bits & flags == flags
    }

    pub fn insert(&mut self, flags: u8)
        ensures
            final(self).bits == old(self).bits | flags,
    {
        self.bits = self.bits | flags;
    }
}

/// A standard controller: a shift register that reports the latched buttons one bit per
/// read.
pub struct Controller {
    pub button_state: ButtonFlags,
    pub latched_value: u8,
    pub shift_value: u8,
    pub update_latch: bool,
}

impl Default for Controller {
    fn default() -> (r: Self)
        ensures
            r.button_state.bits == 0,
            r.latched_value == 0,
            r.shift_value == 0,
            !r.update_latch,
    {
        Self::new()
    }
}

impl Controller {
    fn new() -> (r: Self)
        ensures
            r.button_state.bits == 0,
            r.latched_value == 0,
            r.shift_value == 0,
            !r.update_latch,
    {
        Controller {
            button_state: ButtonFlags::empty(),
            latched_value: 0,
            shift_value: 0,
            update_latch: false,
        }
    }

    /// Records the pressed buttons; while the latch is held they are latched right away.
    pub fn update_button_state(&mut self, state: ButtonFlags)
        ensures
            final(self).button_state == state,
            final(self).update_latch == old(self).update_latch,
            old(self).update_latch ==> final(self).latched_value == state.bits
                && final(self).shift_value == 0,
            !old(self).update_latch ==> final(self).latched_value == old(self).latched_value
                && final(self).shift_value == old(self).shift_value,
    {
        self.button_state = state;

        if self.update_latch {
            self.update_latch_value();
        }
    }

    /// Latches the current buttons and restarts the report from the first button.
    pub fn update_latch_value(&mut self)
        ensures
            final(self).latched_value == old(self).button_state.bits,
            final(self).shift_value == 0,
            final(self).button_state == old(self).button_state,
            final(self).update_latch == old(self).update_latch,
    {
        self.latched_value = self.button_state.bits();
        self.shift_value = 0;
    }

    /// Reports the next latched button (A first, Right last); once the eight buttons were
    /// reported, every further read reports 1.
    pub fn get_latched_value_and_shift(&mut self) -> (r: u8)
        ensures
            old(self).shift_value >= 8 ==> r == 1 && final(self).shift_value == old(
                self,
            ).shift_value,
            old(self).shift_value < 8 ==> r == (if bit_of(old(self).latched_value, old(self).shift_value) {
                1u8
            } else {
                0u8
            }) && final(self).shift_value == old(self).shift_value + 1,
            final(self).latched_value == old(self).latched_value,
            final(self).button_state == old(self).button_state,
            final(self).update_latch == old(self).update_latch,
    {
        if self.shift_value >= 8 {
            1
        } else {
            let latched = self.latched_value;
            let shift = self.shift_value;
            assert(shift < 8 ==> (latched >> shift) & 0x01 == if bit_of(latched, shift) {
                1u8
            } else {
                0u8
            }) by (bit_vector);
            let ret = (self.latched_value >> self.shift_value) & 0x01;
            self.shift_value += 1;
            ret
        }
    }
}

} // verus!
