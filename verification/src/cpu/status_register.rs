use vstd::prelude::*;

verus! {

/// The byte `bits` with the bits of `mask` set when `on` holds and cleared otherwise.
pub open spec fn with_flag(bits: u8, mask: u8, on: bool) -> u8 {
    if on {
        bits | mask
    } else {
        bits & !mask
    }
}

/// Whether every bit of `mask` is set in `bits`.
pub open spec fn has_flags(bits: u8, mask: u8) -> bool {
    bits & mask == mask
}

/// The processor status register: eight one-bit flags packed in a byte. Each flag is
/// named by a constant that holds its mask.
#[derive(Debug, Clone, Copy, PartialEq, Eq, Structural)]
pub struct StatusRegister {
    pub bits: u8,
}

impl StatusRegister {
    /// Carry flag:
    ///    This flag is used in additions, subtractions,
    ///    comparisons and bit rotations. In additions and
    ///    subtractions, it acts as a 9th bit and lets you to chain
    ///    operations to calculate with bigger than 8-bit numbers.
    ///    When subtracting, the Carry flag is the negative of
    ///    Borrow: if an overflow occurs, the flag will be clear,
    ///    otherwise set. Comparisons are a special case of
    ///    subtraction: they assume Carry flag set and Decimal flag
    ///    clear, and do not store the result of the subtraction
    ///    anywhere.
    #[allow(non_upper_case_globals)]
    pub const Carry: u8 = 0b00000001;

    /// Zero flag:
    ///    The Zero flag will be affected in the same cases than
    ///    the Negative flag. Generally, it will be set if an
    ///    arithmetic register is being loaded with the value zero,
    ///    and cleared otherwise. The flag will behave differently
    ///    in Decimal operations.
    #[allow(non_upper_case_globals)]
    pub const Zero: u8 = 0b00000010;

    /// Interrupt disabled:
    ///    This flag can be used to prevent the processor from
    ///    jumping to the IRQ handler vector ($FFFE) whenever the
    ///    hardware line -IRQ is active. The flag will be
    ///    automatically set after taking an interrupt, so that the
    ///    processor would not keep jumping to the interrupt
    ///    routine if the -IRQ signal remains low for several clock
    ///    cycles.
    #[allow(non_upper_case_globals)]
    pub const InterruptDisabled: u8 = 0b00000100;

    /// Decimal flag:
    ///     On the NES the decimal mode is disabled so this flag has no effect.
    #[allow(non_upper_case_globals)]
    pub const Decimal: u8 = 0b00001000;

    /// Break flag:
    ///    This flag is used to distinguish software (BRK)
    ///    interrupts from hardware interrupts (IRQ or NMI). The B
    ///    flag is always set except when the P register is being
    ///    pushed on stack when jumping to an interrupt routine to
    ///    process only a hardware interrupt.
    #[allow(non_upper_case_globals)]
    pub const Break: u8 = 0b00010000;

    /// Unused flag:
    ///     To the current knowledge, this flag is always 1.
    #[allow(non_upper_case_globals)]
    pub const Unused: u8 = 0b00100000;

    /// Overflow flag:
    ///    After a binary addition or subtraction, the V flag will
    ///    be set on a sign overflow, cleared otherwise. What is a
    ///    sign overflow? For instance, if you are trying to add
    ///    123 and 45 together, the result (168) does not fit in a
    ///    8-bit signed integer (upper limit 127 and lower limit
    ///    -128). Similarly, adding -123 to -45 causes the
    ///    overflow, just like subtracting -45 from 123 or 123 from
    ///    -45 would do.
    #[allow(non_upper_case_globals)]
    pub const Overflow: u8 = 0b01000000;

    /// Negative flag:
    ///    This flag will be set after any arithmetic operations
    ///    (when any of the registers A, X or Y is being loaded
    ///    with a value). Generally, the N flag will be copied from
    ///    the topmost bit of the register being loaded.
    #[allow(non_upper_case_globals)]
    pub const Negative: u8 = 0b10000000;

    pub fn empty() -> (r: StatusRegister)
        ensures
            r.bits == 0,
    {
        StatusRegister { bits: 0 }
    }

    pub fn bits(&self) -> (r: u8)
        ensures
            r == self.bits,
    {
        self.bits
    }

    /// Every bit of the byte is a known flag, so no bit is dropped.
    pub fn from_bits_truncate(bits: u8) -> (r: StatusRegister)
        ensures
            r.bits == bits,
    {
        StatusRegister { bits }
    }

    /// Whether every flag of `flags` is set.
    pub fn contains(&self, flags: u8) -> (r: bool)
        ensures
            r == has_flags(self.bits, flags),
    {
        self.bits & flags == flags
    }

    /// Sets the flags of `flags` when `value` holds, clears them otherwise.
    pub fn set(&mut self, flags: u8, value: bool)
        ensures
            final(self).bits == with_flag(old(self).bits, flags, value),
    {
        if value {
            self.bits = self.bits | flags;
        } else {
            self.bits = self.bits & !flags;
        }
    }

    pub fn insert(&mut self, flags: u8)
        ensures
            final(self).bits == with_flag(old(self).bits, flags, true),
    {
        self.bits = self.bits | flags;
    }

    pub fn remove(&mut self, flags: u8)
        ensures
            final(self).bits == with_flag(old(self).bits, flags, false),
    {
        self.bits = self.bits & !flags;
    }

    pub fn union(self, flags: u8) -> (r: StatusRegister)
        ensures
            r.bits == with_flag(self.bits, flags, true),
    {
        StatusRegister { bits: self.bits | flags }
    }

    /// Set the zero flag if the value is 0
    pub fn update_zero_flag(&mut self, value: u8)
        ensures
            final(self).bits == with_flag(old(self).bits, 0b00000010, value == 0),
    {
        self.set(StatusRegister::Zero, value == 0);
    }

    /// Set the negative flag if the value is negative
    pub fn update_negative_flag(&mut self, value: u8)
        ensures
            final(self).bits == with_flag(old(self).bits, 0b10000000, value >= 0x80),
    {
        assert((value & 0x80) > 0 <==> value >= 0x80) by (bit_vector);
        self.set(StatusRegister::Negative, (value & 0x80) > 0);
    }
}

} // verus!
