//! The meaning of each 6502 instruction, stated over integers, and the meaning of one CPU
//! step over any memory bus.
use crate::cpu::addressing_mode::AddressingMode;
use crate::cpu::instruction::Instruction;
use crate::cpu::opcode::{base_cycles, opcode_entry, OpCode};
use crate::cpu::status_register::{has_flags, with_flag, StatusRegister};
use crate::cpu::{
    ArithmeticOperation, BitwiseOperation, Operand, Register, StackPointer, StepResult, CPU,
};
use crate::memory::{page_of, MemoryBus};
use vstd::prelude::*;

verus! {

// ---------------------------------------------------------------------------------------
// Bytes and words
// ---------------------------------------------------------------------------------------
/// The value of a byte read as a two's complement signed number.
pub open spec fn signed(v: u8) -> int {
    if v < 128 {
        v as int
    } else {
        v as int - 256
    }
}

/// The little-endian 16-bit word made of two bytes.
pub open spec fn word(low: u8, high: u8) -> u16 {
    (low as int + 256 * (high as int)) as u16
}

/// The low byte of a word.
pub open spec fn low_byte(w: u16) -> u8 {
    (w as int % 256) as u8
}

/// The high byte of a word.
pub open spec fn high_byte(w: u16) -> u8 {
    (w as int / 256) as u8
}

/// The address of the stack slot that a stack pointer value designates (page one).
pub open spec fn stack_addr(sp: u8) -> u16 {
    (0x100 + sp as int) as u16
}

/// `v + d` modulo 2^16.
pub open spec fn add16(v: u16, d: int) -> u16 {
    ((v as int + d) % 0x10000) as u16
}

/// `v + d` modulo 2^8.
pub open spec fn add8(v: u8, d: int) -> u8 {
    ((v as int + d) % 0x100) as u8
}

/// The carry flag as a number.
pub open spec fn carry_in(p: StatusRegister) -> int {
    if has_flags(p.bits, StatusRegister::Carry) {
        1
    } else {
        0
    }
}

/// The flags after the zero and negative flags are set from `v`, the negative flag first.
pub open spec fn nz(bits: u8, v: u8) -> u8 {
    with_flag(with_flag(bits, StatusRegister::Negative, v >= 128), StatusRegister::Zero, v == 0)
}

/// The flags after the zero and negative flags are set from `v`, the zero flag first.
pub open spec fn zn(bits: u8, v: u8) -> u8 {
    with_flag(with_flag(bits, StatusRegister::Zero, v == 0), StatusRegister::Negative, v >= 128)
}

/// The flags that a pulled byte becomes: the unused flag is always set, and the break flag
/// does not exist in the register itself.
pub open spec fn pulled_flags(v: u8) -> u8 {
    with_flag(with_flag(v, StatusRegister::Unused, true), StatusRegister::Break, false)
}

// ---------------------------------------------------------------------------------------
// Registers
// ---------------------------------------------------------------------------------------
pub open spec fn reg(cpu: CPU, r: Register) -> u8 {
    match r {
        Register::X => cpu.x,
        Register::Y => cpu.y,
        Register::A => cpu.a,
        Register::SP => cpu.sp.value,
    }
}

pub open spec fn set_reg(cpu: CPU, r: Register, v: u8) -> CPU {
    match r {
        Register::X => CPU { x: v, ..cpu },
        Register::Y => CPU { y: v, ..cpu },
        Register::A => CPU { a: v, ..cpu },
        Register::SP => CPU { sp: StackPointer { value: v }, ..cpu },
    }
}

pub open spec fn set_regs(cpu: CPU, rs: Seq<Register>, v: u8) -> CPU
    decreases rs.len(),
{
    if rs.len() == 0 {
        cpu
    } else {
        set_regs(set_reg(cpu, rs[0], v), rs.drop_first(), v)
    }
}

pub open spec fn with_p(cpu: CPU, bits: u8) -> CPU {
    CPU { p: StatusRegister { bits }, ..cpu }
}

pub open spec fn with_pc(cpu: CPU, pc: u16) -> CPU {
    CPU { pc, ..cpu }
}

pub open spec fn with_sp(cpu: CPU, sp: u8) -> CPU {
    CPU { sp: StackPointer { value: sp }, ..cpu }
}

// ---------------------------------------------------------------------------------------
// Arithmetic and logic on register values
// ---------------------------------------------------------------------------------------
/// ADC: A + M + C, with carry out of bit 7 and signed overflow.
pub open spec fn adc_regs(cpu: CPU, v: u8) -> CPU {
    let c = carry_in(cpu.p);
    let sum = cpu.a + v + c;
    let a = (sum % 256) as u8;
    let s = signed(cpu.a) + signed(v) + c;
    let bits = with_flag(
        with_flag(
            with_flag(with_flag(cpu.p.bits, StatusRegister::Carry, sum > 255), StatusRegister::Zero, a == 0),
            StatusRegister::Overflow,
            s < -128 || s > 127,
        ),
        StatusRegister::Negative,
        a >= 128,
    );
    CPU { a, p: StatusRegister { bits }, ..cpu }
}

/// SBC: A - M - (1 - C); the carry is set when no borrow is needed.
pub open spec fn sbc_regs(cpu: CPU, v: u8) -> CPU {
    let c = carry_in(cpu.p);
    let diff = cpu.a - v - (1 - c);
    let a = (diff % 256) as u8;
    let s = signed(cpu.a) - signed(v) - (1 - c);
    let bits = with_flag(
        with_flag(
            with_flag(with_flag(cpu.p.bits, StatusRegister::Carry, diff >= 0), StatusRegister::Zero, a == 0),
            StatusRegister::Overflow,
            s < -128 || s > 127,
        ),
        StatusRegister::Negative,
        a >= 128,
    );
    CPU { a, p: StatusRegister { bits }, ..cpu }
}

pub open spec fn bitwise(op: BitwiseOperation, a: u8, v: u8) -> u8 {
    match op {
        BitwiseOperation::And => a & v,
        BitwiseOperation::Or => a | v,
        BitwiseOperation::Xor => a ^ v,
    }
}

pub open spec fn bitwise_regs(cpu: CPU, v: u8, op: BitwiseOperation) -> CPU {
    let a = bitwise(op, cpu.a, v);
    CPU { a, p: StatusRegister { bits: zn(cpu.p.bits, a) }, ..cpu }
}

/// BIT: Z from A & M, V from bit 6 of M, N from bit 7 of M.
pub open spec fn bit_regs(cpu: CPU, v: u8) -> CPU {
    let bits = with_flag(
        with_flag(
            with_flag(cpu.p.bits, StatusRegister::Zero, cpu.a & v == 0),
            StatusRegister::Overflow,
            (v / 64) % 2 == 1,
        ),
        StatusRegister::Negative,
        v >= 128,
    );
    with_p(cpu, bits)
}

/// CMP, CPX, CPY: the flags of `reg - M`, no register changes.
pub open spec fn compare_regs(cpu: CPU, v: u8, r: Register) -> CPU {
    let rv = reg(cpu, r);
    let bits = with_flag(
        with_flag(with_flag(cpu.p.bits, StatusRegister::Carry, rv >= v), StatusRegister::Zero, rv == v),
        StatusRegister::Negative,
        add8(rv, -(v as int)) >= 128,
    );
    with_p(cpu, bits)
}

/// The result of a shift or rotation and the carry it produces.
pub open spec fn shift_result(i: Instruction, v: u8, c: int) -> (u8, bool) {
    match i {
        Instruction::ASL => (add8(0, 2 * v), v >= 128),
        Instruction::LSR => ((v / 2) as u8, v % 2 == 1),
        Instruction::ROL => (add8(0, 2 * v + c), v >= 128),
        _ => ((v / 2 + 128 * c) as u8, v % 2 == 1),
    }
}

/// The flags after a shift or rotation of `v` (LSR always clears the negative flag).
pub open spec fn shift_flags(i: Instruction, bits: u8, v: u8, c: int) -> u8 {
    let (r, carry) = shift_result(i, v, c);
    let b = with_flag(with_flag(bits, StatusRegister::Carry, carry), StatusRegister::Zero, r == 0);
    if i is LSR {
        with_flag(b, StatusRegister::Negative, false)
    } else {
        with_flag(b, StatusRegister::Negative, r >= 128)
    }
}

// ---------------------------------------------------------------------------------------
// Memory accesses
// ---------------------------------------------------------------------------------------
/// A read: the value and the state after it.
pub open spec fn rd<T: MemoryBus>(s: T::State, addr: u16) -> (u8, T::State) {
    (T::read_value(s, addr), T::after_read(s, addr))
}

/// Reads the next byte of the instruction stream.
pub open spec fn spec_fetch_byte<T: MemoryBus>(cpu: CPU, s: T::State) -> (u8, CPU, T::State) {
    (T::read_value(s, cpu.pc), with_pc(cpu, add16(cpu.pc, 1)), T::after_read(s, cpu.pc))
}

pub open spec fn fetch_byte_ok<T: MemoryBus>(cpu: CPU, s: T::State) -> bool {
    cpu.pc < 0xFFFF && T::readable(s, cpu.pc)
}

/// Reads the next two bytes of the instruction stream as a little-endian word.
pub open spec fn spec_fetch_word<T: MemoryBus>(cpu: CPU, s: T::State) -> (u16, CPU, T::State) {
    let (low, s1) = rd::<T>(s, cpu.pc);
    let (high, s2) = rd::<T>(s1, add16(cpu.pc, 1));
    (word(low, high), with_pc(cpu, add16(cpu.pc, 2)), s2)
}

pub open spec fn fetch_word_ok<T: MemoryBus>(cpu: CPU, s: T::State) -> bool {
    &&& cpu.pc < 0xFFFE
    &&& T::readable(s, cpu.pc)
    &&& T::readable(T::after_read(s, cpu.pc), add16(cpu.pc, 1))
}

/// The effective address of a memory addressing mode, and whether indexing crossed a page.
pub open spec fn spec_operand_address<T: MemoryBus>(cpu: CPU, s: T::State, mode: AddressingMode) -> (
    (u16, bool),
    CPU,
    T::State,
) {
    match mode {
        AddressingMode::ZeroPage => {
            let (arg, c1, s1) = spec_fetch_byte::<T>(cpu, s);
            ((arg as u16, false), c1, s1)
        },
        AddressingMode::ZeroPageX => {
            let (arg, c1, s1) = spec_fetch_byte::<T>(cpu, s);
            ((add8(arg, cpu.x as int) as u16, false), c1, s1)
        },
        AddressingMode::ZeroPageY => {
            let (arg, c1, s1) = spec_fetch_byte::<T>(cpu, s);
            ((add8(arg, cpu.y as int) as u16, false), c1, s1)
        },
        AddressingMode::Absolute => {
            let (arg, c1, s1) = spec_fetch_word::<T>(cpu, s);
            ((arg, false), c1, s1)
        },
        AddressingMode::AbsoluteX => {
            let (arg, c1, s1) = spec_fetch_word::<T>(cpu, s);
            let addr = add16(arg, cpu.x as int);
            ((addr, page_of(arg) != page_of(addr)), c1, s1)
        },
        AddressingMode::AbsoluteY => {
            let (arg, c1, s1) = spec_fetch_word::<T>(cpu, s);
            let addr = add16(arg, cpu.y as int);
            ((addr, page_of(arg) != page_of(addr)), c1, s1)
        },
        AddressingMode::Indirect => {
            let (arg, c1, s1) = spec_fetch_word::<T>(cpu, s);
            let (low, s2) = rd::<T>(s1, arg);
            let (high, s3) = rd::<T>(s2, indirect_high_addr(arg));
            ((word(low, high), false), c1, s3)
        },
        AddressingMode::IndirectX => {
            let (arg, c1, s1) = spec_fetch_byte::<T>(cpu, s);
            let ptr = add8(arg, cpu.x as int);
            let (low, s2) = rd::<T>(s1, ptr as u16);
            let (high, s3) = rd::<T>(s2, add8(ptr, 1) as u16);
            ((word(low, high), false), c1, s3)
        },
        _ => {
            // IndirectY
            let (arg, c1, s1) = spec_fetch_byte::<T>(cpu, s);
            let (low, s2) = rd::<T>(s1, arg as u16);
            let (high, s3) = rd::<T>(s2, add8(arg, 1) as u16);
            let base = word(low, high);
            let addr = add16(base, cpu.y as int);
            ((addr, page_of(base) != page_of(addr)), c1, s3)
        },
    }
}

/// The second byte of an indirect pointer: the 6502 does not carry into the high byte, so
/// a pointer at the end of a page wraps to the start of the same page.
pub open spec fn indirect_high_addr(arg: u16) -> u16 {
    if arg as int % 256 == 255 {
        (arg as int - 255) as u16
    } else {
        (arg + 1) as u16
    }
}

pub open spec fn operand_address_ok<T: MemoryBus>(
    cpu: CPU,
    s: T::State,
    mode: AddressingMode,
) -> bool {
    match mode {
        AddressingMode::ZeroPage | AddressingMode::ZeroPageX | AddressingMode::ZeroPageY => {
            fetch_byte_ok::<T>(cpu, s)
        },
        AddressingMode::Absolute | AddressingMode::AbsoluteX | AddressingMode::AbsoluteY => {
            fetch_word_ok::<T>(cpu, s)
        },
        AddressingMode::Indirect => {
            let (arg, c1, s1) = spec_fetch_word::<T>(cpu, s);
            &&& fetch_word_ok::<T>(cpu, s)
            &&& T::readable(s1, arg)
            &&& T::readable(T::after_read(s1, arg), indirect_high_addr(arg))
        },
        AddressingMode::IndirectX => {
            let (arg, c1, s1) = spec_fetch_byte::<T>(cpu, s);
            let ptr = add8(arg, cpu.x as int);
            &&& fetch_byte_ok::<T>(cpu, s)
            &&& T::readable(s1, ptr as u16)
            &&& T::readable(T::after_read(s1, ptr as u16), add8(ptr, 1) as u16)
        },
        AddressingMode::IndirectY => {
            let (arg, c1, s1) = spec_fetch_byte::<T>(cpu, s);
            &&& fetch_byte_ok::<T>(cpu, s)
            &&& T::readable(s1, arg as u16)
            &&& T::readable(T::after_read(s1, arg as u16), add8(arg, 1) as u16)
        },
        _ => false,
    }
}

/// The operand of an instruction, read from the instruction stream.
pub open spec fn spec_resolve_operand<T: MemoryBus>(
    cpu: CPU,
    s: T::State,
    mode: AddressingMode,
) -> (Option<Operand>, CPU, T::State) {
    match mode {
        AddressingMode::Immediate => {
            let (v, c1, s1) = spec_fetch_byte::<T>(cpu, s);
            (Some(Operand::Immediate(v)), c1, s1)
        },
        AddressingMode::Accumulator => (Some(Operand::Accumulator), cpu, s),
        AddressingMode::Relative => {
            let (v, c1, s1) = spec_fetch_byte::<T>(cpu, s);
            (Some(Operand::Relative(v as i8)), c1, s1)
        },
        AddressingMode::Implicit => (None, cpu, s),
        _ => {
            let ((addr, crossed), c1, s1) = spec_operand_address::<T>(cpu, s, mode);
            (Some(Operand::Memory(addr, crossed)), c1, s1)
        },
    }
}

pub open spec fn resolve_operand_ok<T: MemoryBus>(
    cpu: CPU,
    s: T::State,
    mode: AddressingMode,
) -> bool {
    match mode {
        AddressingMode::Immediate | AddressingMode::Relative => fetch_byte_ok::<T>(cpu, s),
        AddressingMode::Accumulator | AddressingMode::Implicit => true,
        _ => operand_address_ok::<T>(cpu, s, mode),
    }
}

/// The value that an instruction operates on, and the state after reading it.
pub open spec fn operand_value<T: MemoryBus>(cpu: CPU, s: T::State, op: Operand) -> (u8, T::State) {
    match op {
        Operand::Accumulator => (cpu.a, s),
        Operand::Immediate(v) => (v, s),
        Operand::Memory(addr, _) => rd::<T>(s, addr),
        Operand::Relative(_) => (0, s),
    }
}

/// An operand that an arithmetic or logic instruction can read.
pub open spec fn value_operand_ok<T: MemoryBus>(s: T::State, op: Operand) -> bool {
    match op {
        Operand::Accumulator | Operand::Immediate(_) => true,
        Operand::Memory(addr, _) => T::readable(s, addr),
        Operand::Relative(_) => false,
    }
}

/// A memory operand that can be read and then written.
pub open spec fn modify_operand_ok<T: MemoryBus>(s: T::State, op: Operand) -> bool {
    match op {
        Operand::Memory(addr, _) => T::readable(s, addr) && T::writable(
            T::after_read(s, addr),
            addr,
        ),
        _ => false,
    }
}

/// An operand that a shift or rotation can work on: the accumulator, or memory.
pub open spec fn shift_operand_ok<T: MemoryBus>(s: T::State, op: Operand) -> bool {
    match op {
        Operand::Accumulator => true,
        Operand::Memory(_, _) => modify_operand_ok::<T>(s, op),
        _ => false,
    }
}

/// The extra cycle taken when indexing crossed a page.
pub open spec fn page_cycle(op: Operand) -> Option<u8> {
    match op {
        Operand::Memory(_, true) => Some(1),
        _ => None,
    }
}

// ---------------------------------------------------------------------------------------
// Instructions
// ---------------------------------------------------------------------------------------
/// What one instruction does: the CPU and bus state after it and its extra cycles.
pub type Outcome<S> = (CPU, S, Option<u8>);

pub open spec fn spec_adc<T: MemoryBus>(cpu: CPU, s: T::State, op: Operand) -> Outcome<T::State> {
    let (v, s1) = operand_value::<T>(cpu, s, op);
    (adc_regs(cpu, v), s1, page_cycle(op))
}

pub open spec fn spec_sbc<T: MemoryBus>(cpu: CPU, s: T::State, op: Operand) -> Outcome<T::State> {
    let (v, s1) = operand_value::<T>(cpu, s, op);
    (sbc_regs(cpu, v), s1, page_cycle(op))
}

/// INC and DEC: the memory byte plus `delta`, modulo 256.
pub open spec fn spec_step_memory<T: MemoryBus>(
    cpu: CPU,
    s: T::State,
    op: Operand,
    delta: int,
) -> Outcome<T::State> {
    let addr = op->Memory_0;
    let (v, s1) = rd::<T>(s, addr);
    let r = add8(v, delta);
    (with_p(cpu, zn(cpu.p.bits, r)), T::after_write(s1, addr, r), None)
}

pub open spec fn spec_bitwise<T: MemoryBus>(
    cpu: CPU,
    s: T::State,
    op: Operand,
    operation: BitwiseOperation,
) -> Outcome<T::State> {
    let (v, s1) = operand_value::<T>(cpu, s, op);
    (bitwise_regs(cpu, v, operation), s1, page_cycle(op))
}

pub open spec fn spec_bit<T: MemoryBus>(cpu: CPU, s: T::State, op: Operand) -> Outcome<T::State> {
    let (v, s1) = rd::<T>(s, op->Memory_0);
    (bit_regs(cpu, v), s1, None)
}

pub open spec fn spec_compare<T: MemoryBus>(
    cpu: CPU,
    s: T::State,
    op: Operand,
    r: Register,
) -> Outcome<T::State> {
    let (v, s1) = operand_value::<T>(cpu, s, op);
    (compare_regs(cpu, v, r), s1, page_cycle(op))
}

/// ASL, LSR, ROL and ROR, on the accumulator or on memory.
pub open spec fn spec_shift<T: MemoryBus>(
    cpu: CPU,
    s: T::State,
    op: Operand,
    i: Instruction,
) -> Outcome<T::State> {
    let (v, s1) = operand_value::<T>(cpu, s, op);
    let c = carry_in(cpu.p);
    let (r, _) = shift_result(i, v, c);
    let c1 = with_p(cpu, shift_flags(i, cpu.p.bits, v, c));
    match op {
        Operand::Accumulator => (CPU { a: r, ..c1 }, s1, None),
        _ => (c1, T::after_write(s1, op->Memory_0, r), None),
    }
}

pub open spec fn spec_store<T: MemoryBus>(cpu: CPU, s: T::State, op: Operand, v: u8) -> Outcome<
    T::State,
> {
    (cpu, T::after_write(s, op->Memory_0, v), None)
}

pub open spec fn spec_load<T: MemoryBus>(
    cpu: CPU,
    s: T::State,
    rs: Seq<Register>,
    op: Operand,
) -> Outcome<T::State> {
    let (v, s1) = operand_value::<T>(cpu, s, op);
    let c1 = set_regs(cpu, rs, v);
    (with_p(c1, nz(c1.p.bits, v)), s1, page_cycle(op))
}

pub open spec fn spec_transfer(cpu: CPU, source: Register, target: Register) -> CPU {
    let v = reg(cpu, source);
    let c1 = set_reg(cpu, target, v);
    if target is SP {
        c1
    } else {
        with_p(c1, nz(c1.p.bits, v))
    }
}

pub open spec fn spec_register_arithmetic(
    cpu: CPU,
    r: Register,
    operation: ArithmeticOperation,
) -> CPU {
    let v = match operation {
        ArithmeticOperation::Increment => add8(reg(cpu, r), 1),
        ArithmeticOperation::Decrement => add8(reg(cpu, r), -1),
    };
    let c1 = set_reg(cpu, r, v);
    with_p(c1, nz(c1.p.bits, v))
}

/// A taken branch moves the program counter by the signed offset and takes one more
/// cycle, or two when it lands on another page.
pub open spec fn spec_branch(cpu: CPU, op: Operand, should_branch: bool) -> (CPU, Option<u8>) {
    if should_branch {
        let pc = add16(cpu.pc, op->Relative_0 as int);
        (with_pc(cpu, pc), Some(if page_of(cpu.pc) != page_of(pc) { 2u8 } else { 1u8 }))
    } else {
        (cpu, None)
    }
}

/// A push: the byte goes to the stack slot, then the stack pointer moves down.
pub open spec fn push<T: MemoryBus>(cpu: CPU, s: T::State, v: u8) -> (CPU, T::State) {
    (with_sp(cpu, (cpu.sp.value - 1) as u8), T::after_write(s, stack_addr(cpu.sp.value), v))
}

/// A pull: the stack pointer moves up, then the byte of its slot is read.
pub open spec fn pull<T: MemoryBus>(cpu: CPU, s: T::State) -> (u8, CPU, T::State) {
    let sp = (cpu.sp.value + 1) as u8;
    let (v, s1) = rd::<T>(s, stack_addr(sp));
    (v, with_sp(cpu, sp), s1)
}

pub open spec fn push_ok<T: MemoryBus>(cpu: CPU, s: T::State) -> bool {
    cpu.sp.value > 0 && T::writable(s, stack_addr(cpu.sp.value))
}

pub open spec fn pull_ok<T: MemoryBus>(cpu: CPU, s: T::State) -> bool {
    cpu.sp.value < 255 && T::readable(s, stack_addr((cpu.sp.value + 1) as u8))
}

/// Pushes the high byte then the low byte of a word.
pub open spec fn push_word<T: MemoryBus>(cpu: CPU, s: T::State, w: u16) -> (CPU, T::State) {
    let (c1, s1) = push::<T>(cpu, s, high_byte(w));
    push::<T>(c1, s1, low_byte(w))
}

pub open spec fn push_word_ok<T: MemoryBus>(cpu: CPU, s: T::State, w: u16) -> bool {
    let (c1, s1) = push::<T>(cpu, s, high_byte(w));
    push_ok::<T>(cpu, s) && push_ok::<T>(c1, s1)
}

/// Pulls the low byte then the high byte of a word.
pub open spec fn pull_word<T: MemoryBus>(cpu: CPU, s: T::State) -> (u16, CPU, T::State) {
    let (low, c1, s1) = pull::<T>(cpu, s);
    let (high, c2, s2) = pull::<T>(c1, s1);
    (word(low, high), c2, s2)
}

pub open spec fn pull_word_ok<T: MemoryBus>(cpu: CPU, s: T::State) -> bool {
    let (low, c1, s1) = pull::<T>(cpu, s);
    pull_ok::<T>(cpu, s) && pull_ok::<T>(c1, s1)
}

/// JSR pushes the address of its own last byte, then jumps.
pub open spec fn spec_jsr<T: MemoryBus>(cpu: CPU, s: T::State, op: Operand) -> Outcome<T::State> {
    let (c1, s1) = push_word::<T>(cpu, s, add16(cpu.pc, -1));
    (with_pc(c1, op->Memory_0), s1, None)
}

/// RTS pulls the return address and continues right after it.
pub open spec fn spec_rts<T: MemoryBus>(cpu: CPU, s: T::State) -> Outcome<T::State> {
    let (w, c1, s1) = pull_word::<T>(cpu, s);
    (with_pc(c1, add16(w, 1)), s1, None)
}

/// BRK pushes the return address and the flags with the break flag set, then jumps through
/// the IRQ vector at $FFFE with interrupts disabled.
pub open spec fn spec_brk<T: MemoryBus>(cpu: CPU, s: T::State) -> Outcome<T::State> {
    let (c1, s1) = push_word::<T>(cpu, s, add16(cpu.pc, 1));
    let (c2, s2) = push::<T>(c1, s1, with_flag(cpu.p.bits, StatusRegister::Break, true));
    let (low, s3) = rd::<T>(s2, 0xFFFE);
    let (high, s4) = rd::<T>(s3, 0xFFFF);
    (
        with_p(with_pc(c2, word(low, high)), with_flag(cpu.p.bits, StatusRegister::InterruptDisabled, true)),
        s4,
        None,
    )
}

pub open spec fn brk_ok<T: MemoryBus>(cpu: CPU, s: T::State) -> bool {
    let (c1, s1) = push_word::<T>(cpu, s, add16(cpu.pc, 1));
    let (c2, s2) = push::<T>(c1, s1, with_flag(cpu.p.bits, StatusRegister::Break, true));
    &&& push_word_ok::<T>(cpu, s, add16(cpu.pc, 1))
    &&& push_ok::<T>(c1, s1)
    &&& T::readable(s2, 0xFFFE)
    &&& T::readable(T::after_read(s2, 0xFFFE), 0xFFFF)
}

/// RTI pulls the flags, then the program counter.
pub open spec fn spec_rti<T: MemoryBus>(cpu: CPU, s: T::State) -> Outcome<T::State> {
    let (flags, c1, s1) = pull::<T>(cpu, s);
    let (w, c2, s2) = pull_word::<T>(c1, s1);
    (with_p(with_pc(c2, w), pulled_flags(flags)), s2, None)
}

pub open spec fn rti_ok<T: MemoryBus>(cpu: CPU, s: T::State) -> bool {
    let (flags, c1, s1) = pull::<T>(cpu, s);
    pull_ok::<T>(cpu, s) && pull_word_ok::<T>(c1, s1)
}

/// PLA and friends: pull a register and set the flags from it.
pub open spec fn spec_pull_register<T: MemoryBus>(cpu: CPU, s: T::State, r: Register) -> Outcome<
    T::State,
> {
    let (v, c1, s1) = pull::<T>(cpu, s);
    let c2 = set_reg(c1, r, v);
    (with_p(c2, nz(c2.p.bits, v)), s1, None)
}

/// PHP pushes the flags with the break flag set.
pub open spec fn spec_php<T: MemoryBus>(cpu: CPU, s: T::State) -> Outcome<T::State> {
    let (c1, s1) = push::<T>(cpu, s, with_flag(cpu.p.bits, StatusRegister::Break, true));
    (c1, s1, None)
}

pub open spec fn spec_plp<T: MemoryBus>(cpu: CPU, s: T::State) -> Outcome<T::State> {
    let (v, c1, s1) = pull::<T>(cpu, s);
    (with_p(c1, pulled_flags(v)), s1, None)
}

// ---------------------------------------------------------------------------------------
// Dispatch
// ---------------------------------------------------------------------------------------
pub open spec fn unwrap_operand(op: Option<Operand>) -> Operand {
    match op {
        Some(o) => o,
        None => Operand::Accumulator,
    }
}

/// The condition of each branch instruction.
pub open spec fn branch_taken(i: Instruction, p: StatusRegister) -> bool {
    match i {
        Instruction::BCC => !has_flags(p.bits, StatusRegister::Carry),
        Instruction::BCS => has_flags(p.bits, StatusRegister::Carry),
        Instruction::BEQ => has_flags(p.bits, StatusRegister::Zero),
        Instruction::BNE => !has_flags(p.bits, StatusRegister::Zero),
        Instruction::BPL => !has_flags(p.bits, StatusRegister::Negative),
        Instruction::BMI => has_flags(p.bits, StatusRegister::Negative),
        Instruction::BVC => !has_flags(p.bits, StatusRegister::Overflow),
        _ => has_flags(p.bits, StatusRegister::Overflow),
    }
}

pub open spec fn is_branch(i: Instruction) -> bool {
    i is BCC || i is BCS || i is BEQ || i is BNE || i is BPL || i is BMI || i is BVC || i is BVS
}

/// The shift or rotation that SLO, SRE, RRA and RLA begin with.
pub open spec fn shift_of(i: Instruction) -> Instruction {
    match i {
        Instruction::SLO => Instruction::ASL,
        Instruction::SRE => Instruction::LSR,
        Instruction::RRA => Instruction::ROR,
        _ => Instruction::ROL,
    }
}

/// The flag that CLC, SEC, CLD, SED and CLV act on.
pub open spec fn flag_of(i: Instruction) -> u8 {
    match i {
        Instruction::CLC | Instruction::SEC => StatusRegister::Carry,
        Instruction::CLD | Instruction::SED => StatusRegister::Decimal,
        _ => StatusRegister::Overflow,
    }
}

/// What an instruction does once its operand is known.
pub open spec fn spec_execute<T: MemoryBus>(
    cpu: CPU,
    s: T::State,
    i: Instruction,
    operand: Option<Operand>,
) -> Outcome<T::State> {
    let op = unwrap_operand(operand);
    match i {
        Instruction::ADC => spec_adc::<T>(cpu, s, op),
        Instruction::SBC => spec_sbc::<T>(cpu, s, op),
        Instruction::INC => spec_step_memory::<T>(cpu, s, op, 1),
        Instruction::ISB => {
            let (c1, s1, _) = spec_step_memory::<T>(cpu, s, op, 1);
            let (c2, s2, _) = spec_sbc::<T>(c1, s1, op);
            (c2, s2, None)
        },
        Instruction::DEC => spec_step_memory::<T>(cpu, s, op, -1),
        Instruction::DCP => {
            let (c1, s1, _) = spec_step_memory::<T>(cpu, s, op, -1);
            let (c2, s2, _) = spec_compare::<T>(c1, s1, op, Register::A);
            (c2, s2, None)
        },
        Instruction::INX => (
            spec_register_arithmetic(cpu, Register::X, ArithmeticOperation::Increment),
            s,
            None,
        ),
        Instruction::DEX => (
            spec_register_arithmetic(cpu, Register::X, ArithmeticOperation::Decrement),
            s,
            None,
        ),
        Instruction::INY => (
            spec_register_arithmetic(cpu, Register::Y, ArithmeticOperation::Increment),
            s,
            None,
        ),
        Instruction::DEY => (
            spec_register_arithmetic(cpu, Register::Y, ArithmeticOperation::Decrement),
            s,
            None,
        ),
        Instruction::AND => spec_bitwise::<T>(cpu, s, op, BitwiseOperation::And),
        Instruction::ORA => spec_bitwise::<T>(cpu, s, op, BitwiseOperation::Or),
        Instruction::EOR => spec_bitwise::<T>(cpu, s, op, BitwiseOperation::Xor),
        Instruction::SLO => {
            let (c1, s1, _) = spec_shift::<T>(cpu, s, op, Instruction::ASL);
            let (c2, s2, _) = spec_bitwise::<T>(c1, s1, op, BitwiseOperation::Or);
            (c2, s2, None)
        },
        Instruction::SRE => {
            let (c1, s1, _) = spec_shift::<T>(cpu, s, op, Instruction::LSR);
            let (c2, s2, _) = spec_bitwise::<T>(c1, s1, op, BitwiseOperation::Xor);
            (c2, s2, None)
        },
        Instruction::RRA => {
            let (c1, s1, _) = spec_shift::<T>(cpu, s, op, Instruction::ROR);
            let (c2, s2, _) = spec_adc::<T>(c1, s1, op);
            (c2, s2, None)
        },
        Instruction::RLA => {
            let (c1, s1, _) = spec_shift::<T>(cpu, s, op, Instruction::ROL);
            let (c2, s2, _) = spec_bitwise::<T>(c1, s1, op, BitwiseOperation::And);
            (c2, s2, None)
        },
        Instruction::BIT => spec_bit::<T>(cpu, s, op),
        Instruction::ASL | Instruction::LSR | Instruction::ROL | Instruction::ROR => spec_shift::<
            T,
        >(cpu, s, op, i),
        Instruction::BCC | Instruction::BCS | Instruction::BEQ | Instruction::BNE
        | Instruction::BPL | Instruction::BMI | Instruction::BVC | Instruction::BVS => {
            let (c1, extra) = spec_branch(cpu, op, branch_taken(i, cpu.p));
            (c1, s, extra)
        },
        Instruction::LDA => spec_load::<T>(cpu, s, seq![Register::A], op),
        Instruction::LDX => spec_load::<T>(cpu, s, seq![Register::X], op),
        Instruction::LDY => spec_load::<T>(cpu, s, seq![Register::Y], op),
        Instruction::LAX => spec_load::<T>(cpu, s, seq![Register::A, Register::X], op),
        Instruction::STA => spec_store::<T>(cpu, s, op, cpu.a),
        Instruction::STX => spec_store::<T>(cpu, s, op, cpu.x),
        Instruction::STY => spec_store::<T>(cpu, s, op, cpu.y),
        Instruction::SAX => spec_store::<T>(cpu, s, op, cpu.a & cpu.x),
        Instruction::TAX => (spec_transfer(cpu, Register::A, Register::X), s, None),
        Instruction::TAY => (spec_transfer(cpu, Register::A, Register::Y), s, None),
        Instruction::TXA => (spec_transfer(cpu, Register::X, Register::A), s, None),
        Instruction::TYA => (spec_transfer(cpu, Register::Y, Register::A), s, None),
        Instruction::TSX => (spec_transfer(cpu, Register::SP, Register::X), s, None),
        Instruction::TXS => (spec_transfer(cpu, Register::X, Register::SP), s, None),
        Instruction::CMP => spec_compare::<T>(cpu, s, op, Register::A),
        Instruction::CPX => spec_compare::<T>(cpu, s, op, Register::X),
        Instruction::CPY => spec_compare::<T>(cpu, s, op, Register::Y),
        Instruction::JMP => (with_pc(cpu, op->Memory_0), s, None),
        Instruction::JSR => spec_jsr::<T>(cpu, s, op),
        Instruction::RTS => spec_rts::<T>(cpu, s),
        Instruction::BRK => spec_brk::<T>(cpu, s),
        Instruction::RTI => spec_rti::<T>(cpu, s),
        Instruction::PHA => {
            let (c1, s1) = push::<T>(cpu, s, cpu.a);
            (c1, s1, None)
        },
        Instruction::PLA => spec_pull_register::<T>(cpu, s, Register::A),
        Instruction::PHP => spec_php::<T>(cpu, s),
        Instruction::PLP => spec_plp::<T>(cpu, s),
        Instruction::CLC | Instruction::CLD | Instruction::CLV => (
            with_p(cpu, with_flag(cpu.p.bits, flag_of(i), false)),
            s,
            None,
        ),
        Instruction::SEC | Instruction::SED => (
            with_p(cpu, with_flag(cpu.p.bits, flag_of(i), true)),
            s,
            None,
        ),
        Instruction::CLI => (CPU { pending_interrupt_flag_change: Some(false), ..cpu }, s, None),
        Instruction::SEI => (CPU { pending_interrupt_flag_change: Some(true), ..cpu }, s, None),
        Instruction::NOP => (
            cpu,
            s,
            match operand {
                Some(o) => page_cycle(o),
                None => None,
            },
        ),
    }
}

/// The accesses that an instruction makes are defined: reads and writes of the bus, and the
/// stack pointer stays within the stack page.
pub open spec fn execute_ok<T: MemoryBus>(
    cpu: CPU,
    s: T::State,
    i: Instruction,
    operand: Option<Operand>,
) -> bool {
    let op = unwrap_operand(operand);
    match i {
        Instruction::ADC | Instruction::SBC | Instruction::AND | Instruction::ORA
        | Instruction::EOR | Instruction::CMP | Instruction::CPX | Instruction::CPY => {
            value_operand_ok::<T>(s, op)
        },
        Instruction::INC | Instruction::DEC => modify_operand_ok::<T>(s, op),
        Instruction::ISB => {
            let (c1, s1, _) = spec_step_memory::<T>(cpu, s, op, 1);
            modify_operand_ok::<T>(s, op) && value_operand_ok::<T>(s1, op)
        },
        Instruction::DCP => {
            let (c1, s1, _) = spec_step_memory::<T>(cpu, s, op, -1);
            modify_operand_ok::<T>(s, op) && value_operand_ok::<T>(s1, op)
        },
        Instruction::SLO | Instruction::SRE | Instruction::RRA | Instruction::RLA => {
            let (c1, s1, _) = spec_shift::<T>(cpu, s, op, shift_of(i));
            modify_operand_ok::<T>(s, op) && value_operand_ok::<T>(s1, op)
        },
        Instruction::BIT => op is Memory && T::readable(s, op->Memory_0),
        Instruction::ASL | Instruction::LSR | Instruction::ROL | Instruction::ROR => {
            shift_operand_ok::<T>(s, op)
        },
        Instruction::BCC | Instruction::BCS | Instruction::BEQ | Instruction::BNE
        | Instruction::BPL | Instruction::BMI | Instruction::BVC | Instruction::BVS => op is Relative,
        Instruction::LDA | Instruction::LDX | Instruction::LDY | Instruction::LAX => {
            value_operand_ok::<T>(s, op) && !(op is Accumulator)
        },
        Instruction::STA | Instruction::STX | Instruction::STY | Instruction::SAX => {
            op is Memory && T::writable(s, op->Memory_0)
        },
        Instruction::JMP => op is Memory,
        Instruction::JSR => op is Memory && push_word_ok::<T>(cpu, s, add16(cpu.pc, -1)),
        Instruction::RTS => pull_word_ok::<T>(cpu, s),
        Instruction::BRK => brk_ok::<T>(cpu, s),
        Instruction::RTI => rti_ok::<T>(cpu, s),
        Instruction::PHA | Instruction::PHP => push_ok::<T>(cpu, s),
        Instruction::PLA | Instruction::PLP => pull_ok::<T>(cpu, s),
        _ => true,
    }
}

/// The interrupt-disable flag change that CLI or SEI asked for takes effect at the start
/// of the next step, once: it is then no longer pending.
pub open spec fn apply_pending(cpu: CPU) -> CPU {
    match cpu.pending_interrupt_flag_change {
        Some(v) => CPU {
            pending_interrupt_flag_change: None,
            ..with_p(cpu, with_flag(cpu.p.bits, StatusRegister::InterruptDisabled, v))
        },
        None => cpu,
    }
}

/// One CPU step: fetch, decode and execute the instruction at the program counter.
/// An opcode that does not decode is skipped and takes no cycle.
#[verifier::opaque]
pub open spec fn spec_step<T: MemoryBus>(cpu: CPU, s: T::State) -> (CPU, T::State, StepResult) {
    let c0 = apply_pending(cpu);
    let (b, c1, s1) = spec_fetch_byte::<T>(c0, s);
    match opcode_entry(b) {
        None => (c1, s1, StepResult { opcode: None, cycles: 0, opcode_byte: b }),
        Some((i, m)) => {
            let (operand, c2, s2) = spec_resolve_operand::<T>(c1, s1, m);
            let (c3, s3, extra) = spec_execute::<T>(c2, s2, i, operand);
            let extra_cycles = match extra {
                Some(e) => e as int,
                None => 0,
            };
            (
                c3,
                s3,
                StepResult {
                    opcode: Some(
                        OpCode { instr: i, mode: m, value: b, base_cycle: base_cycles(i, m) },
                    ),
                    cycles: (base_cycles(i, m) + extra_cycles) as u8,
                    opcode_byte: b,
                },
            )
        },
    }
}

/// The step is defined: every access it makes is defined, the program counter does not run
/// past $FFFF while the instruction is read, and the stack pointer does not leave the page.
#[verifier::opaque]
pub open spec fn step_ok<T: MemoryBus>(cpu: CPU, s: T::State) -> bool {
    let c0 = apply_pending(cpu);
    let (b, c1, s1) = spec_fetch_byte::<T>(c0, s);
    &&& fetch_byte_ok::<T>(c0, s)
    &&& match opcode_entry(b) {
        None => true,
        Some((i, m)) => {
            let (operand, c2, s2) = spec_resolve_operand::<T>(c1, s1, m);
            resolve_operand_ok::<T>(c1, s1, m) && execute_ok::<T>(c2, s2, i, operand)
        },
    }
}

/// The operand kinds that each instruction works on.
pub open spec fn mode_fits(i: Instruction, m: AddressingMode) -> bool {
    match i {
        Instruction::BCC | Instruction::BCS | Instruction::BEQ | Instruction::BNE
        | Instruction::BPL | Instruction::BMI | Instruction::BVC | Instruction::BVS => m is Relative,
        Instruction::INC | Instruction::DEC | Instruction::ISB | Instruction::DCP | Instruction::SLO
        | Instruction::SRE | Instruction::RRA | Instruction::RLA | Instruction::BIT | Instruction::STA
        | Instruction::STX | Instruction::STY | Instruction::SAX | Instruction::JMP
        | Instruction::JSR => m.is_memory(),
        Instruction::ASL | Instruction::LSR | Instruction::ROL | Instruction::ROR => m is Accumulator
            || m.is_memory(),
        Instruction::ADC | Instruction::SBC | Instruction::AND | Instruction::ORA | Instruction::EOR
        | Instruction::CMP | Instruction::CPX | Instruction::CPY => m is Accumulator || m is Immediate
            || m.is_memory(),
        Instruction::LDA | Instruction::LDX | Instruction::LDY | Instruction::LAX => m is Immediate
            || m.is_memory(),
        _ => true,
    }
}

/// The instructions that take an operand.
pub open spec fn needs_operand(i: Instruction) -> bool {
    !(i is NOP || i is BRK || i is RTI || i is RTS || i is PHA || i is PHP || i is PLA || i is PLP
        || i is INX || i is DEX || i is INY || i is DEY || i is TAX || i is TAY || i is TXA
        || i is TYA || i is TSX || i is TXS || i is CLC || i is SEC || i is CLI || i is SEI
        || i is CLD || i is SED || i is CLV)
}

/// Every opcode of the table pairs its instruction with an addressing mode that the
/// instruction works on.
pub proof fn lemma_opcode_entry_fits(b: u8)
    ensures
        opcode_entry(b) matches Some((i, m)) ==> mode_fits(i, m),
{
}

} // verus!

verus! {

// ---------------------------------------------------------------------------------------
// Bit-level facts used by the instruction implementations
// ---------------------------------------------------------------------------------------
/// The sign-bit test of ADC detects exactly a signed result outside -128..=127.
pub proof fn lemma_adc_overflow(a: u8, v: u8, c: u8, r: u8)
    requires
        c <= 1,
        r as int == (a + v + c) % 256,
    ensures
        (((r ^ a) & (r ^ v) & 0x80) != 0) == (signed(a) + signed(v) + c < -128 || signed(a)
            + signed(v) + c > 127),
{
    assert((((r ^ a) & (r ^ v) & 0x80) != 0) == (signed(a) + signed(v) + c < -128 || signed(a)
        + signed(v) + c > 127)) by (bit_vector)
        requires
            c <= 1,
            r as int == (a + v + c) % 256,
    ;
}

/// The sign-bit test of SBC detects exactly a signed result outside -128..=127.
pub proof fn lemma_sbc_overflow(a: u8, v: u8, c: u8, r: u8)
    requires
        c <= 1,
        r as int == (a + (255 - v) + c) % 256,
    ensures
        (((r ^ a) & (r ^ !v) & 0x80) != 0) == (signed(a) - signed(v) - (1 - c) < -128 || signed(
            a,
        ) - signed(v) - (1 - c) > 127),
{
    assert((((r ^ a) & (r ^ !v) & 0x80) != 0) == (signed(a) - signed(v) - (1 - c) < -128
        || signed(a) - signed(v) - (1 - c) > 127)) by (bit_vector)
        requires
            c <= 1,
            r as int == (a + (255 - v) + c) % 256,
    ;
}

} // verus!
