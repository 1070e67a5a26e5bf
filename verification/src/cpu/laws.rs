//! Properties of the instruction semantics that span several instructions.
use crate::cpu::semantics::{
    adc_regs, add16, pull, pull_ok, pull_word_ok, pulled_flags, push, push_ok, push_word_ok, sbc_regs,
    signed, spec_jsr, spec_php, spec_plp, spec_rts,
};
use crate::cpu::semantics::{
    carry_in, execute_ok, high_byte, low_byte, operand_value, resolve_operand_ok, shift_flags,
    shift_operand_ok, shift_result, spec_execute, spec_fetch_byte, spec_resolve_operand, spec_shift,
    spec_step, stack_addr, step_ok, word,
};
use crate::cpu::{
    has_flags, opcode_entry, with_flag, AddressingMode, Instruction, OpCode, Operand, StackPointer, StatusRegister,
    StepResult, CPU,
};
use crate::memory::{plain_bus, MemoryBus, RAM};
use vstd::prelude::*;

verus! {

/// SBC computes ADC of the complement of its operand: the accumulator and every flag agree.
pub proof fn lemma_sbc_is_adc_of_complement(cpu: CPU, v: u8)
    ensures
        sbc_regs(cpu, v) == adc_regs(cpu, (255 - v) as u8),
{
    let w = (255 - v) as u8;
    assert(signed(w) == -signed(v) - 1);
    assert((cpu.a - v - 1 + 1) % 256 == (cpu.a + w + 1) % 256);
    assert((cpu.a - v - 1) % 256 == (cpu.a + w) % 256);
}

/// On RAM, a pull right after a push gives back the pushed byte, and the stack pointer
/// returns to where it was.
pub proof fn lemma_pull_after_push(cpu: CPU, s: Seq<u8>, v: u8)
    requires
        push_ok::<RAM>(cpu, s),
    ensures
        ({
            let (c1, s1) = push::<RAM>(cpu, s, v);
            let (w, c2, s2) = pull::<RAM>(c1, s1);
            &&& pull_ok::<RAM>(c1, s1)
            &&& w == v
            &&& c2 == cpu
            &&& s2 == s1
        }),
{
}

/// On RAM, RTS right after JSR returns to where the JSR left off, with the stack pointer
/// back where it was.
pub proof fn lemma_rts_after_jsr(cpu: CPU, s: Seq<u8>, target: u16, crossed: bool)
    requires
        push_word_ok::<RAM>(cpu, s, add16(cpu.pc, -1)),
    ensures
        ({
            let (c1, s1, e1) = spec_jsr::<RAM>(cpu, s, Operand::Memory(target, crossed));
            let (c2, s2, e2) = spec_rts::<RAM>(c1, s1);
            &&& c1.pc == target
            &&& pull_word_ok::<RAM>(c1, s1)
            &&& c2 == cpu
            &&& s2 == s1
        }),
{
}

/// On RAM, PLP right after PHP restores every flag but the break flag and the unused bit,
/// and the other registers.
pub proof fn lemma_plp_after_php(cpu: CPU, s: Seq<u8>)
    requires
        push_ok::<RAM>(cpu, s),
    ensures
        ({
            let (c1, s1, e1) = spec_php::<RAM>(cpu, s);
            let (c2, s2, e2) = spec_plp::<RAM>(c1, s1);
            &&& c2.p.bits & 0xCF == cpu.p.bits & 0xCF
            &&& c2.p.bits & 0x30 == 0x20
            &&& c2.a == cpu.a && c2.x == cpu.x && c2.y == cpu.y
            &&& c2.sp == cpu.sp && c2.pc == cpu.pc
        }),
{
    let b = cpu.p.bits;
    let (c1, s1, e1) = spec_php::<RAM>(cpu, s);
    lemma_pull_after_push(cpu, s, with_flag(b, StatusRegister::Break, true));
    assert(pulled_flags(with_flag(b, 0x10, true)) & 0xCF == b & 0xCF
        && pulled_flags(with_flag(b, 0x10, true)) & 0x30 == 0x20) by {
        assert(((((b | 0x10) | 0x20) & !0x10u8) & 0xCF) == b & 0xCF && ((((b | 0x10) | 0x20) & !0x10u8)
            & 0x30) == 0x20) by (bit_vector);
    }
}

} // verus!

verus! {

/// The step of a JSR on a bus that behaves as plain memory: the return address (the JSR's
/// last byte) is pushed, high byte first, and the program counter set to the operand.
#[verifier::spinoff_prover]
#[verifier::rlimit(50)]
proof fn lemma_step_jsr<T: MemoryBus>(cpu: CPU, s: T::State)
    requires
        plain_bus::<T>(),
        cpu.pending_interrupt_flag_change is None,
        T::read_value(s, cpu.pc) == 0x20,
        step_ok::<T>(cpu, s),
    ensures
        ({
            let ret = ((cpu.pc + 2) % 0x10000) as u16;
            let sp = cpu.sp.value;
            let t = word(T::read_value(s, add16(cpu.pc, 1)), T::read_value(s, add16(cpu.pc, 2)));
            &&& cpu.pc + 3 <= 0xFFFF
            &&& sp >= 2
            &&& T::writable(s, stack_addr(sp))
            &&& T::writable(T::after_write(s, stack_addr(sp), high_byte(ret)), stack_addr((sp - 1) as u8))
            &&& spec_step::<T>(cpu, s) == (
                CPU { pc: t, sp: StackPointer { value: (sp - 2) as u8 }, ..cpu },
                T::after_write(
                    T::after_write(s, stack_addr(sp), high_byte(ret)),
                    stack_addr((sp - 1) as u8),
                    low_byte(ret),
                ),
                StepResult {
                    opcode: Some(OpCode { instr: Instruction::JSR, mode: AddressingMode::Absolute, value: 0x20, base_cycle: 6 }),
                    cycles: 6,
                    opcode_byte: 0x20,
                },
            )
        }),
{
    reveal(spec_step);
    reveal(step_ok);
    let pc = cpu.pc;
    let sp = cpu.sp.value;
    let t = word(T::read_value(s, add16(pc, 1)), T::read_value(s, add16(pc, 2)));
    let ret = ((pc + 2) % 0x10000) as u16;
    assert(opcode_entry(0x20) == Some((Instruction::JSR, AddressingMode::Absolute)));
    let (b, c1, s1) = spec_fetch_byte::<T>(cpu, s);
    assert(b == 0x20 && s1 == s && c1 == CPU { pc: add16(pc, 1), ..cpu });
    let (operand, c2, s2) = spec_resolve_operand::<T>(c1, s1, AddressingMode::Absolute);
    assert((operand, c2, s2) == (Some(Operand::Memory(t, false)), CPU { pc: add16(pc, 3), ..cpu }, s)) by {
        assert(resolve_operand_ok::<T>(c1, s1, AddressingMode::Absolute));
    }
    assert(execute_ok::<T>(c2, s2, Instruction::JSR, operand));
    assert(add16(c2.pc, -1) == ret);
    assert(spec_execute::<T>(c2, s2, Instruction::JSR, operand) == spec_jsr::<T>(c2, s2, Operand::Memory(t, false)));
}

/// The step of an RTS on a bus that behaves as plain memory: the return address is pulled,
/// low byte first, and the program counter set to the byte after it.
proof fn lemma_step_rts<T: MemoryBus>(cpu: CPU, s: T::State)
    requires
        plain_bus::<T>(),
        cpu.pending_interrupt_flag_change is None,
        T::read_value(s, cpu.pc) == 0x60,
        T::readable(s, cpu.pc),
        cpu.pc < 0xFFFF,
        cpu.sp.value < 254,
        T::readable(s, stack_addr((cpu.sp.value + 1) as u8)),
        T::readable(s, stack_addr((cpu.sp.value + 2) as u8)),
    ensures
        ({
            let sp = cpu.sp.value;
            let w = word(
                T::read_value(s, stack_addr((sp + 1) as u8)),
                T::read_value(s, stack_addr((sp + 2) as u8)),
            );
            &&& step_ok::<T>(cpu, s)
            &&& spec_step::<T>(cpu, s) == (
                CPU { pc: add16(w, 1), sp: StackPointer { value: (sp + 2) as u8 }, ..cpu },
                s,
                StepResult {
                    opcode: Some(OpCode { instr: Instruction::RTS, mode: AddressingMode::Implicit, value: 0x60, base_cycle: 6 }),
                    cycles: 6,
                    opcode_byte: 0x60,
                },
            )
        }),
{
    reveal(spec_step);
    reveal(step_ok);
    assert(opcode_entry(0x60) == Some((Instruction::RTS, AddressingMode::Implicit)));
}

/// On a bus that behaves as plain memory, a JSR to an RTS comes back: the first step calls
/// the subroutine at the JSR's operand, the second returns to the instruction after the JSR,
/// and the registers are those before the call. Each takes six cycles.
#[verifier::spinoff_prover]
#[verifier::rlimit(50)]
pub proof fn lemma_step_rts_after_jsr<T: MemoryBus>(cpu: CPU, s: T::State)
    requires
        plain_bus::<T>(),
        cpu.pending_interrupt_flag_change is None,
        T::read_value(s, cpu.pc) == 0x20,
        step_ok::<T>(cpu, s),
        ({
            let t = word(T::read_value(s, add16(cpu.pc, 1)), T::read_value(s, add16(cpu.pc, 2)));
            &&& T::read_value(s, t) == 0x60
            &&& T::readable(s, t)
            &&& t < 0xFFFF
            &&& t != stack_addr(cpu.sp.value)
            &&& t != stack_addr((cpu.sp.value - 1) as u8)
        }),
    ensures
        ({
            let (c1, s1, r1) = spec_step::<T>(cpu, s);
            let (c2, s2, r2) = spec_step::<T>(c1, s1);
            &&& c1.pc == word(T::read_value(s, add16(cpu.pc, 1)), T::read_value(s, add16(cpu.pc, 2)))
            &&& r1.cycles == 6
            &&& step_ok::<T>(c1, s1)
            &&& r2.cycles == 6
            &&& c2 == CPU { pc: (cpu.pc + 3) as u16, ..cpu }
        }),
{
    let pc = cpu.pc;
    let sp = cpu.sp.value;
    let t = word(T::read_value(s, add16(pc, 1)), T::read_value(s, add16(pc, 2)));
    let ret = ((pc + 2) % 0x10000) as u16;
    lemma_step_jsr::<T>(cpu, s);
    let (c1, s1, r1) = spec_step::<T>(cpu, s);
    let w1 = T::after_write(s, stack_addr(sp), high_byte(ret));
    let lo_addr = stack_addr((sp - 1) as u8);
    let hi_addr = stack_addr(sp);
    assert(s1 == T::after_write(w1, lo_addr, low_byte(ret)));
    assert(lo_addr != hi_addr);
    T::lemma_access_kept(s, hi_addr, t, high_byte(ret));
    T::lemma_access_kept(s, hi_addr, hi_addr, high_byte(ret));
    T::lemma_access_kept(w1, lo_addr, t, low_byte(ret));
    T::lemma_access_kept(w1, lo_addr, hi_addr, low_byte(ret));
    T::lemma_access_kept(w1, lo_addr, lo_addr, low_byte(ret));
    assert(T::readable(w1, t));
    assert(T::read_value(w1, t) == 0x60);
    assert(T::readable(s1, t));
    assert(T::read_value(s1, t) == 0x60);
    assert(T::read_value(s1, lo_addr) == low_byte(ret));
    assert(T::readable(w1, hi_addr));
    assert(T::read_value(w1, hi_addr) == high_byte(ret));
    assert(T::read_value(s1, hi_addr) == high_byte(ret));
    assert(((sp - 2) as u8 + 1) as u8 == (sp - 1) as u8 && ((sp - 2) as u8 + 2) as u8 == sp);
    lemma_step_rts::<T>(c1, s1);
    assert(word(low_byte(ret), high_byte(ret)) == ret);
}

} // verus!

verus! {

/// The step of a PHP on a bus that behaves as plain memory: the flags, with the break flag
/// set, go to the stack.
#[verifier::spinoff_prover]
#[verifier::rlimit(50)]
proof fn lemma_step_php<T: MemoryBus>(cpu: CPU, s: T::State)
    requires
        plain_bus::<T>(),
        cpu.pending_interrupt_flag_change is None,
        T::read_value(s, cpu.pc) == 0x08,
        step_ok::<T>(cpu, s),
    ensures
        ({
            let sp = cpu.sp.value;
            &&& cpu.pc < 0xFFFF
            &&& sp >= 1
            &&& T::writable(s, stack_addr(sp))
            &&& spec_step::<T>(cpu, s) == (
                CPU { pc: (cpu.pc + 1) as u16, sp: StackPointer { value: (sp - 1) as u8 }, ..cpu },
                T::after_write(s, stack_addr(sp), with_flag(cpu.p.bits, StatusRegister::Break, true)),
                StepResult {
                    opcode: Some(OpCode { instr: Instruction::PHP, mode: AddressingMode::Implicit, value: 0x08, base_cycle: 3 }),
                    cycles: 3,
                    opcode_byte: 0x08,
                },
            )
        }),
{
    reveal(spec_step);
    reveal(step_ok);
    assert(opcode_entry(0x08) == Some((Instruction::PHP, AddressingMode::Implicit)));
    let (b, c1, s1) = spec_fetch_byte::<T>(cpu, s);
    assert(b == 0x08 && s1 == s && c1 == CPU { pc: add16(cpu.pc, 1), ..cpu });
    assert(spec_resolve_operand::<T>(c1, s1, AddressingMode::Implicit) == (None::<Operand>, c1, s1));
    assert(execute_ok::<T>(c1, s1, Instruction::PHP, None));
    assert(spec_execute::<T>(c1, s1, Instruction::PHP, None) == spec_php::<T>(c1, s1));
}

/// The step of a PLP on a bus that behaves as plain memory: the flags come from the stack,
/// with the unused bit set and the break flag clear.
#[verifier::spinoff_prover]
proof fn lemma_step_plp<T: MemoryBus>(cpu: CPU, s: T::State)
    requires
        plain_bus::<T>(),
        cpu.pending_interrupt_flag_change is None,
        T::read_value(s, cpu.pc) == 0x28,
        T::readable(s, cpu.pc),
        cpu.pc < 0xFFFF,
        cpu.sp.value < 255,
        T::readable(s, stack_addr((cpu.sp.value + 1) as u8)),
    ensures
        ({
            let sp = cpu.sp.value;
            let v = T::read_value(s, stack_addr((sp + 1) as u8));
            &&& step_ok::<T>(cpu, s)
            &&& spec_step::<T>(cpu, s) == (
                CPU {
                    pc: (cpu.pc + 1) as u16,
                    sp: StackPointer { value: (sp + 1) as u8 },
                    p: StatusRegister { bits: pulled_flags(v) },
                    ..cpu
                },
                s,
                StepResult {
                    opcode: Some(OpCode { instr: Instruction::PLP, mode: AddressingMode::Implicit, value: 0x28, base_cycle: 4 }),
                    cycles: 4,
                    opcode_byte: 0x28,
                },
            )
        }),
{
    reveal(spec_step);
    reveal(step_ok);
    assert(opcode_entry(0x28) == Some((Instruction::PLP, AddressingMode::Implicit)));
}

/// On a bus that behaves as plain memory, PHP then PLP: the first step stacks the flags with
/// the break flag set, the second takes them back with the break flag clear and the unused
/// bit set, and the stack pointer returns. Flags that hold the unused bit and not the break
/// flag come back unchanged.
pub proof fn lemma_step_plp_after_php<T: MemoryBus>(cpu: CPU, s: T::State)
    requires
        plain_bus::<T>(),
        cpu.pending_interrupt_flag_change is None,
        T::read_value(s, cpu.pc) == 0x08,
        step_ok::<T>(cpu, s),
        T::read_value(s, add16(cpu.pc, 1)) == 0x28,
        T::readable(s, add16(cpu.pc, 1)),
        cpu.pc + 1 < 0xFFFF,
        add16(cpu.pc, 1) != stack_addr(cpu.sp.value),
    ensures
        ({
            let (c1, s1, r1) = spec_step::<T>(cpu, s);
            let (c2, s2, r2) = spec_step::<T>(c1, s1);
            let bits = (cpu.p.bits | 0x20) & 0xEF;
            &&& T::read_value(s1, stack_addr(cpu.sp.value)) == cpu.p.bits | 0x10
            &&& r1.cycles == 3
            &&& step_ok::<T>(c1, s1)
            &&& r2.cycles == 4
            &&& c2 == CPU { pc: (cpu.pc + 2) as u16, p: StatusRegister { bits }, ..cpu }
            &&& (cpu.p.bits & 0x30 == 0x20 ==> c2 == CPU { pc: (cpu.pc + 2) as u16, ..cpu })
        }),
{
    let sp = cpu.sp.value;
    let b = cpu.p.bits;
    let pushed = with_flag(b, StatusRegister::Break, true);
    lemma_step_php::<T>(cpu, s);
    let (c1, s1, r1) = spec_step::<T>(cpu, s);
    let pc1 = add16(cpu.pc, 1);
    T::lemma_access_kept(s, stack_addr(sp), pc1, pushed);
    T::lemma_access_kept(s, stack_addr(sp), stack_addr(sp), pushed);
    assert(T::read_value(s1, pc1) == 0x28);
    assert(T::read_value(s1, stack_addr(sp)) == pushed);
    assert(((sp - 1) as u8 + 1) as u8 == sp);
    lemma_step_plp::<T>(c1, s1);
    assert((((b | 0x10) | 0x20) & !0x10u8 == (b | 0x20) & 0xEF) && (b & 0x30 == 0x20 ==> (b | 0x20)
        & 0xEF == b)) by (bit_vector);
    assert(pushed == b | 0x10);
    assert(pulled_flags(pushed) == (b | 0x20) & 0xEF);
}

} // verus!

verus! {

/// Setting or clearing one of the carry, zero and negative flags leaves the other two alone.
proof fn lemma_with_flag(b: u8, on: bool)
    ensures
        has_flags(with_flag(b, 0x01, on), 0x01) == on,
        has_flags(with_flag(b, 0x01, on), 0x02) == has_flags(b, 0x02),
        has_flags(with_flag(b, 0x02, on), 0x02) == on,
        has_flags(with_flag(b, 0x02, on), 0x01) == has_flags(b, 0x01),
        has_flags(with_flag(b, 0x80, on), 0x80) == on,
        has_flags(with_flag(b, 0x80, on), 0x01) == has_flags(b, 0x01),
        has_flags(with_flag(b, 0x80, on), 0x02) == has_flags(b, 0x02),
{
    assert(((b | 1) & 1 == 1) && ((b & !1u8) & 1 != 1) && ((b | 1) & 2 == b & 2) && ((b & !1u8) & 2 == b
        & 2) && ((b | 2) & 2 == 2) && ((b & !2u8) & 2 != 2) && ((b | 2) & 1 == b & 1) && ((b & !2u8)
        & 1 == b & 1) && ((b | 0x80) & 0x80 == 0x80) && ((b & !0x80u8) & 0x80 != 0x80) && ((b | 0x80)
        & 1 == b & 1) && ((b & !0x80u8) & 1 == b & 1) && ((b | 0x80) & 2 == b & 2) && ((b & !0x80u8) & 2
        == b & 2)) by (bit_vector);
}

/// The carry, zero and negative flags after a shift or rotation.
proof fn lemma_shift_flags(i: Instruction, bits: u8, v: u8, c: int)
    requires
        !(i is LSR),
    ensures
        ({
            let (r, carry) = shift_result(i, v, c);
            let f = shift_flags(i, bits, v, c);
            &&& has_flags(f, StatusRegister::Carry) == carry
            &&& has_flags(f, StatusRegister::Zero) == (r == 0)
            &&& has_flags(f, StatusRegister::Negative) == (r >= 128)
        }),
{
    let (r, carry) = shift_result(i, v, c);
    let f1 = with_flag(bits, StatusRegister::Carry, carry);
    let f2 = with_flag(f1, StatusRegister::Zero, r == 0);
    lemma_with_flag(bits, carry);
    lemma_with_flag(f1, r == 0);
    lemma_with_flag(f2, r >= 128);
}

/// On a bus that behaves as plain memory, ROR undoes ROL through the carry: the operand and
/// the carry flag are back, the zero and negative flags tell of the operand, and the other
/// registers are unchanged.
pub proof fn lemma_ror_undoes_rol<T: MemoryBus>(cpu: CPU, s: T::State, op: Operand)
    requires
        plain_bus::<T>(),
        shift_operand_ok::<T>(s, op),
    ensures
        ({
            let (v0, _) = operand_value::<T>(cpu, s, op);
            let (c1, s1, _) = spec_shift::<T>(cpu, s, op, Instruction::ROL);
            let (c2, s2, _) = spec_shift::<T>(c1, s1, op, Instruction::ROR);
            &&& shift_operand_ok::<T>(s1, op)
            &&& operand_value::<T>(c2, s2, op).0 == v0
            &&& carry_in(c2.p) == carry_in(cpu.p)
            &&& has_flags(c2.p.bits, StatusRegister::Zero) == (v0 == 0)
            &&& has_flags(c2.p.bits, StatusRegister::Negative) == (v0 >= 128)
            &&& c2.x == cpu.x && c2.y == cpu.y && c2.sp == cpu.sp && c2.pc == cpu.pc
            &&& (op is Memory ==> c2.a == cpu.a)
        }),
{
    let (v0, _) = operand_value::<T>(cpu, s, op);
    let c = carry_in(cpu.p);
    let (r1, carry1) = shift_result(Instruction::ROL, v0, c);
    lemma_shift_flags(Instruction::ROL, cpu.p.bits, v0, c);
    let (c1, s1, _) = spec_shift::<T>(cpu, s, op, Instruction::ROL);
    assert(carry_in(c1.p) == (if v0 >= 128 { 1int } else { 0int }));
    let c_1 = carry_in(c1.p);
    let (r2, carry2) = shift_result(Instruction::ROR, r1, c_1);
    assert(r1 as int == (2 * v0 + c) % 256);
    assert(r2 == v0 && carry2 == (c == 1)) by {
        assert(0 <= c <= 1);
        if v0 >= 128 {
            assert(r1 as int == 2 * v0 + c - 256);
        } else {
            assert(r1 as int == 2 * v0 + c);
        }
    }
    lemma_shift_flags(Instruction::ROR, c1.p.bits, r1, c_1);
    if let Operand::Memory(addr, _) = op {
        T::lemma_access_kept(s, addr, addr, r1);
    }
}

} // verus!
