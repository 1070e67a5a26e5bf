mod addressing_mode;
mod instruction;
pub mod laws;
mod opcode;
pub mod semantics;
mod status_register;

pub use addressing_mode::AddressingMode;
pub use instruction::Instruction;
pub use opcode::OpCode;
pub use opcode::{base_cycles, opcode_entry, spec_decode};
pub use status_register::StatusRegister;
pub use status_register::{has_flags, with_flag};

use crate::memory::{access_kept, is_memory_page_crossed, MemoryBus};
use semantics::{
    signed,
    word,
    low_byte,
    high_byte,
    stack_addr,
    add16,
    add8,
    carry_in,
    nz,
    zn,
    pulled_flags,
    reg,
    set_reg,
    set_regs,
    with_p,
    with_pc,
    with_sp,
    adc_regs,
    sbc_regs,
    bitwise,
    bitwise_regs,
    bit_regs,
    compare_regs,
    shift_result,
    shift_flags,
    rd,
    spec_fetch_byte,
    fetch_byte_ok,
    spec_fetch_word,
    fetch_word_ok,
    spec_operand_address,
    indirect_high_addr,
    operand_address_ok,
    spec_resolve_operand,
    resolve_operand_ok,
    operand_value,
    value_operand_ok,
    modify_operand_ok,
    shift_operand_ok,
    page_cycle,
    Outcome,
    spec_adc,
    spec_sbc,
    spec_step_memory,
    spec_bitwise,
    spec_bit,
    spec_compare,
    spec_shift,
    spec_store,
    spec_load,
    spec_transfer,
    spec_register_arithmetic,
    spec_branch,
    push,
    pull,
    push_ok,
    pull_ok,
    push_word,
    push_word_ok,
    pull_word,
    pull_word_ok,
    spec_jsr,
    spec_rts,
    spec_brk,
    brk_ok,
    spec_rti,
    rti_ok,
    spec_pull_register,
    spec_php,
    spec_plp,
    unwrap_operand,
    branch_taken,
    is_branch,
    shift_of,
    flag_of,
    spec_execute,
    execute_ok,
    apply_pending,
    spec_step,
    step_ok,
    mode_fits,
    needs_operand,
    lemma_opcode_entry_fits,
    lemma_adc_overflow,
    lemma_sbc_overflow,
};
use vstd::prelude::*;

verus! {

#[derive(Debug)]
pub struct CPU {
    /// Accumulator:
    ///     The accumulator is the main register for arithmetic and logic
    ///     operations. Unlike the index registers X and Y, it has a direct
    ///     connection to the Arithmetic and Logic Unit (ALU). This is why
    ///     many operations are only available for the accumulator, not the
    ///     index registers.
    pub a: u8,
    /// Index Register X:
    ///    This is the main register for addressing data with indices. It has
    ///    a special addressing mode, indexed indirect, which lets you to
    ///    have a vector table on the zero page.
    pub x: u8,
    /// Index Register Y:
    ///    The Y register has the least operations available. On the other
    ///    hand, only it has the indirect indexed addressing mode that
    ///    enables access to any memory place without having to use
    ///    self-modifying code.
    pub y: u8,
    /// Program counter:
    ///    This register points the address from which the next instruction
    ///    byte (opcode or parameter) will be fetched. Unlike other
    ///    registers, this one is 16 bits in length. The low and high 8-bit
    ///    halves of the register are called PCL and PCH, respectively. The
    ///    Program Counter may be read by pushing its value on the stack.
    ///    This can be done either by jumping to a subroutine or by causing
    ///    an interrupt.
    pub pc: u16,
    /// Stack Pointer:
    ///    The CPU have 256 bytes of stack memory, ranging
    ///    from $0100 to $01FF. The SP register is a 8-bit offset to the stack
    ///    page. In other words, whenever anything is being pushed on the
    ///    stack, it will be stored to the address $0100+S.
    pub sp: StackPointer,
    /// Processor Status:
    ///    This 8-bit register stores the state of the processor. The bits in
    ///    this register are called flags. Most of the flags have something
    ///    to do with arithmetic operations.
    pub p: StatusRegister,
    /// Some changes to the InterruptDisabled flag are delayed to the next cycle,
    /// We keep track of any pending change that needs to be performed.
    pub pending_interrupt_flag_change: Option<bool>,
}

#[derive(Debug, Clone, Copy, PartialEq, Eq, Structural)]
/// Represents the operand that will be used for some instructions
pub enum Operand {
    /// Use the value of the accumulator
    Accumulator,
    /// The value that comes directly after the opcode
    Immediate(u8),
    /// Use a value from memory at a given address
    Memory(u16, bool),
    /// A signed offset used for branching
    Relative(i8),
}

#[derive(Debug, Clone, Copy, PartialEq, Eq, Structural)]
pub enum Register {
    X,
    Y,
    A,
    SP,
}

#[derive(Debug, Clone, Copy, PartialEq, Eq, Structural)]
pub enum ArithmeticOperation {
    Increment,
    Decrement,
}

#[derive(Debug, Clone, Copy, PartialEq, Eq, Structural)]
pub enum BitwiseOperation {
    And,
    Or,
    Xor,
}

#[derive(Debug)]
pub struct StackPointer {
    pub value: u8,
}

/// An "Empty Descending" stack pointer.
/// The stack pointer points to the last valid data item pushed onto the stack.
impl StackPointer {
    pub fn push_byte<T: MemoryBus>(&mut self, memory: &mut T, value: u8)
        requires
            old(self).value > 0,
            T::writable(old(memory).state(), stack_addr(old(self).value)),
        ensures
            access_kept::<T>(old(memory).state(), final(memory).state()),
            final(self).value == old(self).value - 1,
            final(memory).state() == T::after_write(
                old(memory).state(),
                stack_addr(old(self).value),
                value,
            ),
    {
        let sp = self.value;
        assert(0x0100 | sp as u16 == 0x100 + sp) by (bit_vector);
        memory.write_byte(0x0100 | self.value as u16, value);
        self.value -= 1;
    }

    pub fn pop_byte<T: MemoryBus>(&mut self, memory: &mut T) -> (r: u8)
        requires
            old(self).value < 255,
            T::readable(old(memory).state(), stack_addr((old(self).value + 1) as u8)),
        ensures
            access_kept::<T>(old(memory).state(), final(memory).state()),
            final(self).value == old(self).value + 1,
            r == T::read_value(old(memory).state(), stack_addr(final(self).value)),
            final(memory).state() == T::after_read(
                old(memory).state(),
                stack_addr(final(self).value),
            ),
    {
        self.value += 1;
        let sp = self.value;
        assert(0x0100 | sp as u16 == 0x100 + sp) by (bit_vector);
        let value = memory.read_byte(0x0100 | self.value as u16);
        value
    }
}

pub struct StepResult {
    pub opcode: Option<OpCode>,
    pub cycles: u8,
    /// The byte fetched as the opcode, also when it decodes to no instruction.
    pub opcode_byte: u8,
}

impl Default for StackPointer {
    fn default() -> (r: Self)
        ensures
            r.value == 0xFF,
    {
        StackPointer { value: 0xFF }
    }
}

impl Default for CPU {
    fn default() -> (r: Self)
        ensures
            r == CPU::initial(),
    {
        Self::new()
    }
}

/// The uppercase hexadecimal digit of `n` (0 to 15).
pub open spec fn hex_digit(n: int) -> char {
    if n < 10 {
        (48 + n) as char
    } else {
        (55 + n) as char
    }
}

/// The last `width` uppercase hexadecimal digits of `v`, most significant first.
pub open spec fn hex(v: int, width: nat) -> Seq<char>
    decreases width,
{
    if width == 0 {
        seq![]
    } else {
        hex(v / 16, (width - 1) as nat).push(hex_digit(v % 16))
    }
}

/// The registers as one line: "PC:" and four hexadecimal digits, then A, X, Y, P and SP with
/// two digits each.
pub open spec fn registers_text(pc: u16, a: u8, x: u8, y: u8, p: u8, sp: u8) -> Seq<char> {
    "PC:"@ + hex(pc as int, 4) + " A:"@ + hex(a as int, 2) + " X:"@ + hex(x as int, 2) + " Y:"@ + hex(
        y as int,
        2,
    ) + " P:"@ + hex(p as int, 2) + " SP:"@ + hex(sp as int, 2)
}

/// `format!` with `{:04X}` for the program counter and `{:02X}` for the other registers:
/// uppercase hexadecimal, zero-padded to the register's width.
#[verifier::external_body]
fn format_registers(pc: u16, a: u8, x: u8, y: u8, p: u8, sp: u8) -> (r: String)
    ensures
        r@ == registers_text(pc, a, x, y, p, sp),
{
    format!("PC:{:04X} A:{:02X} X:{:02X} Y:{:02X} P:{:02X} SP:{:02X}", pc, a, x, y, p, sp)
}

/// The bytes of a word, low byte first.
fn word_bytes(w: u16) -> (r: (u8, u8))
    ensures
        r == (low_byte(w), high_byte(w)),
{
    ((w % 256) as u8, (w / 256) as u8)
}

/// The word made of two bytes, low byte first.
fn make_word(low: u8, high: u8) -> (r: u16)
    ensures
        r == word(low, high),
{
    low as u16 + (high as u16) * 256
}

impl CPU {
    /// The power-up state: registers cleared, the stack pointer at $FD, interrupts disabled.
    pub open spec fn initial() -> CPU {
        CPU {
            a: 0,
            x: 0,
            y: 0,
            pc: 0,
            sp: StackPointer { value: 0xFD },
            p: StatusRegister {
                bits: with_flag(
                    StatusRegister::InterruptDisabled,
                    StatusRegister::Unused,
                    true,
                ),
            },
            pending_interrupt_flag_change: None,
        }
    }

    pub fn new() -> (r: CPU)
        ensures
            r == CPU::initial(),
    {
        // Reference value: https://www.nesdev.org/wiki/CPU_power_up_state
        CPU {
            a: 0,
            x: 0,
            y: 0,
            pc: 0,
            sp: StackPointer { value: 0xFD },
            p: StatusRegister::from_bits_truncate(
                StatusRegister::InterruptDisabled | StatusRegister::Unused,
            ),
            pending_interrupt_flag_change: None,
        }
    }

    /// Loads the program counter from the reset vector at $FFFC.
    pub fn power_up<T: MemoryBus>(&mut self, memory: &mut T)
        requires
            T::readable(old(memory).state(), 0xFFFC),
            T::readable(T::after_read(old(memory).state(), 0xFFFC), 0xFFFD),
        ensures
            access_kept::<T>(old(memory).state(), final(memory).state()),
            ({
                let (low, s1) = rd::<T>(old(memory).state(), 0xFFFC);
                let (high, s2) = rd::<T>(s1, 0xFFFD);
                &&& *final(self) == with_pc(*old(self), word(low, high))
                &&& final(memory).state() == s2
            }),
    {
        // Reference value: https://www.nesdev.org/wiki/CPU_power_up_state
        let low = memory.read_byte(0xFFFC);
        let high = memory.read_byte(0xFFFD);
        self.pc = make_word(low, high);
    }

    /// Step the CPU: fetch the next instruction and execute it
    /// returns the number of cycles it took
    #[verifier::rlimit(100)]
    #[verifier::spinoff_prover]
    pub fn step<T: MemoryBus>(&mut self, memory: &mut T) -> (r: StepResult)
        requires
            step_ok::<T>(*old(self), old(memory).state()),
        ensures
            access_kept::<T>(old(memory).state(), final(memory).state()),
            (*final(self), final(memory).state(), r) == spec_step::<T>(
                *old(self),
                old(memory).state(),
            ),
            r.opcode is Some ==> r.cycles >= 2,
    {
        proof {
            reveal(spec_step);
            reveal(step_ok);
        }
        // When changing the "disable interrupt" flag through some instruction,
        // The change is delayed to the next instruction.
        if let Some(value) = self.pending_interrupt_flag_change {
            self.p.set(StatusRegister::InterruptDisabled, value);
            self.pending_interrupt_flag_change = None;
        }
        // Fetch the next instruction
        let value = self.fetch_byte(memory);

        // Decode it
        let decode = OpCode::try_from(value);
        let opcode = match decode {
            Ok(opcode) => opcode,
            Err(_) => {
                return StepResult { opcode: None, cycles: 0, opcode_byte: value };
            },
        };
        proof {
            lemma_opcode_entry_fits(value);
        }

        let operand = self.resolve_operand(memory, opcode.mode);
        let extra_cycles = self.execute(memory, opcode.instr, operand);

        let extra: u8 = match extra_cycles {
            Some(e) => e,
            None => 0,
        };
        let cycles = opcode.base_cycle + extra;

        StepResult { opcode: Some(opcode), cycles, opcode_byte: value }
    }

    /// Executes a decoded instruction with its operand; returns the extra cycles it took.
    fn execute<T: MemoryBus>(&mut self, memory: &mut T, instr: Instruction, operand: Option<Operand>) -> (r:
        Option<u8>)
        requires
            execute_ok::<T>(*old(self), old(memory).state(), instr, operand),
            needs_operand(instr) ==> (operand is Some),
        ensures
            access_kept::<T>(old(memory).state(), final(memory).state()),
            (*final(self), final(memory).state(), r) == spec_execute::<T>(
                *old(self),
                old(memory).state(),
                instr,
                operand,
            ),
            r matches Some(e) ==> e <= 2,
    {
        match instr {
            Instruction::ADC | Instruction::SBC | Instruction::INC | Instruction::DEC | Instruction::AND | Instruction::ORA | Instruction::EOR | Instruction::BIT | Instruction::ASL | Instruction::LSR | Instruction::ROL | Instruction::ROR | Instruction::CMP | Instruction::CPX | Instruction::CPY => {
                self.execute_alu(memory, instr, operand)
            },
            Instruction::ISB | Instruction::DCP | Instruction::SLO | Instruction::SRE | Instruction::RRA | Instruction::RLA => {
                self.execute_combined(memory, instr, operand)
            },
            Instruction::BCC | Instruction::BCS | Instruction::BEQ | Instruction::BNE | Instruction::BPL | Instruction::BMI | Instruction::BVC | Instruction::BVS => {
                self.execute_branch(memory, instr, operand)
            },
            Instruction::LDA | Instruction::LDX | Instruction::LDY | Instruction::LAX => {
                self.execute_load(memory, instr, operand)
            },
            Instruction::INX | Instruction::DEX | Instruction::INY | Instruction::DEY | Instruction::STA | Instruction::STX | Instruction::STY | Instruction::SAX | Instruction::TAX | Instruction::TAY | Instruction::TXA | Instruction::TYA | Instruction::TSX | Instruction::TXS => {
                self.execute_transfer(memory, instr, operand)
            },
            Instruction::JMP | Instruction::JSR | Instruction::RTS | Instruction::BRK | Instruction::RTI | Instruction::PHA | Instruction::PLA | Instruction::PHP | Instruction::PLP | Instruction::CLC | Instruction::SEC | Instruction::CLI | Instruction::SEI | Instruction::CLD | Instruction::SED | Instruction::CLV | Instruction::NOP => {
                self.execute_control(memory, instr, operand)
            },
        }
    }

    /// Arithmetic, logic, shift and compare instructions.
    #[verifier::spinoff_prover]
    fn execute_alu<T: MemoryBus>(&mut self, memory: &mut T, instr: Instruction, operand: Option<Operand>) -> (r:
        Option<u8>)
        requires
            execute_ok::<T>(*old(self), old(memory).state(), instr, operand),
            needs_operand(instr) ==> (operand is Some),
            (instr is ADC || instr is SBC || instr is INC || instr is DEC || instr is AND || instr is ORA || instr is EOR || instr is BIT || instr is ASL || instr is LSR || instr is ROL || instr is ROR || instr is CMP || instr is CPX || instr is CPY),
        ensures
            access_kept::<T>(old(memory).state(), final(memory).state()),
            (*final(self), final(memory).state(), r) == spec_execute::<T>(
                *old(self),
                old(memory).state(),
                instr,
                operand,
            ),
            r matches Some(e) ==> e <= 2,
    {
        let op = match operand {
            Some(o) => o,
            None => Operand::Accumulator,
        };
        match instr {
            Instruction::ADC => self.instr_adc(memory, op),
            Instruction::SBC => self.instr_sbc(memory, op),
            Instruction::INC => self.instr_inc(memory, op),
            Instruction::DEC => self.instr_dec(memory, op),
            Instruction::AND => self.instr_bitwise(memory, op, BitwiseOperation::And),
            Instruction::ORA => self.instr_bitwise(memory, op, BitwiseOperation::Or),
            Instruction::EOR => self.instr_bitwise(memory, op, BitwiseOperation::Xor),
            Instruction::BIT => self.instr_bit(memory, op),
            Instruction::ASL => self.instr_asl(memory, op),
            Instruction::LSR => self.instr_lsr(memory, op),
            Instruction::ROL => self.instr_rol(memory, op),
            Instruction::ROR => self.instr_ror(memory, op),
            Instruction::CMP => self.instr_compare(memory, op, Register::A),
            Instruction::CPX => self.instr_compare(memory, op, Register::X),
            Instruction::CPY => self.instr_compare(memory, op, Register::Y),
            _ => None,
        }
    }

    /// The undocumented instructions that chain a read-modify-write with an arithmetic or logic instruction.
    #[verifier::spinoff_prover]
    fn execute_combined<T: MemoryBus>(&mut self, memory: &mut T, instr: Instruction, operand: Option<Operand>) -> (r:
        Option<u8>)
        requires
            execute_ok::<T>(*old(self), old(memory).state(), instr, operand),
            needs_operand(instr) ==> (operand is Some),
            (instr is ISB || instr is DCP || instr is SLO || instr is SRE || instr is RRA || instr is RLA),
        ensures
            access_kept::<T>(old(memory).state(), final(memory).state()),
            (*final(self), final(memory).state(), r) == spec_execute::<T>(
                *old(self),
                old(memory).state(),
                instr,
                operand,
            ),
            r matches Some(e) ==> e <= 2,
    {
        let op = match operand {
            Some(o) => o,
            None => Operand::Accumulator,
        };
        match instr {
            Instruction::ISB => {
                self.instr_inc(memory, op);
                self.instr_sbc(memory, op);
                None
            },
            Instruction::DCP => {
                self.instr_dec(memory, op);
                self.instr_compare(memory, op, Register::A);
                None
            },
            Instruction::SLO => {
                self.instr_asl(memory, op);
                self.instr_bitwise(memory, op, BitwiseOperation::Or);
                None
            },
            Instruction::SRE => {
                self.instr_lsr(memory, op);
                self.instr_bitwise(memory, op, BitwiseOperation::Xor);
                None
            },
            Instruction::RRA => {
                self.instr_ror(memory, op);
                self.instr_adc(memory, op);
                None
            },
            Instruction::RLA => {
                self.instr_rol(memory, op);
                self.instr_bitwise(memory, op, BitwiseOperation::And);
                None
            },
            _ => None,
        }
    }

    /// The conditional branches.
    #[verifier::spinoff_prover]
    fn execute_branch<T: MemoryBus>(&mut self, memory: &mut T, instr: Instruction, operand: Option<Operand>) -> (r:
        Option<u8>)
        requires
            execute_ok::<T>(*old(self), old(memory).state(), instr, operand),
            needs_operand(instr) ==> (operand is Some),
            (instr is BCC || instr is BCS || instr is BEQ || instr is BNE || instr is BPL || instr is BMI || instr is BVC || instr is BVS),
        ensures
            access_kept::<T>(old(memory).state(), final(memory).state()),
            (*final(self), final(memory).state(), r) == spec_execute::<T>(
                *old(self),
                old(memory).state(),
                instr,
                operand,
            ),
            r matches Some(e) ==> e <= 2,
    {
        let op = match operand {
            Some(o) => o,
            None => Operand::Accumulator,
        };
        match instr {
            Instruction::BCC => {
                let taken = !self.p.contains(StatusRegister::Carry);
                self.generic_instr_branch(op, taken)
            },
            Instruction::BCS => {
                let taken = self.p.contains(StatusRegister::Carry);
                self.generic_instr_branch(op, taken)
            },
            Instruction::BEQ => {
                let taken = self.p.contains(StatusRegister::Zero);
                self.generic_instr_branch(op, taken)
            },
            Instruction::BNE => {
                let taken = !self.p.contains(StatusRegister::Zero);
                self.generic_instr_branch(op, taken)
            },
            Instruction::BPL => {
                let taken = !self.p.contains(StatusRegister::Negative);
                self.generic_instr_branch(op, taken)
            },
            Instruction::BMI => {
                let taken = self.p.contains(StatusRegister::Negative);
                self.generic_instr_branch(op, taken)
            },
            Instruction::BVC => {
                let taken = !self.p.contains(StatusRegister::Overflow);
                self.generic_instr_branch(op, taken)
            },
            Instruction::BVS => {
                let taken = self.p.contains(StatusRegister::Overflow);
                self.generic_instr_branch(op, taken)
            },
            _ => None,
        }
    }

    /// The loads.
    #[verifier::spinoff_prover]
    fn execute_load<T: MemoryBus>(&mut self, memory: &mut T, instr: Instruction, operand: Option<Operand>) -> (r:
        Option<u8>)
        requires
            execute_ok::<T>(*old(self), old(memory).state(), instr, operand),
            needs_operand(instr) ==> (operand is Some),
            (instr is LDA || instr is LDX || instr is LDY || instr is LAX),
        ensures
            access_kept::<T>(old(memory).state(), final(memory).state()),
            (*final(self), final(memory).state(), r) == spec_execute::<T>(
                *old(self),
                old(memory).state(),
                instr,
                operand,
            ),
            r matches Some(e) ==> e <= 2,
    {
        let op = match operand {
            Some(o) => o,
            None => Operand::Accumulator,
        };
        let registers = match instr {
            Instruction::LDA => vec![Register::A],
            Instruction::LDX => vec![Register::X],
            Instruction::LDY => vec![Register::Y],
            _ => vec![Register::A, Register::X],
        };
        proof {
            reveal_with_fuel(set_regs, 3);
            assert(instr is LDA ==> registers@ =~= seq![Register::A]);
            assert(instr is LDX ==> registers@ =~= seq![Register::X]);
            assert(instr is LDY ==> registers@ =~= seq![Register::Y]);
            assert(instr is LAX ==> registers@ =~= seq![Register::A, Register::X]);
        }
        self.instr_load(memory, registers, op)
    }

    /// Stores, transfers, and register increments.
    #[verifier::spinoff_prover]
    #[verifier::rlimit(100)]
    fn execute_transfer<T: MemoryBus>(&mut self, memory: &mut T, instr: Instruction, operand: Option<Operand>) -> (r:
        Option<u8>)
        requires
            execute_ok::<T>(*old(self), old(memory).state(), instr, operand),
            needs_operand(instr) ==> (operand is Some),
            (instr is INX || instr is DEX || instr is INY || instr is DEY || instr is STA || instr is STX || instr is STY || instr is SAX || instr is TAX || instr is TAY || instr is TXA || instr is TYA || instr is TSX || instr is TXS),
        ensures
            access_kept::<T>(old(memory).state(), final(memory).state()),
            (*final(self), final(memory).state(), r) == spec_execute::<T>(
                *old(self),
                old(memory).state(),
                instr,
                operand,
            ),
            r matches Some(e) ==> e <= 2,
    {
        let op = match operand {
            Some(o) => o,
            None => Operand::Accumulator,
        };
        match instr {
            Instruction::INX => {
                self.generic_register_arithmetic(Register::X, ArithmeticOperation::Increment)
            },
            Instruction::DEX => {
                self.generic_register_arithmetic(Register::X, ArithmeticOperation::Decrement)
            },
            Instruction::INY => {
                self.generic_register_arithmetic(Register::Y, ArithmeticOperation::Increment)
            },
            Instruction::DEY => {
                self.generic_register_arithmetic(Register::Y, ArithmeticOperation::Decrement)
            },
            Instruction::STA => self.instr_store(memory, Register::A, op),
            Instruction::STX => self.instr_store(memory, Register::X, op),
            Instruction::STY => self.instr_store(memory, Register::Y, op),
            Instruction::SAX => self.instr_store_and(memory, Register::A, Register::X, op),
            Instruction::TAX => self.instr_transfer(Register::A, Register::X),
            Instruction::TAY => self.instr_transfer(Register::A, Register::Y),
            Instruction::TXA => self.instr_transfer(Register::X, Register::A),
            Instruction::TYA => self.instr_transfer(Register::Y, Register::A),
            Instruction::TSX => self.instr_transfer(Register::SP, Register::X),
            Instruction::TXS => self.instr_transfer(Register::X, Register::SP),
            _ => None,
        }
    }

    /// Jumps, subroutines, interrupts, the stack, the flags, and NOP.
    #[verifier::spinoff_prover]
    #[verifier::rlimit(100)]
    fn execute_control<T: MemoryBus>(&mut self, memory: &mut T, instr: Instruction, operand: Option<Operand>) -> (r:
        Option<u8>)
        requires
            execute_ok::<T>(*old(self), old(memory).state(), instr, operand),
            needs_operand(instr) ==> (operand is Some),
            (instr is JMP || instr is JSR || instr is RTS || instr is BRK || instr is RTI || instr is PHA || instr is PLA || instr is PHP || instr is PLP || instr is CLC || instr is SEC || instr is CLI || instr is SEI || instr is CLD || instr is SED || instr is CLV || instr is NOP),
        ensures
            access_kept::<T>(old(memory).state(), final(memory).state()),
            (*final(self), final(memory).state(), r) == spec_execute::<T>(
                *old(self),
                old(memory).state(),
                instr,
                operand,
            ),
            r matches Some(e) ==> e <= 2,
    {
        let op = match operand {
            Some(o) => o,
            None => Operand::Accumulator,
        };
        match instr {
            Instruction::JMP => self.instr_jump(op),
            Instruction::JSR => self.instr_jump_to_subroutine(memory, op),
            Instruction::RTS => self.instr_return_from_subroutine(memory),
            Instruction::BRK => self.instr_break(memory),
            Instruction::RTI => self.instr_return_from_interrupt(memory),
            Instruction::PHA => self.instr_push_register_to_sp(memory, Register::A),
            Instruction::PLA => self.instr_pull_register_from_sp(memory, Register::A),
            Instruction::PHP => self.instr_push_flags_to_sp(memory),
            Instruction::PLP => self.instr_pull_flags_from_sp(memory),
            Instruction::CLC => self.instr_clear_flag(StatusRegister::Carry),
            Instruction::SEC => self.instr_set_flag(StatusRegister::Carry),
            Instruction::CLI => {
                self.pending_interrupt_flag_change = Some(false);
                None
            },
            Instruction::SEI => {
                self.pending_interrupt_flag_change = Some(true);
                None
            },
            Instruction::CLD => self.instr_clear_flag(StatusRegister::Decimal),
            Instruction::SED => self.instr_set_flag(StatusRegister::Decimal),
            Instruction::CLV => self.instr_clear_flag(StatusRegister::Overflow),
            Instruction::NOP => match operand {
                Some(Operand::Memory(_, true)) => Some(1),
                _ => None,
            },
            _ => None,
        }
    }

    pub fn fetch_byte<T: MemoryBus>(&mut self, memory: &mut T) -> (r: u8)
        requires
            fetch_byte_ok::<T>(*old(self), old(memory).state()),
        ensures
            access_kept::<T>(old(memory).state(), final(memory).state()),
            (r, *final(self), final(memory).state()) == spec_fetch_byte::<T>(
                *old(self),
                old(memory).state(),
            ),
    {
        let value = memory.read_byte(self.pc);
        self.pc += 1;
        value
    }

    pub fn fetch_word<T: MemoryBus>(&mut self, memory: &mut T) -> (r: u16)
        requires
            fetch_word_ok::<T>(*old(self), old(memory).state()),
        ensures
            access_kept::<T>(old(memory).state(), final(memory).state()),
            (r, *final(self), final(memory).state()) == spec_fetch_word::<T>(
                *old(self),
                old(memory).state(),
            ),
    {
        let low = memory.read_byte(self.pc);
        let high = memory.read_byte(self.pc + 1);
        self.pc += 2;
        make_word(low, high)
    }

    pub fn resolve_operand<T: MemoryBus>(&mut self, memory: &mut T, mode: AddressingMode) -> (r:
        Option<Operand>)
        requires
            resolve_operand_ok::<T>(*old(self), old(memory).state(), mode),
        ensures
            access_kept::<T>(old(memory).state(), final(memory).state()),
            (r, *final(self), final(memory).state()) == spec_resolve_operand::<T>(
                *old(self),
                old(memory).state(),
                mode,
            ),
    {
        match mode {
            AddressingMode::Immediate => Some(Operand::Immediate(self.fetch_byte(memory))),
            AddressingMode::Accumulator => Some(Operand::Accumulator),
            AddressingMode::Relative => Some(Operand::Relative(self.fetch_byte(memory) as i8)),
            AddressingMode::Implicit => None,
            _ => {
                let (addr, page_crossed) = self.get_operand_address(memory, mode);
                Some(Operand::Memory(addr, page_crossed))
            },
        }
    }

    #[verifier::spinoff_prover]
    #[verifier::rlimit(60)]
    pub fn get_operand_address<T: MemoryBus>(
        &mut self,
        memory: &mut T,
        addressing_mode: AddressingMode,
    ) -> (r: (u16, bool))
        requires
            operand_address_ok::<T>(*old(self), old(memory).state(), addressing_mode),
        ensures
            access_kept::<T>(old(memory).state(), final(memory).state()),
            (r, *final(self), final(memory).state()) == spec_operand_address::<T>(
                *old(self),
                old(memory).state(),
                addressing_mode,
            ),
    {
        match addressing_mode {
            // Fetch a value from the zero-page (0x00FF)
            AddressingMode::ZeroPage => {
                let arg = self.fetch_byte(memory);
                (arg as u16, false)
            },
            // Fetches the value from an 8-bit address with the offset in X on the zero page.
            AddressingMode::ZeroPageX => {
                let arg = self.fetch_byte(memory);
                (arg.wrapping_add(self.x) as u16, false)
            },
            // Fetches the value from an 8-bit address with the offset in Y on the zero page.
            AddressingMode::ZeroPageY => {
                let arg = self.fetch_byte(memory);
                (arg.wrapping_add(self.y) as u16, false)
            },
            // Fetches the value from a 16-bit address anywhere in memory.
            AddressingMode::Absolute => (self.fetch_word(memory), false),
            // Fetches the value from a 16-bit address with the offset in X.
            AddressingMode::AbsoluteX => {
                let arg = self.fetch_word(memory);
                let addr = arg.wrapping_add(self.x as u16);
                (addr, is_memory_page_crossed(arg, addr))
            },
            // Fetches the value from a 16-bit address with the offset in Y.
            AddressingMode::AbsoluteY => {
                let arg = self.fetch_word(memory);
                let addr = arg.wrapping_add(self.y as u16);
                (addr, is_memory_page_crossed(arg, addr))
            },
            AddressingMode::Indirect => {
                let arg = self.fetch_word(memory);
                let low = memory.read_byte(arg);
                // 6502 indirect jump bug:
                // when the address is at the end of page, the CPU fails to increment the page when reading the second byte.
                // Instead, it will wraps to the beginning of the page, reading the wrong address.
                // For example JMP ($03FF) reads $03FF and $0300 instead of $0400
                // We need to replicate this behavior to ensure correctness.
                assert((arg & 0x00FF) == 0x00FF <==> arg % 256 == 255) by (bit_vector);
                assert(arg % 256 == 255 ==> arg & 0xFF00 == arg - 255) by (bit_vector);
                let high_addr = if (arg & 0x00FF) == 0x00FF {
                    arg & 0xFF00
                } else {
                    arg + 1
                };
                let high = memory.read_byte(high_addr);
                let addr = make_word(low, high);
                (addr, false)
            },
            AddressingMode::IndirectX => {
                let arg = self.fetch_byte(memory);
                let ptr = arg.wrapping_add(self.x);
                let low = memory.read_byte(ptr as u16);
                let high = memory.read_byte(ptr.wrapping_add(1) as u16);
                let addr = make_word(low, high);
                (addr, false)
            },
            AddressingMode::IndirectY => {
                let arg = self.fetch_byte(memory);
                let low = memory.read_byte(arg as u16);
                let high = memory.read_byte(arg.wrapping_add(1) as u16);
                let base_addr = make_word(low, high);
                let addr = base_addr.wrapping_add(self.y as u16);
                (addr, is_memory_page_crossed(base_addr, addr))
            },
            _ => {
                // The other modes do not operate on memory; the precondition excludes them.
                (0, false)
            },
        }
    }

    /// The value of an operand that is read: the accumulator, an immediate byte, or a
    /// byte of memory.
    fn read_operand<T: MemoryBus>(&self, memory: &mut T, operand: Operand) -> (r: u8)
        requires
            value_operand_ok::<T>(old(memory).state(), operand),
        ensures
            access_kept::<T>(old(memory).state(), final(memory).state()),
            (r, final(memory).state()) == operand_value::<T>(*self, old(memory).state(), operand),
    {
        match operand {
            Operand::Accumulator => self.a,
            Operand::Immediate(val) => val,
            Operand::Memory(addr, _) => memory.read_byte(addr),
            Operand::Relative(_) => 0,
        }
    }

    /// The extra cycle of an operand whose address crossed a page.
    fn page_crossing_cycle(operand: Operand) -> (r: Option<u8>)
        ensures
            r == page_cycle(operand),
    {
        match operand {
            Operand::Memory(_, true) => Some(1),
            _ => None,
        }
    }

    /// ADC instruction: Adds the carry flag and an operand to the accumulator.
    fn instr_adc<T: MemoryBus>(&mut self, memory: &mut T, operand: Operand) -> (r: Option<u8>)
        requires
            value_operand_ok::<T>(old(memory).state(), operand),
        ensures
            access_kept::<T>(old(memory).state(), final(memory).state()),
            (*final(self), final(memory).state(), r) == spec_adc::<T>(
                *old(self),
                old(memory).state(),
                operand,
            ),
    {
        let value = self.read_operand(memory, operand);
        let carry: u16 = if self.p.contains(StatusRegister::Carry) {
            1
        } else {
            0
        };
        let result: u16 = self.a as u16 + value as u16 + carry;
        let prev_value = self.a;
        self.a = (result % 256) as u8;
        proof {
            lemma_adc_overflow(prev_value, value, carry as u8, self.a);
        }
        self.p.set(StatusRegister::Carry, result > 0xFF);
        self.p.update_zero_flag(self.a);
        // If the result's sign is different from both A's and memory's, signed overflow (or underflow) occurred.
        self.p.set(StatusRegister::Overflow, ((self.a ^ prev_value) & (self.a ^ value) & 0x80) != 0);
        self.p.update_negative_flag(self.a);

        // If we crossed a memory page, we need to add an extra cycle
        Self::page_crossing_cycle(operand)
    }

    /// SBC instruction: Substracts the NOT of the carry flag and an operand from the accumulator.
    fn instr_sbc<T: MemoryBus>(&mut self, memory: &mut T, operand: Operand) -> (r: Option<u8>)
        requires
            value_operand_ok::<T>(old(memory).state(), operand),
        ensures
            access_kept::<T>(old(memory).state(), final(memory).state()),
            (*final(self), final(memory).state(), r) == spec_sbc::<T>(
                *old(self),
                old(memory).state(),
                operand,
            ),
    {
        let value = self.read_operand(memory, operand);
        let carry: u16 = if self.p.contains(StatusRegister::Carry) {
            1
        } else {
            0
        };
        assert(!value == 255 - value) by (bit_vector);
        let result: u16 = self.a as u16 + (!value) as u16 + carry;
        let prev_value = self.a;
        self.a = (result % 256) as u8;
        proof {
            lemma_sbc_overflow(prev_value, value, carry as u8, self.a);
        }
        self.p.set(StatusRegister::Carry, result >= 0x100);
        self.p.update_zero_flag(self.a);
        // If the result's sign is different from both A's and memory's, signed overflow (or underflow) occurred.
        self.p.set(
            StatusRegister::Overflow,
            (self.a ^ prev_value) & (self.a ^ !value) & 0x80 != 0,
        );
        self.p.update_negative_flag(self.a);

        // If we crossed a memory page, we need do add an extra cycle
        Self::page_crossing_cycle(operand)
    }

    /// INC instruction: Adds 1 to a memory location.
    fn instr_inc<T: MemoryBus>(&mut self, memory: &mut T, operand: Operand) -> (r: Option<u8>)
        requires
            modify_operand_ok::<T>(old(memory).state(), operand),
        ensures
            access_kept::<T>(old(memory).state(), final(memory).state()),
            (*final(self), final(memory).state(), r) == spec_step_memory::<T>(
                *old(self),
                old(memory).state(),
                operand,
                1,
            ),
    {
        if let Operand::Memory(addr, _) = operand {
            let value = memory.read_byte(addr).wrapping_add(1);
            memory.write_byte(addr, value);
            self.p.update_zero_flag(value);
            self.p.update_negative_flag(value);
        }
        None
    }

    /// DEC instruction: Substracts 1 from a memory location.
    fn instr_dec<T: MemoryBus>(&mut self, memory: &mut T, operand: Operand) -> (r: Option<u8>)
        requires
            modify_operand_ok::<T>(old(memory).state(), operand),
        ensures
            access_kept::<T>(old(memory).state(), final(memory).state()),
            (*final(self), final(memory).state(), r) == spec_step_memory::<T>(
                *old(self),
                old(memory).state(),
                operand,
                -1,
            ),
    {
        if let Operand::Memory(addr, _) = operand {
            let value = memory.read_byte(addr).wrapping_sub(1);
            memory.write_byte(addr, value);
            self.p.update_zero_flag(value);
            self.p.update_negative_flag(value);
        }
        None
    }

    fn instr_bitwise<T: MemoryBus>(
        &mut self,
        memory: &mut T,
        operand: Operand,
        operation: BitwiseOperation,
    ) -> (r: Option<u8>)
        requires
            value_operand_ok::<T>(old(memory).state(), operand),
        ensures
            access_kept::<T>(old(memory).state(), final(memory).state()),
            (*final(self), final(memory).state(), r) == spec_bitwise::<T>(
                *old(self),
                old(memory).state(),
                operand,
                operation,
            ),
    {
        let value = self.read_operand(memory, operand);

        self.a = match operation {
            BitwiseOperation::And => self.a & value,
            BitwiseOperation::Or => self.a | value,
            BitwiseOperation::Xor => self.a ^ value,
        };

        self.p.update_zero_flag(self.a);
        self.p.update_negative_flag(self.a);

        // If we crossed a memory page, we need do add an extra cycle
        Self::page_crossing_cycle(operand)
    }

    fn instr_bit<T: MemoryBus>(&mut self, memory: &mut T, operand: Operand) -> (r: Option<u8>)
        requires
            (operand is Memory),
            T::readable(old(memory).state(), operand->Memory_0),
        ensures
            access_kept::<T>(old(memory).state(), final(memory).state()),
            (*final(self), final(memory).state(), r) == spec_bit::<T>(
                *old(self),
                old(memory).state(),
                operand,
            ),
    {
        let value = self.read_operand(memory, operand);

        let bit_test = self.a & value;

        assert((value & 0b01000000) > 0 <==> (value / 64) % 2 == 1) by (bit_vector);
        assert((value & 0b10000000) > 0 <==> value >= 128) by (bit_vector);
        self.p.update_zero_flag(bit_test);
        self.p.set(StatusRegister::Overflow, (value & 0b01000000) > 0);
        self.p.set(StatusRegister::Negative, (value & 0b10000000) > 0);

        None
    }

    fn instr_compare<T: MemoryBus>(
        &mut self,
        memory: &mut T,
        operand: Operand,
        register: Register,
    ) -> (r: Option<u8>)
        requires
            value_operand_ok::<T>(old(memory).state(), operand),
        ensures
            access_kept::<T>(old(memory).state(), final(memory).state()),
            (*final(self), final(memory).state(), r) == spec_compare::<T>(
                *old(self),
                old(memory).state(),
                operand,
                register,
            ),
    {
        let value = self.read_operand(memory, operand);

        let reg = self.get_register(register);
        let diff = reg.wrapping_sub(value);
        assert(diff & 0x80 != 0 <==> diff >= 128) by (bit_vector);
        self.p.set(StatusRegister::Carry, reg >= value);
        self.p.set(StatusRegister::Zero, reg == value);
        self.p.set(StatusRegister::Negative, diff & 0x80 != 0);

        Self::page_crossing_cycle(operand)
    }

    /// Writes the result of a shift or rotation back where its operand came from.
    fn write_back<T: MemoryBus>(&mut self, memory: &mut T, operand: Operand, value: u8)
        requires
            (operand is Accumulator) || ((operand is Memory) && T::writable(
                old(memory).state(),
                operand->Memory_0,
            )),
        ensures
            access_kept::<T>(old(memory).state(), final(memory).state()),
            (operand is Accumulator) ==> (*final(self) == (CPU { a: value, ..*old(self) })
                && final(memory).state() == old(memory).state()),
            (operand is Memory) ==> (*final(self) == *old(self) && final(memory).state()
                == T::after_write(old(memory).state(), operand->Memory_0, value)),
    {
        match operand {
            Operand::Accumulator => {
                self.a = value;
            },
            Operand::Memory(addr, _) => memory.write_byte(addr, value),
            _ => {},
        }
    }

    /// ASL instruction: shifts all the bits of an operand one position to the left
    /// highest bit will be put in the carry
    fn instr_asl<T: MemoryBus>(&mut self, memory: &mut T, operand: Operand) -> (r: Option<u8>)
        requires
            shift_operand_ok::<T>(old(memory).state(), operand),
        ensures
            access_kept::<T>(old(memory).state(), final(memory).state()),
            (*final(self), final(memory).state(), r) == spec_shift::<T>(
                *old(self),
                old(memory).state(),
                operand,
                Instruction::ASL,
            ),
    {
        let value = self.read_operand(memory, operand);

        let shifted_value = value << 1;
        assert(shifted_value == ((0 + 2 * value) % 256) as u8) by (bit_vector)
            requires
                shifted_value == value << 1,
        ;
        assert(value & 0x80 != 0 <==> value >= 128) by (bit_vector);
        self.p.set(StatusRegister::Carry, value & 0x80 != 0);
        self.p.update_zero_flag(shifted_value);
        self.p.update_negative_flag(shifted_value);

        self.write_back(memory, operand, shifted_value);

        None
    }

    /// LSR instruction: shifts all the bits of a memory value or the accumulator one position to the right
    /// lowest bit will be put in the carry
    fn instr_lsr<T: MemoryBus>(&mut self, memory: &mut T, operand: Operand) -> (r: Option<u8>)
        requires
            shift_operand_ok::<T>(old(memory).state(), operand),
        ensures
            access_kept::<T>(old(memory).state(), final(memory).state()),
            (*final(self), final(memory).state(), r) == spec_shift::<T>(
                *old(self),
                old(memory).state(),
                operand,
                Instruction::LSR,
            ),
    {
        let value = self.read_operand(memory, operand);

        let shifted_value = value >> 1;
        assert(shifted_value == value / 2) by (bit_vector)
            requires
                shifted_value == value >> 1,
        ;
        assert(value & 0x01 > 0 <==> value % 2 == 1) by (bit_vector);
        self.p.set(StatusRegister::Carry, value & 0x01 > 0);
        self.p.update_zero_flag(shifted_value);
        self.p.set(StatusRegister::Negative, false);

        self.write_back(memory, operand, shifted_value);

        None
    }

    /// ROL instruction: Shifts a memory value of the accumulator to the left through the carry.
    fn instr_rol<T: MemoryBus>(&mut self, memory: &mut T, operand: Operand) -> (r: Option<u8>)
        requires
            shift_operand_ok::<T>(old(memory).state(), operand),
        ensures
            access_kept::<T>(old(memory).state(), final(memory).state()),
            (*final(self), final(memory).state(), r) == spec_shift::<T>(
                *old(self),
                old(memory).state(),
                operand,
                Instruction::ROL,
            ),
    {
        let value = self.read_operand(memory, operand);
        let carry: u8 = if self.p.contains(StatusRegister::Carry) {
            1
        } else {
            0
        };
        let shifted_value = (value << 1) | carry;
        assert(shifted_value == ((0 + (2 * value + carry)) % 256) as u8) by (bit_vector)
            requires
                shifted_value == (value << 1) | carry,
                carry <= 1,
        ;
        assert(value & 0x80 != 0 <==> value >= 128) by (bit_vector);
        self.p.set(StatusRegister::Carry, value & 0x80 != 0);
        self.p.update_zero_flag(shifted_value);
        self.p.update_negative_flag(shifted_value);

        self.write_back(memory, operand, shifted_value);

        None
    }

    /// ROR instruction: Shifts a memory value of the accumulator to the right through the carry.
    fn instr_ror<T: MemoryBus>(&mut self, memory: &mut T, operand: Operand) -> (r: Option<u8>)
        requires
            shift_operand_ok::<T>(old(memory).state(), operand),
        ensures
            access_kept::<T>(old(memory).state(), final(memory).state()),
            (*final(self), final(memory).state(), r) == spec_shift::<T>(
                *old(self),
                old(memory).state(),
                operand,
                Instruction::ROR,
            ),
    {
        let value = self.read_operand(memory, operand);
        let carry: u8 = if self.p.contains(StatusRegister::Carry) {
            1
        } else {
            0
        };
        let shifted_value = (value >> 1) | (carry << 7);
        assert(shifted_value == value / 2 + 128 * carry) by (bit_vector)
            requires
                shifted_value == (value >> 1) | (carry << 7),
                carry <= 1,
        ;
        assert(value & 0x01 != 0 <==> value % 2 == 1) by (bit_vector);
        self.p.set(StatusRegister::Carry, value & 0x01 != 0);
        self.p.update_zero_flag(shifted_value);
        self.p.update_negative_flag(shifted_value);

        self.write_back(memory, operand, shifted_value);

        None
    }

    pub fn get_register_mut(&mut self, register: Register) -> (r: &mut u8)
        ensures
            *r == reg(*old(self), register),
            *final(self) == set_reg(*old(self), register, *final(r)),
    {
        match register {
            Register::X => &mut self.x,
            Register::Y => &mut self.y,
            Register::A => &mut self.a,
            Register::SP => &mut self.sp.value,
        }
    }

    /// The registers as one line of text, as a trace of the CPU shows them.
    pub fn to_string(&self) -> (r: String)
        ensures
            r@ == registers_text(self.pc, self.a, self.x, self.y, self.p.bits, self.sp.value),
    {
        format_registers(self.pc, self.a, self.x, self.y, self.p.bits(), self.sp.value)
    }

    pub fn get_register(&self, register: Register) -> (r: u8)
        ensures
            r == reg(*self, register),
    {
        match register {
            Register::X => self.x,
            Register::Y => self.y,
            Register::A => self.a,
            Register::SP => self.sp.value,
        }
    }

    fn instr_store<T: MemoryBus>(&mut self, memory: &mut T, register: Register, operand: Operand) -> (r:
        Option<u8>)
        requires
            (operand is Memory),
            T::writable(old(memory).state(), operand->Memory_0),
        ensures
            access_kept::<T>(old(memory).state(), final(memory).state()),
            (*final(self), final(memory).state(), r) == spec_store::<T>(
                *old(self),
                old(memory).state(),
                operand,
                reg(*old(self), register),
            ),
    {
        if let Operand::Memory(addr, _) = operand {
            let value = self.get_register(register);
            memory.write_byte(addr, value);
        }
        None
    }

    fn instr_store_and<T: MemoryBus>(
        &mut self,
        memory: &mut T,
        register1: Register,
        register2: Register,
        operand: Operand,
    ) -> (r: Option<u8>)
        requires
            (operand is Memory),
            T::writable(old(memory).state(), operand->Memory_0),
        ensures
            access_kept::<T>(old(memory).state(), final(memory).state()),
            (*final(self), final(memory).state(), r) == spec_store::<T>(
                *old(self),
                old(memory).state(),
                operand,
                reg(*old(self), register1) & reg(*old(self), register2),
            ),
    {
        if let Operand::Memory(addr, _) = operand {
            let value1 = self.get_register(register1);
            let value2 = self.get_register(register2);
            memory.write_byte(addr, value1 & value2);
        }
        None
    }

    fn instr_load<T: MemoryBus>(&mut self, memory: &mut T, registers: Vec<Register>, operand: Operand) -> (r:
        Option<u8>)
        requires
            value_operand_ok::<T>(old(memory).state(), operand),
            !(operand is Accumulator),
        ensures
            access_kept::<T>(old(memory).state(), final(memory).state()),
            (*final(self), final(memory).state(), r) == spec_load::<T>(
                *old(self),
                old(memory).state(),
                registers@,
                operand,
            ),
    {
        let value = self.read_operand(memory, operand);
        let ghost start = *self;
        assert(registers@.skip(0) =~= registers@);
        let mut i: usize = 0;
        while i < registers.len()
            invariant
                0 <= i <= registers.len(),
                set_regs(start, registers@, value) == set_regs(*self, registers@.skip(i as int), value),
            decreases registers.len() - i,
        {
            assert(registers@.skip(i as int).drop_first() =~= registers@.skip(i + 1));
            let reg = self.get_register_mut(registers[i]);
            *reg = value;
            i += 1;
        }
        assert(registers@.skip(i as int) =~= Seq::<Register>::empty());

        self.p.update_negative_flag(value);
        self.p.update_zero_flag(value);

        Self::page_crossing_cycle(operand)
    }

    fn instr_transfer(&mut self, source: Register, target: Register) -> (r: Option<u8>)
        ensures
            *final(self) == spec_transfer(*old(self), source, target),
            r is None,
    {
        let source = self.get_register(source);
        let target_reg = self.get_register_mut(target);
        *target_reg = source;
        // We only update the flags for some register
        if matches!(target, Register::A | Register::X | Register::Y) {
            self.p.update_negative_flag(source);
            self.p.update_zero_flag(source);
        }
        None
    }

    fn generic_register_arithmetic(&mut self, register: Register, operation: ArithmeticOperation) -> (r:
        Option<u8>)
        ensures
            *final(self) == spec_register_arithmetic(*old(self), register, operation),
            r is None,
    {
        let reg = self.get_register_mut(register);
        let value = match operation {
            ArithmeticOperation::Increment => (*reg).wrapping_add(1),
            ArithmeticOperation::Decrement => (*reg).wrapping_sub(1),
        };

        *reg = value;

        self.p.update_negative_flag(value);
        self.p.update_zero_flag(value);
        None
    }

    fn generic_instr_branch(&mut self, operand: Operand, should_branch: bool) -> (r: Option<u8>)
        requires
            (operand is Relative),
        ensures
            (*final(self), r) == spec_branch(*old(self), operand, should_branch),
    {
        let value = match operand {
            Operand::Relative(val) => val,
            _ => 0,
        };

        if should_branch {
            let prev_pc = self.pc;
            self.pc = self.pc.wrapping_add_signed(value as i16);
            let page_crossed = is_memory_page_crossed(prev_pc, self.pc);
            Some(
                if page_crossed {
                    2
                } else {
                    1
                },
            )
        } else {
            None
        }
    }

    fn instr_jump(&mut self, operand: Operand) -> (r: Option<u8>)
        requires
            (operand is Memory),
        ensures
            *final(self) == with_pc(*old(self), operand->Memory_0),
            r is None,
    {
        if let Operand::Memory(addr, _) = operand {
            self.pc = addr;
        }
        None
    }

    fn instr_jump_to_subroutine<T: MemoryBus>(&mut self, memory: &mut T, operand: Operand) -> (r:
        Option<u8>)
        requires
            (operand is Memory),
            push_word_ok::<T>(*old(self), old(memory).state(), add16(old(self).pc, -1)),
        ensures
            access_kept::<T>(old(memory).state(), final(memory).state()),
            (*final(self), final(memory).state(), r) == spec_jsr::<T>(
                *old(self),
                old(memory).state(),
                operand,
            ),
    {
        // JSR pushes the pc that points right before the next instruction
        let (low, high) = word_bytes(self.pc.wrapping_sub(1));
        self.sp.push_byte(memory, high);
        self.sp.push_byte(memory, low);

        if let Operand::Memory(addr, _) = operand {
            self.pc = addr;
        }
        None
    }

    fn instr_return_from_subroutine<T: MemoryBus>(&mut self, memory: &mut T) -> (r: Option<u8>)
        requires
            pull_word_ok::<T>(*old(self), old(memory).state()),
        ensures
            access_kept::<T>(old(memory).state(), final(memory).state()),
            (*final(self), final(memory).state(), r) == spec_rts::<T>(
                *old(self),
                old(memory).state(),
            ),
    {
        let low = self.sp.pop_byte(memory);
        let high = self.sp.pop_byte(memory);

        // Since JSR pushed the address before the next instruction, we need to increment by one
        self.pc = make_word(low, high).wrapping_add(1);
        None
    }

    fn instr_break<T: MemoryBus>(&mut self, memory: &mut T) -> (r: Option<u8>)
        requires
            brk_ok::<T>(*old(self), old(memory).state()),
        ensures
            access_kept::<T>(old(memory).state(), final(memory).state()),
            (*final(self), final(memory).state(), r) == spec_brk::<T>(
                *old(self),
                old(memory).state(),
            ),
    {
        let pc_value = self.pc.wrapping_add(1);
        // When we get an IRQ we push the current PC and processor flags to the stack.
        let (low, high) = word_bytes(pc_value);
        self.sp.push_byte(memory, high);
        self.sp.push_byte(memory, low);

        // The break flag must be set on the flags that are pushed to the stack, not the flags in the CPU
        let mut current_flag = self.p.clone();
        current_flag.set(StatusRegister::Break, true);
        self.sp.push_byte(memory, current_flag.bits());

        let vector_low = memory.read_byte(0xFFFE);
        let vector_high = memory.read_byte(0xFFFF);
        self.pc = make_word(vector_low, vector_high);
        self.p.set(StatusRegister::InterruptDisabled, true);

        None
    }

    fn instr_return_from_interrupt<T: MemoryBus>(&mut self, memory: &mut T) -> (r: Option<u8>)
        requires
            rti_ok::<T>(*old(self), old(memory).state()),
        ensures
            access_kept::<T>(old(memory).state(), final(memory).state()),
            (*final(self), final(memory).state(), r) == spec_rti::<T>(
                *old(self),
                old(memory).state(),
            ),
    {
        let flags = self.sp.pop_byte(memory);
        let pc_low = self.sp.pop_byte(memory);
        let pc_high = self.sp.pop_byte(memory);
        self.pc = make_word(pc_low, pc_high);

        self.p = StatusRegister::from_bits_truncate(flags).union(StatusRegister::Unused);
        self.p.remove(StatusRegister::Break);

        None
    }

    fn instr_push_register_to_sp<T: MemoryBus>(&mut self, memory: &mut T, register: Register) -> (r:
        Option<u8>)
        requires
            push_ok::<T>(*old(self), old(memory).state()),
        ensures
            access_kept::<T>(old(memory).state(), final(memory).state()),
            ({
                let (c1, s1) = push::<T>(*old(self), old(memory).state(), reg(*old(self), register));
                *final(self) == c1 && final(memory).state() == s1 && r is None
            }),
    {
        let value = self.get_register(register);
        self.sp.push_byte(memory, value);

        None
    }

    fn instr_pull_register_from_sp<T: MemoryBus>(&mut self, memory: &mut T, register: Register) -> (r:
        Option<u8>)
        requires
            pull_ok::<T>(*old(self), old(memory).state()),
        ensures
            access_kept::<T>(old(memory).state(), final(memory).state()),
            (*final(self), final(memory).state(), r) == spec_pull_register::<T>(
                *old(self),
                old(memory).state(),
                register,
            ),
    {
        let value = self.sp.pop_byte(memory);
        let reg = self.get_register_mut(register);
        *reg = value;

        self.p.update_negative_flag(value);
        self.p.update_zero_flag(value);

        None
    }

    fn instr_push_flags_to_sp<T: MemoryBus>(&mut self, memory: &mut T) -> (r: Option<u8>)
        requires
            push_ok::<T>(*old(self), old(memory).state()),
        ensures
            access_kept::<T>(old(memory).state(), final(memory).state()),
            (*final(self), final(memory).state(), r) == spec_php::<T>(
                *old(self),
                old(memory).state(),
            ),
    {
        let flags = self.p.union(StatusRegister::Break);
        self.sp.push_byte(memory, flags.bits());

        None
    }

    fn instr_pull_flags_from_sp<T: MemoryBus>(&mut self, memory: &mut T) -> (r: Option<u8>)
        requires
            pull_ok::<T>(*old(self), old(memory).state()),
        ensures
            access_kept::<T>(old(memory).state(), final(memory).state()),
            (*final(self), final(memory).state(), r) == spec_plp::<T>(
                *old(self),
                old(memory).state(),
            ),
    {
        let value = self.sp.pop_byte(memory);

        self.p = StatusRegister::from_bits_truncate(value).union(StatusRegister::Unused);
        self.p.remove(StatusRegister::Break);

        None
    }

    fn instr_clear_flag(&mut self, flag: u8) -> (r: Option<u8>)
        ensures
            *final(self) == with_p(*old(self), with_flag(old(self).p.bits, flag, false)),
            r is None,
    {
        self.p.remove(flag);
        None
    }

    fn instr_set_flag(&mut self, flag: u8) -> (r: Option<u8>)
        ensures
            *final(self) == with_p(*old(self), with_flag(old(self).p.bits, flag, true)),
            r is None,
    {
        self.p.insert(flag);
        None
    }
}

} // verus!
