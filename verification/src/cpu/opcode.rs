use crate::cpu::addressing_mode::AddressingMode;
use crate::cpu::instruction::Instruction;
use vstd::prelude::*;
use vstd::std_specs::convert::TryFromSpecImpl;

verus! {

#[derive(Debug, Clone, Copy, PartialEq, Eq, Structural)]
pub struct OpCode {
    /// The instruction that will be executed from this opcode
    pub instr: Instruction,
    /// The addressing mode, this will determine how to fetch the operand
    pub mode: AddressingMode,
    /// The value of the opcode
    pub value: u8,
    /// The usual number of cycles that the CPU takes to execute this opcode, additional cycles can be added depending on the addressing mode
    pub base_cycle: u8,
}

// 6510 Instructions by Addressing Modes

// off- ++++++++++ Positive ++++++++++  ---------- Negative ----------
// set  00      20      40      60      80      a0      c0      e0      mode

// +00  BRK     JSR     RTI     RTS     NOP*    LDY     CPY     CPX     Impl/immed
// +01  ORA     AND     EOR     ADC     STA     LDA     CMP     SBC     (indir,x)
// +02   t       t       t       t      NOP*t   LDX     NOP*t   NOP*t     ? /immed
// +03  SLO*    RLA*    SRE*    RRA*    SAX*    LAX*    DCP*    ISB*    (indir,x)
// +04  NOP*    BIT     NOP*    NOP*    STY     LDY     CPY     CPX     Zeropage
// +05  ORA     AND     EOR     ADC     STA     LDA     CMP     SBC     Zeropage
// +06  ASL     ROL     LSR     ROR     STX     LDX     DEC     INC     Zeropage
// +07  SLO*    RLA*    SRE*    RRA*    SAX*    LAX*    DCP*    ISB*    Zeropage

// +08  PHP     PLP     PHA     PLA     DEY     TAY     INY     INX     Implied
// +09  ORA     AND     EOR     ADC     NOP*    LDA     CMP     SBC     Immediate
// +0a  ASL     ROL     LSR     ROR     TXA     TAX     DEX     NOP     Accu/impl
// +0b  ANC**   ANC**   ASR**   ARR**   ANE**   LXA**   SBX**   SBC*    Immediate
// +0c  NOP*    BIT     JMP     JMP ()  STY     LDY     CPY     CPX     Absolute
// +0d  ORA     AND     EOR     ADC     STA     LDA     CMP     SBC     Absolute
// +0e  ASL     ROL     LSR     ROR     STX     LDX     DEC     INC     Absolute
// +0f  SLO*    RLA*    SRE*    RRA*    SAX*    LAX*    DCP*    ISB*    Absolute

// +10  BPL     BMI     BVC     BVS     BCC     BCS     BNE     BEQ     Relative
// +11  ORA     AND     EOR     ADC     STA     LDA     CMP     SBC     (indir),y
// +12   t       t       t       t       t       t       t       t         ?
// +13  SLO*    RLA*    SRE*    RRA*    SHA**   LAX*    DCP*    ISB*    (indir),y
// +14  NOP*    NOP*    NOP*    NOP*    STY     LDY     NOP*    NOP*    Zeropage,x
// +15  ORA     AND     EOR     ADC     STA     LDA     CMP     SBC     Zeropage,x
// +16  ASL     ROL     LSR     ROR     STX  y) LDX  y) DEC     INC     Zeropage,x
// +17  SLO*    RLA*    SRE*    RRA*    SAX* y) LAX* y) DCP*    ISB*    Zeropage,x

// +18  CLC     SEC     CLI     SEI     TYA     CLV     CLD     SED     Implied
// +19  ORA     AND     EOR     ADC     STA     LDA     CMP     SBC     Absolute,y
// +1a  NOP*    NOP*    NOP*    NOP*    TXS     TSX     NOP*    NOP*    Implied
// +1b  SLO*    RLA*    SRE*    RRA*    SHS**   LAS**   DCP*    ISB*    Absolute,y
// +1c  NOP*    NOP*    NOP*    NOP*    SHY**   LDY     NOP*    NOP*    Absolute,x
// +1d  ORA     AND     EOR     ADC     STA     LDA     CMP     SBC     Absolute,x
// +1e  ASL     ROL     LSR     ROR     SHX**y) LDX  y) DEC     INC     Absolute,x
// +1f  SLO*    RLA*    SRE*    RRA*    SHA**y) LAX* y) DCP*    ISB*    Absolute,x

//         ROR intruction is available on MC650x microprocessors after
//         June, 1976.

//         Legend:

//         t       Jams the machine
//         *t      Jams very rarely
//         *       Undocumented command
//         **      Unusual operation
//         y)      indexed using Y instead of X
//         ()      indirect instead of absolute

// Note that the NOP instructions do have other addressing modes than the
// implied addressing. The NOP instruction is just like any other load
// instruction, except it does not store the result anywhere nor affects the
// flags.
//
// Source: https://www.nesdev.org/6502_cpu.txt

/// The instruction and addressing mode that each defined opcode byte stands for, as listed
/// in the 6502 opcode matrix above; `None` for the bytes that this CPU does not decode.
pub open spec fn opcode_entry(opcode: u8) -> Option<(Instruction, AddressingMode)> {
    match opcode {
        0x00 => Some((Instruction::BRK, AddressingMode::Implicit)),
        0x01 => Some((Instruction::ORA, AddressingMode::IndirectX)),
        0x03 => Some((Instruction::SLO, AddressingMode::IndirectX)),
        0x04 => Some((Instruction::NOP, AddressingMode::ZeroPage)),
        0x05 => Some((Instruction::ORA, AddressingMode::ZeroPage)),
        0x06 => Some((Instruction::ASL, AddressingMode::ZeroPage)),
        0x07 => Some((Instruction::SLO, AddressingMode::ZeroPage)),
        0x08 => Some((Instruction::PHP, AddressingMode::Implicit)),
        0x09 => Some((Instruction::ORA, AddressingMode::Immediate)),
        0x0A => Some((Instruction::ASL, AddressingMode::Accumulator)),
        0x0C => Some((Instruction::NOP, AddressingMode::Absolute)),
        0x0D => Some((Instruction::ORA, AddressingMode::Absolute)),
        0x0E => Some((Instruction::ASL, AddressingMode::Absolute)),
        0x0F => Some((Instruction::SLO, AddressingMode::Absolute)),
        0x10 => Some((Instruction::BPL, AddressingMode::Relative)),
        0x11 => Some((Instruction::ORA, AddressingMode::IndirectY)),
        0x13 => Some((Instruction::SLO, AddressingMode::IndirectY)),
        0x14 => Some((Instruction::NOP, AddressingMode::ZeroPageX)),
        0x15 => Some((Instruction::ORA, AddressingMode::ZeroPageX)),
        0x16 => Some((Instruction::ASL, AddressingMode::ZeroPageX)),
        0x17 => Some((Instruction::SLO, AddressingMode::ZeroPageX)),
        0x18 => Some((Instruction::CLC, AddressingMode::Implicit)),
        0x19 => Some((Instruction::ORA, AddressingMode::AbsoluteY)),
        0x1A => Some((Instruction::NOP, AddressingMode::Implicit)),
        0x1B => Some((Instruction::SLO, AddressingMode::AbsoluteY)),
        0x1C => Some((Instruction::NOP, AddressingMode::AbsoluteX)),
        0x1D => Some((Instruction::ORA, AddressingMode::AbsoluteX)),
        0x1E => Some((Instruction::ASL, AddressingMode::AbsoluteX)),
        0x1F => Some((Instruction::SLO, AddressingMode::AbsoluteX)),
        0x20 => Some((Instruction::JSR, AddressingMode::Absolute)),
        0x21 => Some((Instruction::AND, AddressingMode::IndirectX)),
        0x23 => Some((Instruction::RLA, AddressingMode::IndirectX)),
        0x24 => Some((Instruction::BIT, AddressingMode::ZeroPage)),
        0x25 => Some((Instruction::AND, AddressingMode::ZeroPage)),
        0x26 => Some((Instruction::ROL, AddressingMode::ZeroPage)),
        0x27 => Some((Instruction::RLA, AddressingMode::ZeroPage)),
        0x28 => Some((Instruction::PLP, AddressingMode::Implicit)),
        0x29 => Some((Instruction::AND, AddressingMode::Immediate)),
        0x2A => Some((Instruction::ROL, AddressingMode::Accumulator)),
        0x2C => Some((Instruction::BIT, AddressingMode::Absolute)),
        0x2D => Some((Instruction::AND, AddressingMode::Absolute)),
        0x2E => Some((Instruction::ROL, AddressingMode::Absolute)),
        0x2F => Some((Instruction::RLA, AddressingMode::Absolute)),
        0x30 => Some((Instruction::BMI, AddressingMode::Relative)),
        0x31 => Some((Instruction::AND, AddressingMode::IndirectY)),
        0x33 => Some((Instruction::RLA, AddressingMode::IndirectY)),
        0x34 => Some((Instruction::NOP, AddressingMode::ZeroPageX)),
        0x35 => Some((Instruction::AND, AddressingMode::ZeroPageX)),
        0x36 => Some((Instruction::ROL, AddressingMode::ZeroPageX)),
        0x37 => Some((Instruction::RLA, AddressingMode::ZeroPageX)),
        0x38 => Some((Instruction::SEC, AddressingMode::Implicit)),
        0x39 => Some((Instruction::AND, AddressingMode::AbsoluteY)),
        0x3A => Some((Instruction::NOP, AddressingMode::Implicit)),
        0x3B => Some((Instruction::RLA, AddressingMode::AbsoluteY)),
        0x3C => Some((Instruction::NOP, AddressingMode::AbsoluteX)),
        0x3D => Some((Instruction::AND, AddressingMode::AbsoluteX)),
        0x3E => Some((Instruction::ROL, AddressingMode::AbsoluteX)),
        0x3F => Some((Instruction::RLA, AddressingMode::AbsoluteX)),
        0x40 => Some((Instruction::RTI, AddressingMode::Implicit)),
        0x41 => Some((Instruction::EOR, AddressingMode::IndirectX)),
        0x43 => Some((Instruction::SRE, AddressingMode::IndirectX)),
        0x44 => Some((Instruction::NOP, AddressingMode::ZeroPage)),
        0x45 => Some((Instruction::EOR, AddressingMode::ZeroPage)),
        0x46 => Some((Instruction::LSR, AddressingMode::ZeroPage)),
        0x47 => Some((Instruction::SRE, AddressingMode::ZeroPage)),
        0x48 => Some((Instruction::PHA, AddressingMode::Implicit)),
        0x49 => Some((Instruction::EOR, AddressingMode::Immediate)),
        0x4A => Some((Instruction::LSR, AddressingMode::Accumulator)),
        0x4C => Some((Instruction::JMP, AddressingMode::Absolute)),
        0x4D => Some((Instruction::EOR, AddressingMode::Absolute)),
        0x4E => Some((Instruction::LSR, AddressingMode::Absolute)),
        0x4F => Some((Instruction::SRE, AddressingMode::Absolute)),
        0x50 => Some((Instruction::BVC, AddressingMode::Relative)),
        0x51 => Some((Instruction::EOR, AddressingMode::IndirectY)),
        0x53 => Some((Instruction::SRE, AddressingMode::IndirectY)),
        0x54 => Some((Instruction::NOP, AddressingMode::ZeroPageX)),
        0x55 => Some((Instruction::EOR, AddressingMode::ZeroPageX)),
        0x56 => Some((Instruction::LSR, AddressingMode::ZeroPageX)),
        0x57 => Some((Instruction::SRE, AddressingMode::ZeroPageX)),
        0x58 => Some((Instruction::CLI, AddressingMode::Implicit)),
        0x59 => Some((Instruction::EOR, AddressingMode::AbsoluteY)),
        0x5A => Some((Instruction::NOP, AddressingMode::Implicit)),
        0x5B => Some((Instruction::SRE, AddressingMode::AbsoluteY)),
        0x5C => Some((Instruction::NOP, AddressingMode::AbsoluteX)),
        0x5D => Some((Instruction::EOR, AddressingMode::AbsoluteX)),
        0x5E => Some((Instruction::LSR, AddressingMode::AbsoluteX)),
        0x5F => Some((Instruction::SRE, AddressingMode::AbsoluteX)),
        0x60 => Some((Instruction::RTS, AddressingMode::Implicit)),
        0x61 => Some((Instruction::ADC, AddressingMode::IndirectX)),
        0x63 => Some((Instruction::RRA, AddressingMode::IndirectX)),
        0x64 => Some((Instruction::NOP, AddressingMode::ZeroPage)),
        0x65 => Some((Instruction::ADC, AddressingMode::ZeroPage)),
        0x66 => Some((Instruction::ROR, AddressingMode::ZeroPage)),
        0x67 => Some((Instruction::RRA, AddressingMode::ZeroPage)),
        0x68 => Some((Instruction::PLA, AddressingMode::Implicit)),
        0x69 => Some((Instruction::ADC, AddressingMode::Immediate)),
        0x6A => Some((Instruction::ROR, AddressingMode::Accumulator)),
        0x6C => Some((Instruction::JMP, AddressingMode::Indirect)),
        0x6D => Some((Instruction::ADC, AddressingMode::Absolute)),
        0x6E => Some((Instruction::ROR, AddressingMode::Absolute)),
        0x6F => Some((Instruction::RRA, AddressingMode::Absolute)),
        0x70 => Some((Instruction::BVS, AddressingMode::Relative)),
        0x71 => Some((Instruction::ADC, AddressingMode::IndirectY)),
        0x73 => Some((Instruction::RRA, AddressingMode::IndirectY)),
        0x74 => Some((Instruction::NOP, AddressingMode::ZeroPageX)),
        0x75 => Some((Instruction::ADC, AddressingMode::ZeroPageX)),
        0x76 => Some((Instruction::ROR, AddressingMode::ZeroPageX)),
        0x77 => Some((Instruction::RRA, AddressingMode::ZeroPageX)),
        0x78 => Some((Instruction::SEI, AddressingMode::Implicit)),
        0x79 => Some((Instruction::ADC, AddressingMode::AbsoluteY)),
        0x7A => Some((Instruction::NOP, AddressingMode::Implicit)),
        0x7B => Some((Instruction::RRA, AddressingMode::AbsoluteY)),
        0x7C => Some((Instruction::NOP, AddressingMode::AbsoluteX)),
        0x7D => Some((Instruction::ADC, AddressingMode::AbsoluteX)),
        0x7E => Some((Instruction::ROR, AddressingMode::AbsoluteX)),
        0x7F => Some((Instruction::RRA, AddressingMode::AbsoluteX)),
        0x80 => Some((Instruction::NOP, AddressingMode::Immediate)),
        0x81 => Some((Instruction::STA, AddressingMode::IndirectX)),
        0x83 => Some((Instruction::SAX, AddressingMode::IndirectX)),
        0x84 => Some((Instruction::STY, AddressingMode::ZeroPage)),
        0x85 => Some((Instruction::STA, AddressingMode::ZeroPage)),
        0x86 => Some((Instruction::STX, AddressingMode::ZeroPage)),
        0x87 => Some((Instruction::SAX, AddressingMode::ZeroPage)),
        0x88 => Some((Instruction::DEY, AddressingMode::Implicit)),
        0x8A => Some((Instruction::TXA, AddressingMode::Implicit)),
        0x8C => Some((Instruction::STY, AddressingMode::Absolute)),
        0x8D => Some((Instruction::STA, AddressingMode::Absolute)),
        0x8E => Some((Instruction::STX, AddressingMode::Absolute)),
        0x8F => Some((Instruction::SAX, AddressingMode::Absolute)),
        0x90 => Some((Instruction::BCC, AddressingMode::Relative)),
        0x91 => Some((Instruction::STA, AddressingMode::IndirectY)),
        0x94 => Some((Instruction::STY, AddressingMode::ZeroPageX)),
        0x95 => Some((Instruction::STA, AddressingMode::ZeroPageX)),
        0x96 => Some((Instruction::STX, AddressingMode::ZeroPageY)),
        0x97 => Some((Instruction::SAX, AddressingMode::ZeroPageY)),
        0x98 => Some((Instruction::TYA, AddressingMode::Implicit)),
        0x99 => Some((Instruction::STA, AddressingMode::AbsoluteY)),
        0x9A => Some((Instruction::TXS, AddressingMode::Implicit)),
        0x9D => Some((Instruction::STA, AddressingMode::AbsoluteX)),
        0xA0 => Some((Instruction::LDY, AddressingMode::Immediate)),
        0xA1 => Some((Instruction::LDA, AddressingMode::IndirectX)),
        0xA2 => Some((Instruction::LDX, AddressingMode::Immediate)),
        0xA3 => Some((Instruction::LAX, AddressingMode::IndirectX)),
        0xA4 => Some((Instruction::LDY, AddressingMode::ZeroPage)),
        0xA5 => Some((Instruction::LDA, AddressingMode::ZeroPage)),
        0xA6 => Some((Instruction::LDX, AddressingMode::ZeroPage)),
        0xA7 => Some((Instruction::LAX, AddressingMode::ZeroPage)),
        0xA8 => Some((Instruction::TAY, AddressingMode::Implicit)),
        0xA9 => Some((Instruction::LDA, AddressingMode::Immediate)),
        0xAA => Some((Instruction::TAX, AddressingMode::Implicit)),
        0xAC => Some((Instruction::LDY, AddressingMode::Absolute)),
        0xAD => Some((Instruction::LDA, AddressingMode::Absolute)),
        0xAE => Some((Instruction::LDX, AddressingMode::Absolute)),
        0xAF => Some((Instruction::LAX, AddressingMode::Absolute)),
        0xB0 => Some((Instruction::BCS, AddressingMode::Relative)),
        0xB1 => Some((Instruction::LDA, AddressingMode::IndirectY)),
        0xB3 => Some((Instruction::LAX, AddressingMode::IndirectY)),
        0xB4 => Some((Instruction::LDY, AddressingMode::ZeroPageX)),
        0xB5 => Some((Instruction::LDA, AddressingMode::ZeroPageX)),
        0xB6 => Some((Instruction::LDX, AddressingMode::ZeroPageY)),
        0xB7 => Some((Instruction::LAX, AddressingMode::ZeroPageY)),
        0xB8 => Some((Instruction::CLV, AddressingMode::Implicit)),
        0xB9 => Some((Instruction::LDA, AddressingMode::AbsoluteY)),
        0xBA => Some((Instruction::TSX, AddressingMode::Implicit)),
        0xBC => Some((Instruction::LDY, AddressingMode::AbsoluteX)),
        0xBD => Some((Instruction::LDA, AddressingMode::AbsoluteX)),
        0xBE => Some((Instruction::LDX, AddressingMode::AbsoluteY)),
        0xBF => Some((Instruction::LAX, AddressingMode::AbsoluteY)),
        0xC0 => Some((Instruction::CPY, AddressingMode::Immediate)),
        0xC1 => Some((Instruction::CMP, AddressingMode::IndirectX)),
        0xC3 => Some((Instruction::DCP, AddressingMode::IndirectX)),
        0xC4 => Some((Instruction::CPY, AddressingMode::ZeroPage)),
        0xC5 => Some((Instruction::CMP, AddressingMode::ZeroPage)),
        0xC6 => Some((Instruction::DEC, AddressingMode::ZeroPage)),
        0xC7 => Some((Instruction::DCP, AddressingMode::ZeroPage)),
        0xC8 => Some((Instruction::INY, AddressingMode::Implicit)),
        0xC9 => Some((Instruction::CMP, AddressingMode::Immediate)),
        0xCA => Some((Instruction::DEX, AddressingMode::Implicit)),
        0xCC => Some((Instruction::CPY, AddressingMode::Absolute)),
        0xCD => Some((Instruction::CMP, AddressingMode::Absolute)),
        0xCE => Some((Instruction::DEC, AddressingMode::Absolute)),
        0xCF => Some((Instruction::DCP, AddressingMode::Absolute)),
        0xD0 => Some((Instruction::BNE, AddressingMode::Relative)),
        0xD1 => Some((Instruction::CMP, AddressingMode::IndirectY)),
        0xD3 => Some((Instruction::DCP, AddressingMode::IndirectY)),
        0xD4 => Some((Instruction::NOP, AddressingMode::ZeroPageX)),
        0xD5 => Some((Instruction::CMP, AddressingMode::ZeroPageX)),
        0xD6 => Some((Instruction::DEC, AddressingMode::ZeroPageX)),
        0xD7 => Some((Instruction::DCP, AddressingMode::ZeroPageX)),
        0xD8 => Some((Instruction::CLD, AddressingMode::Implicit)),
        0xD9 => Some((Instruction::CMP, AddressingMode::AbsoluteY)),
        0xDA => Some((Instruction::NOP, AddressingMode::Implicit)),
        0xDB => Some((Instruction::DCP, AddressingMode::AbsoluteY)),
        0xDC => Some((Instruction::NOP, AddressingMode::AbsoluteX)),
        0xDD => Some((Instruction::CMP, AddressingMode::AbsoluteX)),
        0xDE => Some((Instruction::DEC, AddressingMode::AbsoluteX)),
        0xDF => Some((Instruction::DCP, AddressingMode::AbsoluteX)),
        0xE0 => Some((Instruction::CPX, AddressingMode::Immediate)),
        0xE1 => Some((Instruction::SBC, AddressingMode::IndirectX)),
        0xE3 => Some((Instruction::ISB, AddressingMode::IndirectX)),
        0xE4 => Some((Instruction::CPX, AddressingMode::ZeroPage)),
        0xE5 => Some((Instruction::SBC, AddressingMode::ZeroPage)),
        0xE6 => Some((Instruction::INC, AddressingMode::ZeroPage)),
        0xE7 => Some((Instruction::ISB, AddressingMode::ZeroPage)),
        0xE8 => Some((Instruction::INX, AddressingMode::Implicit)),
        0xE9 => Some((Instruction::SBC, AddressingMode::Immediate)),
        0xEA => Some((Instruction::NOP, AddressingMode::Implicit)),
        0xEB => Some((Instruction::SBC, AddressingMode::Immediate)),
        0xEC => Some((Instruction::CPX, AddressingMode::Absolute)),
        0xED => Some((Instruction::SBC, AddressingMode::Absolute)),
        0xEE => Some((Instruction::INC, AddressingMode::Absolute)),
        0xEF => Some((Instruction::ISB, AddressingMode::Absolute)),
        0xF0 => Some((Instruction::BEQ, AddressingMode::Relative)),
        0xF1 => Some((Instruction::SBC, AddressingMode::IndirectY)),
        0xF3 => Some((Instruction::ISB, AddressingMode::IndirectY)),
        0xF4 => Some((Instruction::NOP, AddressingMode::ZeroPageX)),
        0xF5 => Some((Instruction::SBC, AddressingMode::ZeroPageX)),
        0xF6 => Some((Instruction::INC, AddressingMode::ZeroPageX)),
        0xF7 => Some((Instruction::ISB, AddressingMode::ZeroPageX)),
        0xF8 => Some((Instruction::SED, AddressingMode::Implicit)),
        0xF9 => Some((Instruction::SBC, AddressingMode::AbsoluteY)),
        0xFA => Some((Instruction::NOP, AddressingMode::Implicit)),
        0xFB => Some((Instruction::ISB, AddressingMode::AbsoluteY)),
        0xFC => Some((Instruction::NOP, AddressingMode::AbsoluteX)),
        0xFD => Some((Instruction::SBC, AddressingMode::AbsoluteX)),
        0xFE => Some((Instruction::INC, AddressingMode::AbsoluteX)),
        0xFF => Some((Instruction::ISB, AddressingMode::AbsoluteX)),
        _ => None,
    }
}

/// Instructions that only read their operand.
pub open spec fn is_read_instruction(i: Instruction) -> bool {
    i is ORA || i is AND || i is EOR || i is ADC || i is SBC || i is CMP || i is LDA || i is LDX
        || i is LDY || i is LAX || i is BIT || i is CPX || i is CPY || i is NOP
}

/// Instructions that only write their operand.
pub open spec fn is_write_instruction(i: Instruction) -> bool {
    i is STA || i is STX || i is STY || i is SAX
}

/// The usual number of cycles of an instruction, by the kind of access it makes and its
/// addressing mode. Indexed reads, and the indirect indexed reads, may take one more cycle
/// when a page is crossed; that cycle is not counted here.
pub open spec fn base_cycles(i: Instruction, m: AddressingMode) -> u8 {
    match m {
        AddressingMode::Implicit => {
            if i is BRK {
                7
            } else if i is RTI || i is RTS {
                6
            } else if i is PHA || i is PHP {
                3
            } else if i is PLA || i is PLP {
                4
            } else {
                2
            }
        },
        AddressingMode::Accumulator | AddressingMode::Immediate | AddressingMode::Relative => 2,
        _ => {
            if i is JMP {
                if m is Absolute {
                    3
                } else {
                    5
                }
            } else if i is JSR {
                6
            } else if is_read_instruction(i) {
                match m {
                    AddressingMode::ZeroPage => 3,
                    AddressingMode::IndirectX => 6,
                    AddressingMode::IndirectY => 5,
                    _ => 4,
                }
            } else if is_write_instruction(i) {
                match m {
                    AddressingMode::ZeroPage => 3,
                    AddressingMode::ZeroPageX | AddressingMode::ZeroPageY | AddressingMode::Absolute => 4,
                    AddressingMode::AbsoluteX | AddressingMode::AbsoluteY => 5,
                    _ => 6,
                }
            } else {
                // read-modify-write instructions
                match m {
                    AddressingMode::ZeroPage => 5,
                    AddressingMode::ZeroPageX | AddressingMode::Absolute => 6,
                    AddressingMode::AbsoluteX | AddressingMode::AbsoluteY => 7,
                    _ => 8,
                }
            }
        },
    }
}

/// The result of decoding an opcode byte.
pub open spec fn spec_decode(opcode: u8) -> Result<OpCode, &'static str> {
    match opcode_entry(opcode) {
        Some((instr, mode)) => Ok(OpCode { instr, mode, value: opcode, base_cycle: base_cycles(instr, mode) }),
        None => Err("Invalid opcode"),
    }
}

/// The instructions that index with Y where the rest of their column of the opcode matrix
/// indexes with X (the cells marked "y)"): the stores and loads of X.
pub open spec fn indexes_with_y(i: Instruction) -> bool {
    i is STX || i is LDX || i is SAX || i is LAX
}

/// The addressing mode that the 6502 opcode matrix gives an opcode: its column (the low five
/// bits) decides it, but for the indexing register of the "y)" cells, JMP indirect, the
/// accumulator forms of the shifts and the first column's mix of implied, absolute (JSR)
/// and immediate forms.
pub open spec fn matrix_mode(b: u8, i: Instruction) -> Option<AddressingMode> {
    let c = b % 32;
    if c == 0x00 {
        if b >= 0x80 {
            Some(AddressingMode::Immediate)
        } else if b == 0x20 {
            Some(AddressingMode::Absolute)
        } else {
            Some(AddressingMode::Implicit)
        }
    } else if c == 0x01 || c == 0x03 {
        Some(AddressingMode::IndirectX)
    } else if c == 0x02 || c == 0x09 || c == 0x0B {
        Some(AddressingMode::Immediate)
    } else if 0x04 <= c <= 0x07 {
        Some(AddressingMode::ZeroPage)
    } else if c == 0x08 || c == 0x18 || c == 0x1A {
        Some(AddressingMode::Implicit)
    } else if c == 0x0A {
        if i is ASL || i is ROL || i is LSR || i is ROR {
            Some(AddressingMode::Accumulator)
        } else {
            Some(AddressingMode::Implicit)
        }
    } else if c == 0x0C {
        if b == 0x6C {
            Some(AddressingMode::Indirect)
        } else {
            Some(AddressingMode::Absolute)
        }
    } else if 0x0D <= c <= 0x0F {
        Some(AddressingMode::Absolute)
    } else if c == 0x10 {
        Some(AddressingMode::Relative)
    } else if c == 0x11 || c == 0x13 {
        Some(AddressingMode::IndirectY)
    } else if 0x14 <= c <= 0x17 {
        if indexes_with_y(i) {
            Some(AddressingMode::ZeroPageY)
        } else {
            Some(AddressingMode::ZeroPageX)
        }
    } else if c == 0x19 || c == 0x1B {
        Some(AddressingMode::AbsoluteY)
    } else if 0x1C <= c <= 0x1F {
        if indexes_with_y(i) {
            Some(AddressingMode::AbsoluteY)
        } else {
            Some(AddressingMode::AbsoluteX)
        }
    } else {
        None
    }
}

/// Decoding follows the opcode matrix: every opcode that decodes gets the addressing mode
/// that its cell of the matrix gives it (so the "y)" cells, such as LDX $nn,Y, index with Y).
#[verifier::spinoff_prover]
#[verifier::rlimit(100)]
pub proof fn lemma_decode_follows_matrix(b: u8)
    ensures
        spec_decode(b) matches Ok(op) ==> matrix_mode(b, op.instr) == Some(op.mode) && op.value == b,
{
    if b < 128 {
        if b < 64 {
            if b < 32 {
                if b < 16 {
                    if b < 8 {
                        if b < 4 {
                            if b < 2 {
                                if b < 1 {
                                    assert(b == 0);
                                } else {
                                    assert(b == 1);
                                }
                            } else {
                                if b < 3 {
                                    assert(b == 2);
                                } else {
                                    assert(b == 3);
                                }
                            }
                        } else {
                            if b < 6 {
                                if b < 5 {
                                    assert(b == 4);
                                } else {
                                    assert(b == 5);
                                }
                            } else {
                                if b < 7 {
                                    assert(b == 6);
                                } else {
                                    assert(b == 7);
                                }
                            }
                        }
                    } else {
                        if b < 12 {
                            if b < 10 {
                                if b < 9 {
                                    assert(b == 8);
                                } else {
                                    assert(b == 9);
                                }
                            } else {
                                if b < 11 {
                                    assert(b == 10);
                                } else {
                                    assert(b == 11);
                                }
                            }
                        } else {
                            if b < 14 {
                                if b < 13 {
                                    assert(b == 12);
                                } else {
                                    assert(b == 13);
                                }
                            } else {
                                if b < 15 {
                                    assert(b == 14);
                                } else {
                                    assert(b == 15);
                                }
                            }
                        }
                    }
                } else {
                    if b < 24 {
                        if b < 20 {
                            if b < 18 {
                                if b < 17 {
                                    assert(b == 16);
                                } else {
                                    assert(b == 17);
                                }
                            } else {
                                if b < 19 {
                                    assert(b == 18);
                                } else {
                                    assert(b == 19);
                                }
                            }
                        } else {
                            if b < 22 {
                                if b < 21 {
                                    assert(b == 20);
                                } else {
                                    assert(b == 21);
                                }
                            } else {
                                if b < 23 {
                                    assert(b == 22);
                                } else {
                                    assert(b == 23);
                                }
                            }
                        }
                    } else {
                        if b < 28 {
                            if b < 26 {
                                if b < 25 {
                                    assert(b == 24);
                                } else {
                                    assert(b == 25);
                                }
                            } else {
                                if b < 27 {
                                    assert(b == 26);
                                } else {
                                    assert(b == 27);
                                }
                            }
                        } else {
                            if b < 30 {
                                if b < 29 {
                                    assert(b == 28);
                                } else {
                                    assert(b == 29);
                                }
                            } else {
                                if b < 31 {
                                    assert(b == 30);
                                } else {
                                    assert(b == 31);
                                }
                            }
                        }
                    }
                }
            } else {
                if b < 48 {
                    if b < 40 {
                        if b < 36 {
                            if b < 34 {
                                if b < 33 {
                                    assert(b == 32);
                                } else {
                                    assert(b == 33);
                                }
                            } else {
                                if b < 35 {
                                    assert(b == 34);
                                } else {
                                    assert(b == 35);
                                }
                            }
                        } else {
                            if b < 38 {
                                if b < 37 {
                                    assert(b == 36);
                                } else {
                                    assert(b == 37);
                                }
                            } else {
                                if b < 39 {
                                    assert(b == 38);
                                } else {
                                    assert(b == 39);
                                }
                            }
                        }
                    } else {
                        if b < 44 {
                            if b < 42 {
                                if b < 41 {
                                    assert(b == 40);
                                } else {
                                    assert(b == 41);
                                }
                            } else {
                                if b < 43 {
                                    assert(b == 42);
                                } else {
                                    assert(b == 43);
                                }
                            }
                        } else {
                            if b < 46 {
                                if b < 45 {
                                    assert(b == 44);
                                } else {
                                    assert(b == 45);
                                }
                            } else {
                                if b < 47 {
                                    assert(b == 46);
                                } else {
                                    assert(b == 47);
                                }
                            }
                        }
                    }
                } else {
                    if b < 56 {
                        if b < 52 {
                            if b < 50 {
                                if b < 49 {
                                    assert(b == 48);
                                } else {
                                    assert(b == 49);
                                }
                            } else {
                                if b < 51 {
                                    assert(b == 50);
                                } else {
                                    assert(b == 51);
                                }
                            }
                        } else {
                            if b < 54 {
                                if b < 53 {
                                    assert(b == 52);
                                } else {
                                    assert(b == 53);
                                }
                            } else {
                                if b < 55 {
                                    assert(b == 54);
                                } else {
                                    assert(b == 55);
                                }
                            }
                        }
                    } else {
                        if b < 60 {
                            if b < 58 {
                                if b < 57 {
                                    assert(b == 56);
                                } else {
                                    assert(b == 57);
                                }
                            } else {
                                if b < 59 {
                                    assert(b == 58);
                                } else {
                                    assert(b == 59);
                                }
                            }
                        } else {
                            if b < 62 {
                                if b < 61 {
                                    assert(b == 60);
                                } else {
                                    assert(b == 61);
                                }
                            } else {
                                if b < 63 {
                                    assert(b == 62);
                                } else {
                                    assert(b == 63);
                                }
                            }
                        }
                    }
                }
            }
        } else {
            if b < 96 {
                if b < 80 {
                    if b < 72 {
                        if b < 68 {
                            if b < 66 {
                                if b < 65 {
                                    assert(b == 64);
                                } else {
                                    assert(b == 65);
                                }
                            } else {
                                if b < 67 {
                                    assert(b == 66);
                                } else {
                                    assert(b == 67);
                                }
                            }
                        } else {
                            if b < 70 {
                                if b < 69 {
                                    assert(b == 68);
                                } else {
                                    assert(b == 69);
                                }
                            } else {
                                if b < 71 {
                                    assert(b == 70);
                                } else {
                                    assert(b == 71);
                                }
                            }
                        }
                    } else {
                        if b < 76 {
                            if b < 74 {
                                if b < 73 {
                                    assert(b == 72);
                                } else {
                                    assert(b == 73);
                                }
                            } else {
                                if b < 75 {
                                    assert(b == 74);
                                } else {
                                    assert(b == 75);
                                }
                            }
                        } else {
                            if b < 78 {
                                if b < 77 {
                                    assert(b == 76);
                                } else {
                                    assert(b == 77);
                                }
                            } else {
                                if b < 79 {
                                    assert(b == 78);
                                } else {
                                    assert(b == 79);
                                }
                            }
                        }
                    }
                } else {
                    if b < 88 {
                        if b < 84 {
                            if b < 82 {
                                if b < 81 {
                                    assert(b == 80);
                                } else {
                                    assert(b == 81);
                                }
                            } else {
                                if b < 83 {
                                    assert(b == 82);
                                } else {
                                    assert(b == 83);
                                }
                            }
                        } else {
                            if b < 86 {
                                if b < 85 {
                                    assert(b == 84);
                                } else {
                                    assert(b == 85);
                                }
                            } else {
                                if b < 87 {
                                    assert(b == 86);
                                } else {
                                    assert(b == 87);
                                }
                            }
                        }
                    } else {
                        if b < 92 {
                            if b < 90 {
                                if b < 89 {
                                    assert(b == 88);
                                } else {
                                    assert(b == 89);
                                }
                            } else {
                                if b < 91 {
                                    assert(b == 90);
                                } else {
                                    assert(b == 91);
                                }
                            }
                        } else {
                            if b < 94 {
                                if b < 93 {
                                    assert(b == 92);
                                } else {
                                    assert(b == 93);
                                }
                            } else {
                                if b < 95 {
                                    assert(b == 94);
                                } else {
                                    assert(b == 95);
                                }
                            }
                        }
                    }
                }
            } else {
                if b < 112 {
                    if b < 104 {
                        if b < 100 {
                            if b < 98 {
                                if b < 97 {
                                    assert(b == 96);
                                } else {
                                    assert(b == 97);
                                }
                            } else {
                                if b < 99 {
                                    assert(b == 98);
                                } else {
                                    assert(b == 99);
                                }
                            }
                        } else {
                            if b < 102 {
                                if b < 101 {
                                    assert(b == 100);
                                } else {
                                    assert(b == 101);
                                }
                            } else {
                                if b < 103 {
                                    assert(b == 102);
                                } else {
                                    assert(b == 103);
                                }
                            }
                        }
                    } else {
                        if b < 108 {
                            if b < 106 {
                                if b < 105 {
                                    assert(b == 104);
                                } else {
                                    assert(b == 105);
                                }
                            } else {
                                if b < 107 {
                                    assert(b == 106);
                                } else {
                                    assert(b == 107);
                                }
                            }
                        } else {
                            if b < 110 {
                                if b < 109 {
                                    assert(b == 108);
                                } else {
                                    assert(b == 109);
                                }
                            } else {
                                if b < 111 {
                                    assert(b == 110);
                                } else {
                                    assert(b == 111);
                                }
                            }
                        }
                    }
                } else {
                    if b < 120 {
                        if b < 116 {
                            if b < 114 {
                                if b < 113 {
                                    assert(b == 112);
                                } else {
                                    assert(b == 113);
                                }
                            } else {
                                if b < 115 {
                                    assert(b == 114);
                                } else {
                                    assert(b == 115);
                                }
                            }
                        } else {
                            if b < 118 {
                                if b < 117 {
                                    assert(b == 116);
                                } else {
                                    assert(b == 117);
                                }
                            } else {
                                if b < 119 {
                                    assert(b == 118);
                                } else {
                                    assert(b == 119);
                                }
                            }
                        }
                    } else {
                        if b < 124 {
                            if b < 122 {
                                if b < 121 {
                                    assert(b == 120);
                                } else {
                                    assert(b == 121);
                                }
                            } else {
                                if b < 123 {
                                    assert(b == 122);
                                } else {
                                    assert(b == 123);
                                }
                            }
                        } else {
                            if b < 126 {
                                if b < 125 {
                                    assert(b == 124);
                                } else {
                                    assert(b == 125);
                                }
                            } else {
                                if b < 127 {
                                    assert(b == 126);
                                } else {
                                    assert(b == 127);
                                }
                            }
                        }
                    }
                }
            }
        }
    } else {
        if b < 192 {
            if b < 160 {
                if b < 144 {
                    if b < 136 {
                        if b < 132 {
                            if b < 130 {
                                if b < 129 {
                                    assert(b == 128);
                                } else {
                                    assert(b == 129);
                                }
                            } else {
                                if b < 131 {
                                    assert(b == 130);
                                } else {
                                    assert(b == 131);
                                }
                            }
                        } else {
                            if b < 134 {
                                if b < 133 {
                                    assert(b == 132);
                                } else {
                                    assert(b == 133);
                                }
                            } else {
                                if b < 135 {
                                    assert(b == 134);
                                } else {
                                    assert(b == 135);
                                }
                            }
                        }
                    } else {
                        if b < 140 {
                            if b < 138 {
                                if b < 137 {
                                    assert(b == 136);
                                } else {
                                    assert(b == 137);
                                }
                            } else {
                                if b < 139 {
                                    assert(b == 138);
                                } else {
                                    assert(b == 139);
                                }
                            }
                        } else {
                            if b < 142 {
                                if b < 141 {
                                    assert(b == 140);
                                } else {
                                    assert(b == 141);
                                }
                            } else {
                                if b < 143 {
                                    assert(b == 142);
                                } else {
                                    assert(b == 143);
                                }
                            }
                        }
                    }
                } else {
                    if b < 152 {
                        if b < 148 {
                            if b < 146 {
                                if b < 145 {
                                    assert(b == 144);
                                } else {
                                    assert(b == 145);
                                }
                            } else {
                                if b < 147 {
                                    assert(b == 146);
                                } else {
                                    assert(b == 147);
                                }
                            }
                        } else {
                            if b < 150 {
                                if b < 149 {
                                    assert(b == 148);
                                } else {
                                    assert(b == 149);
                                }
                            } else {
                                if b < 151 {
                                    assert(b == 150);
                                } else {
                                    assert(b == 151);
                                }
                            }
                        }
                    } else {
                        if b < 156 {
                            if b < 154 {
                                if b < 153 {
                                    assert(b == 152);
                                } else {
                                    assert(b == 153);
                                }
                            } else {
                                if b < 155 {
                                    assert(b == 154);
                                } else {
                                    assert(b == 155);
                                }
                            }
                        } else {
                            if b < 158 {
                                if b < 157 {
                                    assert(b == 156);
                                } else {
                                    assert(b == 157);
                                }
                            } else {
                                if b < 159 {
                                    assert(b == 158);
                                } else {
                                    assert(b == 159);
                                }
                            }
                        }
                    }
                }
            } else {
                if b < 176 {
                    if b < 168 {
                        if b < 164 {
                            if b < 162 {
                                if b < 161 {
                                    assert(b == 160);
                                } else {
                                    assert(b == 161);
                                }
                            } else {
                                if b < 163 {
                                    assert(b == 162);
                                } else {
                                    assert(b == 163);
                                }
                            }
                        } else {
                            if b < 166 {
                                if b < 165 {
                                    assert(b == 164);
                                } else {
                                    assert(b == 165);
                                }
                            } else {
                                if b < 167 {
                                    assert(b == 166);
                                } else {
                                    assert(b == 167);
                                }
                            }
                        }
                    } else {
                        if b < 172 {
                            if b < 170 {
                                if b < 169 {
                                    assert(b == 168);
                                } else {
                                    assert(b == 169);
                                }
                            } else {
                                if b < 171 {
                                    assert(b == 170);
                                } else {
                                    assert(b == 171);
                                }
                            }
                        } else {
                            if b < 174 {
                                if b < 173 {
                                    assert(b == 172);
                                } else {
                                    assert(b == 173);
                                }
                            } else {
                                if b < 175 {
                                    assert(b == 174);
                                } else {
                                    assert(b == 175);
                                }
                            }
                        }
                    }
                } else {
                    if b < 184 {
                        if b < 180 {
                            if b < 178 {
                                if b < 177 {
                                    assert(b == 176);
                                } else {
                                    assert(b == 177);
                                }
                            } else {
                                if b < 179 {
                                    assert(b == 178);
                                } else {
                                    assert(b == 179);
                                }
                            }
                        } else {
                            if b < 182 {
                                if b < 181 {
                                    assert(b == 180);
                                } else {
                                    assert(b == 181);
                                }
                            } else {
                                if b < 183 {
                                    assert(b == 182);
                                } else {
                                    assert(b == 183);
                                }
                            }
                        }
                    } else {
                        if b < 188 {
                            if b < 186 {
                                if b < 185 {
                                    assert(b == 184);
                                } else {
                                    assert(b == 185);
                                }
                            } else {
                                if b < 187 {
                                    assert(b == 186);
                                } else {
                                    assert(b == 187);
                                }
                            }
                        } else {
                            if b < 190 {
                                if b < 189 {
                                    assert(b == 188);
                                } else {
                                    assert(b == 189);
                                }
                            } else {
                                if b < 191 {
                                    assert(b == 190);
                                } else {
                                    assert(b == 191);
                                }
                            }
                        }
                    }
                }
            }
        } else {
            if b < 224 {
                if b < 208 {
                    if b < 200 {
                        if b < 196 {
                            if b < 194 {
                                if b < 193 {
                                    assert(b == 192);
                                } else {
                                    assert(b == 193);
                                }
                            } else {
                                if b < 195 {
                                    assert(b == 194);
                                } else {
                                    assert(b == 195);
                                }
                            }
                        } else {
                            if b < 198 {
                                if b < 197 {
                                    assert(b == 196);
                                } else {
                                    assert(b == 197);
                                }
                            } else {
                                if b < 199 {
                                    assert(b == 198);
                                } else {
                                    assert(b == 199);
                                }
                            }
                        }
                    } else {
                        if b < 204 {
                            if b < 202 {
                                if b < 201 {
                                    assert(b == 200);
                                } else {
                                    assert(b == 201);
                                }
                            } else {
                                if b < 203 {
                                    assert(b == 202);
                                } else {
                                    assert(b == 203);
                                }
                            }
                        } else {
                            if b < 206 {
                                if b < 205 {
                                    assert(b == 204);
                                } else {
                                    assert(b == 205);
                                }
                            } else {
                                if b < 207 {
                                    assert(b == 206);
                                } else {
                                    assert(b == 207);
                                }
                            }
                        }
                    }
                } else {
                    if b < 216 {
                        if b < 212 {
                            if b < 210 {
                                if b < 209 {
                                    assert(b == 208);
                                } else {
                                    assert(b == 209);
                                }
                            } else {
                                if b < 211 {
                                    assert(b == 210);
                                } else {
                                    assert(b == 211);
                                }
                            }
                        } else {
                            if b < 214 {
                                if b < 213 {
                                    assert(b == 212);
                                } else {
                                    assert(b == 213);
                                }
                            } else {
                                if b < 215 {
                                    assert(b == 214);
                                } else {
                                    assert(b == 215);
                                }
                            }
                        }
                    } else {
                        if b < 220 {
                            if b < 218 {
                                if b < 217 {
                                    assert(b == 216);
                                } else {
                                    assert(b == 217);
                                }
                            } else {
                                if b < 219 {
                                    assert(b == 218);
                                } else {
                                    assert(b == 219);
                                }
                            }
                        } else {
                            if b < 222 {
                                if b < 221 {
                                    assert(b == 220);
                                } else {
                                    assert(b == 221);
                                }
                            } else {
                                if b < 223 {
                                    assert(b == 222);
                                } else {
                                    assert(b == 223);
                                }
                            }
                        }
                    }
                }
            } else {
                if b < 240 {
                    if b < 232 {
                        if b < 228 {
                            if b < 226 {
                                if b < 225 {
                                    assert(b == 224);
                                } else {
                                    assert(b == 225);
                                }
                            } else {
                                if b < 227 {
                                    assert(b == 226);
                                } else {
                                    assert(b == 227);
                                }
                            }
                        } else {
                            if b < 230 {
                                if b < 229 {
                                    assert(b == 228);
                                } else {
                                    assert(b == 229);
                                }
                            } else {
                                if b < 231 {
                                    assert(b == 230);
                                } else {
                                    assert(b == 231);
                                }
                            }
                        }
                    } else {
                        if b < 236 {
                            if b < 234 {
                                if b < 233 {
                                    assert(b == 232);
                                } else {
                                    assert(b == 233);
                                }
                            } else {
                                if b < 235 {
                                    assert(b == 234);
                                } else {
                                    assert(b == 235);
                                }
                            }
                        } else {
                            if b < 238 {
                                if b < 237 {
                                    assert(b == 236);
                                } else {
                                    assert(b == 237);
                                }
                            } else {
                                if b < 239 {
                                    assert(b == 238);
                                } else {
                                    assert(b == 239);
                                }
                            }
                        }
                    }
                } else {
                    if b < 248 {
                        if b < 244 {
                            if b < 242 {
                                if b < 241 {
                                    assert(b == 240);
                                } else {
                                    assert(b == 241);
                                }
                            } else {
                                if b < 243 {
                                    assert(b == 242);
                                } else {
                                    assert(b == 243);
                                }
                            }
                        } else {
                            if b < 246 {
                                if b < 245 {
                                    assert(b == 244);
                                } else {
                                    assert(b == 245);
                                }
                            } else {
                                if b < 247 {
                                    assert(b == 246);
                                } else {
                                    assert(b == 247);
                                }
                            }
                        }
                    } else {
                        if b < 252 {
                            if b < 250 {
                                if b < 249 {
                                    assert(b == 248);
                                } else {
                                    assert(b == 249);
                                }
                            } else {
                                if b < 251 {
                                    assert(b == 250);
                                } else {
                                    assert(b == 251);
                                }
                            }
                        } else {
                            if b < 254 {
                                if b < 253 {
                                    assert(b == 252);
                                } else {
                                    assert(b == 253);
                                }
                            } else {
                                if b < 255 {
                                    assert(b == 254);
                                } else {
                                    assert(b == 255);
                                }
                            }
                        }
                    }
                }
            }
        }
    }
}

impl TryFromSpecImpl<u8> for OpCode {
    open spec fn obeys_try_from_spec() -> bool {
        true
    }

    open spec fn try_from_spec(v: u8) -> Result<OpCode, &'static str> {
        spec_decode(v)
    }
}

impl TryFrom<u8> for OpCode {
    type Error = &'static str;

    #[verifier::rlimit(100)]
    fn try_from(opcode: u8) -> (r: Result<Self, Self::Error>) {
        match opcode {
            // --- BEGIN SECTION ADC ---
            0x69 => Ok(OpCode {
                instr: Instruction::ADC,
                mode: AddressingMode::Immediate,
                value: opcode,
                base_cycle: 2,
            }),
            0x65 => Ok(OpCode {
                instr: Instruction::ADC,
                mode: AddressingMode::ZeroPage,
                value: opcode,
                base_cycle: 3,
            }),
            0x75 => Ok(OpCode {
                instr: Instruction::ADC,
                mode: AddressingMode::ZeroPageX,
                value: opcode,
                base_cycle: 4,
            }),
            0x6D => Ok(OpCode {
                instr: Instruction::ADC,
                mode: AddressingMode::Absolute,
                value: opcode,
                base_cycle: 4,
            }),
            0x7D => Ok(OpCode {
                instr: Instruction::ADC,
                mode: AddressingMode::AbsoluteX,
                value: opcode,
                base_cycle: 4,
            }),
            0x79 => Ok(OpCode {
                instr: Instruction::ADC,
                mode: AddressingMode::AbsoluteY,
                value: opcode,
                base_cycle: 4,
            }),
            0x61 => Ok(OpCode {
                instr: Instruction::ADC,
                mode: AddressingMode::IndirectX,
                value: opcode,
                base_cycle: 6,
            }),
            0x71 => Ok(OpCode {
                instr: Instruction::ADC,
                mode: AddressingMode::IndirectY,
                value: opcode,
                base_cycle: 5,
            }),
            // --- END SECTION ADC ---
            // --- BEGIN SECTION SBC ---
            0xE9 | 0xEB => Ok(OpCode {
                instr: Instruction::SBC,
                mode: AddressingMode::Immediate,
                value: opcode,
                base_cycle: 2,
            }),
            0xE5 => Ok(OpCode {
                instr: Instruction::SBC,
                mode: AddressingMode::ZeroPage,
                value: opcode,
                base_cycle: 3,
            }),
            0xF5 => Ok(OpCode {
                instr: Instruction::SBC,
                mode: AddressingMode::ZeroPageX,
                value: opcode,
                base_cycle: 4,
            }),
            0xED => Ok(OpCode {
                instr: Instruction::SBC,
                mode: AddressingMode::Absolute,
                value: opcode,
                base_cycle: 4,
            }),
            0xFD => Ok(OpCode {
                instr: Instruction::SBC,
                mode: AddressingMode::AbsoluteX,
                value: opcode,
                base_cycle: 4,
            }),
            0xF9 => Ok(OpCode {
                instr: Instruction::SBC,
                mode: AddressingMode::AbsoluteY,
                value: opcode,
                base_cycle: 4,
            }),
            0xE1 => Ok(OpCode {
                instr: Instruction::SBC,
                mode: AddressingMode::IndirectX,
                value: opcode,
                base_cycle: 6,
            }),
            0xF1 => Ok(OpCode {
                instr: Instruction::SBC,
                mode: AddressingMode::IndirectY,
                value: opcode,
                base_cycle: 5,
            }),
            // --- END SECTION SBC ---
            // --- BEGIN SECTION INC ---
            0xE6 => Ok(OpCode {
                instr: Instruction::INC,
                mode: AddressingMode::ZeroPage,
                value: opcode,
                base_cycle: 5,
            }),
            0xF6 => Ok(OpCode {
                instr: Instruction::INC,
                mode: AddressingMode::ZeroPageX,
                value: opcode,
                base_cycle: 6,
            }),
            0xEE => Ok(OpCode {
                instr: Instruction::INC,
                mode: AddressingMode::Absolute,
                value: opcode,
                base_cycle: 6,
            }),
            0xFE => Ok(OpCode {
                instr: Instruction::INC,
                mode: AddressingMode::AbsoluteX,
                value: opcode,
                base_cycle: 7,
            }),
            0xE8 => Ok(OpCode {
                instr: Instruction::INX,
                mode: AddressingMode::Implicit,
                value: opcode,
                base_cycle: 2,
            }),
            0xC8 => Ok(OpCode {
                instr: Instruction::INY,
                mode: AddressingMode::Implicit,
                value: opcode,
                base_cycle: 2,
            }),
            // --- END SECTION INC ---
            // --- BEGIN SECTION ISB ---
            0xE7 => Ok(OpCode {
                instr: Instruction::ISB,
                mode: AddressingMode::ZeroPage,
                value: opcode,
                base_cycle: 5,
            }),
            0xF7 => Ok(OpCode {
                instr: Instruction::ISB,
                mode: AddressingMode::ZeroPageX,
                value: opcode,
                base_cycle: 6,
            }),
            0xEF => Ok(OpCode {
                instr: Instruction::ISB,
                mode: AddressingMode::Absolute,
                value: opcode,
                base_cycle: 6,
            }),
            0xFF => Ok(OpCode {
                instr: Instruction::ISB,
                mode: AddressingMode::AbsoluteX,
                value: opcode,
                base_cycle: 7,
            }),
            0xFB => Ok(OpCode {
                instr: Instruction::ISB,
                mode: AddressingMode::AbsoluteY,
                value: opcode,
                base_cycle: 7,
            }),
            0xE3 => Ok(OpCode {
                instr: Instruction::ISB,
                mode: AddressingMode::IndirectX,
                value: opcode,
                base_cycle: 8,
            }),
            0xF3 => Ok(OpCode {
                instr: Instruction::ISB,
                mode: AddressingMode::IndirectY,
                value: opcode,
                base_cycle: 8,
            }),
            // --- END SECTION ISB ---
            // --- BEGIN SECTION DEC ---
            0xC6 => Ok(OpCode {
                instr: Instruction::DEC,
                mode: AddressingMode::ZeroPage,
                value: opcode,
                base_cycle: 5,
            }),
            0xD6 => Ok(OpCode {
                instr: Instruction::DEC,
                mode: AddressingMode::ZeroPageX,
                value: opcode,
                base_cycle: 6,
            }),
            0xCE => Ok(OpCode {
                instr: Instruction::DEC,
                mode: AddressingMode::Absolute,
                value: opcode,
                base_cycle: 6,
            }),
            0xDE => Ok(OpCode {
                instr: Instruction::DEC,
                mode: AddressingMode::AbsoluteX,
                value: opcode,
                base_cycle: 7,
            }),
            0xCA => Ok(OpCode {
                instr: Instruction::DEX,
                mode: AddressingMode::Implicit,
                value: opcode,
                base_cycle: 2,
            }),
            0x88 => Ok(OpCode {
                instr: Instruction::DEY,
                mode: AddressingMode::Implicit,
                value: opcode,
                base_cycle: 2,
            }),
            // --- END SECTION DEC ---
            // --- BEGIN SECTION DCP ---
            0xC7 => Ok(OpCode {
                instr: Instruction::DCP,
                mode: AddressingMode::ZeroPage,
                value: opcode,
                base_cycle: 5,
            }),
            0xD7 => Ok(OpCode {
                instr: Instruction::DCP,
                mode: AddressingMode::ZeroPageX,
                value: opcode,
                base_cycle: 6,
            }),
            0xCF => Ok(OpCode {
                instr: Instruction::DCP,
                mode: AddressingMode::Absolute,
                value: opcode,
                base_cycle: 6,
            }),
            0xDF => Ok(OpCode {
                instr: Instruction::DCP,
                mode: AddressingMode::AbsoluteX,
                value: opcode,
                base_cycle: 7,
            }),
            0xDB => Ok(OpCode {
                instr: Instruction::DCP,
                mode: AddressingMode::AbsoluteY,
                value: opcode,
                base_cycle: 7,
            }),
            0xC3 => Ok(OpCode {
                instr: Instruction::DCP,
                mode: AddressingMode::IndirectX,
                value: opcode,
                base_cycle: 8,
            }),
            0xD3 => Ok(OpCode {
                instr: Instruction::DCP,
                mode: AddressingMode::IndirectY,
                value: opcode,
                base_cycle: 8,
            }),
            // --- END SECTION DCP ---
            // --- BEGIN SECTION ASL ---
            0x0A => Ok(OpCode {
                instr: Instruction::ASL,
                mode: AddressingMode::Accumulator,
                value: opcode,
                base_cycle: 2,
            }),
            0x06 => Ok(OpCode {
                instr: Instruction::ASL,
                mode: AddressingMode::ZeroPage,
                value: opcode,
                base_cycle: 5,
            }),
            0x16 => Ok(OpCode {
                instr: Instruction::ASL,
                mode: AddressingMode::ZeroPageX,
                value: opcode,
                base_cycle: 6,
            }),
            0x0E => Ok(OpCode {
                instr: Instruction::ASL,
                mode: AddressingMode::Absolute,
                value: opcode,
                base_cycle: 6,
            }),
            0x1E => Ok(OpCode {
                instr: Instruction::ASL,
                mode: AddressingMode::AbsoluteX,
                value: opcode,
                base_cycle: 7,
            }),
            // --- END SECTION ASL ---
            // --- BEGIN SECTION SLO ---
            0x07 => Ok(OpCode {
                instr: Instruction::SLO,
                mode: AddressingMode::ZeroPage,
                value: opcode,
                base_cycle: 5,
            }),
            0x17 => Ok(OpCode {
                instr: Instruction::SLO,
                mode: AddressingMode::ZeroPageX,
                value: opcode,
                base_cycle: 6,
            }),
            0x0F => Ok(OpCode {
                instr: Instruction::SLO,
                mode: AddressingMode::Absolute,
                value: opcode,
                base_cycle: 6,
            }),
            0x1F => Ok(OpCode {
                instr: Instruction::SLO,
                mode: AddressingMode::AbsoluteX,
                value: opcode,
                base_cycle: 7,
            }),
            0x1B => Ok(OpCode {
                instr: Instruction::SLO,
                mode: AddressingMode::AbsoluteY,
                value: opcode,
                base_cycle: 7,
            }),
            0x03 => Ok(OpCode {
                instr: Instruction::SLO,
                mode: AddressingMode::IndirectX,
                value: opcode,
                base_cycle: 8,
            }),
            0x13 => Ok(OpCode {
                instr: Instruction::SLO,
                mode: AddressingMode::IndirectY,
                value: opcode,
                base_cycle: 8,
            }),
            // --- END SECTION SLO ---
            // --- BEGIN SECTION SRE ---
            0x47 => Ok(OpCode {
                instr: Instruction::SRE,
                mode: AddressingMode::ZeroPage,
                value: opcode,
                base_cycle: 5,
            }),
            0x57 => Ok(OpCode {
                instr: Instruction::SRE,
                mode: AddressingMode::ZeroPageX,
                value: opcode,
                base_cycle: 6,
            }),
            0x4F => Ok(OpCode {
                instr: Instruction::SRE,
                mode: AddressingMode::Absolute,
                value: opcode,
                base_cycle: 6,
            }),
            0x5B => Ok(OpCode {
                instr: Instruction::SRE,
                mode: AddressingMode::AbsoluteY,
                value: opcode,
                base_cycle: 7,
            }),
            0x5F => Ok(OpCode {
                instr: Instruction::SRE,
                mode: AddressingMode::AbsoluteX,
                value: opcode,
                base_cycle: 7,
            }),
            0x43 => Ok(OpCode {
                instr: Instruction::SRE,
                mode: AddressingMode::IndirectX,
                value: opcode,
                base_cycle: 8,
            }),
            0x53 => Ok(OpCode {
                instr: Instruction::SRE,
                mode: AddressingMode::IndirectY,
                value: opcode,
                base_cycle: 8,
            }),
            // --- END SECTION SRE ---
            // --- BEGIN SECTION RRA ---
            0x67 => Ok(OpCode {
                instr: Instruction::RRA,
                mode: AddressingMode::ZeroPage,
                value: opcode,
                base_cycle: 5,
            }),
            0x77 => Ok(OpCode {
                instr: Instruction::RRA,
                mode: AddressingMode::ZeroPageX,
                value: opcode,
                base_cycle: 6,
            }),
            0x6F => Ok(OpCode {
                instr: Instruction::RRA,
                mode: AddressingMode::Absolute,
                value: opcode,
                base_cycle: 6,
            }),
            0x7B => Ok(OpCode {
                instr: Instruction::RRA,
                mode: AddressingMode::AbsoluteY,
                value: opcode,
                base_cycle: 7,
            }),
            0x7F => Ok(OpCode {
                instr: Instruction::RRA,
                mode: AddressingMode::AbsoluteX,
                value: opcode,
                base_cycle: 7,
            }),
            0x63 => Ok(OpCode {
                instr: Instruction::RRA,
                mode: AddressingMode::IndirectX,
                value: opcode,
                base_cycle: 8,
            }),
            0x73 => Ok(OpCode {
                instr: Instruction::RRA,
                mode: AddressingMode::IndirectY,
                value: opcode,
                base_cycle: 8,
            }),
            // --- END SECTION RRA ---
            // --- BEGIN BRANCH INSTRUCTIONS ---
            0x90 => Ok(OpCode {
                instr: Instruction::BCC,
                mode: AddressingMode::Relative,
                value: opcode,
                base_cycle: 2,
            }),
            0xB0 => Ok(OpCode {
                instr: Instruction::BCS,
                mode: AddressingMode::Relative,
                value: opcode,
                base_cycle: 2,
            }),
            0xF0 => Ok(OpCode {
                instr: Instruction::BEQ,
                mode: AddressingMode::Relative,
                value: opcode,
                base_cycle: 2,
            }),
            0xD0 => Ok(OpCode {
                instr: Instruction::BNE,
                mode: AddressingMode::Relative,
                value: opcode,
                base_cycle: 2,
            }),
            0x10 => Ok(OpCode {
                instr: Instruction::BPL,
                mode: AddressingMode::Relative,
                value: opcode,
                base_cycle: 2,
            }),
            0x30 => Ok(OpCode {
                instr: Instruction::BMI,
                mode: AddressingMode::Relative,
                value: opcode,
                base_cycle: 2,
            }),
            0x50 => Ok(OpCode {
                instr: Instruction::BVC,
                mode: AddressingMode::Relative,
                value: opcode,
                base_cycle: 2,
            }),
            0x70 => Ok(OpCode {
                instr: Instruction::BVS,
                mode: AddressingMode::Relative,
                value: opcode,
                base_cycle: 2,
            }),
            // --- END SECTION BRANCH ---
            // --- BEGIN SECTION LOAD ---
            0xA9 => Ok(OpCode {
                instr: Instruction::LDA,
                mode: AddressingMode::Immediate,
                value: opcode,
                base_cycle: 2,
            }),
            0xA5 => Ok(OpCode {
                instr: Instruction::LDA,
                mode: AddressingMode::ZeroPage,
                value: opcode,
                base_cycle: 3,
            }),
            0xB5 => Ok(OpCode {
                instr: Instruction::LDA,
                mode: AddressingMode::ZeroPageX,
                value: opcode,
                base_cycle: 4,
            }),
            0xAD => Ok(OpCode {
                instr: Instruction::LDA,
                mode: AddressingMode::Absolute,
                value: opcode,
                base_cycle: 4,
            }),
            0xBD => Ok(OpCode {
                instr: Instruction::LDA,
                mode: AddressingMode::AbsoluteX,
                value: opcode,
                base_cycle: 4,
            }),
            0xB9 => Ok(OpCode {
                instr: Instruction::LDA,
                mode: AddressingMode::AbsoluteY,
                value: opcode,
                base_cycle: 4,
            }),
            0xA1 => Ok(OpCode {
                instr: Instruction::LDA,
                mode: AddressingMode::IndirectX,
                value: opcode,
                base_cycle: 6,
            }),
            0xB1 => Ok(OpCode {
                instr: Instruction::LDA,
                mode: AddressingMode::IndirectY,
                value: opcode,
                base_cycle: 5,
            }),
            0xA2 => Ok(OpCode {
                instr: Instruction::LDX,
                mode: AddressingMode::Immediate,
                value: opcode,
                base_cycle: 2,
            }),
            0xA6 => Ok(OpCode {
                instr: Instruction::LDX,
                mode: AddressingMode::ZeroPage,
                value: opcode,
                base_cycle: 3,
            }),
            0xB6 => Ok(OpCode {
                instr: Instruction::LDX,
                mode: AddressingMode::ZeroPageY,
                value: opcode,
                base_cycle: 4,
            }),
            0xAE => Ok(OpCode {
                instr: Instruction::LDX,
                mode: AddressingMode::Absolute,
                value: opcode,
                base_cycle: 4,
            }),
            0xBE => Ok(OpCode {
                instr: Instruction::LDX,
                mode: AddressingMode::AbsoluteY,
                value: opcode,
                base_cycle: 4,
            }),
            0xA0 => Ok(OpCode {
                instr: Instruction::LDY,
                mode: AddressingMode::Immediate,
                value: opcode,
                base_cycle: 2,
            }),
            0xA4 => Ok(OpCode {
                instr: Instruction::LDY,
                mode: AddressingMode::ZeroPage,
                value: opcode,
                base_cycle: 3,
            }),
            0xB4 => Ok(OpCode {
                instr: Instruction::LDY,
                mode: AddressingMode::ZeroPageX,
                value: opcode,
                base_cycle: 4,
            }),
            0xAC => Ok(OpCode {
                instr: Instruction::LDY,
                mode: AddressingMode::Absolute,
                value: opcode,
                base_cycle: 4,
            }),
            0xBC => Ok(OpCode {
                instr: Instruction::LDY,
                mode: AddressingMode::AbsoluteX,
                value: opcode,
                base_cycle: 4,
            }),
            0xA3 => Ok(OpCode {
                instr: Instruction::LAX,
                mode: AddressingMode::IndirectX,
                value: opcode,
                base_cycle: 6,
            }),
            0xA7 => Ok(OpCode {
                instr: Instruction::LAX,
                mode: AddressingMode::ZeroPage,
                value: opcode,
                base_cycle: 3,
            }),
            0xAF => Ok(OpCode {
                instr: Instruction::LAX,
                mode: AddressingMode::Absolute,
                value: opcode,
                base_cycle: 4,
            }),
            0xB3 => Ok(OpCode {
                instr: Instruction::LAX,
                mode: AddressingMode::IndirectY,
                value: opcode,
                base_cycle: 5,
            }),
            0xB7 => Ok(OpCode {
                instr: Instruction::LAX,
                mode: AddressingMode::ZeroPageY,
                value: opcode,
                base_cycle: 4,
            }),
            0xBF => Ok(OpCode {
                instr: Instruction::LAX,
                mode: AddressingMode::AbsoluteY,
                value: opcode,
                base_cycle: 4,
            }),
            // --- END SECTION LOAD ---
            // --- BEGIN SECTION STORE ---
            0x85 => Ok(OpCode {
                instr: Instruction::STA,
                mode: AddressingMode::ZeroPage,
                value: opcode,
                base_cycle: 3,
            }),
            0x95 => Ok(OpCode {
                instr: Instruction::STA,
                mode: AddressingMode::ZeroPageX,
                value: opcode,
                base_cycle: 4,
            }),
            0x8D => Ok(OpCode {
                instr: Instruction::STA,
                mode: AddressingMode::Absolute,
                value: opcode,
                base_cycle: 4,
            }),
            0x9D => Ok(OpCode {
                instr: Instruction::STA,
                mode: AddressingMode::AbsoluteX,
                value: opcode,
                base_cycle: 5,
            }),
            0x99 => Ok(OpCode {
                instr: Instruction::STA,
                mode: AddressingMode::AbsoluteY,
                value: opcode,
                base_cycle: 5,
            }),
            0x81 => Ok(OpCode {
                instr: Instruction::STA,
                mode: AddressingMode::IndirectX,
                value: opcode,
                base_cycle: 6,
            }),
            0x91 => Ok(OpCode {
                instr: Instruction::STA,
                mode: AddressingMode::IndirectY,
                value: opcode,
                base_cycle: 6,
            }),
            0x86 => Ok(OpCode {
                instr: Instruction::STX,
                mode: AddressingMode::ZeroPage,
                value: opcode,
                base_cycle: 3,
            }),
            0x96 => Ok(OpCode {
                instr: Instruction::STX,
                mode: AddressingMode::ZeroPageY,
                value: opcode,
                base_cycle: 4,
            }),
            0x8E => Ok(OpCode {
                instr: Instruction::STX,
                mode: AddressingMode::Absolute,
                value: opcode,
                base_cycle: 4,
            }),
            0x84 => Ok(OpCode {
                instr: Instruction::STY,
                mode: AddressingMode::ZeroPage,
                value: opcode,
                base_cycle: 3,
            }),
            0x94 => Ok(OpCode {
                instr: Instruction::STY,
                mode: AddressingMode::ZeroPageX,
                value: opcode,
                base_cycle: 4,
            }),
            0x8C => Ok(OpCode {
                instr: Instruction::STY,
                mode: AddressingMode::Absolute,
                value: opcode,
                base_cycle: 4,
            }),
            0x83 => Ok(OpCode {
                instr: Instruction::SAX,
                mode: AddressingMode::IndirectX,
                value: opcode,
                base_cycle: 6,
            }),
            0x87 => Ok(OpCode {
                instr: Instruction::SAX,
                mode: AddressingMode::ZeroPage,
                value: opcode,
                base_cycle: 3,
            }),
            0x8F => Ok(OpCode {
                instr: Instruction::SAX,
                mode: AddressingMode::Absolute,
                value: opcode,
                base_cycle: 4,
            }),
            0x97 => Ok(OpCode {
                instr: Instruction::SAX,
                mode: AddressingMode::ZeroPageY,
                value: opcode,
                base_cycle: 4,
            }),
            // --- END SECTION STORE ---
            // --- BEGIN SECTION TRANSFER ---
            0xAA => Ok(OpCode {
                instr: Instruction::TAX,
                mode: AddressingMode::Implicit,
                value: opcode,
                base_cycle: 2,
            }),
            0xA8 => Ok(OpCode {
                instr: Instruction::TAY,
                mode: AddressingMode::Implicit,
                value: opcode,
                base_cycle: 2,
            }),
            0x8A => Ok(OpCode {
                instr: Instruction::TXA,
                mode: AddressingMode::Implicit,
                value: opcode,
                base_cycle: 2,
            }),
            0x98 => Ok(OpCode {
                instr: Instruction::TYA,
                mode: AddressingMode::Implicit,
                value: opcode,
                base_cycle: 2,
            }),
            // --- END SECTION TRANSFER ---
            // --- BEGIN SECTION LSR ---
            0x4A => Ok(OpCode {
                instr: Instruction::LSR,
                mode: AddressingMode::Accumulator,
                value: opcode,
                base_cycle: 2,
            }),
            0x46 => Ok(OpCode {
                instr: Instruction::LSR,
                mode: AddressingMode::ZeroPage,
                value: opcode,
                base_cycle: 5,
            }),
            0x56 => Ok(OpCode {
                instr: Instruction::LSR,
                mode: AddressingMode::ZeroPageX,
                value: opcode,
                base_cycle: 6,
            }),
            0x4E => Ok(OpCode {
                instr: Instruction::LSR,
                mode: AddressingMode::Absolute,
                value: opcode,
                base_cycle: 6,
            }),
            0x5E => Ok(OpCode {
                instr: Instruction::LSR,
                mode: AddressingMode::AbsoluteX,
                value: opcode,
                base_cycle: 7,
            }),
            // --- END SECTION LSR ---
            // --- BEGIN SECTION ROL ---
            0x2A => Ok(OpCode {
                instr: Instruction::ROL,
                mode: AddressingMode::Accumulator,
                value: opcode,
                base_cycle: 2,
            }),
            0x26 => Ok(OpCode {
                instr: Instruction::ROL,
                mode: AddressingMode::ZeroPage,
                value: opcode,
                base_cycle: 5,
            }),
            0x36 => Ok(OpCode {
                instr: Instruction::ROL,
                mode: AddressingMode::ZeroPageX,
                value: opcode,
                base_cycle: 6,
            }),
            0x2E => Ok(OpCode {
                instr: Instruction::ROL,
                mode: AddressingMode::Absolute,
                value: opcode,
                base_cycle: 6,
            }),
            0x3E => Ok(OpCode {
                instr: Instruction::ROL,
                mode: AddressingMode::AbsoluteX,
                value: opcode,
                base_cycle: 7,
            }),
            // --- END SECTION ROL ---
            // --- BEGIN SECTION RLA ---
            0x23 => Ok(OpCode {
                instr: Instruction::RLA,
                mode: AddressingMode::IndirectX,
                value: opcode,
                base_cycle: 8,
            }),
            0x33 => Ok(OpCode {
                instr: Instruction::RLA,
                mode: AddressingMode::IndirectY,
                value: opcode,
                base_cycle: 8,
            }),
            0x2F => Ok(OpCode {
                instr: Instruction::RLA,
                mode: AddressingMode::Absolute,
                value: opcode,
                base_cycle: 6,
            }),
            0x27 => Ok(OpCode {
                instr: Instruction::RLA,
                mode: AddressingMode::ZeroPage,
                value: opcode,
                base_cycle: 5,
            }),
            0x37 => Ok(OpCode {
                instr: Instruction::RLA,
                mode: AddressingMode::ZeroPageX,
                value: opcode,
                base_cycle: 6,
            }),
            0x3B => Ok(OpCode {
                instr: Instruction::RLA,
                mode: AddressingMode::AbsoluteY,
                value: opcode,
                base_cycle: 7,
            }),
            0x3F => Ok(OpCode {
                instr: Instruction::RLA,
                mode: AddressingMode::AbsoluteX,
                value: opcode,
                base_cycle: 7,
            }),
            // --- END SECTION RLA ---
            // --- BEGIN SECTION ROR ---
            0x6A => Ok(OpCode {
                instr: Instruction::ROR,
                mode: AddressingMode::Accumulator,
                value: opcode,
                base_cycle: 2,
            }),
            0x66 => Ok(OpCode {
                instr: Instruction::ROR,
                mode: AddressingMode::ZeroPage,
                value: opcode,
                base_cycle: 5,
            }),
            0x76 => Ok(OpCode {
                instr: Instruction::ROR,
                mode: AddressingMode::ZeroPageX,
                value: opcode,
                base_cycle: 6,
            }),
            0x6E => Ok(OpCode {
                instr: Instruction::ROR,
                mode: AddressingMode::Absolute,
                value: opcode,
                base_cycle: 6,
            }),
            0x7E => Ok(OpCode {
                instr: Instruction::ROR,
                mode: AddressingMode::AbsoluteX,
                value: opcode,
                base_cycle: 7,
            }),
            // --- END SECTION ROR ---
            // --- BEGIN SECTION AND ---
            0x29 => Ok(OpCode {
                instr: Instruction::AND,
                mode: AddressingMode::Immediate,
                value: opcode,
                base_cycle: 2,
            }),
            0x25 => Ok(OpCode {
                instr: Instruction::AND,
                mode: AddressingMode::ZeroPage,
                value: opcode,
                base_cycle: 3,
            }),
            0x35 => Ok(OpCode {
                instr: Instruction::AND,
                mode: AddressingMode::ZeroPageX,
                value: opcode,
                base_cycle: 4,
            }),
            0x2D => Ok(OpCode {
                instr: Instruction::AND,
                mode: AddressingMode::Absolute,
                value: opcode,
                base_cycle: 4,
            }),
            0x3D => Ok(OpCode {
                instr: Instruction::AND,
                mode: AddressingMode::AbsoluteX,
                value: opcode,
                base_cycle: 4,
            }),
            0x39 => Ok(OpCode {
                instr: Instruction::AND,
                mode: AddressingMode::AbsoluteY,
                value: opcode,
                base_cycle: 4,
            }),
            0x21 => Ok(OpCode {
                instr: Instruction::AND,
                mode: AddressingMode::IndirectX,
                value: opcode,
                base_cycle: 6,
            }),
            0x31 => Ok(OpCode {
                instr: Instruction::AND,
                mode: AddressingMode::IndirectY,
                value: opcode,
                base_cycle: 5,
            }),
            // --- END SECTION AND ---
            // --- BEGIN SECTION ORA ---
            0x09 => Ok(OpCode {
                instr: Instruction::ORA,
                mode: AddressingMode::Immediate,
                value: opcode,
                base_cycle: 2,
            }),
            0x05 => Ok(OpCode {
                instr: Instruction::ORA,
                mode: AddressingMode::ZeroPage,
                value: opcode,
                base_cycle: 3,
            }),
            0x15 => Ok(OpCode {
                instr: Instruction::ORA,
                mode: AddressingMode::ZeroPageX,
                value: opcode,
                base_cycle: 4,
            }),
            0x0D => Ok(OpCode {
                instr: Instruction::ORA,
                mode: AddressingMode::Absolute,
                value: opcode,
                base_cycle: 4,
            }),
            0x1D => Ok(OpCode {
                instr: Instruction::ORA,
                mode: AddressingMode::AbsoluteX,
                value: opcode,
                base_cycle: 4,
            }),
            0x19 => Ok(OpCode {
                instr: Instruction::ORA,
                mode: AddressingMode::AbsoluteY,
                value: opcode,
                base_cycle: 4,
            }),
            0x01 => Ok(OpCode {
                instr: Instruction::ORA,
                mode: AddressingMode::IndirectX,
                value: opcode,
                base_cycle: 6,
            }),
            0x11 => Ok(OpCode {
                instr: Instruction::ORA,
                mode: AddressingMode::IndirectY,
                value: opcode,
                base_cycle: 5,
            }),
            // --- END SECTION ORA ---
            // --- BEGIN SECTION EOR ---
            0x49 => Ok(OpCode {
                instr: Instruction::EOR,
                mode: AddressingMode::Immediate,
                value: opcode,
                base_cycle: 2,
            }),
            0x45 => Ok(OpCode {
                instr: Instruction::EOR,
                mode: AddressingMode::ZeroPage,
                value: opcode,
                base_cycle: 3,
            }),
            0x55 => Ok(OpCode {
                instr: Instruction::EOR,
                mode: AddressingMode::ZeroPageX,
                value: opcode,
                base_cycle: 4,
            }),
            0x4D => Ok(OpCode {
                instr: Instruction::EOR,
                mode: AddressingMode::Absolute,
                value: opcode,
                base_cycle: 4,
            }),
            0x5D => Ok(OpCode {
                instr: Instruction::EOR,
                mode: AddressingMode::AbsoluteX,
                value: opcode,
                base_cycle: 4,
            }),
            0x59 => Ok(OpCode {
                instr: Instruction::EOR,
                mode: AddressingMode::AbsoluteY,
                value: opcode,
                base_cycle: 4,
            }),
            0x41 => Ok(OpCode {
                instr: Instruction::EOR,
                mode: AddressingMode::IndirectX,
                value: opcode,
                base_cycle: 6,
            }),
            0x51 => Ok(OpCode {
                instr: Instruction::EOR,
                mode: AddressingMode::IndirectY,
                value: opcode,
                base_cycle: 5,
            }),
            // --- END SECTION EOR ---
            // --- BEGIN SECTION BIT ---
            0x24 => Ok(OpCode {
                instr: Instruction::BIT,
                mode: AddressingMode::ZeroPage,
                value: opcode,
                base_cycle: 3,
            }),
            0x2C => Ok(OpCode {
                instr: Instruction::BIT,
                mode: AddressingMode::Absolute,
                value: opcode,
                base_cycle: 4,
            }),
            // --- END SECTION BIT ---
            // --- BEGIN SECTION CMP ---
            0xC9 => Ok(OpCode {
                instr: Instruction::CMP,
                mode: AddressingMode::Immediate,
                value: opcode,
                base_cycle: 2,
            }),
            0xC5 => Ok(OpCode {
                instr: Instruction::CMP,
                mode: AddressingMode::ZeroPage,
                value: opcode,
                base_cycle: 3,
            }),
            0xD5 => Ok(OpCode {
                instr: Instruction::CMP,
                mode: AddressingMode::ZeroPageX,
                value: opcode,
                base_cycle: 4,
            }),
            0xCD => Ok(OpCode {
                instr: Instruction::CMP,
                mode: AddressingMode::Absolute,
                value: opcode,
                base_cycle: 4,
            }),
            0xDD => Ok(OpCode {
                instr: Instruction::CMP,
                mode: AddressingMode::AbsoluteX,
                value: opcode,
                base_cycle: 4,
            }),
            0xD9 => Ok(OpCode {
                instr: Instruction::CMP,
                mode: AddressingMode::AbsoluteY,
                value: opcode,
                base_cycle: 4,
            }),
            0xC1 => Ok(OpCode {
                instr: Instruction::CMP,
                mode: AddressingMode::IndirectX,
                value: opcode,
                base_cycle: 6,
            }),
            0xD1 => Ok(OpCode {
                instr: Instruction::CMP,
                mode: AddressingMode::IndirectY,
                value: opcode,
                base_cycle: 5,
            }),
            // --- END SECTION CMP ---
            // --- BEGIN SECTION CPX ---
            0xE0 => Ok(OpCode {
                instr: Instruction::CPX,
                mode: AddressingMode::Immediate,
                value: opcode,
                base_cycle: 2,
            }),
            0xE4 => Ok(OpCode {
                instr: Instruction::CPX,
                mode: AddressingMode::ZeroPage,
                value: opcode,
                base_cycle: 3,
            }),
            0xEC => Ok(OpCode {
                instr: Instruction::CPX,
                mode: AddressingMode::Absolute,
                value: opcode,
                base_cycle: 4,
            }),
            // --- END SECTION CPX ---
            // --- BEGIN SECTION CPY ---
            0xC0 => Ok(OpCode {
                instr: Instruction::CPY,
                mode: AddressingMode::Immediate,
                value: opcode,
                base_cycle: 2,
            }),
            0xC4 => Ok(OpCode {
                instr: Instruction::CPY,
                mode: AddressingMode::ZeroPage,
                value: opcode,
                base_cycle: 3,
            }),
            0xCC => Ok(OpCode {
                instr: Instruction::CPY,
                mode: AddressingMode::Absolute,
                value: opcode,
                base_cycle: 4,
            }),
            // --- END SECTION CPY ---
            // --- BEGIN SECTION JMP ---
            0x4C => Ok(OpCode {
                instr: Instruction::JMP,
                mode: AddressingMode::Absolute,
                value: opcode,
                base_cycle: 3,
            }),
            0x6C => Ok(OpCode {
                instr: Instruction::JMP,
                mode: AddressingMode::Indirect,
                value: opcode,
                base_cycle: 5,
            }),
            // --- END SECTION JMP ---
            // --- BEGIN SECTION JSR ---
            0x20 => Ok(OpCode {
                instr: Instruction::JSR,
                mode: AddressingMode::Absolute,
                value: opcode,
                base_cycle: 6,
            }),
            // --- END SECTION JSR ---
            // --- BEGIN SECTION JSR ---
            0x60 => Ok(OpCode {
                instr: Instruction::RTS,
                mode: AddressingMode::Implicit,
                value: opcode,
                base_cycle: 6,
            }),
            // --- END SECTION JSR ---
            // --- BEGIN SECTION BRK ---
            0x00 => Ok(OpCode {
                instr: Instruction::BRK,
                mode: AddressingMode::Implicit,
                value: opcode,
                base_cycle: 7,
            }),
            // --- END SECTION BRK ---
            // --- BEGIN SECTION RTI ---
            0x40 => Ok(OpCode {
                instr: Instruction::RTI,
                mode: AddressingMode::Implicit,
                value: opcode,
                base_cycle: 6,
            }),
            // --- END SECTION RTI ---
            // --- BEGIN SECTION PH/PL ---
            0x48 => Ok(OpCode {
                instr: Instruction::PHA,
                mode: AddressingMode::Implicit,
                value: opcode,
                base_cycle: 3,
            }),
            0x08 => Ok(OpCode {
                instr: Instruction::PHP,
                mode: AddressingMode::Implicit,
                value: opcode,
                base_cycle: 3,
            }),
            0x68 => Ok(OpCode {
                instr: Instruction::PLA,
                mode: AddressingMode::Implicit,
                value: opcode,
                base_cycle: 4,
            }),
            0x28 => Ok(OpCode {
                instr: Instruction::PLP,
                mode: AddressingMode::Implicit,
                value: opcode,
                base_cycle: 4,
            }),
            // --- END SECTION PH/PL ---
            // --- END SECTION TXS/TSX ---
            0xBA => Ok(OpCode {
                instr: Instruction::TSX,
                mode: AddressingMode::Implicit,
                value: opcode,
                base_cycle: 2,
            }),
            0x9A => Ok(OpCode {
                instr: Instruction::TXS,
                mode: AddressingMode::Implicit,
                value: opcode,
                base_cycle: 2,
            }),
            // --- END SECTION TXS/TSX ---
            // --- BEGIN SECTION SET/CLEAR FLAGS ---
            0x18 => Ok(OpCode {
                instr: Instruction::CLC,
                mode: AddressingMode::Implicit,
                value: opcode,
                base_cycle: 2,
            }),
            0xD8 => Ok(OpCode {
                instr: Instruction::CLD,
                mode: AddressingMode::Implicit,
                value: opcode,
                base_cycle: 2,
            }),
            0x58 => Ok(OpCode {
                instr: Instruction::CLI,
                mode: AddressingMode::Implicit,
                value: opcode,
                base_cycle: 2,
            }),
            0xB8 => Ok(OpCode {
                instr: Instruction::CLV,
                mode: AddressingMode::Implicit,
                value: opcode,
                base_cycle: 2,
            }),
            0x38 => Ok(OpCode {
                instr: Instruction::SEC,
                mode: AddressingMode::Implicit,
                value: opcode,
                base_cycle: 2,
            }),
            0xF8 => Ok(OpCode {
                instr: Instruction::SED,
                mode: AddressingMode::Implicit,
                value: opcode,
                base_cycle: 2,
            }),
            0x78 => Ok(OpCode {
                instr: Instruction::SEI,
                mode: AddressingMode::Implicit,
                value: opcode,
                base_cycle: 2,
            }),
            // --- END SECTION SET/CLEAR FLAGS ---
            // --- BEGIN SECTION MISC ---
            0x04 | 0x44 | 0x64 => Ok(OpCode {
                instr: Instruction::NOP,
                mode: AddressingMode::ZeroPage,
                value: opcode,
                base_cycle: 3,
            }),
            0x14 | 0x34 | 0x54 | 0x74 | 0xD4 | 0xF4 => Ok(OpCode {
                instr: Instruction::NOP,
                mode: AddressingMode::ZeroPageX,
                value: opcode,
                base_cycle: 4,
            }),
            0x0C => Ok(OpCode {
                instr: Instruction::NOP,
                mode: AddressingMode::Absolute,
                value: opcode,
                base_cycle: 4,
            }),
            0x1A | 0x3A | 0x5A | 0x7A | 0xDA | 0xEA | 0xFA => Ok(OpCode {
                instr: Instruction::NOP,
                mode: AddressingMode::Implicit,
                value: opcode,
                base_cycle: 2,
            }),
            0x80 => Ok(OpCode {
                instr: Instruction::NOP,
                mode: AddressingMode::Immediate,
                value: opcode,
                base_cycle: 2,
            }),
            0x1C | 0x3C | 0x5C | 0x7C | 0xDC | 0xFC => Ok(OpCode {
                instr: Instruction::NOP,
                mode: AddressingMode::AbsoluteX,
                value: opcode,
                base_cycle: 4,
            }),
            // --- END SECTION MISC ---
            _ => Err("Invalid opcode"),
        }
    }
}

} // verus!
