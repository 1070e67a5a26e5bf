use grounes::cpu::{AddressingMode, Instruction, OpCode};

#[test]
fn decode_valid_opcode_should_succeed() {
    assert_eq!(
        OpCode::try_from(0x69),
        Ok(OpCode {
            instr: Instruction::ADC,
            mode: AddressingMode::Immediate,
            value: 0x69,
            base_cycle: 2
        })
    );
}

#[test]
fn decode_invalid_opcode_should_give_error() {
    assert_eq!(OpCode::try_from(0x02), Err("Invalid opcode"));
}
