use grounes::cpu::{StatusRegister, CPU};
use grounes::memory::{MemoryBus, RAM};

/// A CPU with the program at `$0600` of a 64 KiB RAM.
fn run(program: &[u8], cpu: &mut CPU, memory: &mut RAM, steps: usize) {
    for (i, byte) in program.iter().enumerate() {
        memory.write_byte(0x0600 + i as u16, *byte);
    }
    cpu.pc = 0x0600;
    for _ in 0..steps {
        cpu.step(memory);
    }
}

#[test]
fn sbc_gives_the_same_result_as_adc_of_the_complement() {
    for (a, v, carry) in [(0x50u8, 0x10u8, true), (0x50, 0xB0, false), (0x00, 0x01, true), (0x80, 0x01, true)] {
        let mut memory = RAM::new(0x10000);
        let mut sbc = CPU::new();
        sbc.a = a;
        sbc.p.set(StatusRegister::Carry, carry);
        run(&[0xE9, v], &mut sbc, &mut memory, 1);

        let mut memory = RAM::new(0x10000);
        let mut adc = CPU::new();
        adc.a = a;
        adc.p.set(StatusRegister::Carry, carry);
        run(&[0x69, !v], &mut adc, &mut memory, 1);

        assert_eq!(sbc.a, adc.a);
        assert_eq!(sbc.p.bits(), adc.p.bits());
    }
}

#[test]
fn sbc_subtracts_with_borrow() {
    let mut memory = RAM::new(0x10000);
    let mut cpu = CPU::new();
    cpu.a = 0x50;
    cpu.p.set(StatusRegister::Carry, true);
    run(&[0xE9, 0x10], &mut cpu, &mut memory, 1);
    assert_eq!(cpu.a, 0x40);
    assert!(cpu.p.contains(StatusRegister::Carry));
    assert!(!cpu.p.contains(StatusRegister::Overflow));
}

#[test]
fn adc_sets_overflow_on_signed_overflow() {
    let mut memory = RAM::new(0x10000);
    let mut cpu = CPU::new();
    cpu.a = 0x50;
    run(&[0x69, 0x50], &mut cpu, &mut memory, 1);
    assert_eq!(cpu.a, 0xA0);
    assert!(cpu.p.contains(StatusRegister::Overflow));
    assert!(cpu.p.contains(StatusRegister::Negative));
    assert!(!cpu.p.contains(StatusRegister::Carry));
}

#[test]
fn rts_after_jsr_returns_after_the_call() {
    let mut memory = RAM::new(0x10000);
    let mut cpu = CPU::new();
    // $0600: JSR $0700 ; $0700: RTS
    memory.write_byte(0x0700, 0x60);
    let sp = cpu.sp.value;
    run(&[0x20, 0x00, 0x07], &mut cpu, &mut memory, 1);
    assert_eq!(cpu.pc, 0x0700);
    assert_eq!(cpu.sp.value, sp - 2);
    cpu.step(&mut memory);
    assert_eq!(cpu.pc, 0x0603);
    assert_eq!(cpu.sp.value, sp);
}

#[test]
fn plp_after_php_restores_the_flags() {
    let mut memory = RAM::new(0x10000);
    let mut cpu = CPU::new();
    cpu.p = StatusRegister::from_bits_truncate(
        StatusRegister::Carry | StatusRegister::Negative | StatusRegister::Unused,
    );
    // PHP ; CLC ; PLP
    run(&[0x08, 0x18, 0x28], &mut cpu, &mut memory, 3);
    assert!(cpu.p.contains(StatusRegister::Carry));
    assert!(cpu.p.contains(StatusRegister::Negative));
    assert!(!cpu.p.contains(StatusRegister::Break));
    assert_eq!(cpu.sp.value, 0xFD);
}

#[test]
fn pla_after_pha_gives_back_the_accumulator() {
    let mut memory = RAM::new(0x10000);
    let mut cpu = CPU::new();
    cpu.a = 0x7E;
    // PHA ; LDA #$00 ; PLA
    run(&[0x48, 0xA9, 0x00, 0x68], &mut cpu, &mut memory, 3);
    assert_eq!(cpu.a, 0x7E);
    assert_eq!(cpu.sp.value, 0xFD);
}

#[test]
fn ram_read_gives_back_the_last_write() {
    let mut memory = RAM::new(0x800);
    memory.write_byte(0x10, 1);
    memory.write_byte(0x11, 2);
    memory.write_byte(0x10, 3);
    assert_eq!(memory.read_byte(0x10), 3);
    assert_eq!(memory.read_byte(0x11), 2);
}

#[test]
fn cpu_registers_line_is_hexadecimal() {
    let mut cpu = CPU::new();
    assert_eq!(cpu.to_string(), "PC:0000 A:00 X:00 Y:00 P:24 SP:FD");
    cpu.pc = 0xC5F5;
    cpu.a = 0x0A;
    cpu.x = 0xFF;
    cpu.y = 0x10;
    assert_eq!(cpu.to_string(), "PC:C5F5 A:0A X:FF Y:10 P:24 SP:FD");
}

#[test]
fn a_delayed_interrupt_flag_change_is_made_once() {
    let mut memory = RAM::new(0x10000);
    let mut cpu = CPU::new();
    cpu.p.remove(StatusRegister::InterruptDisabled);
    // The byte that PLP pulls has the interrupt-disable flag clear.
    memory.write_byte(0x01FE, StatusRegister::Unused);
    // SEI ; NOP ; PLP ; NOP
    run(&[0x78, 0xEA, 0x28, 0xEA], &mut cpu, &mut memory, 2);
    assert!(cpu.p.contains(StatusRegister::InterruptDisabled));
    cpu.step(&mut memory);
    assert!(!cpu.p.contains(StatusRegister::InterruptDisabled));
    cpu.step(&mut memory);
    assert!(!cpu.p.contains(StatusRegister::InterruptDisabled));
    assert!(cpu.pending_interrupt_flag_change.is_none());
}

#[test]
fn an_invalid_opcode_is_reported_with_its_byte() {
    let mut memory = RAM::new(0x10000);
    let mut cpu = CPU::new();
    memory.write_byte(0x0600, 0x02);
    cpu.pc = 0x0600;
    let result = cpu.step(&mut memory);
    assert!(result.opcode.is_none());
    assert_eq!(result.cycles, 0);
    assert_eq!(result.opcode_byte, 0x02);
    assert_eq!(cpu.pc, 0x0601);
}

#[test]
fn rol_then_ror_gives_the_operand_and_carry_back() {
    for (v, carry) in [(0x81u8, false), (0x81, true), (0x00, true), (0x7F, false)] {
        let mut memory = RAM::new(0x10000);
        let mut cpu = CPU::new();
        memory.write_byte(0x0010, v);
        cpu.p.set(StatusRegister::Carry, carry);
        // ROL $10 ; ROR $10
        run(&[0x26, 0x10, 0x66, 0x10], &mut cpu, &mut memory, 2);
        assert_eq!(memory.read_byte(0x0010), v);
        assert_eq!(cpu.p.contains(StatusRegister::Carry), carry);
        assert_eq!(cpu.p.contains(StatusRegister::Zero), v == 0);
        assert_eq!(cpu.p.contains(StatusRegister::Negative), v >= 0x80);
    }
}
