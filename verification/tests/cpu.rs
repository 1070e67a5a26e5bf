use grounes::cpu::{AddressingMode, StackPointer, CPU};
use grounes::memory::{MemoryBus, RAM};

#[test]
fn mock_memory_can_write_and_read_bytes() {
    let mut memory = RAM::new(0x10000);
    let addr = 0x12;
    let value = 0x34;
    memory.write_byte(addr, value);
    assert_eq!(memory.read_byte(addr), value);
}

#[test]
fn fetch_byte_reads_current_pc_and_increments_by_one() {
    let mut memory = RAM::new(0x10000);
    let mut cpu = CPU::new();
    let addr = 0x12;
    let value = 0x34;
    cpu.pc = addr;
    memory.write_byte(addr, value);
    assert_eq!(cpu.fetch_byte(&mut memory), value);
    assert_eq!(cpu.pc, addr + 1);
}

#[test]
fn fetch_word_reads_current_pc_and_increments_by_two() {
    let mut memory = RAM::new(0x10000);
    let mut cpu = CPU::new();
    let addr = 0x12;
    let value = 0x3456;
    cpu.pc = addr;
    memory.write_byte(addr, 0x56);
    memory.write_byte(addr + 1, 0x34);
    assert_eq!(cpu.fetch_word(&mut memory), value);
    assert_eq!(cpu.pc, addr + 2);
}

#[test]
fn get_operand_address_zero_page_returns_address_from_zero_page() {
    let mut memory = RAM::new(0x10000);
    let mut cpu = CPU::new();
    memory.write_byte(0x00, 0x12);
    let (addr, page_crossed) = cpu.get_operand_address(&mut memory, AddressingMode::ZeroPage);
    assert_eq!(addr, 0x0012);
    assert_eq!(page_crossed, false);
}

#[test]
fn get_operand_address_zero_page_x_returns_address_from_zero_page_plus_x() {
    let mut memory = RAM::new(0x10000);
    let mut cpu = CPU::new();
    let offset = 5;
    cpu.x = offset;
    memory.write_byte(0x00, 0x12);
    let (addr, page_crossed) = cpu.get_operand_address(&mut memory, AddressingMode::ZeroPageX);
    assert_eq!(addr, 0x0012 + offset as u16);
    assert_eq!(page_crossed, false);
}

#[test]
fn get_operand_address_zero_page_x_should_wrap_address_in_zero_page() {
    let mut memory = RAM::new(0x10000);
    let mut cpu = CPU::new();
    let offset = 5;
    let address = 0xFE;
    cpu.x = offset;
    memory.write_byte(0x00, address);
    let (addr, page_crossed) = cpu.get_operand_address(&mut memory, AddressingMode::ZeroPageX);
    assert_eq!(addr, 0x03);
    assert_eq!(page_crossed, false);
}

#[test]
fn get_operand_address_zero_page_y_returns_address_from_zero_page_plus_y() {
    let mut memory = RAM::new(0x10000);
    let mut cpu = CPU::new();
    let offset = 5;
    cpu.y = offset;
    memory.write_byte(0x00, 0x12);
    let (addr, page_crossed) = cpu.get_operand_address(&mut memory, AddressingMode::ZeroPageY);
    assert_eq!(addr, 0x0012 + offset as u16);
    assert_eq!(page_crossed, false);
}

#[test]
fn get_operand_address_zero_page_y_should_wrap_address_in_zero_page() {
    let mut memory = RAM::new(0x10000);
    let mut cpu = CPU::new();
    let offset = 5;
    let address = 0xFE;
    cpu.y = offset;
    memory.write_byte(0x00, address);
    let (addr, page_crossed) = cpu.get_operand_address(&mut memory, AddressingMode::ZeroPageY);
    assert_eq!(addr, 0x03);
    assert_eq!(page_crossed, false);
}

#[test]
fn get_operand_abs_returns_absolute_16bits_addr() {
    let mut memory = RAM::new(0x10000);
    let mut cpu = CPU::new();
    let value = 0x1234;
    memory.write_byte(0x00, 0x34);
    memory.write_byte(0x01, 0x12);
    let (addr, page_crossed) = cpu.get_operand_address(&mut memory, AddressingMode::Absolute);
    assert_eq!(addr, value);
    assert_eq!(page_crossed, false);
}

#[test]
fn get_operand_abs_x_returns_absolute_16bits_addr_with_x_offset() {
    let mut memory = RAM::new(0x10000);
    let mut cpu = CPU::new();
    let offset = 5;
    cpu.x = offset;
    memory.write_byte(0x00, 0x34);
    memory.write_byte(0x01, 0x12);
    let (addr, page_crossed) = cpu.get_operand_address(&mut memory, AddressingMode::AbsoluteX);
    assert_eq!(addr, 0x1239);
    assert_eq!(page_crossed, false);
}

#[test]
fn get_operand_abs_x_should_wrap_addr() {
    let mut memory = RAM::new(0x10000);
    let mut cpu = CPU::new();
    let offset = 5;
    cpu.x = offset;
    memory.write_byte(0x00, 0xFE);
    memory.write_byte(0x01, 0xFF);
    let (addr, page_crossed) = cpu.get_operand_address(&mut memory, AddressingMode::AbsoluteX);
    assert_eq!(addr, 0x0003);
    assert_eq!(page_crossed, true);
}

#[test]
fn get_operand_abs_x_should_allow_crossing_pages() {
    let mut memory = RAM::new(0x10000);
    let mut cpu = CPU::new();
    let offset = 5;
    cpu.x = offset;
    memory.write_byte(0x00, 0xFE);
    memory.write_byte(0x01, 0x01);
    let (addr, page_crossed) = cpu.get_operand_address(&mut memory, AddressingMode::AbsoluteX);
    assert_eq!(addr, 0x0203);
    assert_eq!(page_crossed, true);
}

#[test]
fn get_operand_abs_y_returns_absolute_16bits_addr_with_y_offset() {
    let mut memory = RAM::new(0x10000);
    let mut cpu = CPU::new();
    let offset = 5;
    cpu.y = offset;
    memory.write_byte(0x00, 0x34);
    memory.write_byte(0x01, 0x12);
    let (addr, page_crossed) = cpu.get_operand_address(&mut memory, AddressingMode::AbsoluteY);
    assert_eq!(addr, 0x1239);
    assert_eq!(page_crossed, false);
}

#[test]
fn get_operand_abs_y_should_wrap_addr() {
    let mut memory = RAM::new(0x10000);
    let mut cpu = CPU::new();
    let offset = 5;
    cpu.y = offset;
    memory.write_byte(0x00, 0xFE);
    memory.write_byte(0x01, 0xFF);
    let (addr, page_crossed) = cpu.get_operand_address(&mut memory, AddressingMode::AbsoluteY);
    assert_eq!(addr, 0x0003);
    assert_eq!(page_crossed, true);
}

#[test]
fn get_operand_abs_y_should_allow_crossing_pages() {
    let mut memory = RAM::new(0x10000);
    let mut cpu = CPU::new();
    let offset = 5;
    cpu.y = offset;
    memory.write_byte(0x00, 0xFE);
    memory.write_byte(0x01, 0x01);
    let (addr, page_crossed) = cpu.get_operand_address(&mut memory, AddressingMode::AbsoluteY);
    assert_eq!(addr, 0x0203);
    assert_eq!(page_crossed, true);
}

#[test]
fn get_operand_ind_returns_indirected_addr() {
    let mut memory = RAM::new(0x10000);
    let mut cpu = CPU::new();
    let expected_addr = 0x3456;
    memory.write_byte(0x00, 0x34);
    memory.write_byte(0x01, 0x12);
    memory.write_byte(0x1234, 0x56);
    memory.write_byte(0x1235, 0x34);
    let (addr, page_crossed) = cpu.get_operand_address(&mut memory, AddressingMode::Indirect);
    assert_eq!(addr, expected_addr);
    assert_eq!(page_crossed, false);
}

#[test]
fn get_operand_ind_cpu_bug_should_wrap_to_same_page() {
    let mut memory = RAM::new(0x10000);
    let mut cpu = CPU::new();
    // We make sure that the CPU bug is correctly implemented:
    // When the indirect addr is the last one of a page, it will
    // load the second byte from the beginning of the same page instead of the next page.
    memory.write_byte(0x00, 0xFF);
    memory.write_byte(0x01, 0x12);

    // This should be the indirected address without the CPU bug
    memory.write_byte(0x12FF, 0x56);
    memory.write_byte(0x1300, 0x34);

    // We are going to put a value at the beginning of the page to ensure the CPU bug is implemented
    let zp_addr = 0x1200;
    let zp_value = 0x89;

    // We expect the high-byte to be from the beginning of the page and the low byte to be from the end of the page
    let expected_addr = 0x8956;
    memory.write_byte(zp_addr, zp_value);

    let (addr, page_crossed) = cpu.get_operand_address(&mut memory, AddressingMode::Indirect);
    assert_eq!(addr, expected_addr);
    assert_eq!(page_crossed, false);
}

#[test]
fn stack_pointer_should_push_and_pop_byte() {
    let mut memory = RAM::new(0x10000);
    let mut sp = StackPointer::default();
    let first_value = 0xAB;
    let second_value = 0xCD;
    sp.push_byte(&mut memory, first_value);
    sp.push_byte(&mut memory, second_value);
    assert_eq!(sp.pop_byte(&mut memory), second_value);
    assert_eq!(sp.pop_byte(&mut memory), first_value);
}
