use grounes::emulator::Emulator;
use grounes::ines::{INESHeader, NametableArrangement, INES};
use grounes::memory::MemoryBus;

/// An NROM-128 image: the program at $8000, the reset vector pointing at it.
fn nrom_image(mapper_number: u8, program: &[u8]) -> INES {
    let mut prg_rom = vec![0xEAu8; 0x4000];
    prg_rom[..program.len()].copy_from_slice(program);
    prg_rom[0x3FFC] = 0x00;
    prg_rom[0x3FFD] = 0x80;
    INES {
        header: INESHeader {
            prg_rom_size: 1,
            chr_rom_size: 1,
            nametable_arrangement: NametableArrangement::Vertical,
            has_battery: false,
            has_trainer: false,
            use_alternative_nametable_layout: false,
            mapper_number,
        },
        trainer: None,
        prg_rom,
        chr_rom: Some(vec![0x11u8; 0x2000]),
        playchoice_inst_rom: None,
        playchoice_prom: None,
        prg_ram: None,
    }
}

#[test]
fn new_emulator_has_no_cartridge() {
    let emulator = Emulator::new();
    assert!(emulator.chr_rom().is_none());
    assert_eq!(emulator.cpu.pc, 0);
    assert_eq!(emulator.cpu.sp.value, 0xFD);
}

#[test]
fn load_rom_refuses_unsupported_mappers() {
    let mut emulator = Emulator::new();
    let err = emulator.load_rom(nrom_image(4, &[])).unwrap_err();
    assert_eq!(err, "unsupported mapper: 4");
    let err = emulator.load_rom(nrom_image(66, &[])).unwrap_err();
    assert_eq!(err, "unsupported mapper: 66");
    assert!(emulator.chr_rom().is_none());
}

#[test]
fn load_rom_inserts_the_cartridge() {
    let mut emulator = Emulator::new();
    assert!(emulator.load_rom(nrom_image(0, &[])).is_ok());
    let chr = emulator.chr_rom().unwrap();
    assert_eq!(chr.len(), 0x2000);
    assert_eq!(chr[0], 0x11);
}

#[test]
fn power_up_jumps_to_the_reset_vector() {
    let mut emulator = Emulator::new();
    emulator.load_rom(nrom_image(0, &[])).unwrap();
    emulator.power_up();
    assert_eq!(emulator.cpu.pc, 0x8000);
}

#[test]
fn step_runs_one_instruction() {
    let mut emulator = Emulator::new();
    // LDA #$42 ; STA $0200
    emulator.load_rom(nrom_image(0, &[0xA9, 0x42, 0x8D, 0x00, 0x02])).unwrap();
    emulator.power_up();
    let result = emulator.step();
    assert_eq!(result.cycles, 2);
    assert_eq!(result.opcode.unwrap().value, 0xA9);
    assert_eq!(emulator.cpu.a, 0x42);
    let result = emulator.step();
    assert_eq!(result.cycles, 4);
    assert_eq!(emulator.cpu.pc, 0x8005);
    // The internal RAM is mirrored every 2 KiB.
    assert_eq!(emulator.get_bus_view().read_byte(0x0A00), 0x42);
}

#[test]
fn set_pc_moves_the_program_counter() {
    let mut emulator = Emulator::new();
    emulator.set_pc(0xC000);
    assert_eq!(emulator.cpu.pc, 0xC000);
}

#[test]
fn bus_view_reaches_ram_and_cartridge() {
    let mut emulator = Emulator::new();
    emulator.load_rom(nrom_image(0, &[0x01, 0x02])).unwrap();
    let mut bus = emulator.get_bus_view();
    bus.write_byte(0x07FF, 0x33);
    assert_eq!(bus.read_byte(0x1FFF), 0x33);
    assert_eq!(bus.read_byte(0x8001), 0x02);
    // NROM-128: $C000-$FFFF mirrors $8000-$BFFF.
    assert_eq!(bus.read_byte(0xC001), 0x02);
    assert_eq!(bus.read_byte(0x4000), 0);
}

#[test]
fn power_up_changes_only_the_program_counter() {
    let mut emulator = Emulator::new();
    emulator.load_rom(nrom_image(0, &[])).unwrap();
    emulator.cpu.a = 0x12;
    emulator.cpu.x = 0x34;
    emulator.cpu.y = 0x56;
    emulator.power_up();
    assert_eq!((emulator.cpu.a, emulator.cpu.x, emulator.cpu.y), (0x12, 0x34, 0x56));
    assert_eq!(emulator.cpu.sp.value, 0xFD);
    assert_eq!(emulator.cpu.p.bits(), 0x24);
}

#[test]
fn cpu_writes_reach_ppu_registers_through_their_mirrors() {
    let mut emulator = Emulator::new();
    emulator.load_rom(nrom_image(0, &[])).unwrap();
    let mut bus = emulator.get_bus_view();
    // $200E and $3FFE mirror PPUADDR ($2006).
    bus.write_byte(0x200E, 0x21);
    bus.write_byte(0x3FFE, 0x08);
    assert_eq!(emulator.bus.ppu.reg_v.get_value(), 0x2108);
}

#[test]
fn step_frame_runs_a_frame_of_cycles() {
    let mut emulator = Emulator::new();
    // $8000: JMP $8000, three cycles each.
    emulator.load_rom(nrom_image(0, &[0x4C, 0x00, 0x80])).unwrap();
    emulator.power_up();
    assert_eq!(emulator.step_frame(), None);
    assert_eq!(emulator.cpu.pc, 0x8000);
}

#[test]
fn step_frame_stops_at_an_invalid_opcode() {
    let mut emulator = Emulator::new();
    // LDA #$07 ; then a byte that is no opcode.
    emulator.load_rom(nrom_image(0, &[0xA9, 0x07, 0x02])).unwrap();
    emulator.power_up();
    assert_eq!(emulator.step_frame(), Some(0x02));
    assert_eq!(emulator.cpu.a, 0x07);
    assert_eq!(emulator.cpu.pc, 0x8003);
}
