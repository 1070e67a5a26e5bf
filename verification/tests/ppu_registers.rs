use grounes::ines::{INESHeader, NametableArrangement, INES};
use grounes::mapper::Mapper0;
use grounes::ppu::{ppu_reg, PPUStatus, WriteLocation, PPU};

fn blank_cartridge() -> Mapper0 {
    Mapper0 {
        ines: INES {
            header: INESHeader {
                prg_rom_size: 1,
                chr_rom_size: 1,
                nametable_arrangement: NametableArrangement::Horizontal,
                has_battery: false,
                has_trainer: false,
                use_alternative_nametable_layout: false,
                mapper_number: 0,
            },
            trainer: None,
            prg_rom: vec![0u8; 0x4000],
            chr_rom: Some((0..0x2000u32).map(|i| (i % 251) as u8).collect()),
            playchoice_inst_rom: None,
            playchoice_prom: None,
            prg_ram: None,
        },
    }
}

#[test]
fn status_read_then_address_pair_sets_v() {
    let mut ppu = PPU::default();
    let mut mapper = blank_cartridge();
    ppu.write_byte(&mut mapper, ppu_reg::ADDR, 0x12);
    ppu.read_byte(&mut mapper, ppu_reg::STATUS);
    ppu.write_byte(&mut mapper, ppu_reg::ADDR, 0xE5);
    ppu.write_byte(&mut mapper, ppu_reg::ADDR, 0x43);
    // Bits 14 and 15 of the first write are dropped.
    assert_eq!(ppu.reg_v.get_value(), 0x2543);
    assert_eq!(ppu.write_latch.location, WriteLocation::First);
}

#[test]
fn oam_data_reads_back_what_was_written() {
    let mut ppu = PPU::default();
    let mut mapper = blank_cartridge();
    ppu.write_byte(&mut mapper, ppu_reg::OAM_ADDR, 0x40);
    ppu.write_byte(&mut mapper, ppu_reg::OAM_DATA, 0x99);
    ppu.write_byte(&mut mapper, ppu_reg::OAM_ADDR, 0x40);
    assert_eq!(ppu.read_byte(&mut mapper, ppu_reg::OAM_DATA), 0x99);
}

#[test]
fn ppu_data_reads_back_a_nametable_write_after_one_buffered_read() {
    let mut ppu = PPU::default();
    let mut mapper = blank_cartridge();
    ppu.write_byte(&mut mapper, ppu_reg::ADDR, 0x23);
    ppu.write_byte(&mut mapper, ppu_reg::ADDR, 0x45);
    ppu.write_byte(&mut mapper, ppu_reg::DATA, 0x5A);
    ppu.write_byte(&mut mapper, ppu_reg::ADDR, 0x23);
    ppu.write_byte(&mut mapper, ppu_reg::ADDR, 0x45);
    ppu.read_byte(&mut mapper, ppu_reg::DATA);
    assert_eq!(ppu.read_byte(&mut mapper, ppu_reg::DATA), 0x5A);
}

#[test]
fn ppu_data_reads_pattern_tables_from_the_cartridge() {
    let mut ppu = PPU::default();
    let mut mapper = blank_cartridge();
    ppu.write_byte(&mut mapper, ppu_reg::ADDR, 0x01);
    ppu.write_byte(&mut mapper, ppu_reg::ADDR, 0x00);
    // Pattern table reads come straight from the cartridge, without the read buffer.
    assert_eq!(ppu.read_byte(&mut mapper, ppu_reg::DATA), (0x100u32 % 251) as u8);
    assert_eq!(ppu.read_byte(&mut mapper, ppu_reg::DATA), (0x101u32 % 251) as u8);
}

#[test]
fn palette_reads_are_not_buffered() {
    let mut ppu = PPU::default();
    let mut mapper = blank_cartridge();
    ppu.write_byte(&mut mapper, ppu_reg::ADDR, 0x3F);
    ppu.write_byte(&mut mapper, ppu_reg::ADDR, 0x01);
    ppu.write_byte(&mut mapper, ppu_reg::DATA, 0x2C);
    ppu.write_byte(&mut mapper, ppu_reg::ADDR, 0x3F);
    ppu.write_byte(&mut mapper, ppu_reg::ADDR, 0x01);
    assert_eq!(ppu.read_byte(&mut mapper, ppu_reg::DATA), 0x2C);
}

#[test]
fn scroll_writes_set_fine_x_and_t() {
    let mut ppu = PPU::default();
    ppu.update_scroll(0x7D);
    assert_eq!(ppu.fine_x, 0x05);
    assert_eq!(ppu.reg_t, 0x000F);
    ppu.update_scroll(0x5E);
    // fine Y = 6, coarse Y = 11
    assert_eq!(ppu.reg_t, 0x6000 | (11 << 5) | 0x000F);
    assert_eq!(ppu.write_latch.location, WriteLocation::First);
}

#[test]
fn control_write_sets_the_nametable_bits_of_t() {
    let mut ppu = PPU::default();
    let mut mapper = blank_cartridge();
    ppu.write_byte(&mut mapper, ppu_reg::CONTROL, 0x03);
    assert_eq!(ppu.reg_t, 0x0C00);
}

#[test]
fn vblank_starts_at_scanline_241() {
    let mut ppu = PPU::default();
    let mut mapper = blank_cartridge();
    let mut cycles = 0u32;
    while !ppu.status.contains(PPUStatus::VBlank) {
        ppu.step(&mut mapper);
        cycles += 1;
    }
    assert_eq!(ppu.scanline, 241);
    assert_eq!(cycles, 242 * 341 + 2);
}

#[test]
fn new_frame_is_ready_after_the_last_visible_scanline() {
    let mut ppu = PPU::default();
    let mut mapper = blank_cartridge();
    let mut cycles = 0u32;
    while !ppu.is_new_frame_ready() {
        ppu.step(&mut mapper);
        cycles += 1;
    }
    assert_eq!(ppu.scanline, 240);
    assert_eq!(cycles, 241 * 341);
    assert_eq!(ppu.frame_number, 0);
}
