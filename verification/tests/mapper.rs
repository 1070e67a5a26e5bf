use grounes::ines::{INESHeader, NametableArrangement, INES};
use grounes::mapper::{create_mapper, Mapper, Mapper0, MapperSource};

fn image(mapper_number: u8, prg_banks: usize, prg_ram: Option<Vec<u8>>) -> INES {
    INES {
        header: INESHeader {
            prg_rom_size: prg_banks,
            chr_rom_size: 0,
            nametable_arrangement: NametableArrangement::Vertical,
            has_battery: false,
            has_trainer: false,
            use_alternative_nametable_layout: false,
            mapper_number,
        },
        trainer: None,
        prg_rom: (0..0x4000 * prg_banks).map(|i| (i / 0x100) as u8 ^ (i as u8)).collect(),
        chr_rom: None,
        playchoice_inst_rom: None,
        playchoice_prom: None,
        prg_ram,
    }
}

#[test]
fn create_mapper_accepts_mapper_zero_only() {
    assert!(create_mapper(image(0, 1, None)).is_ok());
    match create_mapper(image(1, 1, None)) {
        Err(msg) => assert_eq!(msg, "unsupported mapper: 1"),
        Ok(_) => panic!("mapper 1 is not supported"),
    }
    match create_mapper(image(255, 1, None)) {
        Err(msg) => assert_eq!(msg, "unsupported mapper: 255"),
        Ok(_) => panic!("mapper 255 is not supported"),
    }
}

#[test]
fn nrom_128_mirrors_the_first_bank() {
    let m = Mapper0 { ines: image(0, 1, None) };
    for k in [0u16, 1, 0x1234, 0x3FFF] {
        assert_eq!(
            m.read_byte(MapperSource::CPU, 0xC000 + k),
            m.read_byte(MapperSource::CPU, 0x8000 + k)
        );
    }
    assert_eq!(m.read_byte(MapperSource::CPU, 0x8000 + 0x0102), 0x01 ^ 0x02);
}

#[test]
fn nrom_256_maps_the_second_bank_high() {
    let m = Mapper0 { ines: image(0, 2, None) };
    assert_eq!(m.read_byte(MapperSource::CPU, 0xC000), (0x4000usize / 0x100) as u8);
    assert_eq!(m.read_byte(MapperSource::CPU, 0xFFFF), (0x7FFFusize / 0x100) as u8 ^ 0xFF);
}

#[test]
fn prg_ram_reads_back_writes_and_repeats() {
    let mut m = Mapper0 { ines: image(0, 1, Some(vec![0u8; 0x800])) };
    m.write_byte(MapperSource::CPU, 0x6010, 0xAA);
    assert_eq!(m.read_byte(MapperSource::CPU, 0x6010), 0xAA);
    // 2 KiB of RAM repeat over the 8 KiB window.
    assert_eq!(m.read_byte(MapperSource::CPU, 0x6810), 0xAA);
    assert_eq!(m.read_byte(MapperSource::CPU, 0x6011), 0);
    // Writes to the ROM are ignored.
    m.write_byte(MapperSource::CPU, 0x8000, 0x55);
    assert_eq!(m.read_byte(MapperSource::CPU, 0x8000), 0);
}

#[test]
fn missing_prg_ram_reads_zero() {
    let m = Mapper0 { ines: image(0, 1, None) };
    assert_eq!(m.read_byte(MapperSource::CPU, 0x6000), 0);
}

#[test]
fn missing_chr_rom_reads_zero() {
    let m = Mapper0 { ines: image(0, 1, None) };
    assert!(m.chr_rom().is_none());
    assert_eq!(m.read_byte(MapperSource::PPU, 0x0010), 0);
}
