use grounes::ines::{parse_rom, InesParseError, NametableArrangement};

fn image(flags6: u8, prg_banks: u8, chr_banks: u8, trainer: bool) -> Vec<u8> {
    let mut data = vec![0x4E, 0x45, 0x53, 0x1A, prg_banks, chr_banks, flags6, 0x00];
    data.resize(16, 0);
    if trainer {
        data.extend(std::iter::repeat(0x77u8).take(512));
    }
    data.extend((0..16384 * prg_banks as usize).map(|i| (i % 256) as u8));
    data.extend(std::iter::repeat(0xC3u8).take(8192 * chr_banks as usize));
    data
}

#[test]
fn parse_rom_reads_every_block() {
    let data = image(0b0000_0101, 1, 1, true);
    let ines = parse_rom(&data).unwrap();
    assert!(ines.header.has_trainer);
    assert_eq!(ines.header.nametable_arrangement, NametableArrangement::Horizontal);
    assert_eq!(ines.trainer.unwrap(), vec![0x77u8; 512]);
    assert_eq!(ines.prg_rom.len(), 16384);
    assert_eq!(ines.prg_rom[300], 44);
    assert_eq!(ines.chr_rom.unwrap(), vec![0xC3u8; 8192]);
    assert!(ines.prg_ram.is_none());
}

#[test]
fn parse_rom_without_chr_rom_has_none() {
    let data = image(0, 2, 0, false);
    let ines = parse_rom(&data).unwrap();
    assert_eq!(ines.prg_rom.len(), 32768);
    assert!(ines.chr_rom.is_none());
    assert!(ines.trainer.is_none());
}

#[test]
fn parse_rom_of_a_short_header_is_an_end_of_file_error() {
    match parse_rom(&[0x4E, 0x45, 0x53]) {
        Err(InesParseError::Io(e)) => assert_eq!(e.kind(), std::io::ErrorKind::UnexpectedEof),
        other => panic!("unexpected result {:?}", other.map(|i| i.header)),
    }
}

#[test]
fn parse_rom_with_wrong_magic_is_invalid() {
    let mut data = image(0, 1, 0, false);
    data[0] = b'X';
    assert!(matches!(parse_rom(&data), Err(InesParseError::InvalidHeader)));
}

#[test]
fn parse_rom_of_a_truncated_image_is_an_end_of_file_error() {
    let mut data = image(0, 1, 1, false);
    data.truncate(data.len() - 1);
    match parse_rom(&data) {
        Err(InesParseError::Io(e)) => assert_eq!(e.kind(), std::io::ErrorKind::UnexpectedEof),
        other => panic!("unexpected result {:?}", other.map(|i| i.header)),
    }
}

#[test]
fn parse_errors_have_messages() {
    assert_eq!(
        InesParseError::HeaderTooShort { size: 10 }.to_string(),
        "iNES header too short: got 10 bytes, need 16"
    );
    assert_eq!(
        InesParseError::InvalidHeader.to_string(),
        "invalid iNES magic (expected NES\\x1A)"
    );
    match parse_rom(&[0x4E]) {
        Err(e) => assert!(e.to_string().starts_with("I/O error: ")),
        Ok(_) => panic!("one byte is no iNES image"),
    }
}
