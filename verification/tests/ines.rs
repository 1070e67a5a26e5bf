use grounes::ines::{INESHeader, InesParseError, NametableArrangement};

fn create_valid_header() -> Vec<u8> {
    let mut header = vec![0u8; 16];
    header[0..4].copy_from_slice(b"NES\x1A");
    header
}

#[test]
fn parse_header_with_wrong_magic_returns_invalid_header_error() {
    let header = vec![0u8; 16];
    let parsed_header = INESHeader::try_from(header.as_slice());
    assert!(matches!(
        parsed_header.unwrap_err(),
        InesParseError::InvalidHeader
    ));
}

#[test]
fn parse_header_with_wrong_size_returns_header_too_short_error() {
    let header = vec![0u8; 10];
    let parsed_header = INESHeader::try_from(header.as_slice());
    assert!(matches!(
        parsed_header.unwrap_err(),
        InesParseError::HeaderTooShort { size: 10 }
    ));
}

#[test]
fn parse_header_should_read_prg_rom_size() {
    let mut buffer = create_valid_header();
    let prg_rom_size = 7;
    buffer[4] = prg_rom_size;
    let header = INESHeader::try_from(buffer.as_slice());
    assert_eq!(header.unwrap().prg_rom_size, prg_rom_size as usize);
}

#[test]
fn parse_header_should_read_chr_rom_size() {
    let mut buffer = create_valid_header();
    let chr_rom_size = 5;
    buffer[5] = chr_rom_size;
    let header = INESHeader::try_from(buffer.as_slice());
    assert_eq!(header.unwrap().chr_rom_size, chr_rom_size as usize);
}

#[test]
fn parse_header_should_read_mapper() {
    let mut buffer = create_valid_header();
    let expected_mapper = 0x12;
    // lower nibble goes at the top of flag 6
    buffer[6] = (expected_mapper & 0x0F) << 4;
    // upper nibble goes in flag 7
    buffer[7] = expected_mapper & 0xF0;
    let header = INESHeader::try_from(buffer.as_slice());
    assert_eq!(header.unwrap().mapper_number, expected_mapper);
}

#[test]
fn parse_header_should_read_battery() {
    let mut buffer = create_valid_header();
    buffer[6] = 0b00000000;
    let header = INESHeader::try_from(buffer.as_slice());
    assert!(!header.unwrap().has_battery);

    buffer[6] = 0b00000010;
    let header = INESHeader::try_from(buffer.as_slice());
    assert!(header.unwrap().has_battery);
}

#[test]
fn parse_header_should_read_trainer() {
    let mut buffer = create_valid_header();
    buffer[6] = 0b00000000;
    let header = INESHeader::try_from(buffer.as_slice());
    assert!(!header.unwrap().has_trainer);

    buffer[6] = 0b00000100;
    let header = INESHeader::try_from(buffer.as_slice());
    assert!(header.unwrap().has_trainer);
}

#[test]
fn parse_header_should_read_alternative_nametable_layout() {
    let mut buffer = create_valid_header();
    buffer[6] = 0b00000000;
    let header = INESHeader::try_from(buffer.as_slice());
    assert!(!header.unwrap().use_alternative_nametable_layout);

    buffer[6] = 0b00001000;
    let header = INESHeader::try_from(buffer.as_slice());
    assert!(header.unwrap().use_alternative_nametable_layout);
}

#[test]
fn parse_header_should_read_nametable_arrangement() {
    let mut buffer = create_valid_header();
    buffer[6] = 0b00000000;
    let header = INESHeader::try_from(buffer.as_slice());
    assert_eq!(
        header.unwrap().nametable_arrangement,
        NametableArrangement::Vertical
    );

    buffer[6] = 0b00000001;
    let header = INESHeader::try_from(buffer.as_slice());
    assert_eq!(
        header.unwrap().nametable_arrangement,
        NametableArrangement::Horizontal
    );
}
