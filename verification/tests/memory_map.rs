use grounes::memory::{is_memory_page_crossed, map_address, MemoryRegion};

#[test]
fn ram_is_mirrored_every_two_kilobytes() {
    assert_eq!(map_address(0x0000), (MemoryRegion::Ram, 0x0000));
    assert_eq!(map_address(0x0801), (MemoryRegion::Ram, 0x0001));
    assert_eq!(map_address(0x1FFF), (MemoryRegion::Ram, 0x07FF));
}

#[test]
fn ppu_registers_repeat_every_eight_bytes() {
    assert_eq!(map_address(0x2002), (MemoryRegion::PPU, 0x2002));
    assert_eq!(map_address(0x200A), (MemoryRegion::PPU, 0x2002));
    assert_eq!(map_address(0x3FFF), (MemoryRegion::PPU, 0x2007));
}

#[test]
fn apu_and_io_registers_are_open_bus() {
    assert_eq!(map_address(0x4000), (MemoryRegion::OpenBus, 0));
    assert_eq!(map_address(0x401F), (MemoryRegion::OpenBus, 0));
}

#[test]
fn cartridge_space_keeps_the_address() {
    assert_eq!(map_address(0x4020), (MemoryRegion::Cartridge, 0x4020));
    assert_eq!(map_address(0xFFFC), (MemoryRegion::Cartridge, 0xFFFC));
}

#[test]
fn page_crossing_compares_high_bytes() {
    assert!(!is_memory_page_crossed(0x12FE, 0x12FF));
    assert!(is_memory_page_crossed(0x12FF, 0x1300));
    assert!(is_memory_page_crossed(0xFFFF, 0x0003));
}
