use grounes::ppu::pattern_table::decode_pattern_table;

#[test]
fn pattern_table_pixels_combine_the_two_planes() {
    let mut chr = vec![0u8; 0x1000];
    // Tile 0, row 0: low plane 1000_0001, high plane 1100_0000.
    chr[0] = 0b1000_0001;
    chr[8] = 0b1100_0000;
    // Tile 17 (second tile row, second column), row 3: both planes set in the last pixel.
    chr[17 * 16 + 3] = 0b0000_0001;
    chr[17 * 16 + 3 + 8] = 0b0000_0001;
    let pixels = decode_pattern_table(&chr);
    assert_eq!(pixels.len(), 128 * 128);
    assert_eq!(pixels[0], 3);
    assert_eq!(pixels[1], 2);
    assert_eq!(pixels[2], 0);
    assert_eq!(pixels[7], 1);
    assert_eq!(pixels[(8 + 3) * 128 + 8 + 7], 3);
    assert_eq!(pixels.iter().filter(|p| **p != 0).count(), 4);
}

#[test]
fn pattern_table_reads_missing_bytes_as_zero() {
    let pixels = decode_pattern_table(&[0xFF]);
    assert_eq!(pixels[..8].to_vec(), vec![1u8; 8]);
    assert!(pixels[8..].iter().all(|p| *p == 0));
}
