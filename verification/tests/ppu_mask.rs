use grounes::ppu::PPUMask;

#[test]
fn is_greyscale_return_correct_value() {
    assert!(!(PPUMask { value: 0xF0 }).is_greyscale());
    assert!((PPUMask { value: 0xF1 }).is_greyscale());
}

#[test]
fn show_background_return_correct_value() {
    assert!(!(PPUMask { value: 0xF0 }).show_background_in_leftmost_8_pixels());
    assert!((PPUMask { value: 0xF2 }).show_background_in_leftmost_8_pixels());
}

#[test]
fn show_sprites_return_correct_value() {
    assert!(!(PPUMask { value: 0xF0 }).show_sprites_in_leftmost_8_pixels());
    assert!((PPUMask { value: 0xF4 }).show_sprites_in_leftmost_8_pixels());
}

#[test]
fn is_background_rendering_enabled_return_correct_value() {
    assert!(!(PPUMask { value: 0xF0 }).is_background_rendering_enabled());
    assert!((PPUMask { value: 0xF8 }).is_background_rendering_enabled());
}

#[test]
fn is_sprites_rendering_enabled_return_correct_value() {
    assert!(!(PPUMask { value: 0x0F }).is_sprite_rendering_enabled());
    assert!((PPUMask { value: 0x10 }).is_sprite_rendering_enabled());
}

#[test]
fn is_red_emphasized_return_correct_value() {
    assert!(!(PPUMask { value: 0x0F }).is_red_emphasized());
    assert!((PPUMask { value: 0x20 }).is_red_emphasized());
}

#[test]
fn is_green_emphasized_return_correct_value() {
    assert!(!(PPUMask { value: 0x0F }).is_green_emphasized());
    assert!((PPUMask { value: 0x40 }).is_green_emphasized());
}

#[test]
fn is_blue_emphasized_return_correct_value() {
    assert!(!(PPUMask { value: 0x0F }).is_blue_emphasized());
    assert!((PPUMask { value: 0x80 }).is_blue_emphasized());
}
