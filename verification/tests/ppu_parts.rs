use nes_emulator::ppu::attribute::Attribute;
use nes_emulator::ppu::oam::OAM;
use nes_emulator::ppu::palette::Palette;
use nes_emulator::ppu::tile::Tile;

#[test]
fn test_palette_id() {
    let attr = Attribute::new(0b1110_0100);
    assert_eq!(attr.palette_id(0, 0), 0);
    assert_eq!(attr.palette_id(1, 0), 0);
    assert_eq!(attr.palette_id(2, 0), 1);
    assert_eq!(attr.palette_id(3, 0), 1);
    assert_eq!(attr.palette_id(0, 1), 0);
    assert_eq!(attr.palette_id(1, 1), 0);
    assert_eq!(attr.palette_id(2, 1), 1);
    assert_eq!(attr.palette_id(3, 1), 1);
    assert_eq!(attr.palette_id(0, 2), 2);
    assert_eq!(attr.palette_id(1, 2), 2);
    assert_eq!(attr.palette_id(2, 2), 3);
    assert_eq!(attr.palette_id(3, 2), 3);
    assert_eq!(attr.palette_id(0, 3), 2);
    assert_eq!(attr.palette_id(1, 3), 2);
    assert_eq!(attr.palette_id(2, 3), 3);
    assert_eq!(attr.palette_id(3, 3), 3);
}

#[test]
// over 4x4
fn test_palette_id_over_4_4() {
    let attr = Attribute::new(0b1110_0100);
    assert_eq!(attr.palette_id(4, 4), 0);
    assert_eq!(attr.palette_id(5, 4), 0);
    assert_eq!(attr.palette_id(6, 4), 1);
    assert_eq!(attr.palette_id(7, 4), 1);
    assert_eq!(attr.palette_id(4, 5), 0);
    assert_eq!(attr.palette_id(5, 5), 0);
    assert_eq!(attr.palette_id(6, 5), 1);
    assert_eq!(attr.palette_id(7, 5), 1);
    assert_eq!(attr.palette_id(4, 6), 2);
    assert_eq!(attr.palette_id(5, 6), 2);
    assert_eq!(attr.palette_id(6, 6), 3);
    assert_eq!(attr.palette_id(7, 6), 3);
    assert_eq!(attr.palette_id(4, 7), 2);
    assert_eq!(attr.palette_id(5, 7), 2);
    assert_eq!(attr.palette_id(6, 7), 3);
    assert_eq!(attr.palette_id(7, 7), 3);
}

#[test]
fn test_block_number() {
    assert_eq!(Attribute::block_number(0, 0), 0);
    assert_eq!(Attribute::block_number(2, 0), 1);
    assert_eq!(Attribute::block_number(0, 2), 2);
    assert_eq!(Attribute::block_number(3, 3), 3);
    assert_eq!(Attribute::block_number(63, 59), 3);
}

#[test]
fn palette_test_read_write() {
    let mut palette = Palette::default();

    palette.write(0x00, 0x01);
    assert_eq!(palette.read(0x00), 0x01);
    assert_eq!(palette.read(0x04), 0x01);
    assert_eq!(palette.read(0x08), 0x01);
    assert_eq!(palette.read(0x0c), 0x01);
    assert_eq!(palette.read(0x10), 0x01);
    palette.write(0x10, 0x02);
    assert_eq!(palette.read(0x00), 0x02);
    assert_eq!(palette.read(0x04), 0x02);
    assert_eq!(palette.read(0x08), 0x02);
    assert_eq!(palette.read(0x0c), 0x02);
    assert_eq!(palette.read(0x10), 0x02);

    palette.write(0x04, 0x03);
    assert_eq!(palette.read(0x14), 0x03);
    palette.write(0x14, 0x04);
    assert_eq!(palette.read(0x14), 0x04);

    palette.write(0x08, 0x05);
    assert_eq!(palette.read(0x18), 0x05);
    palette.write(0x18, 0x06);
    assert_eq!(palette.read(0x18), 0x06);

    palette.write(0x0c, 0x07);
    assert_eq!(palette.read(0x1c), 0x07);
    palette.write(0x1c, 0x08);
    assert_eq!(palette.read(0x1c), 0x08);

    palette.write(0x01, 0x09);
    palette.write(0x02, 0x0a);
    palette.write(0x03, 0x0b);
    palette.write(0x05, 0x0c);
    palette.write(0x06, 0x0d);
    palette.write(0x07, 0x0e);
    palette.write(0x09, 0x0f);
    palette.write(0x0a, 0x10);
    palette.write(0x0b, 0x11);
    palette.write(0x0d, 0x12);
    palette.write(0x0e, 0x13);
    palette.write(0x0f, 0x14);
    palette.write(0x11, 0x15);
    palette.write(0x12, 0x16);
    palette.write(0x13, 0x17);
    palette.write(0x15, 0x18);
    palette.write(0x16, 0x19);
    palette.write(0x17, 0x1a);
    palette.write(0x19, 0x1b);
    palette.write(0x1a, 0x1c);
    palette.write(0x1b, 0x1d);
    palette.write(0x1d, 0x1e);
    palette.write(0x1e, 0x1f);
    palette.write(0x1f, 0x20);
    assert_eq!(palette.read(0x01), 0x09);
    assert_eq!(palette.read(0x02), 0x0a);
    assert_eq!(palette.read(0x03), 0x0b);
    assert_eq!(palette.read(0x05), 0x0c);
    assert_eq!(palette.read(0x06), 0x0d);
    assert_eq!(palette.read(0x07), 0x0e);
    assert_eq!(palette.read(0x09), 0x0f);
    assert_eq!(palette.read(0x0a), 0x10);
    assert_eq!(palette.read(0x0b), 0x11);
    assert_eq!(palette.read(0x0d), 0x12);
    assert_eq!(palette.read(0x0e), 0x13);
    assert_eq!(palette.read(0x0f), 0x14);
    assert_eq!(palette.read(0x11), 0x15);
    assert_eq!(palette.read(0x12), 0x16);
    assert_eq!(palette.read(0x13), 0x17);
    assert_eq!(palette.read(0x15), 0x18);
    assert_eq!(palette.read(0x16), 0x19);
    assert_eq!(palette.read(0x17), 0x1a);
    assert_eq!(palette.read(0x19), 0x1b);
    assert_eq!(palette.read(0x1a), 0x1c);
    assert_eq!(palette.read(0x1b), 0x1d);
    assert_eq!(palette.read(0x1d), 0x1e);
    assert_eq!(palette.read(0x1e), 0x1f);
    assert_eq!(palette.read(0x1f), 0x20);
}

#[test]
fn test_palette_mirror_addresses() {
    assert_eq!(Palette::real_read_addr(0x04), 0x00);
    assert_eq!(Palette::real_read_addr(0x08), 0x00);
    assert_eq!(Palette::real_read_addr(0x0c), 0x00);
    assert_eq!(Palette::real_read_addr(0x10), 0x00);
    assert_eq!(Palette::real_read_addr(0x14), 0x04);
    assert_eq!(Palette::real_read_addr(0x1c), 0x0c);
    assert_eq!(Palette::real_read_addr(0x1f), 0x1f);
    assert_eq!(Palette::real_write_addr(0x04), 0x04);
    assert_eq!(Palette::real_write_addr(0x10), 0x00);
    assert_eq!(Palette::real_write_addr(0x14), 0x04);
    assert_eq!(Palette::real_write_addr(0x18), 0x08);
    assert_eq!(Palette::real_write_addr(0x1c), 0x0c);
    assert_eq!(Palette::real_write_addr(0x11), 0x11);
    assert!(Palette::is_background_mirror(0x08));
    assert!(!Palette::is_background_mirror(0x00));
    assert!(Palette::is_sprite_mirror(0x18));
    assert!(!Palette::is_sprite_mirror(0x08));
}

#[test]
fn test_palette_offset() {
    // mario
    let raw_data = [
        0b1110_0000,
        0b1100_0000,
        0b1000_0000,
        0b1111_1100,
        0b1000_0000,
        0b1100_0000,
        0b0000_0000,
        0b0010_0000,
        0b0000_0000,
        0b0010_0000,
        0b0110_0000,
        0b0000_0000,
        0b1111_0000,
        0b1111_1100,
        0b1111_1110,
        0b1111_1110,
    ];
    let tile = Tile::new(raw_data);

    let calculated_data = [
        [1, 1, 1, 0, 0, 0, 0, 0],
        [1, 1, 2, 0, 0, 0, 0, 0],
        [1, 2, 2, 0, 0, 0, 0, 0],
        [1, 1, 1, 1, 1, 1, 0, 0],
        [3, 2, 2, 2, 0, 0, 0, 0],
        [3, 3, 2, 2, 2, 2, 0, 0],
        [2, 2, 2, 2, 2, 2, 2, 0],
        [2, 2, 3, 2, 2, 2, 2, 0],
    ];
    for offset_y in 0..8 {
        for offset_x in 0..8 {
            assert_eq!(
                tile.palette_offset(offset_x, offset_y),
                calculated_data[offset_y as usize][offset_x as usize]
            );
        }
    }
}

#[test]
fn test_oam_read_write_and_records() {
    let mut oam = OAM::default();
    assert_eq!(oam.head_y(), 0);
    for addr in 0..=255u8 {
        oam.write(addr, addr.wrapping_mul(3));
    }
    assert_eq!(oam.head_y(), 0);
    oam.write(0, 0x42);
    assert_eq!(oam.head_y(), 0x42);
    assert_eq!(oam.read(0xFF), 0xFFu8.wrapping_mul(3));
    let mut iterator = oam.iter();
    let first = iterator.next();
    assert_eq!(first, Some([0x42, 3, 6, 9]));
    let mut count = 1;
    let mut last = [0u8; 4];
    loop {
        match iterator.next() {
            Some(record) => {
                last = record;
                count += 1;
            }
            None => break,
        }
    }
    assert_eq!(count, 64);
    assert_eq!(
        last,
        [
            252u8.wrapping_mul(3),
            253u8.wrapping_mul(3),
            254u8.wrapping_mul(3),
            255u8.wrapping_mul(3)
        ]
    );
    assert_eq!(iterator.next(), None);
}
