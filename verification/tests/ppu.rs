use nes_emulator::interrupt::Interrupt;
use nes_emulator::ppu::sprite::{Sprite, SpriteAttribute};
use nes_emulator::ppu::{PPUBus, PPU};
use nes_emulator::rom::ROM;

fn prepare_ppu() -> PPU {
    PPU::new(PPUBus::new(ROM::new(vec![]), false), Interrupt::default())
}

fn write_vram(ppu: &mut PPU, address: u16, data: &[u8]) {
    ppu.read_register(0x2002);
    ppu.write_register(0x2006, (address >> 8) as u8);
    ppu.write_register(0x2006, address as u8);
    for byte in data {
        ppu.write_register(0x2007, *byte);
    }
}

#[test]
fn test_nmi_on_vblank() {
    let mut ppu = prepare_ppu();
    ppu.write_register(0x2000, 0x80);
    assert_eq!(ppu.run(341 * 240).is_none(), true);
    assert_eq!(ppu.interrupt.is_nmi(), false);
    assert_eq!(ppu.registers.is_vblank(), false);
    assert_eq!(ppu.run(341).is_none(), true);
    assert_eq!(ppu.interrupt.is_nmi(), true);
    assert_eq!(ppu.registers.read_status() & 0x80, 0x80);
}

#[test]
fn test_nmi_on_vblank_line_by_line() {
    let mut ppu = prepare_ppu();
    ppu.write_register(0x2000, 0x80);
    for _ in 0..241 {
        assert!(ppu.run(341).is_none());
    }
    assert_eq!(ppu.interrupt.is_nmi(), true);
    assert_eq!(ppu.registers.is_vblank(), true);
}

#[test]
fn test_no_nmi_when_disabled() {
    let mut ppu = prepare_ppu();
    assert!(ppu.run(341 * 241).is_none());
    assert_eq!(ppu.interrupt.is_nmi(), false);
    assert_eq!(ppu.registers.is_vblank(), true);
}

#[test]
fn test_frame_closure() {
    let mut ppu = prepare_ppu();
    assert!(ppu.run(341 * 262 - 1).is_none());
    let frame = ppu.run(1);
    let frame = frame.expect("the frame is complete after 341 x 262 cycles");
    assert_eq!(frame.background.lines.len(), 30);
    for line in frame.background.lines.iter() {
        assert_eq!(line.len(), 32);
    }
    assert_eq!(frame.sprites.len(), 64);
    assert_eq!(ppu.row, 0);
    assert_eq!(ppu.cycle, 0);
    assert_eq!(ppu.registers.is_vblank(), false);
    assert_eq!(ppu.interrupt.is_nmi(), false);
}

#[test]
fn test_frame_closure_in_one_call_and_in_small_steps() {
    let mut ppu = prepare_ppu();
    assert!(ppu.run(341 * 262).is_some());

    let mut ppu = prepare_ppu();
    let mut frames = 0;
    let mut total: u32 = 0;
    while total < 341 * 262 * 3 {
        if ppu.run(7).is_some() {
            frames += 1;
        }
        total += 7;
    }
    assert_eq!(frames, 3);
}

#[test]
fn test_cycles_accumulate_across_calls() {
    let mut ppu = prepare_ppu();
    assert!(ppu.run(340).is_none());
    assert_eq!(ppu.row, 0);
    assert_eq!(ppu.cycle, 340);
    assert!(ppu.run(2).is_none());
    assert_eq!(ppu.row, 1);
    assert_eq!(ppu.cycle, 1);
    assert!(ppu.run(341 * 3 + 5).is_none());
    assert_eq!(ppu.row, 4);
    assert_eq!(ppu.cycle, 6);
}

#[test]
fn test_status_read_clears_vblank_and_latches() {
    let mut ppu = prepare_ppu();
    assert!(ppu.run(341 * 241).is_none());
    ppu.registers.set_sprite_zero_hit();
    ppu.write_register(0x2005, 0x11);
    ppu.write_register(0x2006, 0x22);
    assert_eq!(ppu.registers.is_first_scroll_write, false);
    assert_eq!(ppu.registers.is_first_address_write, false);
    assert_eq!(ppu.read_register(0x2002), 0xC0);
    assert_eq!(ppu.registers.is_vblank(), false);
    assert_eq!(ppu.registers.is_sprite_zero_hit(), true);
    assert_eq!(ppu.registers.is_first_scroll_write, true);
    assert_eq!(ppu.registers.is_first_address_write, true);
    assert_eq!(ppu.read_register(0x2002), 0x40);
}

#[test]
fn test_status_read_resets_the_address_latch() {
    let mut ppu = prepare_ppu();
    ppu.write_register(0x2006, 0x21);
    ppu.write_register(0x2006, 0x08);
    assert_eq!(ppu.registers.address(), 0x2108);
    ppu.read_register(0x2002);
    ppu.write_register(0x2006, 0x3F);
    assert_eq!(ppu.registers.address(), 0x3F00);
    // Without the status read, a third write after one more lands in the low byte.
    ppu.write_register(0x2006, 0x10);
    assert_eq!(ppu.registers.address(), 0x3F10);
}

#[test]
fn test_write_only_registers_read_zero() {
    let mut ppu = prepare_ppu();
    ppu.write_register(0x2000, 0xFF);
    ppu.write_register(0x2001, 0xFF);
    ppu.write_register(0x2003, 0x12);
    for address in [0x2000u16, 0x2001, 0x2003, 0x2005, 0x2006] {
        assert_eq!(ppu.read_register(address), 0x00);
    }
    // A write to the read-only status register changes nothing.
    ppu.registers.set_vblank();
    ppu.write_register(0x2002, 0x00);
    assert_eq!(ppu.registers.read_status(), 0x80);
    assert_eq!(ppu.registers.ctrl, 0xFF);
    assert_eq!(ppu.registers.mask, 0xFF);
    assert_eq!(ppu.registers.oam_address(), 0x12);
}

#[test]
fn test_oam_data_port() {
    let mut ppu = prepare_ppu();
    ppu.write_register(0x2003, 0xFE);
    ppu.write_register(0x2004, 0x11);
    ppu.write_register(0x2004, 0x22);
    ppu.write_register(0x2004, 0x33);
    assert_eq!(ppu.registers.oam_address(), 0x01);
    assert_eq!(ppu.oam.read(0xFE), 0x11);
    assert_eq!(ppu.oam.read(0xFF), 0x22);
    assert_eq!(ppu.oam.read(0x00), 0x33);
    ppu.write_register(0x2003, 0xFF);
    assert_eq!(ppu.read_register(0x2004), 0x22);
    // A read does not move the OAM address.
    assert_eq!(ppu.registers.oam_address(), 0xFF);
}

#[test]
fn test_transfer_sprite_wraps_around_oam() {
    let mut ppu = prepare_ppu();
    ppu.write_register(0x2003, 0xF0);
    ppu.transfer_sprite(0x0F, 0xAA);
    ppu.transfer_sprite(0x10, 0xBB);
    assert_eq!(ppu.oam.read(0xFF), 0xAA);
    assert_eq!(ppu.oam.read(0x00), 0xBB);
    assert_eq!(ppu.registers.oam_address(), 0xF0);
}

#[test]
fn test_vram_data_port() {
    let mut ppu = prepare_ppu();
    write_vram(&mut ppu, 0x2000, &[0x01, 0x02, 0x03]);
    assert_eq!(ppu.registers.address(), 0x2003);
    assert_eq!(ppu.bus.read(0x2000), 0x01);
    assert_eq!(ppu.bus.read(0x2001), 0x02);
    assert_eq!(ppu.bus.read(0x2002), 0x03);
    ppu.write_register(0x2000, 0x04);
    write_vram(&mut ppu, 0x2100, &[0x0A, 0x0B]);
    assert_eq!(ppu.registers.address(), 0x2140);
    assert_eq!(ppu.bus.read(0x2100), 0x0A);
    assert_eq!(ppu.bus.read(0x2120), 0x0B);
    ppu.read_register(0x2002);
    ppu.write_register(0x2006, 0x21);
    ppu.write_register(0x2006, 0x20);
    assert_eq!(ppu.read_register(0x2007), 0x0B);
    // A read does not move the VRAM address.
    assert_eq!(ppu.registers.address(), 0x2120);
}

#[test]
fn test_vram_data_port_above_the_address_space() {
    let mut ppu = prepare_ppu();
    ppu.write_register(0x2006, 0x40);
    ppu.write_register(0x2006, 0x00);
    assert_eq!(ppu.read_register(0x2007), 0x00);
    ppu.write_register(0x2007, 0x55);
    assert_eq!(ppu.registers.address(), 0x4001);
    assert_eq!(ppu.bus.read(0x0000), 0x00);
    assert_eq!(ppu.bus.read(0x2000), 0x00);
    assert_eq!(ppu.bus.read(0x3F00), 0x00);
}

#[test]
fn test_bus_mirroring() {
    let mut horizontal = PPUBus::new(ROM::new(vec![]), true);
    horizontal.write(0x2000, 0x01);
    horizontal.write(0x2800, 0x02);
    assert_eq!(horizontal.read(0x2000), 0x01);
    assert_eq!(horizontal.read(0x2400), 0x01);
    assert_eq!(horizontal.read(0x2800), 0x02);
    assert_eq!(horizontal.read(0x2C00), 0x02);
    assert_eq!(horizontal.read(0x3000), 0x01);
    assert_eq!(horizontal.read(0x3800), 0x02);
    horizontal.write(0x3EFF, 0x03);
    assert_eq!(horizontal.read(0x2EFF), 0x03);
    assert_eq!(horizontal.read(0x2AFF), 0x03);

    let mut vertical = PPUBus::new(ROM::new(vec![]), false);
    vertical.write(0x2000, 0x01);
    vertical.write(0x2400, 0x02);
    assert_eq!(vertical.read(0x2000), 0x01);
    assert_eq!(vertical.read(0x2800), 0x01);
    assert_eq!(vertical.read(0x2400), 0x02);
    assert_eq!(vertical.read(0x2C00), 0x02);
    assert_eq!(vertical.read(0x3400), 0x02);
}

#[test]
fn test_bus_character_ram_and_palette() {
    let mut bus = PPUBus::new(ROM::new(vec![0x10, 0x20, 0x30]), true);
    assert_eq!(bus.read(0x0000), 0x10);
    assert_eq!(bus.read(0x0002), 0x30);
    assert_eq!(bus.read(0x0003), 0x00);
    assert_eq!(bus.read(0x1FFF), 0x00);
    bus.write(0x0001, 0x99);
    assert_eq!(bus.read(0x0001), 0x99);
    bus.write(0x3F00, 0x0F);
    assert_eq!(bus.read(0x3F04), 0x0F);
    assert_eq!(bus.read(0x3F10), 0x0F);
    assert_eq!(bus.read(0x3F20), 0x0F);
    assert_eq!(bus.read(0x3FE0), 0x0F);
    bus.write(0x3F31, 0x21);
    assert_eq!(bus.read(0x3F11), 0x21);
    bus.write(0x3F14, 0x05);
    assert_eq!(bus.read(0x3F14), 0x05);
    assert_eq!(bus.read(0x3F04), 0x0F);
}

#[test]
fn test_background_line_follows_the_name_table() {
    let mut ppu = prepare_ppu();
    // Tile 1: every pixel has colour index 3.
    write_vram(&mut ppu, 0x0010, &[0xFF; 16]);
    // The first line of the first name table: tile 1 in column 2.
    write_vram(&mut ppu, 0x2002, &[0x01]);
    // Attribute byte 0: palette 2 for the top left block, palette 1 for the top right.
    write_vram(&mut ppu, 0x23C0, &[0b0000_0110]);
    // Background palettes 1 and 2.
    write_vram(&mut ppu, 0x3F00, &[0x0F, 0, 0, 0, 0, 0x11, 0x12, 0x13, 0, 0x21, 0x22, 0x23]);
    ppu.write_register(0x2001, 0x08);
    assert!(ppu.run(341).is_none());
    assert_eq!(ppu.background.lines.len(), 1);
    let line = &ppu.background.lines[0];
    assert_eq!(line.len(), 32);
    assert_eq!(line[0].tile.palette_offset(0, 0), 0);
    assert_eq!(line[0].palette_value, [0x0F, 0x21, 0x22, 0x23]);
    assert_eq!(line[2].tile.palette_offset(0, 0), 3);
    assert_eq!(line[2].tile.palette_offset(7, 7), 3);
    assert_eq!(line[2].palette_value, [0x0F, 0x11, 0x12, 0x13]);
    assert_eq!(line[2].is_visible, true);
    assert_eq!(line[2].scroll_x, 0);
    assert_eq!(line[2].scroll_y, 0);
    assert_eq!(line[4].palette_value, [0x0F, 0, 0, 0]);
    // Seven more scanlines add nothing, the eighth adds the second line.
    assert!(ppu.run(341 * 7).is_none());
    assert_eq!(ppu.background.lines.len(), 1);
    assert!(ppu.run(341).is_none());
    assert_eq!(ppu.background.lines.len(), 2);
}

#[test]
fn test_background_scroll_selects_the_tile() {
    let mut ppu = prepare_ppu();
    // Second name table (0x2400), first line, column 0: tile 5.
    write_vram(&mut ppu, 0x0050, &[0x80; 8]);
    write_vram(&mut ppu, 0x2400, &[0x05]);
    ppu.read_register(0x2002);
    // Name table 1 shifts the picture by 256 pixels, the scroll by 8 more.
    ppu.write_register(0x2000, 0x01);
    ppu.write_register(0x2005, 0xF8);
    ppu.write_register(0x2005, 0x00);
    assert!(ppu.run(341).is_none());
    let line = &ppu.background.lines[0];
    // Column 1 shows tile column (8 + 0xF8 + 256) / 8 = 64, which wraps to
    // column 0 of the first name table.
    assert_eq!(line[1].tile.palette_offset(0, 0), 0);
    // Column 0 shows tile column (0xF8 + 256) / 8 = 63, the last column of
    // the second name table.
    assert_eq!(line[0].scroll_x, 0xF8 + 256);
    assert_eq!(line[0].scroll_y, 0);
    assert_eq!(ppu.tile_x(0), 63);
    assert_eq!(ppu.tile_x(1), 0);
    assert_eq!(ppu.name_table_address(32, 0), 0x2400);
    assert_eq!(ppu.name_table_address(63, 29), 0x2400 + 31 + 29 * 32);
    assert_eq!(ppu.name_table_address(0, 30), 0x2800);
    assert_eq!(ppu.attribute_table_address(0, 0), 0x23C0);
    assert_eq!(ppu.attribute_table_address(63, 59), 0x2FC0 + 7 + 7 * 8);
    assert_eq!(ppu.fetch_tile_id(32, 0), 0x05);
    assert_eq!(ppu.fetch_tile(0x05, false).palette_offset(0, 0), 1);
    assert_eq!(ppu.fetch_tile(0x05, false).palette_offset(1, 0), 0);
}

#[test]
fn test_sprites_are_built_from_oam() {
    let mut ppu = prepare_ppu();
    // Tile 2 in the second pattern table: low plane set in the first row.
    write_vram(&mut ppu, 0x1020, &[0xFF]);
    write_vram(&mut ppu, 0x3F10, &[0, 0, 0, 0, 0, 0x31, 0x32, 0x33]);
    ppu.write_register(0x2000, 0x08);
    ppu.write_register(0x2003, 0x04);
    for byte in [0x20u8, 0x02, 0b1110_0001, 0x30] {
        ppu.write_register(0x2004, byte);
    }
    assert!(ppu.run(341).is_none());
    assert_eq!(ppu.sprites.len(), 64);
    let sprite = &ppu.sprites[1];
    assert_eq!(sprite.y, 0x20);
    assert_eq!(sprite.x, 0x30);
    assert_eq!(sprite.tile.palette_offset(0, 0), 1);
    assert_eq!(sprite.tile.palette_offset(0, 1), 0);
    assert_eq!(sprite.attribute.palette_value, [0x00, 0x31, 0x32, 0x33]);
    assert_eq!(sprite.attribute.is_low_priority, true);
    assert_eq!(sprite.attribute.is_flip_horizontal, true);
    assert_eq!(sprite.attribute.is_flip_vertical, true);
    let first = &ppu.sprites[0];
    assert_eq!(first.attribute.is_low_priority, false);

    let built = Sprite::new(&ppu, [0x20, 0x02, 0b1110_0001, 0x30]);
    assert_eq!(built.x, 0x30);
    assert_eq!(built.tile.palette_offset(7, 0), 1);
    let attribute = SpriteAttribute::new(&ppu, 0b0100_0001);
    assert_eq!(attribute.palette_value, [0x00, 0x31, 0x32, 0x33]);
    assert_eq!(attribute.is_low_priority, false);
    assert_eq!(attribute.is_flip_horizontal, true);
    assert_eq!(attribute.is_flip_vertical, false);
}

#[test]
fn test_sprite_zero_hit() {
    let mut ppu = prepare_ppu();
    ppu.write_register(0x2003, 0x00);
    ppu.write_register(0x2004, 0x05);
    // Both layers must be shown.
    ppu.write_register(0x2001, 0x08);
    assert!(ppu.run(341 * 10).is_none());
    assert_eq!(ppu.registers.is_sprite_zero_hit(), false);
    // Next frame, with both layers.
    assert!(ppu.run(341 * 252).is_some());
    ppu.write_register(0x2001, 0x18);
    assert!(ppu.run(341 * 5).is_none());
    assert_eq!(ppu.registers.is_sprite_zero_hit(), false);
    assert!(ppu.run(341).is_none());
    assert_eq!(ppu.registers.is_sprite_zero_hit(), true);
    // The flag is cleared when the frame ends.
    assert!(ppu.run(341 * 256).is_some());
    assert_eq!(ppu.registers.is_sprite_zero_hit(), false);
}
