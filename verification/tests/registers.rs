use nes_emulator::cpu::register::CPURegister;
use nes_emulator::cpu::{high, low, word};
use nes_emulator::ppu::register::PPURegisters;

#[test]
fn test_register_defaults() {
    let register = CPURegister::default();
    assert_eq!(register.get_a(), 0x00);
    assert_eq!(register.get_x(), 0x00);
    assert_eq!(register.get_y(), 0x00);
    assert_eq!(register.get_s(), 0xFD);
    assert_eq!(register.get_pc(), 0x8000);
    assert_eq!(register.get_p(), 0x24);
    assert_eq!(register.get_i(), true);
    assert_eq!(register.get_r(), true);
    assert_eq!(register.stack_address(), 0x01FD);
}

#[test]
fn test_status_byte_round_trip() {
    let mut register = CPURegister::default();
    for byte in 0..=255u8 {
        register.set_p(byte);
        assert_eq!(register.get_p(), byte);
        assert_eq!(register.get_c(), byte & 0x01 != 0);
        assert_eq!(register.get_z(), byte & 0x02 != 0);
        assert_eq!(register.get_i(), byte & 0x04 != 0);
        assert_eq!(register.get_d(), byte & 0x08 != 0);
        assert_eq!(register.get_b(), byte & 0x10 != 0);
        assert_eq!(register.get_r(), byte & 0x20 != 0);
        assert_eq!(register.get_v(), byte & 0x40 != 0);
        assert_eq!(register.get_n(), byte & 0x80 != 0);
    }
}

#[test]
fn test_flag_setters() {
    let mut register = CPURegister::default();
    register.set_p(0x00);
    register.set_c();
    assert_eq!(register.get_p(), 0x01);
    register.set_z();
    assert_eq!(register.get_p(), 0x03);
    register.set_i();
    register.set_d();
    register.set_b();
    register.set_r();
    register.set_v();
    register.set_n();
    assert_eq!(register.get_p(), 0xFF);
    register.clear_c();
    assert_eq!(register.get_p(), 0xFE);
    register.clear_z();
    register.clear_i();
    register.clear_d();
    register.clear_b();
    register.clear_r();
    register.clear_v();
    assert_eq!(register.get_p(), 0x80);
    register.clear_n();
    assert_eq!(register.get_p(), 0x00);
}

#[test]
fn test_counters_wrap() {
    let mut register = CPURegister::default();
    register.set_s(0xFF);
    register.increment_s();
    assert_eq!(register.get_s(), 0x00);
    register.decrement_s();
    assert_eq!(register.get_s(), 0xFF);
    register.set_pc(0xFFFF);
    register.increment_pc_byte();
    assert_eq!(register.get_pc(), 0x0000);
    register.decrement_pc_byte();
    assert_eq!(register.get_pc(), 0xFFFF);
    register.increment_pc_word();
    assert_eq!(register.get_pc(), 0x0001);
    register.set_pc(0xFFFE);
    register.increment_pc_word();
    assert_eq!(register.get_pc(), 0x0000);
}

#[test]
fn test_add_a() {
    let mut register = CPURegister::default();
    register.set_a(0x50);
    register.add_a(0x50);
    assert_eq!(register.get_a(), 0xA0);
    assert_eq!(register.get_c(), false);
    assert_eq!(register.get_v(), true);
    assert_eq!(register.get_n(), true);
    assert_eq!(register.get_z(), false);

    register.set_a(0xFF);
    register.set_c();
    register.add_a(0x00);
    assert_eq!(register.get_a(), 0x00);
    assert_eq!(register.get_c(), true);
    assert_eq!(register.get_v(), false);
    assert_eq!(register.get_z(), true);

    register.set_a(0x80);
    register.clear_c();
    register.add_a(0x80);
    assert_eq!(register.get_a(), 0x00);
    assert_eq!(register.get_c(), true);
    assert_eq!(register.get_v(), true);
}

#[test]
fn test_sub_a() {
    let mut register = CPURegister::default();
    register.set_a(0x50);
    register.set_c();
    register.sub_a(0x30);
    assert_eq!(register.get_a(), 0x20);
    assert_eq!(register.get_c(), true);
    assert_eq!(register.get_v(), false);

    register.set_a(0x50);
    register.clear_c();
    register.sub_a(0x50);
    assert_eq!(register.get_a(), 0xFF);
    assert_eq!(register.get_c(), false);
    assert_eq!(register.get_n(), true);

    register.set_a(0x80);
    register.set_c();
    register.sub_a(0x01);
    assert_eq!(register.get_a(), 0x7F);
    assert_eq!(register.get_c(), true);
    assert_eq!(register.get_v(), true);
}

#[test]
fn test_add_then_subtract_round_trip() {
    // Whenever the addition changes the carry, subtracting the same operand
    // gives back A and the carry.
    let mut checked = 0;
    for a in 0..=255u8 {
        for m in 0..=255u8 {
            for carry in [false, true] {
                let mut register = CPURegister::default();
                register.set_a(a);
                if carry {
                    register.set_c();
                } else {
                    register.clear_c();
                }
                register.add_a(m);
                if register.get_c() != carry {
                    register.sub_a(m);
                    assert_eq!(register.get_a(), a);
                    assert_eq!(register.get_c(), carry);
                    checked += 1;
                }
            }
        }
    }
    assert!(checked > 0);
    // Where the carry stays, A is not recovered: 1 + 1, then 2 - 1 - 1 = 0.
    let mut register = CPURegister::default();
    register.set_a(1);
    register.clear_c();
    register.add_a(1);
    register.sub_a(1);
    assert_eq!(register.get_a(), 0);
}

#[test]
fn test_register_shifts_and_compare() {
    let mut register = CPURegister::default();
    assert_eq!(register.set_flag_by_left_shift(0xC1), 0x82);
    assert_eq!(register.get_c(), true);
    assert_eq!(register.get_n(), true);
    assert_eq!(register.set_flag_by_right_shift(0x01), 0x00);
    assert_eq!(register.get_c(), true);
    assert_eq!(register.get_z(), true);
    assert_eq!(register.set_flag_by_left_rotate(0x40), 0x81);
    assert_eq!(register.get_c(), false);
    assert_eq!(register.set_flag_by_right_rotate(0x01), 0x00);
    assert_eq!(register.get_c(), true);
    assert_eq!(register.set_flag_by_right_rotate(0x00), 0x80);
    assert_eq!(register.get_c(), false);
    register.set_a(0x81);
    register.left_shift_a();
    assert_eq!(register.get_a(), 0x02);
    register.right_shift_a();
    assert_eq!(register.get_a(), 0x01);
    register.set_c();
    register.left_rotate_a();
    assert_eq!(register.get_a(), 0x03);
    register.set_c();
    register.right_rotate_a();
    assert_eq!(register.get_a(), 0x81);
    assert_eq!(register.get_c(), true);
    register.cmp(0x00, 0x01);
    assert_eq!(register.get_c(), false);
    assert_eq!(register.get_z(), false);
    assert_eq!(register.get_n(), true);
    register.cmp(0x7F, 0x7F);
    assert_eq!(register.get_c(), true);
    assert_eq!(register.get_z(), true);
    register.set_zn_by(0x80);
    assert_eq!(register.get_z(), false);
    assert_eq!(register.get_n(), true);
}

#[test]
fn test_byte_and_word_helpers() {
    assert_eq!(low(0xABCD), 0xCD);
    assert_eq!(high(0xABCD), 0xAB);
    assert_eq!(word(0xCD, 0xAB), 0xABCD);
    assert_eq!(word(0x00, 0x00), 0x0000);
    assert_eq!(word(0xFF, 0xFF), 0xFFFF);
}

#[test]
fn test_ppu_register_writes() {
    let mut registers = PPURegisters::default();
    registers.write_ctrl(0b1001_1111);
    assert_eq!(registers.name_table_id(), 3);
    assert_eq!(registers.vram_address_increment(), 32);
    assert_eq!(registers.sprite_table_offset(), 0x1000);
    assert_eq!(registers.background_table_offset(), 0x1000);
    assert_eq!(registers.has_vblank_nmi(), true);
    registers.write_ctrl(0b0000_0001);
    assert_eq!(registers.name_table_id(), 1);
    assert_eq!(registers.vram_address_increment(), 1);
    assert_eq!(registers.sprite_table_offset(), 0x0000);
    assert_eq!(registers.background_table_offset(), 0x0000);
    assert_eq!(registers.has_vblank_nmi(), false);
    registers.write_mask(0b0000_1000);
    assert_eq!(registers.is_background_visible(), true);
    assert_eq!(registers.is_sprite_visible(), false);
    registers.write_mask(0b0001_0000);
    assert_eq!(registers.is_background_visible(), false);
    assert_eq!(registers.is_sprite_visible(), true);

    registers.write_scroll(0x12);
    registers.write_scroll(0x34);
    assert_eq!(registers.scroll_x(), 0x12);
    assert_eq!(registers.scroll_y(), 0x34);
    assert_eq!(registers.real_scroll_x(), 0x12 + 256);
    assert_eq!(registers.real_scroll_y(), 0x34);
    registers.write_ctrl(0b0000_0010);
    assert_eq!(registers.real_scroll_x(), 0x12);
    assert_eq!(registers.real_scroll_y(), 0x34 + 256);
    registers.write_scroll(0x56);
    assert_eq!(registers.scroll_x(), 0x56);
    registers.clear_scroll_latch();
    registers.write_scroll(0x78);
    assert_eq!(registers.scroll_x(), 0x78);
    assert_eq!(registers.scroll_y(), 0x34);

    registers.write_address(0x21);
    registers.write_address(0x08);
    assert_eq!(registers.address(), 0x2108);
    registers.increment_address();
    assert_eq!(registers.address(), 0x2109);
    registers.write_ctrl(0b0000_0100);
    registers.increment_address();
    assert_eq!(registers.address(), 0x2129);
    registers.write_address(0xFF);
    registers.write_address(0xFF);
    registers.increment_address();
    assert_eq!(registers.address(), 0x001F);
    // The second write replaces the low byte, whatever it has become.
    registers.write_address(0x12);
    registers.increment_address();
    assert_eq!(registers.address(), 0x1220);
    registers.write_address(0x05);
    assert_eq!(registers.address(), 0x1205);

    registers.write_oam_address(0xFF);
    assert_eq!(registers.oam_address(), 0xFF);
    registers.increment_oam_address();
    assert_eq!(registers.oam_address(), 0x00);
}

#[test]
fn test_ppu_status_flags_are_independent() {
    let mut registers = PPURegisters::default();
    registers.set_vblank();
    registers.set_sprite_zero_hit();
    registers.set_sprite_overflow();
    assert_eq!(registers.read_status(), 0xE0);
    registers.clear_sprite_zero_hit();
    assert_eq!(registers.is_vblank(), true);
    assert_eq!(registers.is_sprite_zero_hit(), false);
    assert_eq!(registers.is_sprite_overflow(), true);
    assert_eq!(registers.read_status(), 0xA0);
    registers.clear_sprite_overflow();
    assert_eq!(registers.read_status(), 0x80);
    registers.clear_vblank();
    assert_eq!(registers.read_status(), 0x00);
    registers.set_sprite_zero_hit();
    assert_eq!(registers.read_status(), 0x40);
}
