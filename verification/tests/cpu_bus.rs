use nes_emulator::controller::Controller;
use nes_emulator::cpu::{CPUBus, WRAM};
use nes_emulator::dma::DMA;
use nes_emulator::interrupt::Interrupt;
use nes_emulator::ppu::{PPUBus, PPU};
use nes_emulator::rom::ROM;

fn prepare_bus(program_rom: ROM) -> CPUBus {
    let ppu_bus = PPUBus::new(ROM::new(vec![]), false);
    let ppu = PPU::new(ppu_bus, Interrupt::default());
    CPUBus::new(
        program_rom,
        WRAM::default(),
        ppu,
        Controller::default(),
        DMA::new(),
    )
}

#[test]
fn bus_test_read_write() {
    let mut program_rom_data = vec![0; 0x8000];
    for i in 0..0x4000 {
        program_rom_data[i] = (i % 0x100) as u8;
    }
    for i in 0..0x4000 {
        program_rom_data[i + 0x4000] = (i + 1 % 0x100) as u8;
    }
    let program_rom = ROM::new(program_rom_data);
    let mut bus = prepare_bus(program_rom);

    // WRAM r/w
    bus.write(0x0000, 0x01);
    bus.write(0x07FF, 0x02);
    assert_eq!(bus.read(0x0000), 0x01);
    assert_eq!(bus.read(0x07FF), 0x02);
    assert_eq!(bus.read(0x0800), 0x01);
    assert_eq!(bus.read(0x0FFF), 0x02);
    assert_eq!(bus.read(0x1000), 0x01);
    assert_eq!(bus.read(0x17FF), 0x02);
    assert_eq!(bus.read(0x1800), 0x01);
    assert_eq!(bus.read(0x1FFF), 0x02);
    bus.write(0x0800, 0x03);
    bus.write(0x0FFF, 0x04);
    assert_eq!(bus.read(0x0000), 0x03);
    assert_eq!(bus.read(0x07FF), 0x04);
    bus.write(0x1000, 0x05);
    bus.write(0x17FF, 0x06);
    assert_eq!(bus.read(0x0800), 0x05);
    assert_eq!(bus.read(0x0FFF), 0x06);
    bus.write(0x1800, 0x07);
    bus.write(0x1FFF, 0x08);
    assert_eq!(bus.read(0x1000), 0x07);
    assert_eq!(bus.read(0x17FF), 0x08);

    // PPU r/w: every eighth address reaches the same register
    bus.read(0x2000);
    bus.read(0x2008);
    bus.read(0x3FF8);
    bus.read(0x2007);
    bus.read(0x200F);
    bus.read(0x3FFF);
    bus.write(0x2000, 0x01);
    assert_eq!(bus.ppu.registers.ctrl, 0x01);
    bus.ppu.registers.ctrl = 0x00;
    bus.write(0x2008, 0x01);
    assert_eq!(bus.ppu.registers.ctrl, 0x01);
    bus.ppu.registers.ctrl = 0x00;
    bus.write(0x3FF8, 0x01);
    assert_eq!(bus.ppu.registers.ctrl, 0x01);
    bus.ppu.registers.ctrl = 0x00;
    assert_eq!(bus.ppu.registers.address(), 0x0000);
    bus.write(0x2007, 0x01);
    bus.write(0x200F, 0x01);
    bus.write(0x3FFF, 0x01);
    assert_eq!(bus.ppu.registers.address(), 0x0003);
    assert_eq!(bus.ppu.bus.read(0x0000), 0x01);
    assert_eq!(bus.ppu.bus.read(0x0001), 0x01);
    assert_eq!(bus.ppu.bus.read(0x0002), 0x01);
    assert_eq!(bus.ppu.bus.read(0x0003), 0x00);

    // controller r/w
    bus.controller.key_down(0);
    bus.controller.key_down(7);
    bus.controller.write(0x01);
    bus.controller.write(0x00);
    assert_eq!(bus.read(0x4016), 0x01);
    assert_eq!(bus.read(0x4016), 0x00);
    assert_eq!(bus.read(0x4016), 0x00);
    assert_eq!(bus.read(0x4016), 0x00);
    assert_eq!(bus.read(0x4016), 0x00);
    assert_eq!(bus.read(0x4016), 0x00);
    assert_eq!(bus.read(0x4016), 0x00);
    assert_eq!(bus.read(0x4016), 0x01);

    // DMA
    for i in 0..=0xff {
        bus.wram.write(i + 0x100, i as u8);
    }
    bus.write(0x4014, 0x01);
    bus.run_dma();
    for i in 0..=0xffu8 {
        assert_eq!(bus.ppu.oam.read(i), i);
    }

    // ROM
    assert_eq!(bus.read(0x8000), 0x00);
    assert_eq!(bus.read(0xBFFF), 0xFF);
    assert_eq!(bus.read(0xC000), 0x01);
    assert_eq!(bus.read(0xFFFF), 0x00);
}

#[test]
fn test_when_rom_block_is_one() {
    let mut program_rom_data = vec![0; 0x4000];
    for i in 0..0x4000 {
        program_rom_data[i] = (i % 0x100) as u8;
    }
    let program_rom = ROM::new(program_rom_data);
    let mut bus = prepare_bus(program_rom);

    assert_eq!(bus.read(0x8000), 0x00);
    assert_eq!(bus.read(0xBFFF), 0xFF);
    assert_eq!(bus.read(0xC000), 0x00);
    assert_eq!(bus.read(0xFFFF), 0xFF);
}

#[test]
fn test_unmapped_ranges_read_zero_and_ignore_writes() {
    let mut bus = prepare_bus(ROM::new(vec![0x11; 0x4000]));
    for address in [0x4000u16, 0x4015, 0x4017, 0x401F, 0x4020, 0x5FFF, 0x6000, 0x7FFF] {
        bus.write(address, 0xEE);
        assert_eq!(bus.read(address), 0x00, "address {:04X}", address);
    }
    // Writes to ROM change nothing.
    bus.write(0x8000, 0xEE);
    bus.write(0xFFFF, 0xEE);
    assert_eq!(bus.read(0x8000), 0x11);
    assert_eq!(bus.read(0xFFFF), 0x11);
    // Work RAM was never touched.
    for address in 0..0x0800u16 {
        assert_eq!(bus.read(address), 0x00);
    }
}

#[test]
fn test_reads_past_the_end_of_a_short_rom_give_zero() {
    let mut bus = prepare_bus(ROM::new(vec![0x77; 4]));
    assert_eq!(bus.read(0x8003), 0x77);
    assert_eq!(bus.read(0x8004), 0x00);
    assert_eq!(bus.read(0xC003), 0x77);
    assert_eq!(bus.read(0xC004), 0x00);
    assert_eq!(bus.read(0xFFFF), 0x00);
    let mut empty = prepare_bus(ROM::new(vec![]));
    assert_eq!(empty.read(0x8000), 0x00);
    assert_eq!(empty.read(0xFFFC), 0x00);
}

#[test]
fn test_wram_write_is_seen_at_all_four_mirrors() {
    let mut bus = prepare_bus(ROM::new(vec![]));
    for base in [0x0000u16, 0x0800, 0x1000, 0x1800] {
        let value = (base >> 8) as u8 | 0x05;
        bus.write(base + 0x0123, value);
        for k in 0..4u16 {
            assert_eq!(bus.read(k * 0x0800 + 0x0123), value);
        }
        assert_eq!(bus.read(0x0124), 0x00);
    }
}

#[test]
fn test_controller_shift_out_through_the_port() {
    let mut bus = prepare_bus(ROM::new(vec![]));
    bus.controller.key_down(0);
    bus.controller.key_down(7);
    bus.write(0x4016, 0x01);
    bus.write(0x4016, 0x00);
    let mut bits = Vec::new();
    for _ in 0..8 {
        bits.push(bus.read(0x4016));
    }
    assert_eq!(bits, vec![1, 0, 0, 0, 0, 0, 0, 1]);
}

#[test]
fn test_dma_port_arms_a_transfer() {
    let mut bus = prepare_bus(ROM::new(vec![]));
    assert_eq!(bus.run_dma(), 0);
    bus.write(0x4014, 0x02);
    assert_eq!(bus.dma.ram_address, Some(0x0200));
    assert_eq!(bus.run_dma(), 513);
    assert_eq!(bus.dma.ram_address, None);
    assert_eq!(bus.run_dma(), 0);
}
