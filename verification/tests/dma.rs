use nes_emulator::cpu::WRAM;
use nes_emulator::dma::DMA;
use nes_emulator::interrupt::Interrupt;
use nes_emulator::ppu::{PPUBus, PPU};
use nes_emulator::rom::ROM;

fn prepare_ppu() -> PPU {
    PPU::new(PPUBus::new(ROM::new(vec![]), false), Interrupt::default())
}

#[test]
fn test_dma() {
    let mut wram = WRAM::default();
    for i in 0..=0xff {
        wram.write(i, i as u8);
    }
    for i in 0..=0xff {
        wram.write(i + 0x100, (255 - i) as u8);
    }
    let mut ppu = prepare_ppu();
    let mut dma = DMA::new();

    assert_eq!(dma.run(&wram, &mut ppu), 0);

    dma.write(0x00);
    assert_eq!(dma.run(&wram, &mut ppu), 513);
    for i in 0..=255u8 {
        assert_eq!(ppu.oam.read(i), i);
    }

    assert_eq!(dma.run(&wram, &mut ppu), 0);

    dma.write(0x01);
    assert_eq!(dma.run(&wram, &mut ppu), 513);
    for i in 0..=255u8 {
        assert_eq!(ppu.oam.read(i), 255 - i);
    }
}

#[test]
fn test_dma_steals_513_cycles() {
    let mut wram = WRAM::default();
    for i in 0..=0xffu16 {
        wram.write(0x0200 + i, i as u8);
    }
    let mut ppu = prepare_ppu();
    let mut dma = DMA::new();
    dma.write(0x02);
    assert_eq!(dma.run(&wram, &mut ppu), 513);
    for i in 0..=255u8 {
        assert_eq!(ppu.oam.read(i), i);
    }
    assert_eq!(dma.run(&wram, &mut ppu), 0);
}

#[test]
fn test_dma_starts_at_the_oam_address() {
    let mut wram = WRAM::default();
    for i in 0..=0xffu16 {
        wram.write(0x0300 + i, i as u8);
    }
    let mut ppu = prepare_ppu();
    ppu.write_register(0x2003, 0x10);
    let mut dma = DMA::new();
    dma.write(0x03);
    assert_eq!(dma.run(&wram, &mut ppu), 513);
    for i in 0..=255u8 {
        assert_eq!(ppu.oam.read(0x10u8.wrapping_add(i)), i);
    }
    assert_eq!(ppu.registers.oam_address(), 0x10);
}

#[test]
fn test_dma_source_repeats_with_work_ram() {
    let mut wram = WRAM::default();
    for i in 0..=0xffu16 {
        wram.write(0x0100 + i, (i as u8) ^ 0x5A);
    }
    let mut ppu = prepare_ppu();
    let mut dma = DMA::new();
    // Page 0x09 lies 2 KiB above page 0x01.
    dma.write(0x09);
    assert_eq!(dma.run(&wram, &mut ppu), 513);
    for i in 0..=255u8 {
        assert_eq!(ppu.oam.read(i), i ^ 0x5A);
    }
}
