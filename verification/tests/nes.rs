use nes_emulator::cpu::CpuError;
use nes_emulator::nes::NES;

/// An image with 16 KiB of program ROM that starts with `program`, with the
/// reset vector at 0x8000 and the NMI vector at `nmi`.
fn image_with(program: &[u8], nmi: u16) -> Vec<u8> {
    let mut data = vec![0u8; 16 + 0x4000 + 0x2000];
    data[0] = 0x4e;
    data[1] = 0x45;
    data[2] = 0x53;
    data[3] = 0x1a;
    data[4] = 1;
    data[5] = 1;
    data[16..16 + program.len()].copy_from_slice(program);
    data[16 + 0x3FFA] = nmi as u8;
    data[16 + 0x3FFB] = (nmi >> 8) as u8;
    data[16 + 0x3FFC] = 0x00;
    data[16 + 0x3FFD] = 0x80;
    // Character ROM: tile 0 has colour index 1 everywhere.
    for i in 0..8 {
        data[16 + 0x4000 + i] = 0xFF;
    }
    data
}

#[test]
fn test_new_resets_the_cpu() {
    let mut data = image_with(&[], 0);
    data[16 + 0x3FFC] = 0x34;
    data[16 + 0x3FFD] = 0x92;
    let mut nes = NES::new(&data);
    assert_eq!(nes.cpu.get_register().get_pc(), 0x9234);
    assert_eq!(nes.cpu.get_register().get_s(), 0xFD);
    assert_eq!(nes.cpu.bus.program_rom.size(), 0x4000);
    assert_eq!(nes.cpu.bus.ppu.bus.read(0x0000), 0xFF);
    assert_eq!(nes.cpu.bus.ppu.bus.read(0x0008), 0x00);
}

#[test]
fn test_frame_runs_until_the_ppu_completes_a_frame() {
    // 0x8000: JMP $8000
    let data = image_with(&[0x4C, 0x00, 0x80], 0);
    let mut nes = NES::new(&data);
    let renderer = nes.frame().expect("the program holds no unknown opcode");
    assert_eq!(renderer.pixels().len(), 256 * 240 * 4);
    // The background is not enabled. The 64 sprites all stand at the top left
    // corner with tile 0: nothing else was drawn.
    let pixels = renderer.pixels();
    for y in 0..240 {
        for x in 0..256 {
            let index = (y * 256 + x) * 4;
            if x < 8 && y < 8 {
                assert_eq!(&pixels[index..index + 4], &[0x80, 0x80, 0x80, 0x00]);
            } else {
                assert_eq!(&pixels[index..index + 4], &[0xFF, 0xFF, 0xFF, 0xFF]);
            }
        }
    }
    assert_eq!(nes.cpu.bus.ppu.row, 0);
    // Every turn took 3 CPU cycles, 9 PPU cycles: the frame ended 9927 turns in.
    assert_eq!(nes.cpu.bus.ppu.cycle, (9927 * 9) % (341 * 262));
    // A second frame can follow.
    assert!(nes.frame().is_ok());
}

#[test]
fn test_frame_draws_the_background() {
    // LDA #$08 ; STA $2001 ; JMP $8005
    let data = image_with(&[0xA9, 0x08, 0x8D, 0x01, 0x20, 0x4C, 0x05, 0x80], 0);
    let mut nes = NES::new(&data);
    let renderer = nes.frame().expect("the program holds no unknown opcode");
    let pixels = renderer.pixels();
    // Tile 0 everywhere, colour index 1 of palette 0, which is colour id 0.
    let index = (100 * 256 + 100) * 4;
    assert_eq!(&pixels[index..index + 4], &[0x80, 0x80, 0x80, 0xFF]);
    assert_eq!(&pixels[0..4], &[0x80, 0x80, 0x80, 0x00]);
}

#[test]
fn test_frame_fails_on_an_unknown_opcode() {
    // NOP ; NOP ; 0x0B
    let data = image_with(&[0xEA, 0xEA, 0x0B], 0);
    let mut nes = NES::new(&data);
    match nes.frame() {
        Err(error) => assert_eq!(error, CpuError::UnknownOpcode(0x0B)),
        Ok(_) => panic!("the frame loop went past a byte that is no opcode"),
    }
    assert_eq!(nes.cpu.get_register().get_pc(), 0x8003);
}

#[test]
fn test_turn() {
    // LDA #$02 ; STA $4014 ; NOP
    let data = image_with(&[0xA9, 0x02, 0x8D, 0x14, 0x40, 0xEA], 0);
    let mut nes = NES::new(&data);
    assert!(matches!(nes.turn(), Ok(None)));
    assert_eq!(nes.cpu.bus.ppu.cycle, 6);
    assert!(matches!(nes.turn(), Ok(None)));
    assert_eq!(nes.cpu.bus.ppu.cycle, 18);
    assert_eq!(nes.cpu.bus.dma.ram_address, Some(0x0200));
    // The next turn runs the transfer first: 513 + 2 CPU cycles.
    assert!(matches!(nes.turn(), Ok(None)));
    assert_eq!(nes.cpu.bus.dma.ram_address, None);
    assert_eq!(
        nes.cpu.bus.ppu.row as u32 * 341 + nes.cpu.bus.ppu.cycle,
        18 + 515 * 3
    );
}

#[test]
fn test_nmi_reaches_the_cpu() {
    // 0x8000: LDA #$80 ; STA $2000 ; JMP $8005.  NMI handler at 0x8010: INX ; RTI
    let mut program = vec![0u8; 0x20];
    program[..8].copy_from_slice(&[0xA9, 0x80, 0x8D, 0x00, 0x20, 0x4C, 0x05, 0x80]);
    program[0x10] = 0xE8;
    program[0x11] = 0x40;
    let data = image_with(&program, 0x8010);
    let mut nes = NES::new(&data);
    assert!(nes.frame().is_ok());
    assert_eq!(nes.cpu.get_register().get_x(), 1);
    assert!(nes.frame().is_ok());
    assert_eq!(nes.cpu.get_register().get_x(), 2);
}

#[test]
fn test_keys_reach_the_controller() {
    let data = image_with(&[0x4C, 0x00, 0x80], 0);
    let mut nes = NES::new(&data);
    nes.key_down(0);
    nes.key_down(7);
    nes.key_down(3);
    nes.key_up(3);
    nes.cpu.write(0x4016, 0x01);
    nes.cpu.write(0x4016, 0x00);
    let mut bits = Vec::new();
    for _ in 0..8 {
        bits.push(nes.cpu.read_byte(0x4016));
    }
    assert_eq!(bits, vec![1, 0, 0, 0, 0, 0, 0, 1]);
}

#[test]
fn test_accepts() {
    let mut data = image_with(&[], 0);
    assert!(NES::accepts(&data));
    // Two units of character ROM do not fit into character RAM.
    data[5] = 2;
    data.extend(vec![0u8; 0x2000]);
    assert!(!NES::accepts(&data));
    data[5] = 1;
    assert!(NES::accepts(&data));
    data.truncate(16 + 0x4000);
    assert!(!NES::accepts(&data));
    assert!(!NES::accepts(&[]));
}
