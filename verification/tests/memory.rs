use nes_emulator::ram::RAM;
use nes_emulator::rom::ROM;

#[test]
fn ram_test_read_write() {
    let mut ram = RAM::<1024>::default();
    ram.write(0x0000, 0x01);
    ram.write(0x0001, 0x02);
    ram.write(0x0002, 0x03);
    assert_eq!(ram.read(0x0000), 0x01);
    assert_eq!(ram.read(0x0001), 0x02);
    assert_eq!(ram.read(0x0002), 0x03);
}

#[test]
fn test_reset() {
    let mut ram = RAM::<1024>::default();
    ram.write(0x0000, 0x01);
    ram.write(0x0001, 0x02);
    ram.write(0x0002, 0x03);
    ram.reset();
    assert_eq!(ram.read(0x0000), 0x00);
    assert_eq!(ram.read(0x0001), 0x00);
    assert_eq!(ram.read(0x0002), 0x00);
}

#[test]
fn test_read() {
    let rom = ROM::new(vec![0x00, 0x01, 0x02, 0x03]);
    assert_eq!(rom.read(0x0000), 0x00);
    assert_eq!(rom.read(0x0001), 0x01);
    assert_eq!(rom.read(0x0002), 0x02);
    assert_eq!(rom.read(0x0003), 0x03);
}

#[test]
fn test_size() {
    let rom = ROM::new(vec![0x00, 0x01, 0x02, 0x03]);
    assert_eq!(rom.size(), 4);
}

#[test]
fn test_ram_starts_zeroed_and_keeps_other_cells() {
    let mut ram = RAM::<2048>::default();
    for address in 0..2048u16 {
        assert_eq!(ram.read(address), 0x00);
    }
    ram.write(0x07FF, 0xAB);
    assert_eq!(ram.read(0x07FF), 0xAB);
    assert_eq!(ram.read(0x07FE), 0x00);
    ram.write(0x07FF, 0xCD);
    assert_eq!(ram.read(0x07FF), 0xCD);
}

#[test]
fn test_empty_rom_has_size_zero() {
    let rom = ROM::new(Vec::new());
    assert_eq!(rom.size(), 0);
}
