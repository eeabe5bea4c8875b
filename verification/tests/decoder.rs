use nes_emulator::controller::Controller;
use nes_emulator::cpu::decoder::decode;
use nes_emulator::cpu::opcode::{Addressing, Opcode, OpcodeBaseName};
use nes_emulator::cpu::{CPUBus, CPU, WRAM};
use nes_emulator::dma::DMA;
use nes_emulator::interrupt::Interrupt;
use nes_emulator::ppu::{PPUBus, PPU};
use nes_emulator::rom::ROM;

fn prepare_cpu(program_rom: ROM) -> CPU {
    let ppu_bus = PPUBus::new(ROM::new(vec![]), false);
    let ppu = PPU::new(ppu_bus, Interrupt::default());
    let cpu_bus = CPUBus::new(
        program_rom,
        WRAM::default(),
        ppu,
        Controller::default(),
        DMA::new(),
    );
    CPU::new(cpu_bus)
}

#[test]
fn test_decode_implied() {
    let program_rom = ROM::new(Vec::new());
    let mut cpu = prepare_cpu(program_rom);
    let opcode = Opcode {
        base_name: OpcodeBaseName::TXA,
        addressing: Addressing::Implied,
        cycle: 2,
    };
    let result = decode(&mut cpu, &opcode);
    assert_eq!(result.operand, 0x0000);
    assert_eq!(result.page_crossed, false);
}

#[test]
fn test_decode_accumulator() {
    let program_rom = ROM::new(Vec::new());
    let mut cpu = prepare_cpu(program_rom);
    let opcode = Opcode {
        base_name: OpcodeBaseName::ASL,
        addressing: Addressing::Accumulator,
        cycle: 2,
    };
    let result = decode(&mut cpu, &opcode);
    assert_eq!(result.operand, 0x0000);
    assert_eq!(result.page_crossed, false);
}

#[test]
fn test_decode_immediate() {
    let program_rom_data = vec![0x01];
    let program_rom = ROM::new(program_rom_data);
    let mut cpu = prepare_cpu(program_rom);
    let opcode = Opcode {
        base_name: OpcodeBaseName::LDA,
        addressing: Addressing::Immediate,
        cycle: 2,
    };
    // pc: 0x8000 -> 0x01
    let result = decode(&mut cpu, &opcode);
    assert_eq!(result.operand, 0x01);
    assert_eq!(result.page_crossed, false);
}

#[test]
fn test_decode_zero_page() {
    let program_rom_data = vec![0x01];
    let program_rom = ROM::new(program_rom_data);
    let mut cpu = prepare_cpu(program_rom);
    let opcode = Opcode {
        base_name: OpcodeBaseName::LDA,
        addressing: Addressing::ZeroPage,
        cycle: 3,
    };
    // pc: 0x8000 -> 0x01
    let result = decode(&mut cpu, &opcode);
    assert_eq!(result.operand, 0x01);
    assert_eq!(result.page_crossed, false);
}

#[test]
fn test_decode_zero_page_x() {
    let program_rom_data = vec![0xF0, 0xF0];
    let program_rom = ROM::new(program_rom_data);
    let mut cpu = prepare_cpu(program_rom);
    let opcode = Opcode {
        base_name: OpcodeBaseName::LDA,
        addressing: Addressing::ZeroPageX,
        cycle: 4,
    };
    // pc: 0x8000 -> 0xF0
    // x: 0x0F
    cpu.get_register().set_x(0x0F);
    let result = decode(&mut cpu, &opcode);
    assert_eq!(result.operand, 0xFF);
    assert_eq!(result.page_crossed, false);

    // pc: 0x8001 -> 0xF0
    // x: 0x11
    cpu.get_register().set_x(0x11);
    let result = decode(&mut cpu, &opcode);
    assert_eq!(result.operand, 0x01);
    assert_eq!(result.page_crossed, false);
}

#[test]
fn test_decode_zero_page_y() {
    let program_rom_data = vec![0xF0, 0xF0];
    let program_rom = ROM::new(program_rom_data);
    let mut cpu = prepare_cpu(program_rom);
    let opcode = Opcode {
        base_name: OpcodeBaseName::LDA,
        addressing: Addressing::ZeroPageY,
        cycle: 4,
    };
    // pc: 0x8000 -> 0xF0
    // y: 0x0F
    cpu.get_register().set_y(0x0F);
    let result = decode(&mut cpu, &opcode);
    assert_eq!(result.operand, 0xFF);
    assert_eq!(result.page_crossed, false);

    // pc: 0x8001 -> 0xF0
    // y: 0x11
    cpu.get_register().set_y(0x11);
    let result = decode(&mut cpu, &opcode);
    assert_eq!(result.operand, 0x01);
    assert_eq!(result.page_crossed, false);
}

#[test]
fn test_decode_absolute() {
    let program_rom_data = vec![0x01, 0x02];
    let program_rom = ROM::new(program_rom_data);
    let mut cpu = prepare_cpu(program_rom);
    let opcode = Opcode {
        base_name: OpcodeBaseName::LDA,
        addressing: Addressing::Absolute,
        cycle: 4,
    };
    // pc: 0x8000 -> 0x01, 0x8001 -> 0x02
    let result = decode(&mut cpu, &opcode);
    assert_eq!(result.operand, 0x0201);
    assert_eq!(result.page_crossed, false);
}

#[test]
fn test_decode_absolute_x() {
    let program_rom_data = vec![0x01, 0x02, 0xFF, 0x00, 0x02, 0xFF];
    let program_rom = ROM::new(program_rom_data);
    let mut cpu = prepare_cpu(program_rom);
    let opcode = Opcode {
        base_name: OpcodeBaseName::LDA,
        addressing: Addressing::AbsoluteX,
        cycle: 4,
    };
    // pc: 0x8000 -> 0x01, 0x8001 -> 0x02
    // x: 0x01
    cpu.get_register().set_x(0x01);
    let result = decode(&mut cpu, &opcode);
    assert_eq!(result.operand, 0x0202);
    assert_eq!(result.page_crossed, false);

    // pc: 0x8002 -> 0xFF, 0x8003 -> 0x00
    // x: 0x02
    cpu.get_register().set_x(0x02);
    let result = decode(&mut cpu, &opcode);
    assert_eq!(result.operand, 0x0101);
    assert_eq!(result.page_crossed, true);

    // pc: 0x8004 -> 0x02, 0x8005 -> 0xFF
    // x: 0xFF
    cpu.get_register().set_x(0xFF);
    let result = decode(&mut cpu, &opcode);
    assert_eq!(result.operand, 0x0001);
    assert_eq!(result.page_crossed, true);
}

#[test]
fn test_decode_absolute_y() {
    let program_rom_data = vec![0x01, 0x02, 0xFF, 0x00, 0x02, 0xFF];
    let program_rom = ROM::new(program_rom_data);
    let mut cpu = prepare_cpu(program_rom);
    let opcode = Opcode {
        base_name: OpcodeBaseName::LDA,
        addressing: Addressing::AbsoluteY,
        cycle: 4,
    };
    // pc: 0x8000 -> 0x01, 0x8001 -> 0x02
    // y: 0x01
    cpu.get_register().set_y(0x01);
    let result = decode(&mut cpu, &opcode);
    assert_eq!(result.operand, 0x0202);
    assert_eq!(result.page_crossed, false);

    // pc: 0x8002 -> 0xFF, 0x8003 -> 0x00
    // y: 0x02
    cpu.get_register().set_y(0x02);
    let result = decode(&mut cpu, &opcode);
    assert_eq!(result.operand, 0x0101);
    assert_eq!(result.page_crossed, true);

    // pc: 0x8004 -> 0x02, 0x8005 -> 0xFF
    // y: 0xFF
    cpu.get_register().set_y(0xFF);
    let result = decode(&mut cpu, &opcode);
    assert_eq!(result.operand, 0x0001);
    assert_eq!(result.page_crossed, true);
}

#[test]
fn test_decode_relative() {
    let mut program_rom_data = vec![0x00; 0x8000];
    program_rom_data[0x0000] = 0x01;
    program_rom_data[0x0001] = 0xFF;
    program_rom_data[0x7FFE] = 0x02;
    let program_rom = ROM::new(program_rom_data);
    let mut cpu = prepare_cpu(program_rom);
    let opcode = Opcode {
        base_name: OpcodeBaseName::BPL,
        addressing: Addressing::Relative,
        cycle: 2,
    };
    // pc: 0x8000 -> 0x01
    // next_pc: 0x8001
    cpu.get_register().set_pc(0x8000);
    let result = decode(&mut cpu, &opcode);
    assert_eq!(result.operand, 0x8002);
    assert_eq!(result.page_crossed, false);

    // pc: 0x8001 -> 0xFF(-1)
    // next_pc: 0x8002
    let result = decode(&mut cpu, &opcode);
    assert_eq!(result.operand, 0x8001);
    assert_eq!(result.page_crossed, false);

    // pc: 0xFFFE -> 0x02
    // next_pc: 0xFFFF
    cpu.get_register().set_pc(0xFFFE);
    let result = decode(&mut cpu, &opcode);
    assert_eq!(result.operand, 0x0001);
    assert_eq!(result.page_crossed, true);

    // pc: 0x0000 -> 0xFD(-3)
    // next_pc: 0x0001
    cpu.get_register().set_pc(0x0000);
    cpu.write(0x00, 0xFD);
    let result = decode(&mut cpu, &opcode);
    assert_eq!(result.operand, 0xFFFE);
    assert_eq!(result.page_crossed, true);

    // pc: 0x00FE -> 0x01
    // next_pc: 0x00FF
    cpu.get_register().set_pc(0x00FE);
    cpu.write(0xFE, 0x01);
    let result = decode(&mut cpu, &opcode);
    assert_eq!(result.operand, 0x0100);
    assert_eq!(result.page_crossed, true);
}

#[test]
fn test_decode_zero_page_x_wraps_inside_page_zero() {
    // LDA $F0,X with X = 0x20 fetches from 0x0010, not 0x0110.
    let mut cpu = prepare_cpu(ROM::new(vec![0xF0]));
    let opcode = Opcode {
        base_name: OpcodeBaseName::LDA,
        addressing: Addressing::ZeroPageX,
        cycle: 4,
    };
    cpu.get_register().set_x(0x20);
    let result = decode(&mut cpu, &opcode);
    assert_eq!(result.operand, 0x0010);
    assert_eq!(result.page_crossed, false);
}

#[test]
fn test_decode_indirect_takes_the_high_byte_from_the_same_page() {
    // JMP ($10FF) reads the high byte from 0x1000, not 0x1100.
    let mut cpu = prepare_cpu(ROM::new(vec![0xFF, 0x10]));
    // 0x10FF, 0x1000 and 0x1100 are work RAM at 0x00FF, 0x0000 and 0x0100.
    cpu.write(0x10FF, 0x34);
    cpu.write(0x1000, 0x12);
    cpu.write(0x1100, 0x56);
    let opcode = Opcode {
        base_name: OpcodeBaseName::JMP,
        addressing: Addressing::Indirect,
        cycle: 5,
    };
    let result = decode(&mut cpu, &opcode);
    assert_eq!(result.operand, 0x1234);
    assert_eq!(result.page_crossed, true);
    assert_eq!(cpu.get_register().get_pc(), 0x8002);
}

#[test]
fn test_decode_indirect_inside_a_page() {
    let mut cpu = prepare_cpu(ROM::new(vec![0x10, 0x02]));
    cpu.write(0x0210, 0x80);
    cpu.write(0x0211, 0x02);
    let opcode = Opcode {
        base_name: OpcodeBaseName::JMP,
        addressing: Addressing::Indirect,
        cycle: 5,
    };
    let result = decode(&mut cpu, &opcode);
    assert_eq!(result.operand, 0x0280);
    assert_eq!(result.page_crossed, false);
}

#[test]
fn test_decode_indirect_x() {
    let mut cpu = prepare_cpu(ROM::new(vec![0xF0, 0xFE]));
    let opcode = Opcode {
        base_name: OpcodeBaseName::LDA,
        addressing: Addressing::IndirectX,
        cycle: 6,
    };
    // pointer at (0xF0 + 0x14) & 0xFF = 0x04
    cpu.write(0x0004, 0x21);
    cpu.write(0x0005, 0x03);
    cpu.get_register().set_x(0x14);
    let result = decode(&mut cpu, &opcode);
    assert_eq!(result.operand, 0x0321);
    assert_eq!(result.page_crossed, true);

    // pointer at 0xFF: the high byte comes from 0x00
    cpu.write(0x00FF, 0x44);
    cpu.write(0x0000, 0x00);
    cpu.get_register().set_x(0x01);
    let result = decode(&mut cpu, &opcode);
    assert_eq!(result.operand, 0x0044);
    assert_eq!(result.page_crossed, false);
}

#[test]
fn test_decode_indirect_y() {
    let mut cpu = prepare_cpu(ROM::new(vec![0x10, 0xFF]));
    let opcode = Opcode {
        base_name: OpcodeBaseName::LDA,
        addressing: Addressing::IndirectY,
        cycle: 5,
    };
    cpu.write(0x0010, 0xF0);
    cpu.write(0x0011, 0x02);
    cpu.get_register().set_y(0x05);
    let result = decode(&mut cpu, &opcode);
    assert_eq!(result.operand, 0x02F5);
    assert_eq!(result.page_crossed, false);

    // pointer at 0xFF wraps to 0x00 for its high byte, and adding Y crosses a page
    cpu.write(0x00FF, 0xFF);
    cpu.write(0x0000, 0x01);
    cpu.get_register().set_y(0x02);
    let result = decode(&mut cpu, &opcode);
    assert_eq!(result.operand, 0x0201);
    assert_eq!(result.page_crossed, true);
}
