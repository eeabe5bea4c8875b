use nes_emulator::controller::Controller;
use nes_emulator::cpu::executor::execute;
use nes_emulator::cpu::opcode::{Addressing, Opcode, OpcodeBaseName};
use nes_emulator::cpu::{CPUBus, CPU, WRAM};
use nes_emulator::dma::DMA;
use nes_emulator::interrupt::Interrupt;
use nes_emulator::ppu::{PPUBus, PPU};
use nes_emulator::rom::ROM;

fn prepare_cpu() -> CPU {
    let ppu_bus = PPUBus::new(ROM::new(vec![]), false);
    let ppu = PPU::new(ppu_bus, Interrupt::default());
    let cpu_bus = CPUBus::new(
        ROM::new(vec![]),
        WRAM::default(),
        ppu,
        Controller::default(),
        DMA::new(),
    );
    CPU::new(cpu_bus)
}

#[test]
fn test_lda() {
    let mut cpu = prepare_cpu();
    let opcode = Opcode {
        base_name: OpcodeBaseName::LDA,
        addressing: Addressing::Immediate,
        cycle: 2,
    };
    execute(&mut cpu, &opcode, 0x00FF);
    let register = cpu.get_register();
    assert_eq!(register.get_a(), 0xFF);
    assert_eq!(register.get_z(), false);
    assert_eq!(register.get_n(), true);

    execute(&mut cpu, &opcode, 0x0000);
    let register = cpu.get_register();
    assert_eq!(register.get_a(), 0x00);
    assert_eq!(register.get_z(), true);
    assert_eq!(register.get_n(), false);

    let opcode = Opcode {
        base_name: OpcodeBaseName::LDA,
        addressing: Addressing::Absolute,
        cycle: 4,
    };
    cpu.write(0x0001, 0x80);
    execute(&mut cpu, &opcode, 0x0001);
    let register = cpu.get_register();
    assert_eq!(register.get_a(), 0x80);
    assert_eq!(register.get_z(), false);
    assert_eq!(register.get_n(), true);
}

#[test]
fn test_ldx() {
    let mut cpu = prepare_cpu();
    let opcode = Opcode {
        base_name: OpcodeBaseName::LDX,
        addressing: Addressing::Immediate,
        cycle: 2,
    };
    execute(&mut cpu, &opcode, 0x00FF);
    let register = cpu.get_register();
    assert_eq!(register.get_x(), 0xFF);
    assert_eq!(register.get_z(), false);
    assert_eq!(register.get_n(), true);

    execute(&mut cpu, &opcode, 0x0000);
    let register = cpu.get_register();
    assert_eq!(register.get_x(), 0x00);
    assert_eq!(register.get_z(), true);
    assert_eq!(register.get_n(), false);

    let opcode = Opcode {
        base_name: OpcodeBaseName::LDX,
        addressing: Addressing::Absolute,
        cycle: 4,
    };
    cpu.write(0x0001, 0x80);
    execute(&mut cpu, &opcode, 0x0001);
    let register = cpu.get_register();
    assert_eq!(register.get_x(), 0x80);
    assert_eq!(register.get_z(), false);
    assert_eq!(register.get_n(), true);
}

#[test]
fn test_ldy() {
    let mut cpu = prepare_cpu();
    let opcode = Opcode {
        base_name: OpcodeBaseName::LDY,
        addressing: Addressing::Immediate,
        cycle: 2,
    };
    execute(&mut cpu, &opcode, 0x00FF);
    let register = cpu.get_register();
    assert_eq!(register.get_y(), 0xFF);
    assert_eq!(register.get_z(), false);
    assert_eq!(register.get_n(), true);

    execute(&mut cpu, &opcode, 0x0000);
    let register = cpu.get_register();
    assert_eq!(register.get_y(), 0x00);
    assert_eq!(register.get_z(), true);
    assert_eq!(register.get_n(), false);

    let opcode = Opcode {
        base_name: OpcodeBaseName::LDY,
        addressing: Addressing::Absolute,
        cycle: 4,
    };
    cpu.write(0x0001, 0x80);
    execute(&mut cpu, &opcode, 0x0001);
    let register = cpu.get_register();
    assert_eq!(register.get_y(), 0x80);
    assert_eq!(register.get_z(), false);
    assert_eq!(register.get_n(), true);
}

#[test]
fn test_sta() {
    let mut cpu = prepare_cpu();
    let opcode = Opcode {
        base_name: OpcodeBaseName::STA,
        addressing: Addressing::Absolute,
        cycle: 4,
    };
    let register = cpu.get_register();
    register.set_a(0xFF);
    execute(&mut cpu, &opcode, 0x0001);
    assert_eq!(cpu.read_byte(0x0001), 0xFF);
    {
        let register = cpu.get_register();
        assert_eq!(register.get_n(), false);
    }
}

#[test]
fn test_stx() {
    let mut cpu = prepare_cpu();
    let opcode = Opcode {
        base_name: OpcodeBaseName::STX,
        addressing: Addressing::Absolute,
        cycle: 4,
    };
    let register = cpu.get_register();
    register.set_x(0xFF);
    execute(&mut cpu, &opcode, 0x0001);
    assert_eq!(cpu.read_byte(0x0001), 0xFF);
    {
        let register = cpu.get_register();
        assert_eq!(register.get_n(), false);
    }
}

#[test]
fn test_sty() {
    let mut cpu = prepare_cpu();
    let opcode = Opcode {
        base_name: OpcodeBaseName::STY,
        addressing: Addressing::Absolute,
        cycle: 4,
    };
    let register = cpu.get_register();
    register.set_y(0xFF);
    execute(&mut cpu, &opcode, 0x0001);
    assert_eq!(cpu.read_byte(0x0001), 0xFF);
    {
        let register = cpu.get_register();
        assert_eq!(register.get_n(), false);
    }
}

#[test]
fn test_tax() {
    let mut cpu = prepare_cpu();
    {
        let register = cpu.get_register();
        register.set_a(0x00);
    }
    let opcode = Opcode {
        base_name: OpcodeBaseName::TAX,
        addressing: Addressing::Implied,
        cycle: 2,
    };
    execute(&mut cpu, &opcode, 0x0000);
    {
        let register = cpu.get_register();
        assert_eq!(register.get_x(), 0x00);
        assert_eq!(register.get_z(), true);
        assert_eq!(register.get_n(), false);
    }

    {
        let register = cpu.get_register();
        register.set_a(0xFF);
    }
    execute(&mut cpu, &opcode, 0x0000);
    {
        let register = cpu.get_register();
        assert_eq!(register.get_x(), 0xFF);
        assert_eq!(register.get_z(), false);
        assert_eq!(register.get_n(), true);
    }
}

#[test]
fn test_tay() {
    let mut cpu = prepare_cpu();
    {
        let register = cpu.get_register();
        register.set_a(0x00);
    }
    let opcode = Opcode {
        base_name: OpcodeBaseName::TAY,
        addressing: Addressing::Implied,
        cycle: 2,
    };
    execute(&mut cpu, &opcode, 0x0000);
    {
        let register = cpu.get_register();
        assert_eq!(register.get_y(), 0x00);
        assert_eq!(register.get_z(), true);
        assert_eq!(register.get_n(), false);
    }

    {
        let register = cpu.get_register();
        register.set_a(0xFF);
    }
    execute(&mut cpu, &opcode, 0x0000);
    {
        let register = cpu.get_register();
        assert_eq!(register.get_y(), 0xFF);
        assert_eq!(register.get_z(), false);
        assert_eq!(register.get_n(), true);
    }
}

#[test]
fn test_tsx() {
    let mut cpu = prepare_cpu();
    {
        let register = cpu.get_register();
        register.set_s(0x00);
    }
    let opcode = Opcode {
        base_name: OpcodeBaseName::TSX,
        addressing: Addressing::Implied,
        cycle: 2,
    };
    execute(&mut cpu, &opcode, 0x0000);
    {
        let register = cpu.get_register();
        assert_eq!(register.get_x(), 0x00);
        assert_eq!(register.get_z(), true);
        assert_eq!(register.get_n(), false);
    }

    {
        let register = cpu.get_register();
        register.set_s(0xFF);
    }
    execute(&mut cpu, &opcode, 0x0000);
    {
        let register = cpu.get_register();
        assert_eq!(register.get_x(), 0xFF);
        assert_eq!(register.get_z(), false);
        assert_eq!(register.get_n(), true);
    }
}

#[test]
fn test_txa() {
    let mut cpu = prepare_cpu();
    {
        let register = cpu.get_register();
        register.set_x(0x00);
    }
    let opcode = Opcode {
        base_name: OpcodeBaseName::TXA,
        addressing: Addressing::Implied,
        cycle: 2,
    };
    execute(&mut cpu, &opcode, 0x0000);
    {
        let register = cpu.get_register();
        assert_eq!(register.get_a(), 0x00);
        assert_eq!(register.get_z(), true);
        assert_eq!(register.get_n(), false);
    }

    {
        let register = cpu.get_register();
        register.set_x(0xFF);
    }
    execute(&mut cpu, &opcode, 0x0000);
    {
        let register = cpu.get_register();
        assert_eq!(register.get_a(), 0xFF);
        assert_eq!(register.get_z(), false);
        assert_eq!(register.get_n(), true);
    }
}

#[test]
fn test_txs() {
    let mut cpu = prepare_cpu();
    {
        let register = cpu.get_register();
        register.set_x(0xFF);
    }
    let opcode = Opcode {
        base_name: OpcodeBaseName::TXS,
        addressing: Addressing::Implied,
        cycle: 2,
    };
    execute(&mut cpu, &opcode, 0x0000);
    {
        let register = cpu.get_register();
        assert_eq!(register.get_s(), 0xFF);
        assert_eq!(register.get_n(), false);
    }
}

#[test]
fn test_tya() {
    let mut cpu = prepare_cpu();
    {
        let register = cpu.get_register();
        register.set_y(0x00);
    }
    let opcode = Opcode {
        base_name: OpcodeBaseName::TYA,
        addressing: Addressing::Implied,
        cycle: 2,
    };
    execute(&mut cpu, &opcode, 0x0000);
    {
        let register = cpu.get_register();
        assert_eq!(register.get_a(), 0x00);
        assert_eq!(register.get_z(), true);
        assert_eq!(register.get_n(), false);
    }

    {
        let register = cpu.get_register();
        register.set_y(0xFF);
    }
    execute(&mut cpu, &opcode, 0x0000);
    {
        let register = cpu.get_register();
        assert_eq!(register.get_a(), 0xFF);
        assert_eq!(register.get_z(), false);
        assert_eq!(register.get_n(), true);
    }
}
