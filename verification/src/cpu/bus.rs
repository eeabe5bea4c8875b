//! The CPU's address space: work RAM mirrored four times, the PPU's register
//! window mirrored every eight bytes, the controller port, the DMA trigger and
//! the program ROM.
use vstd::prelude::*;
use crate::controller::{Controller, ControllerView};
use crate::cpu::WRAM;
use crate::dma::DMA;
use crate::ppu::{PpuView, PPU};
use crate::rom::ROM;
use crate::{Byte, Cycle, Word};

verus! {

/// The port of the DMA bridge.
pub const DMA_PORT: Word = 0x4014;

/// The port of the first controller.
pub const CONTROLLER_PORT: Word = 0x4016;

pub struct CPUBus {
    pub program_rom: ROM,
    pub wram: WRAM,
    pub ppu: PPU,
    pub controller: Controller,
    pub dma: DMA,
}

/// Everything behind the CPU's bus as a mathematical value.
pub struct CpuBusView {
    pub program_rom: Seq<u8>,
    /// Work RAM, 2 KiB.
    pub wram: Seq<u8>,
    pub ppu: PpuView,
    pub controller: ControllerView,
    pub dma: DMA,
}

impl View for CPUBus {
    type V = CpuBusView;

    open spec fn view(&self) -> CpuBusView {
        CpuBusView {
            program_rom: self.program_rom@,
            wram: self.wram@,
            ppu: self.ppu@,
            controller: self.controller@,
            dma: self.dma,
        }
    }
}

/// The PPU register behind an address of the register window
/// (0x2000-0x3FFF), which repeats every eight bytes.
pub open spec fn ppu_register(address: u16) -> u16 {
    (0x2000 + (address - 0x2000) % 0x0008) as u16
}

/// The cell of work RAM behind an address below 0x2000: the 2 KiB repeat
/// four times.
pub open spec fn wram_slot(address: u16) -> int {
    (address % 0x0800) as int
}

impl CpuBusView {
    pub open spec fn wf(self) -> bool {
        &&& self.wram.len() == 0x0800
        &&& self.ppu.wf()
        &&& self.controller.wf()
    }

    /// The cell of program ROM behind an address from 0x8000 on. A ROM of at
    /// most 16 KiB shows a second time from 0xC000 on.
    pub open spec fn rom_slot(self, address: u16) -> int {
        if address >= 0xC000 && self.program_rom.len() <= 0x4000 {
            address - 0xC000
        } else {
            address - 0x8000
        }
    }

    /// The byte that a read at `address` returns. Reads where nothing is
    /// mapped return 0.
    pub open spec fn read_value(self, address: u16) -> u8 {
        if address < 0x2000 {
            self.wram[wram_slot(address)]
        } else if address < 0x4000 {
            self.ppu.register_value(ppu_register(address))
        } else if address == CONTROLLER_PORT {
            if self.controller.read_value() {
                0x01
            } else {
                0x00
            }
        } else if address < 0x8000 {
            0x00
        } else if self.rom_slot(address) < self.program_rom.len() {
            self.program_rom[self.rom_slot(address)]
        } else {
            0x00
        }
    }

    /// What lies behind the bus after a read at `address`: a read of a PPU
    /// register or of the controller port changes that component.
    pub open spec fn read(self, address: u16) -> CpuBusView {
        if 0x2000 <= address < 0x4000 {
            CpuBusView { ppu: self.ppu.read_register(ppu_register(address)), ..self }
        } else if address == CONTROLLER_PORT {
            CpuBusView { controller: self.controller.read(), ..self }
        } else {
            self
        }
    }

    /// What lies behind the bus after `data` is written at `address`. Writes
    /// to ROM and where nothing is mapped change nothing.
    pub open spec fn write(self, address: u16, data: u8) -> CpuBusView {
        if address < 0x2000 {
            CpuBusView { wram: self.wram.update(wram_slot(address), data), ..self }
        } else if address < 0x4000 {
            CpuBusView { ppu: self.ppu.write_register(ppu_register(address), data), ..self }
        } else if address == DMA_PORT {
            CpuBusView { dma: self.dma.spec_write(data), ..self }
        } else if address == CONTROLLER_PORT {
            CpuBusView { controller: self.controller.write(data), ..self }
        } else {
            self
        }
    }

    /// What lies behind the bus after the DMA bridge has run.
    pub open spec fn run_dma(self) -> CpuBusView {
        CpuBusView {
            ppu: self.dma.spec_run(self.wram, self.ppu),
            dma: DMA { ram_address: None },
            ..self
        }
    }

    /// One state follows another on the same machine: it is well formed and
    /// the PPU stands at the same point of its frame.
    pub open spec fn follows(self, before: CpuBusView) -> bool {
        &&& self.wf()
        &&& self.ppu.position() == before.ppu.position()
        &&& self.program_rom == before.program_rom
    }
}

impl CPUBus {
    pub fn new(program_rom: ROM, wram: WRAM, ppu: PPU, controller: Controller, dma: DMA) -> (bus:
        Self)
        requires
            ppu@.wf(),
            controller@.wf(),
        ensures
            bus@ == (CpuBusView {
                program_rom: program_rom@,
                wram: wram@,
                ppu: ppu@,
                controller: controller@,
                dma,
            }),
            bus@.wf(),
    {
        proof {
            wram.lemma_len();
        }
        CPUBus { program_rom, wram, ppu, controller, dma }
    }

    pub fn read(&mut self, address: Word) -> (value: Byte)
        requires
            old(self)@.wf(),
        ensures
            value == old(self)@.read_value(address),
            final(self)@ == old(self)@.read(address),
            final(self)@.follows(old(self)@),
    {
        match address {
            0x0000..=0x1FFF => self.wram.read(address % 0x0800),
            0x2000..=0x3FFF => self.ppu.read_register((address - 0x2000) % 0x0008 + 0x2000),
            0x4016 => {
                if self.controller.read() {
                    0x01
                } else {
                    0x00
                }
            },
            0x4000..=0x7FFF => 0x00,
            0x8000..=0xBFFF => self.read_rom(address - 0x8000),
            _ => {
                if self.program_rom.size() <= 0x4000 {
                    self.read_rom(address - 0xC000)
                } else {
                    self.read_rom(address - 0x8000)
                }
            },
        }
    }

    pub fn write(&mut self, address: Word, data: Byte)
        requires
            old(self)@.wf(),
        ensures
            final(self)@ == old(self)@.write(address, data),
            final(self)@.follows(old(self)@),
    {
        match address {
            0x0000..=0x1FFF => self.wram.write(address % 0x0800, data),
            0x2000..=0x3FFF => self.ppu.write_register(
                (address - 0x2000) % 0x0008 + 0x2000,
                data,
            ),
            0x4014 => self.dma.write(data),
            0x4016 => self.controller.write(data),
            _ => {},
        }
    }

    /// Lets the DMA bridge perform the transfer that is armed, if one is, and
    /// returns the CPU cycles that it took.
    pub fn run_dma(&mut self) -> (cycles: Cycle)
        requires
            old(self)@.wf(),
        ensures
            cycles == old(self)@.dma.spec_cycles(),
            final(self)@ == old(self)@.run_dma(),
            final(self)@.follows(old(self)@),
    {
        self.dma.run(&self.wram, &mut self.ppu)
    }

    /// The byte at `offset` of the program ROM, or 0 past its end.
    fn read_rom(&self, offset: Word) -> (value: Byte)
        ensures
            value == if offset < self@.program_rom.len() {
                self@.program_rom[offset as int]
            } else {
                0
            },
    {
        if (offset as usize) < self.program_rom.size() {
            self.program_rom.read(offset)
        } else {
            0x00
        }
    }
}

/// Whatever the CPU does on the bus, the machine behind it stays well formed,
/// the PPU stays where it is in its frame and the program ROM stays as it is.
pub proof fn lemma_bus_access_follows(bus: CpuBusView, address: u16, data: u8)
    requires
        bus.wf(),
    ensures
        bus.read(address).follows(bus),
        bus.write(address, data).follows(bus),
        bus.run_dma().follows(bus),
{
}

/// A byte written to work RAM is read back at the same address and at its
/// three mirrors, 0x0800 apart.
pub proof fn lemma_wram_write_then_read(bus: CpuBusView, address: u16, mirror: u16, data: u8)
    requires
        bus.wf(),
        address < 0x2000,
        mirror < 0x2000,
        mirror % 0x0800 == address % 0x0800,
    ensures
        bus.write(address, data).read_value(mirror) == data,
        bus.write(address, data).read(mirror) == bus.write(address, data),
{
}

/// A write to work RAM changes the one cell behind the address and nothing
/// else on the bus.
pub proof fn lemma_wram_write_is_local(bus: CpuBusView, address: u16, other: u16, data: u8)
    requires
        bus.wf(),
        address < 0x2000,
        other < 0x2000,
        other % 0x0800 != address % 0x0800,
    ensures
        bus.write(address, data).read_value(other) == bus.read_value(other),
        bus.write(address, data).ppu == bus.ppu,
        bus.write(address, data).controller == bus.controller,
        bus.write(address, data).dma == bus.dma,
        bus.write(address, data).program_rom == bus.program_rom,
{
}

/// The PPU's registers repeat every eight bytes up to 0x3FFF.
pub proof fn lemma_ppu_window_mirrors(bus: CpuBusView, address: u16, mirror: u16, data: u8)
    requires
        0x2000 <= address < 0x4000,
        0x2000 <= mirror < 0x4000,
        mirror % 8 == address % 8,
    ensures
        bus.read_value(mirror) == bus.read_value(address),
        bus.read(mirror) == bus.read(address),
        bus.write(mirror, data) == bus.write(address, data),
{
    assert(ppu_register(mirror) == ppu_register(address));
}

/// Writes to ROM and to the unmapped ranges change nothing, and reads of the
/// unmapped ranges return 0.
pub proof fn lemma_unmapped(bus: CpuBusView, address: u16, data: u8)
    requires
        address >= 0x4000,
        address != DMA_PORT,
        address != CONTROLLER_PORT,
    ensures
        bus.write(address, data) == bus,
        bus.read(address) == bus,
        address < 0x8000 ==> bus.read_value(address) == 0,
{
}

} // verus!
