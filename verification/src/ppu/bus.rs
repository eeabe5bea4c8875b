//! The PPU's own address space: character RAM, the name tables behind their
//! mirroring, and palette RAM.
use vstd::prelude::*;
use crate::ppu::palette::{palette_read, palette_write, Palette};
use crate::ppu::{CRAM, VRAM};
use crate::ram::zeroed;
use crate::rom::ROM;
use crate::{Byte, Word};

verus! {

/// The highest address of the PPU's 14-bit address space.
pub const PPU_ADDRESS_MAX: u16 = 0x3FFF;

pub struct PPUBus {
    cram: CRAM,
    vram: VRAM,
    palette: Palette,
    is_horizontal_mirroring: bool,
}

/// The PPU's memory as a mathematical value.
pub struct PpuBusView {
    /// Character RAM, 8 KiB: the pattern tables.
    pub cram: Seq<u8>,
    /// Video RAM, 2 KiB: two name-table pages.
    pub vram: Seq<u8>,
    /// Palette RAM, 32 bytes.
    pub palette: Seq<u8>,
    pub is_horizontal_mirroring: bool,
}

/// The cell of video RAM behind a name-table address (0x2000-0x3EFF). The
/// four logical pages of 0x400 bytes fall onto the two physical ones: with
/// horizontal mirroring pages 0 and 1 onto the first and 2 and 3 onto the
/// second, with vertical mirroring 0 and 2 onto the first and 1 and 3 onto
/// the second. 0x3000-0x3EFF repeats 0x2000-0x2EFF.
pub open spec fn vram_slot(addr: u16, is_horizontal_mirroring: bool) -> int {
    let offset = (addr - 0x2000) % 0x1000;
    let page = offset / 0x400;
    let physical_page = if is_horizontal_mirroring {
        page / 2
    } else {
        page % 2
    };
    physical_page * 0x400 + offset % 0x400
}

/// The cell of palette RAM behind a palette address (0x3F00-0x3FFF), before
/// the palette's own mirrors.
pub open spec fn palette_slot(addr: u16) -> u8 {
    ((addr - 0x3F00) % 0x20) as u8
}

impl PpuBusView {
    pub open spec fn wf(self) -> bool {
        &&& self.cram.len() == 0x2000
        &&& self.vram.len() == 0x0800
        &&& self.palette.len() == 0x20
    }

    /// The byte at `addr`, for an address up to 0x3FFF.
    pub open spec fn read(self, addr: u16) -> u8 {
        if addr < 0x2000 {
            self.cram[addr as int]
        } else if addr < 0x3F00 {
            self.vram[vram_slot(addr, self.is_horizontal_mirroring)]
        } else {
            palette_read(self.palette, palette_slot(addr))
        }
    }

    /// The memory after `data` is written at `addr`, for an address up to
    /// 0x3FFF.
    pub open spec fn write(self, addr: u16, data: u8) -> PpuBusView {
        if addr < 0x2000 {
            PpuBusView { cram: self.cram.update(addr as int, data), ..self }
        } else if addr < 0x3F00 {
            PpuBusView {
                vram: self.vram.update(vram_slot(addr, self.is_horizontal_mirroring), data),
                ..self
            }
        } else {
            PpuBusView { palette: palette_write(self.palette, palette_slot(addr), data), ..self }
        }
    }
}

impl View for PPUBus {
    type V = PpuBusView;

    closed spec fn view(&self) -> PpuBusView {
        PpuBusView {
            cram: self.cram@,
            vram: self.vram@,
            palette: self.palette@,
            is_horizontal_mirroring: self.is_horizontal_mirroring,
        }
    }
}

impl PPUBus {
    /// The three memories always have their sizes.
    pub proof fn lemma_wf(&self)
        ensures
            self@.wf(),
    {
        self.cram.lemma_len();
        self.vram.lemma_len();
        self.palette.lemma_len();
    }

    /// A bus whose character RAM starts as a copy of the cartridge's
    /// character ROM, zero-filled up to 8 KiB.
    pub fn new(character_rom: ROM, is_horizontal_mirroring: bool) -> (bus: Self)
        requires
            character_rom@.len() <= 0x2000,
        ensures
            bus@ == (PpuBusView {
                cram: character_rom@ + zeroed((0x2000 - character_rom@.len()) as nat),
                vram: zeroed(0x0800),
                palette: zeroed(0x20),
                is_horizontal_mirroring,
            }),
            bus@.wf(),
    {
        let mut cram = CRAM::default();
        let size = character_rom.size();
        for i in 0..size
            invariant
                size == character_rom@.len(),
                size <= 0x2000,
                cram@.len() == 0x2000,
                forall|k: int| 0 <= k < i ==> #[trigger] cram@[k] == character_rom@[k],
                forall|k: int| i <= k < 0x2000 ==> #[trigger] cram@[k] == 0,
        {
            cram.write(i as Word, character_rom.read(i as Word));
        }
        let bus = PPUBus {
            cram,
            vram: VRAM::default(),
            palette: Palette::default(),
            is_horizontal_mirroring,
        };
        assert(bus@.cram =~= character_rom@ + zeroed((0x2000 - character_rom@.len()) as nat));
        bus
    }

    pub fn read(&self, addr: Word) -> (value: Byte)
        requires
            addr <= PPU_ADDRESS_MAX,
        ensures
            value == self@.read(addr),
    {
        match addr {
            0x0000..=0x1FFF => self.cram.read(addr),
            0x2000..=0x3EFF => self.vram.read(self.vram_address(addr)),
            _ => self.palette.read(((addr - 0x3F00) % 0x0020) as Byte),
        }
    }

    pub fn write(&mut self, addr: Word, data: Byte)
        requires
            addr <= PPU_ADDRESS_MAX,
        ensures
            final(self)@ == old(self)@.write(addr, data),
    {
        match addr {
            0x0000..=0x1FFF => self.cram.write(addr, data),
            0x2000..=0x3EFF => {
                let slot = self.vram_address(addr);
                self.vram.write(slot, data)
            },
            _ => self.palette.write(((addr - 0x3F00) % 0x0020) as Byte, data),
        }
    }

    /// The cell of video RAM that a name-table address is routed to.
    fn vram_address(&self, addr: Word) -> (slot: Word)
        requires
            0x2000 <= addr < 0x3F00,
        ensures
            slot == vram_slot(addr, self@.is_horizontal_mirroring),
            slot < 0x0800,
    {
        let addr = if addr >= 0x3000 {
            addr - 0x1000
        } else {
            addr
        };
        match addr {
            0x2000..=0x23FF => addr - 0x2000,
            0x2400..=0x27FF => {
                let addr = addr - 0x2400;
                if self.is_horizontal_mirroring {
                    addr
                } else {
                    addr + 0x0400
                }
            },
            0x2800..=0x2BFF => {
                let addr = addr - 0x2800;
                if self.is_horizontal_mirroring {
                    addr + 0x0400
                } else {
                    addr
                }
            },
            _ => {
                let addr = addr - 0x2C00;
                addr + 0x0400
            },
        }
    }
}

/// A byte written at an address is the byte read back from that address,
/// except at the three palette addresses that read as the universal
/// background colour.
pub proof fn lemma_write_then_read(bus: PpuBusView, addr: u16, data: u8)
    requires
        bus.wf(),
        addr <= PPU_ADDRESS_MAX,
        !(addr >= 0x3F00 && crate::ppu::palette::background_mirror(palette_slot(addr))),
    ensures
        bus.write(addr, data).read(addr) == data,
        bus.write(addr, data).wf(),
{
}

/// The name tables repeat: 0x3000-0x3EFF reads what 0x2000-0x2EFF reads, and
/// two logical pages that share a physical page read the same.
pub proof fn lemma_name_table_mirrors(bus: PpuBusView, addr: u16)
    requires
        bus.wf(),
        0x2000 <= addr < 0x2400,
    ensures
        addr < 0x2F00 - 0x1000 ==> bus.read((addr + 0x1000) as u16) == bus.read(addr),
        bus.is_horizontal_mirroring ==> bus.read((addr + 0x400) as u16) == bus.read(addr)
            && bus.read((addr + 0xC00) as u16) == bus.read((addr + 0x800) as u16),
        !bus.is_horizontal_mirroring ==> bus.read((addr + 0x800) as u16) == bus.read(addr)
            && bus.read((addr + 0xC00) as u16) == bus.read((addr + 0x400) as u16),
{
}

} // verus!
