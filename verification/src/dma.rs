//! The sprite DMA bridge: copies one 256-byte page of work RAM into object
//! attribute memory and bills the CPU 513 cycles for it.
use vstd::prelude::*;
use crate::cpu::WRAM;
use crate::ppu::{PpuView, PPU};
use crate::Cycle;

verus! {

/// The CPU cycles that one transfer takes.
pub const DMA_CYCLES: Cycle = 513;

#[derive(Debug, Clone, Copy, PartialEq, Eq, Structural)]
pub struct DMA {
    /// The start of the source page, while a transfer is armed.
    pub ram_address: Option<u16>,
}

/// Byte `i` of the source page that starts at `source`. Work RAM repeats
/// every 2 KiB, so the address is taken modulo its size.
pub open spec fn source_byte(wram: Seq<u8>, source: u16, i: int) -> u8 {
    wram[(source + i) % 0x0800]
}

/// Object attribute memory after the first `count` bytes of a transfer: byte
/// `i` of the page lands at `oam_address + i` modulo 256.
pub open spec fn transferred(
    oam: Seq<u8>,
    wram: Seq<u8>,
    source: u16,
    oam_address: u8,
    count: int,
) -> Seq<u8> {
    Seq::new(
        256,
        |slot: int|
            if (slot - oam_address) % 256 < count {
                source_byte(wram, source, (slot - oam_address) % 256)
            } else {
                oam[slot]
            },
    )
}

impl DMA {
    /// The PPU after the transfer that is armed, if one is.
    pub open spec fn spec_run(self, wram: Seq<u8>, ppu: PpuView) -> PpuView {
        match self.ram_address {
            Some(source) => PpuView {
                oam: transferred(ppu.oam, wram, source, ppu.registers.oam_address, 256),
                ..ppu
            },
            None => ppu,
        }
    }

    /// The CPU cycles that the armed transfer takes: 513, or 0 if none is
    /// armed.
    pub open spec fn spec_cycles(self) -> Cycle {
        if self.ram_address is Some {
            DMA_CYCLES
        } else {
            0
        }
    }

    /// The bridge after a write of `data` to its port: armed, with the
    /// source page `data`.
    pub open spec fn spec_write(self, data: u8) -> DMA {
        DMA { ram_address: Some((data * 0x100) as u16) }
    }

    pub fn new() -> (dma: Self)
        ensures
            dma.ram_address is None,
    {
        DMA { ram_address: None }
    }

    /// Performs the armed transfer, if there is one, and disarms.
    pub fn run(&mut self, wram: &WRAM, ppu: &mut PPU) -> (cycles: Cycle)
        requires
            old(ppu)@.wf(),
        ensures
            final(self).ram_address is None,
            cycles == old(self).spec_cycles(),
            final(ppu)@ == old(self).spec_run(wram@, old(ppu)@),
            final(ppu)@.wf(),
            final(ppu)@.position() == old(ppu)@.position(),
    {
        match self.ram_address {
            Some(ram_address) => {
                let ghost oam_address = ppu@.registers.oam_address;
                proof {
                    wram.lemma_len();
                    assert(ppu@.oam =~= transferred(ppu@.oam, wram@, ram_address, oam_address, 0));
                }
                for i in 0..256u16
                    invariant
                        ppu@.wf(),
                        ram_address == old(self).ram_address->0,
                        oam_address == old(ppu)@.registers.oam_address,
                        wram@.len() == 0x0800,
                        ppu@ == (PpuView {
                            oam: transferred(
                                old(ppu)@.oam,
                                wram@,
                                ram_address,
                                oam_address,
                                i as int,
                            ),
                            ..old(ppu)@
                        }),
                {
                    let data = wram.read(((ram_address as u32 + i as u32) % 0x0800) as u16);
                    ppu.transfer_sprite(i as u8, data);
                    assert(ppu@.oam =~= transferred(
                        old(ppu)@.oam,
                        wram@,
                        ram_address,
                        oam_address,
                        i + 1,
                    ));
                }
                self.ram_address = None;
                513
            },
            None => 0,
        }
    }

    /// Arms a transfer from the page `data`.
    pub fn write(&mut self, data: u8)
        ensures
            *final(self) == old(self).spec_write(data),
    {
        assert(((data as u16) << 8) == data * 0x100) by (bit_vector);
        self.ram_address = Some((data as u16) << 8);
    }
}

/// A transfer writes all 256 bytes of the source page: byte `i` of the page
/// stands at `oam_address + i` modulo 256 afterwards, and nothing else of the
/// PPU changes.
pub proof fn lemma_transfer(dma: DMA, wram: Seq<u8>, ppu: PpuView, i: int)
    requires
        dma.ram_address is Some,
        ppu.wf(),
        0 <= i < 256,
    ensures
        dma.spec_run(wram, ppu).oam.len() == 256,
        dma.spec_run(wram, ppu).oam[(ppu.registers.oam_address + i) % 256] == source_byte(
            wram,
            dma.ram_address->0,
            i,
        ),
        dma.spec_run(wram, ppu).registers == ppu.registers,
        dma.spec_cycles() == 513,
{
}

/// Without a write to the port nothing is transferred and no cycle is
/// billed; a write arms exactly one transfer.
pub proof fn lemma_idle(wram: Seq<u8>, ppu: PpuView, data: u8)
    ensures
        (DMA { ram_address: None }).spec_run(wram, ppu) == ppu,
        (DMA { ram_address: None }).spec_cycles() == 0,
        (DMA { ram_address: None }).spec_write(data).spec_cycles() == 513,
        (DMA { ram_address: None }).spec_write(data).ram_address == Some((data * 0x100) as u16),
{
}

} // verus!
