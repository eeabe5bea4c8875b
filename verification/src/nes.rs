//! The console: the CPU with everything behind its bus, and the frame loop
//! that runs the DMA bridge, the CPU and the PPU in turn until the PPU has
//! completed a frame.
use vstd::prelude::*;
use crate::cartridge::{
    character_rom_of, character_rom_size, horizontal_mirroring_of, image_complete,
    program_rom_of, Cartridge,
};
use crate::controller::{Controller, ControllerView};
use crate::cpu::bus::CpuBusView;
use crate::cpu::{CPUBus, CpuError, CpuView, CPU, WRAM};
use crate::Cycle;
use crate::dma::DMA;
use crate::interrupt::Interrupt;
use crate::ppu::bus::PpuBusView;
use crate::ppu::{
    frame_cycles, frame_view, PPUBus, PpuView, RenderingData, RenderingDataView, PPU,
};
use crate::ram::zeroed;
use crate::renderer::{blank_frame, rendered, Renderer};

verus! {

pub struct NES {
    pub cpu: CPU,
}

impl View for NES {
    type V = CpuView;

    open spec fn view(&self) -> CpuView {
        self.cpu@
    }
}

/// The console right after the cartridge image `data` is plugged in and the
/// CPU is reset: memories cleared, the character ROM copied into character
/// RAM, no button held, no transfer armed, no interrupt pending.
pub open spec fn power_on(data: Seq<u8>) -> CpuView {
    CpuView::initial(
        CpuBusView {
            program_rom: program_rom_of(data),
            wram: zeroed(0x0800),
            ppu: PpuView::initial(
                PpuBusView {
                    cram: character_rom_of(data) + zeroed(
                        (0x2000 - character_rom_size(data)) as nat,
                    ),
                    vram: zeroed(0x0800),
                    palette: zeroed(0x20),
                    is_horizontal_mirroring: horizontal_mirroring_of(data),
                },
                Interrupt { nmi: false, irq: false },
            ),
            controller: ControllerView::initial(),
            dma: DMA { ram_address: None },
        },
    ).reset()
}

impl CpuView {
    /// The state after the DMA bridge has run.
    pub open spec fn run_dma(self) -> CpuView {
        CpuView { bus: self.bus.run_dma(), ..self }
    }

    /// The state after the PPU has run for `ticks` PPU cycles.
    pub open spec fn run_ppu(self, ticks: nat) -> CpuView {
        CpuView { bus: CpuBusView { ppu: self.bus.ppu.run(ticks), ..self.bus }, ..self }
    }

    /// The PPU cycles of one turn of the frame loop: three for every CPU
    /// cycle that the DMA bridge and the instruction took. An error if the
    /// CPU met a byte that is no opcode.
    pub open spec fn turn_ticks(self) -> Result<nat, CpuError> {
        match self.run_dma().step_result() {
            Ok(cycles) => Ok(((self.bus.dma.spec_cycles() + cycles) * 3) as nat),
            Err(error) => Err(error),
        }
    }

    /// The state after one turn of the frame loop: the DMA bridge runs, the
    /// CPU takes one step, and the PPU runs for the cycles that both took.
    /// After a failed step the PPU does not run.
    pub open spec fn turn(self) -> CpuView {
        let stepped = self.run_dma().step();
        match self.turn_ticks() {
            Ok(ticks) => stepped.run_ppu(ticks),
            Err(_) => stepped,
        }
    }

    /// What one turn yields: the frame that the PPU completed in it, if it
    /// completed one.
    pub open spec fn turn_frame(self) -> Result<Option<RenderingDataView>, CpuError> {
        match self.turn_ticks() {
            Ok(ticks) => Ok(self.run_dma().step().bus.ppu.run_frame(ticks)),
            Err(error) => Err(error),
        }
    }

    /// The state after the frame loop: turns are taken until one completes a
    /// frame or fails, and at most `budget` more after the first.
    pub open spec fn frame(self, budget: nat) -> CpuView
        decreases budget,
    {
        if budget == 0 || !(self.turn_frame() matches Ok(None)) {
            self.turn()
        } else {
            self.turn().frame((budget - 1) as nat)
        }
    }

    /// What the frame loop yields: the frame of the last turn it took.
    pub open spec fn frame_result(self, budget: nat) -> Result<Option<RenderingDataView>, CpuError>
        decreases budget,
    {
        if budget == 0 || !(self.turn_frame() matches Ok(None)) {
            self.turn_frame()
        } else {
            self.turn().frame_result((budget - 1) as nat)
        }
    }

    /// The PPU cycles that are left of the current frame. Every turn takes
    /// at least one, so the frame loop takes no more turns than this.
    pub open spec fn frame_budget(self) -> nat {
        (frame_cycles() - self.bus.ppu.position()) as nat
    }
}

/// An image that the console can run: it is complete, and its character ROM
/// fits into the 8 KiB of character RAM.
pub open spec fn image_fits(data: Seq<u8>) -> bool {
    image_complete(data) && character_rom_size(data) <= 0x2000
}

impl NES {
    /// Whether the console can run the cartridge image `rom_data`.
    pub fn accepts(rom_data: &[u8]) -> (accepted: bool)
        ensures
            accepted == image_fits(rom_data@),
    {
        Cartridge::is_complete(rom_data) && rom_data[5] <= 1
    }

    /// A console with the cartridge image `rom_data` plugged in, reset.
    pub fn new(rom_data: &[u8]) -> (nes: Self)
        requires
            image_fits(rom_data@),
        ensures
            nes@ == power_on(rom_data@),
            nes@.wf(),
    {
        let cartridge = Cartridge::new(rom_data);

        let interrupt = Interrupt::default();
        let ppu_bus = PPUBus::new(cartridge.character_rom, cartridge.is_horizontal_mirroring);
        let ppu = PPU::new(ppu_bus, interrupt);
        let controller = Controller::default();
        let wram = WRAM::default();
        let dma = DMA::new();
        let cpu_bus = CPUBus::new(cartridge.program_rom, wram, ppu, controller, dma);
        let mut cpu = CPU::new(cpu_bus);
        cpu.reset();

        NES { cpu }
    }

    /// Runs the console until the PPU has completed a frame and draws that
    /// frame. Fails if the CPU meets a byte that is no opcode.
    pub fn frame(&mut self) -> (result: Result<Renderer, CpuError>)
        requires
            old(self)@.wf(),
        ensures
            final(self)@ == old(self)@.frame(old(self)@.frame_budget()),
            final(self)@.wf(),
            match result {
                Ok(renderer) => old(self)@.frame_result(old(self)@.frame_budget()) matches Ok(
                    Some(data),
                ) && renderer@ == rendered(blank_frame(), data),
                Err(error) => old(self)@.frame_result(old(self)@.frame_budget()) == Err::<
                    Option<RenderingDataView>,
                    CpuError,
                >(error),
            },
    {
        let ghost mut budget = self@.frame_budget();
        loop
            invariant
                self@.wf(),
                budget >= self@.frame_budget() >= 1,
                old(self)@.frame(old(self)@.frame_budget()) == self@.frame(budget),
                old(self)@.frame_result(old(self)@.frame_budget()) == self@.frame_result(budget),
            decreases self@.frame_budget(),
        {
            match self.turn() {
                Ok(Some(rendering_data)) => {
                    let mut renderer = Renderer::new();
                    renderer.render(rendering_data);
                    return Ok(renderer);
                },
                Ok(None) => {},
                Err(error) => {
                    return Err(error);
                },
            }
            proof {
                budget = (budget - 1) as nat;
            }
        }
    }

    /// Takes one turn of the frame loop: runs the DMA bridge, lets the CPU
    /// take one step, and runs the PPU for three cycles per CPU cycle.
    pub fn turn(&mut self) -> (result: Result<Option<RenderingData>, CpuError>)
        requires
            old(self)@.wf(),
        ensures
            final(self)@ == old(self)@.turn(),
            final(self)@.wf(),
            match result {
                Ok(frame) => old(self)@.turn_frame() == Ok::<Option<RenderingDataView>, CpuError>(
                    frame_view(frame),
                ),
                Err(error) => old(self)@.turn_frame() == Err::<
                    Option<RenderingDataView>,
                    CpuError,
                >(error),
            },
            result matches Ok(Some(data)) ==> data@.wf(),
            result matches Ok(None) ==> final(self)@.frame_budget() < old(self)@.frame_budget(),
            final(self)@.frame_budget() >= 1,
    {
        let mut cycle: Cycle = 0;
        cycle += self.cpu.bus.run_dma();
        match self.cpu.run() {
            Ok(cycles) => {
                cycle += cycles;
            },
            Err(error) => {
                return Err(error);
            },
        }
        let ghost position = self@.bus.ppu.position();
        let rendering_data = self.cpu.bus.ppu.run(cycle * 3);
        proof {
            assert(frame_cycles() == 89342);
            assert(position == old(self)@.bus.ppu.position());
            if rendering_data is None {
                assert(position + cycle * 3 < 89342);
                assert(self@.bus.ppu.position() == position + cycle * 3);
            }
        }
        Ok(rendering_data)
    }

    pub fn key_down(&mut self, key: u8)
        requires
            key < 8,
            old(self)@.wf(),
        ensures
            final(self)@ == (CpuView {
                bus: CpuBusView {
                    controller: old(self)@.bus.controller.key_down(key),
                    ..old(self)@.bus
                },
                ..old(self)@
            }),
            final(self)@.wf(),
    {
        self.cpu.bus.controller.key_down(key);
    }

    pub fn key_up(&mut self, key: u8)
        requires
            key < 8,
            old(self)@.wf(),
        ensures
            final(self)@ == (CpuView {
                bus: CpuBusView {
                    controller: old(self)@.bus.controller.key_up(key),
                    ..old(self)@.bus
                },
                ..old(self)@
            }),
            final(self)@.wf(),
    {
        self.cpu.bus.controller.key_up(key);
    }
}

} // verus!
