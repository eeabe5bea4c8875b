//! An emulator core for an 8-bit console of the NES family: a 6502-style CPU,
//! a scanline-clocked picture processing unit, the buses that join them, the
//! sprite DMA bridge and a framebuffer compositor.
//!
//! Every component has a mathematical model (its view), and every operation is
//! specified as a function on those models.
use vstd::prelude::*;

pub mod cartridge;
pub mod controller;
pub mod cpu;
pub mod dma;
pub mod interrupt;
pub mod nes;
pub mod ppu;
pub mod ram;
pub mod renderer;
pub mod rom;

verus! {

pub type Byte = u8;

pub type Word = u16;

pub type Cycle = u32;

} // verus!
