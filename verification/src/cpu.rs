//! The CPU: a 6502-style processor that serves pending interrupts, then
//! fetches, decodes and executes one instruction per step.
use vstd::prelude::*;
use crate::cpu::bus::CpuBusView;
use crate::cpu::opcode::{get_opcode, is_opcode, opcode_of};
use crate::cpu::register::{pack_status, unpack_status, CPURegister, CPUStatusRegister};
use crate::interrupt::Interrupt;
use crate::ppu::PpuView;
use crate::ram::RAM;
use crate::{Byte, Cycle, Word};

pub mod bus;
pub mod decoder;
pub mod executor;
pub mod opcode;
pub mod register;

pub use bus::CPUBus;

verus! {

pub const WRAM_SIZE: usize = 2048;

pub type WRAM = RAM<WRAM_SIZE>;

/// Where the CPU finds the address of the NMI handler.
pub const NMI_VECTOR: Word = 0xFFFA;

/// Where the CPU finds the address at which execution starts.
pub const RESET_VECTOR: Word = 0xFFFC;

/// Where the CPU finds the address of the IRQ handler.
pub const IRQ_VECTOR: Word = 0xFFFE;

/// Why a step could not be carried out.
#[derive(Debug, Clone, Copy, PartialEq, Eq, Structural)]
pub enum CpuError {
    /// The byte at the program counter is no opcode.
    UnknownOpcode(Byte),
}

pub struct CPU {
    pub bus: CPUBus,
    pub register: CPURegister,
}

/// The CPU, with everything behind its bus, as a mathematical value.
pub struct CpuView {
    pub bus: CpuBusView,
    pub register: CPURegister,
}

impl View for CPU {
    type V = CpuView;

    open spec fn view(&self) -> CpuView {
        CpuView { bus: self.bus@, register: self.register }
    }
}

/// The low byte of a word.
pub open spec fn low_byte(word: u16) -> u8 {
    (word % 0x100) as u8
}

/// The high byte of a word.
pub open spec fn high_byte(word: u16) -> u8 {
    (word / 0x100) as u8
}

/// The word with the given low and high bytes.
pub open spec fn word_of(low: u8, high: u8) -> u16 {
    (low + high * 0x100) as u16
}

/// `word + offset` modulo 2^16, for a positive or negative offset.
pub open spec fn word_add(word: u16, offset: int) -> u16 {
    ((word + offset) % 0x1_0000) as u16
}

impl CpuView {
    pub open spec fn wf(self) -> bool {
        self.bus.wf()
    }

    /// One state follows another on the same machine: it is well formed and
    /// the PPU stands at the same point of its frame.
    pub open spec fn follows(self, before: CpuView) -> bool {
        self.bus.follows(before.bus)
    }

    /// The interrupt line.
    pub open spec fn interrupt(self) -> Interrupt {
        self.bus.ppu.interrupt
    }

    pub open spec fn with_register(self, register: CPURegister) -> CpuView {
        CpuView { register, ..self }
    }

    pub open spec fn with_interrupt(self, interrupt: Interrupt) -> CpuView {
        CpuView {
            bus: CpuBusView { ppu: PpuView { interrupt, ..self.bus.ppu }, ..self.bus },
            ..self
        }
    }

    /// A CPU at power-up on the given bus, before the reset vector is loaded.
    pub open spec fn initial(bus: CpuBusView) -> CpuView {
        CpuView { bus, register: CPURegister::initial() }
    }

    /// A read of one byte through the bus: the state after it, and the byte.
    pub open spec fn read_byte(self, address: u16) -> (CpuView, u8) {
        (CpuView { bus: self.bus.read(address), ..self }, self.bus.read_value(address))
    }

    /// A read of a little-endian word: the low byte at `address`, then the
    /// high byte at the next address modulo 2^16.
    pub open spec fn read_word(self, address: u16) -> (CpuView, u16) {
        let (low_read, low) = self.read_byte(address);
        let (high_read, high) = low_read.read_byte(word_add(address, 1));
        (high_read, word_of(low, high))
    }

    pub open spec fn write(self, address: u16, data: u8) -> CpuView {
        CpuView { bus: self.bus.write(address, data), ..self }
    }

    /// A read of the byte at PC, which moves PC on by one.
    pub open spec fn fetch_byte(self) -> (CpuView, u8) {
        let (read, data) = self.read_byte(self.register.pc);
        (read.with_register(read.register.spec_increment_pc_byte()), data)
    }

    /// A read of the word at PC, which moves PC on by two.
    pub open spec fn fetch_word(self) -> (CpuView, u16) {
        let (read, data) = self.read_word(self.register.pc);
        (read.with_register(read.register.spec_increment_pc_word()), data)
    }

    /// A push: `data` goes to the stack slot, then S moves down.
    pub open spec fn push(self, data: u8) -> CpuView {
        let written = self.write(self.register.stack_slot(), data);
        written.with_register(written.register.spec_decrement_s())
    }

    /// A pop: S moves up, then the stack slot is read.
    pub open spec fn pop(self) -> (CpuView, u8) {
        let raised = self.with_register(self.register.spec_increment_s());
        raised.read_byte(raised.register.stack_slot())
    }

    pub open spec fn push_status(self) -> CpuView {
        self.push(pack_status(self.register.p))
    }

    pub open spec fn pop_status(self) -> CpuView {
        let (popped, p) = self.pop();
        popped.with_register(popped.register.with_flags(unpack_status(p)))
    }

    /// PC goes onto the stack, high byte first.
    pub open spec fn push_pc(self) -> CpuView {
        self.push(high_byte(self.register.pc)).push(low_byte(self.register.pc))
    }

    /// PC comes off the stack, low byte first.
    pub open spec fn pop_pc(self) -> CpuView {
        let (first, low) = self.pop();
        let (second, high) = first.pop();
        second.with_register(second.register.with_pc(word_of(low, high)))
    }

    pub open spec fn branch(self, address: u16) -> CpuView {
        self.with_register(self.register.with_pc(address))
    }

    /// PC is loaded from the word at `vector`.
    pub open spec fn load_pc(self, vector: u16) -> CpuView {
        let (read, pc) = self.read_word(vector);
        read.with_register(read.register.with_pc(pc))
    }

    /// Entry into an interrupt handler: B is cleared, PC and then the
    /// status with R set go onto the stack, I is set, and PC is loaded from
    /// `vector`.
    pub open spec fn enter_interrupt(self, vector: u16) -> CpuView {
        let flagged = self.with_register(
            self.register.with_flags(CPUStatusRegister { b: false, r: true, ..self.register.p }),
        );
        let pushed = flagged.push_pc().push_status();
        pushed.with_register(
            pushed.register.with_flags(CPUStatusRegister { i: true, ..pushed.register.p }),
        ).load_pc(vector)
    }

    /// The non-maskable interrupt is taken and the line released.
    pub open spec fn process_nmi(self) -> CpuView {
        self.with_interrupt(Interrupt { nmi: false, ..self.interrupt() }).enter_interrupt(
            NMI_VECTOR,
        )
    }

    /// The maskable interrupt is taken and the line released, unless I is
    /// set: then nothing happens and the line stays asserted.
    pub open spec fn process_irq(self) -> CpuView {
        if self.register.p.i {
            self
        } else {
            self.with_interrupt(Interrupt { irq: false, ..self.interrupt() }).enter_interrupt(
                IRQ_VECTOR,
            )
        }
    }

    /// The interrupt that is pending, if any, is served: NMI before IRQ.
    pub open spec fn serve_interrupts(self) -> CpuView {
        if self.interrupt().nmi {
            self.process_nmi()
        } else if self.interrupt().irq {
            self.process_irq()
        } else {
            self
        }
    }

    /// The CPU after a reset: the registers at their defaults, PC loaded
    /// from the reset vector, or 0x8000 where the vector holds 0.
    pub open spec fn reset(self) -> CpuView {
        let (read, pc) = self.with_register(CPURegister::initial()).read_word(RESET_VECTOR);
        read.with_register(
            read.register.with_pc(
                if pc == 0 {
                    0x8000
                } else {
                    pc
                },
            ),
        )
    }

    /// The state after one step.
    #[verifier::opaque]
    pub open spec fn step(self) -> CpuView {
        let (fetched, byte) = self.serve_interrupts().fetch_byte();
        match opcode_of(byte) {
            Some(opcode) => {
                let (decoded, result) = fetched.decode(opcode);
                decoded.execute(opcode, result.operand)
            },
            None => fetched,
        }
    }

    /// What one step returns: the cycles that the instruction took, which
    /// are its base cycles and one more if its address crossed a page; or
    /// the byte that is no opcode.
    #[verifier::opaque]
    pub open spec fn step_result(self) -> Result<Cycle, CpuError> {
        let (fetched, byte) = self.serve_interrupts().fetch_byte();
        match opcode_of(byte) {
            Some(opcode) => {
                let (decoded, result) = fetched.decode(opcode);
                Ok(
                    if result.page_crossed {
                        (opcode.cycle + 1) as Cycle
                    } else {
                        opcode.cycle
                    },
                )
            },
            None => Err(CpuError::UnknownOpcode(byte)),
        }
    }
}

/// The stack slot `depth` bytes below the one that S points at: the stack
/// lives in page 1 and wraps inside it.
pub open spec fn stack_slot_below(s: u8, depth: int) -> int {
    0x0100 + (s - depth) % 0x100
}

impl CpuView {
    /// The state after `pc`, high byte first, and then the status `p` are on
    /// the stack and I is set: the three bytes stand in the stack slots at S,
    /// S - 1 and S - 2, S is three lower, and nothing else has changed.
    pub open spec fn with_frame_pushed(self, pc: u16, p: CPUStatusRegister) -> CpuView {
        CpuView {
            bus: CpuBusView {
                wram: self.bus.wram.update(
                    stack_slot_below(self.register.s, 0),
                    high_byte(pc),
                ).update(stack_slot_below(self.register.s, 1), low_byte(pc)).update(
                    stack_slot_below(self.register.s, 2),
                    pack_status(p),
                ),
                ..self.bus
            },
            register: CPURegister {
                s: ((self.register.s - 3) % 0x100) as u8,
                p: CPUStatusRegister { i: true, ..p },
                pc,
                ..self.register
            },
        }
    }
}

/// A push puts the byte into the stack slot in page 1 of work RAM and moves S
/// down by one; nothing else changes.
pub proof fn lemma_push(cpu: CpuView, data: u8)
    requires
        cpu.wf(),
    ensures
        cpu.push(data) == (CpuView {
            bus: CpuBusView {
                wram: cpu.bus.wram.update(stack_slot_below(cpu.register.s, 0), data),
                ..cpu.bus
            },
            register: cpu.register.with_s(((cpu.register.s - 1) % 0x100) as u8),
        }),
        cpu.push(data).wf(),
{
}

/// Pushing PC and then the status, and setting I, leaves the three bytes on
/// the stack in that order and S three lower.
pub proof fn lemma_frame_pushed(cpu: CpuView)
    requires
        cpu.wf(),
    ensures
        ({
            let pushed = cpu.push_pc().push_status();
            pushed.with_register(
                pushed.register.with_flags(CPUStatusRegister { i: true, ..pushed.register.p }),
            ) == cpu.with_frame_pushed(cpu.register.pc, cpu.register.p)
        }),
{
    let first = cpu.push(high_byte(cpu.register.pc));
    lemma_push(cpu, high_byte(cpu.register.pc));
    let second = first.push(low_byte(cpu.register.pc));
    lemma_push(first, low_byte(cpu.register.pc));
    lemma_push(second, pack_status(cpu.register.p));
}

/// Interrupt entry: PC, high byte first, and then the status with B clear and
/// R set go onto the stack, S ends three lower, I is set, and PC is loaded
/// from the vector. Nothing else changes before the vector is read.
pub proof fn lemma_interrupt_entry(cpu: CpuView, vector: u16)
    requires
        cpu.wf(),
    ensures
        cpu.enter_interrupt(vector) == cpu.with_frame_pushed(
            cpu.register.pc,
            CPUStatusRegister { b: false, r: true, ..cpu.register.p },
        ).load_pc(vector),
        cpu.process_nmi() == cpu.with_interrupt(
            Interrupt { nmi: false, ..cpu.interrupt() },
        ).with_frame_pushed(
            cpu.register.pc,
            CPUStatusRegister { b: false, r: true, ..cpu.register.p },
        ).load_pc(NMI_VECTOR),
        !cpu.register.p.i ==> cpu.process_irq() == cpu.with_interrupt(
            Interrupt { irq: false, ..cpu.interrupt() },
        ).with_frame_pushed(
            cpu.register.pc,
            CPUStatusRegister { b: false, r: true, ..cpu.register.p },
        ).load_pc(IRQ_VECTOR),
        cpu.register.p.i ==> cpu.process_irq() == cpu,
{
    let flagged = cpu.with_register(
        cpu.register.with_flags(CPUStatusRegister { b: false, r: true, ..cpu.register.p }),
    );
    lemma_frame_pushed(flagged);
    let released = cpu.with_interrupt(Interrupt { nmi: false, ..cpu.interrupt() });
    lemma_frame_pushed(
        released.with_register(
            released.register.with_flags(
                CPUStatusRegister { b: false, r: true, ..released.register.p },
            ),
        ),
    );
    let unmasked = cpu.with_interrupt(Interrupt { irq: false, ..cpu.interrupt() });
    lemma_frame_pushed(
        unmasked.with_register(
            unmasked.register.with_flags(
                CPUStatusRegister { b: false, r: true, ..unmasked.register.p },
            ),
        ),
    );
}

/// The cycles of a step: an instruction takes its base cycles, and exactly one
/// more if decoding its operand crossed a page. A byte that is no opcode
/// makes the step fail after the byte is fetched.
pub proof fn lemma_step_cycles(cpu: CpuView)
    ensures
        ({
            let (fetched, byte) = cpu.serve_interrupts().fetch_byte();
            match opcode_of(byte) {
                Some(opcode) => {
                    let (decoded, result) = fetched.decode(opcode);
                    &&& cpu.step() == decoded.execute(opcode, result.operand)
                    &&& result.page_crossed ==> cpu.step_result() == Ok::<Cycle, CpuError>(
                        (opcode.cycle + 1) as Cycle,
                    )
                    &&& !result.page_crossed ==> cpu.step_result() == Ok::<Cycle, CpuError>(
                        opcode.cycle,
                    )
                },
                None => {
                    &&& cpu.step() == fetched
                    &&& cpu.step_result() == Err::<Cycle, CpuError>(CpuError::UnknownOpcode(byte))
                },
            }
        }),
{
    reveal(CpuView::step);
    reveal(CpuView::step_result);
}

/// The low byte of `word`.
pub fn low(word: Word) -> (byte: Byte)
    ensures
        byte == low_byte(word),
{
    assert(word & 0xFF == word % 0x100) by (bit_vector);
    (word & 0xFF) as Byte
}

/// The high byte of `word`.
pub fn high(word: Word) -> (byte: Byte)
    ensures
        byte == high_byte(word),
{
    assert(word >> 8 == word / 0x100) by (bit_vector);
    (word >> 8) as Byte
}

/// The word made of a low and a high byte.
pub fn word(low: Byte, high: Byte) -> (word: Word)
    ensures
        word == word_of(low, high),
{
    assert(((high as u16) << 8) | (low as u16) == low + high * 0x100) by (bit_vector);
    ((high as Word) << 8) | low as Word
}

impl CPU {
    pub fn new(bus: CPUBus) -> (cpu: Self)
        requires
            bus@.wf(),
        ensures
            cpu@ == CpuView::initial(bus@),
            cpu@.wf(),
    {
        CPU { bus, register: CPURegister::default() }
    }

    /// Puts the registers at their defaults and loads PC from the reset
    /// vector.
    pub fn reset(&mut self)
        requires
            old(self)@.wf(),
        ensures
            final(self)@ == old(self)@.reset(),
            final(self)@.follows(old(self)@),
    {
        self.register = CPURegister::default();
        let pc = self.read_word(0xFFFC);
        self.register.set_pc(
            if pc == 0 {
                0x8000
            } else {
                pc
            },
        );
    }

    /// Carries out one step: serves a pending interrupt, then fetches,
    /// decodes and executes one instruction, and returns the cycles it took.
    pub fn run(&mut self) -> (result: Result<Cycle, CpuError>)
        requires
            old(self)@.wf(),
        ensures
            final(self)@ == old(self)@.step(),
            result == old(self)@.step_result(),
            final(self)@.follows(old(self)@),
            result matches Ok(cycles) ==> 2 <= cycles <= 9,
    {
        reveal(CpuView::step);
        reveal(CpuView::step_result);
        if self.bus.ppu.interrupt.is_nmi() {
            self.process_nmi();
        } else if self.bus.ppu.interrupt.is_irq() {
            self.process_irq();
        }
        let opcode_byte = self.fetch_byte();
        if !is_opcode(opcode_byte) {
            return Err(CpuError::UnknownOpcode(opcode_byte));
        }
        let opcode = get_opcode(opcode_byte);
        let decode_result = decoder::decode(self, &opcode);
        executor::execute(self, &opcode, decode_result.operand);
        Ok(
            opcode.cycle + if decode_result.page_crossed {
                1
            } else {
                0
            },
        )
    }

    pub fn fetch_byte(&mut self) -> (data: Byte)
        requires
            old(self)@.wf(),
        ensures
            (final(self)@, data) == old(self)@.fetch_byte(),
            final(self)@.follows(old(self)@),
    {
        let data = self.read_byte(self.register.get_pc());
        self.register.increment_pc_byte();
        data
    }

    pub fn fetch_word(&mut self) -> (data: Word)
        requires
            old(self)@.wf(),
        ensures
            (final(self)@, data) == old(self)@.fetch_word(),
            final(self)@.follows(old(self)@),
    {
        let data = self.read_word(self.register.get_pc());
        self.register.increment_pc_word();
        data
    }

    pub fn read_byte(&mut self, address: Word) -> (data: Byte)
        requires
            old(self)@.wf(),
        ensures
            (final(self)@, data) == old(self)@.read_byte(address),
            final(self)@.follows(old(self)@),
    {
        self.bus.read(address)
    }

    pub fn read_word(&mut self, address: Word) -> (data: Word)
        requires
            old(self)@.wf(),
        ensures
            (final(self)@, data) == old(self)@.read_word(address),
            final(self)@.follows(old(self)@),
    {
        let low = self.bus.read(address);
        let high = self.bus.read(address.wrapping_add(1));
        word(low, high)
    }

    pub fn write(&mut self, address: Word, data: Byte)
        requires
            old(self)@.wf(),
        ensures
            final(self)@ == old(self)@.write(address, data),
            final(self)@.follows(old(self)@),
    {
        self.bus.write(address, data);
    }

    pub fn push(&mut self, data: Byte)
        requires
            old(self)@.wf(),
        ensures
            final(self)@ == old(self)@.push(data),
            final(self)@.follows(old(self)@),
    {
        self.write(self.register.stack_address(), data);
        self.register.decrement_s();
    }

    pub fn pop(&mut self) -> (data: Byte)
        requires
            old(self)@.wf(),
        ensures
            (final(self)@, data) == old(self)@.pop(),
            final(self)@.follows(old(self)@),
    {
        self.register.increment_s();
        self.read_byte(self.register.stack_address())
    }

    pub fn push_status(&mut self)
        requires
            old(self)@.wf(),
        ensures
            final(self)@ == old(self)@.push_status(),
            final(self)@.follows(old(self)@),
    {
        self.push(self.register.get_p());
    }

    pub fn pop_status(&mut self)
        requires
            old(self)@.wf(),
        ensures
            final(self)@ == old(self)@.pop_status(),
            final(self)@.follows(old(self)@),
    {
        let p = self.pop();
        self.register.set_p(p);
    }

    pub fn push_pc(&mut self)
        requires
            old(self)@.wf(),
        ensures
            final(self)@ == old(self)@.push_pc(),
            final(self)@.follows(old(self)@),
    {
        let pc = self.register.get_pc();
        self.push(high(pc));
        self.push(low(pc));
    }

    pub fn pop_pc(&mut self)
        requires
            old(self)@.wf(),
        ensures
            final(self)@ == old(self)@.pop_pc(),
            final(self)@.follows(old(self)@),
    {
        let lo = self.pop();
        let hi = self.pop();
        self.register.set_pc(word(lo, hi));
    }

    pub fn branch(&mut self, address: Word)
        ensures
            final(self)@ == old(self)@.branch(address),
    {
        self.register.set_pc(address);
    }

    pub fn process_irq(&mut self)
        requires
            old(self)@.wf(),
        ensures
            final(self)@ == old(self)@.process_irq(),
            final(self)@.follows(old(self)@),
    {
        if self.register.get_i() {
            return ;
        }
        self.bus.ppu.interrupt.clear_irq();
        self.enter_interrupt(0xFFFE);
    }

    pub fn set_pc_by_irq(&mut self)
        requires
            old(self)@.wf(),
        ensures
            final(self)@ == old(self)@.load_pc(IRQ_VECTOR),
            final(self)@.follows(old(self)@),
    {
        let pc = self.read_word(0xFFFE);
        self.register.set_pc(pc);
    }

    pub fn process_nmi(&mut self)
        requires
            old(self)@.wf(),
        ensures
            final(self)@ == old(self)@.process_nmi(),
            final(self)@.follows(old(self)@),
    {
        self.bus.ppu.interrupt.clear_nmi();
        self.enter_interrupt(0xFFFA);
    }

    pub fn set_pc_by_nmi(&mut self)
        requires
            old(self)@.wf(),
        ensures
            final(self)@ == old(self)@.load_pc(NMI_VECTOR),
            final(self)@.follows(old(self)@),
    {
        let pc = self.read_word(0xFFFA);
        self.register.set_pc(pc);
    }

    /// Saves PC and the status on the stack and jumps through `vector`.
    fn enter_interrupt(&mut self, vector: Word)
        requires
            old(self)@.wf(),
        ensures
            final(self)@ == old(self)@.enter_interrupt(vector),
            final(self)@.follows(old(self)@),
    {
        self.register.clear_b();
        self.register.set_r();
        self.push_pc();
        self.push_status();
        self.register.set_i();
        let pc = self.read_word(vector);
        self.register.set_pc(pc);
    }

    pub fn get_register(&mut self) -> (register: &mut CPURegister)
        ensures
            *register == old(self).register,
            final(self).register == *final(register),
            final(self).bus == old(self).bus,
    {
        &mut self.register
    }
}

} // verus!
