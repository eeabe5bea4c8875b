//! Addressing modes: from the bytes that follow an opcode to the operand of
//! the instruction.
use vstd::prelude::*;
use crate::cpu::opcode::{Addressing, Opcode};
use crate::cpu::{word, word_add, word_of, CpuView, CPU};
use crate::Word;

verus! {

#[derive(Debug, Clone, Copy, PartialEq, Eq, Structural)]
pub struct DecodeResult {
    /// The value of an immediate operand, or the effective address.
    pub operand: Word,
    /// Whether the effective address lies in another page than its base.
    pub page_crossed: bool,
}

/// Two addresses lie in different 256-byte pages.
pub open spec fn pages_differ(address1: u16, address2: u16) -> bool {
    address1 / 0x100 != address2 / 0x100
}

/// An address in page zero, `offset` past `base`, wrapping inside the page.
pub open spec fn zero_page_indexed(base: u8, offset: u8) -> u16 {
    ((base + offset) % 0x100) as u16
}

/// The address after `address`, wrapping inside page zero.
pub open spec fn zero_page_next(address: u16) -> u16 {
    ((address + 1) % 0x100) as u16
}

/// The target of a branch: `base` plus the offset byte read as a signed
/// number, modulo 2^16.
pub open spec fn relative_target(base: u16, offset: u8) -> u16 {
    word_add(
        base,
        if offset >= 0x80 {
            offset - 0x100
        } else {
            offset as int
        },
    )
}

/// The address of the high byte of an indirect pointer: the next address in
/// the same page, so that a pointer at the end of a page takes its high byte
/// from the start of that page.
pub open spec fn pointer_high_address(address: u16) -> u16 {
    ((address / 0x100) * 0x100 + (address + 1) % 0x100) as u16
}

impl CpuView {
    /// A read of a pointer whose low byte stands at `low_address` and whose
    /// high byte stands at `high_address`.
    pub open spec fn read_pointer(self, low_address: u16, high_address: u16) -> (CpuView, u16) {
        let (low_read, low) = self.read_byte(low_address);
        let (high_read, high) = low_read.read_byte(high_address);
        (high_read, word_of(low, high))
    }

    /// Immediate and zero-page: the operand is the byte that follows the
    /// opcode.
    pub open spec fn decode_byte(self) -> (CpuView, DecodeResult) {
        let (fetched, value) = self.fetch_byte();
        (fetched, DecodeResult { operand: value as u16, page_crossed: false })
    }

    /// Zero-page indexed: the byte that follows the opcode plus `index`,
    /// wrapping inside page zero.
    pub open spec fn decode_zero_page_indexed(self, index: u8) -> (CpuView, DecodeResult) {
        let (fetched, base) = self.fetch_byte();
        (fetched, DecodeResult { operand: zero_page_indexed(base, index), page_crossed: false })
    }

    /// Relative: PC after the offset byte, plus that byte read as a signed
    /// number.
    pub open spec fn decode_relative(self) -> (CpuView, DecodeResult) {
        let (fetched, offset) = self.fetch_byte();
        let base = fetched.register.pc;
        let address = relative_target(base, offset);
        (fetched, DecodeResult { operand: address, page_crossed: pages_differ(base, address) })
    }

    /// Absolute: the word that follows the opcode.
    pub open spec fn decode_absolute(self) -> (CpuView, DecodeResult) {
        let (fetched, address) = self.fetch_word();
        (fetched, DecodeResult { operand: address, page_crossed: false })
    }

    /// Absolute indexed: the word that follows the opcode plus `index`,
    /// modulo 2^16.
    pub open spec fn decode_absolute_indexed(self, index: u8) -> (CpuView, DecodeResult) {
        let (fetched, base) = self.fetch_word();
        let address = word_add(base, index as int);
        (fetched, DecodeResult { operand: address, page_crossed: pages_differ(base, address) })
    }

    /// Indirect: the pointer at the word that follows the opcode, its high
    /// byte taken from the same page as its low byte.
    pub open spec fn decode_indirect(self) -> (CpuView, DecodeResult) {
        let (fetched, address) = self.fetch_word();
        let (read, target) = fetched.read_pointer(address, pointer_high_address(address));
        (read, DecodeResult { operand: target, page_crossed: pages_differ(address, target) })
    }

    /// Indexed indirect: the pointer in page zero at the byte that follows
    /// the opcode plus X.
    pub open spec fn decode_indexed_indirect(self) -> (CpuView, DecodeResult) {
        let (fetched, base) = self.fetch_byte();
        let address = zero_page_indexed(base, fetched.register.x);
        let (read, target) = fetched.read_pointer(address, zero_page_next(address));
        (read, DecodeResult { operand: target, page_crossed: pages_differ(address, target) })
    }

    /// Indirect indexed: the pointer in page zero at the byte that follows
    /// the opcode, plus Y, modulo 2^16.
    pub open spec fn decode_indirect_indexed(self) -> (CpuView, DecodeResult) {
        let (fetched, base) = self.fetch_byte();
        let (read, address) = fetched.read_pointer(base as u16, zero_page_next(base as u16));
        let target = word_add(address, read.register.y as int);
        (read, DecodeResult { operand: target, page_crossed: pages_differ(target, address) })
    }

    /// The state after the operand of `opcode` is decoded, and the operand.
    pub open spec fn decode(self, opcode: Opcode) -> (CpuView, DecodeResult) {
        match opcode.addressing {
            Addressing::Implied | Addressing::Accumulator => (
                self,
                DecodeResult { operand: 0x0000, page_crossed: false },
            ),
            Addressing::Immediate | Addressing::ZeroPage => self.decode_byte(),
            Addressing::ZeroPageX => self.decode_zero_page_indexed(self.register.x),
            Addressing::ZeroPageY => self.decode_zero_page_indexed(self.register.y),
            Addressing::Relative => self.decode_relative(),
            Addressing::Absolute => self.decode_absolute(),
            Addressing::AbsoluteX => self.decode_absolute_indexed(self.register.x),
            Addressing::AbsoluteY => self.decode_absolute_indexed(self.register.y),
            Addressing::Indirect => self.decode_indirect(),
            Addressing::IndirectX => self.decode_indexed_indirect(),
            Addressing::IndirectY => self.decode_indirect_indexed(),
        }
    }
}

/// Decodes the operand of `opcode`: fetches the bytes that follow the opcode
/// and works out the immediate value or the effective address.
pub fn decode(cpu: &mut CPU, opcode: &Opcode) -> (result: DecodeResult)
    requires
        old(cpu)@.wf(),
    ensures
        (final(cpu)@, result) == old(cpu)@.decode(*opcode),
        final(cpu)@.follows(old(cpu)@),
{
    match opcode.addressing {
        Addressing::Implied | Addressing::Accumulator => DecodeResult {
            // no operand: the value is not used
            operand: 0x0000,
            page_crossed: false,
        },
        Addressing::Immediate | Addressing::ZeroPage => decode_byte(cpu),
        Addressing::ZeroPageX => {
            let offset = cpu.register.get_x();
            decode_zero_page_indexed(cpu, offset)
        },
        Addressing::ZeroPageY => {
            let offset = cpu.register.get_y();
            decode_zero_page_indexed(cpu, offset)
        },
        Addressing::Relative => decode_relative(cpu),
        Addressing::Absolute => decode_absolute(cpu),
        Addressing::AbsoluteX => {
            let offset = cpu.register.get_x();
            decode_absolute_indexed(cpu, offset)
        },
        Addressing::AbsoluteY => {
            let offset = cpu.register.get_y();
            decode_absolute_indexed(cpu, offset)
        },
        Addressing::Indirect => decode_indirect(cpu),
        Addressing::IndirectX => decode_indexed_indirect(cpu),
        Addressing::IndirectY => decode_indirect_indexed(cpu),
    }
}

fn decode_byte(cpu: &mut CPU) -> (result: DecodeResult)
    requires
        old(cpu)@.wf(),
    ensures
        (final(cpu)@, result) == old(cpu)@.decode_byte(),
        final(cpu)@.follows(old(cpu)@),
{
    let value = cpu.fetch_byte() as Word;
    DecodeResult { operand: value, page_crossed: false }
}

fn decode_zero_page_indexed(cpu: &mut CPU, index: u8) -> (result: DecodeResult)
    requires
        old(cpu)@.wf(),
    ensures
        (final(cpu)@, result) == old(cpu)@.decode_zero_page_indexed(index),
        final(cpu)@.follows(old(cpu)@),
{
    let base = cpu.fetch_byte() as Word;
    let address = (base + index as Word) % 0x100;
    DecodeResult { operand: address, page_crossed: false }
}

fn decode_relative(cpu: &mut CPU) -> (result: DecodeResult)
    requires
        old(cpu)@.wf(),
    ensures
        (final(cpu)@, result) == old(cpu)@.decode_relative(),
        final(cpu)@.follows(old(cpu)@),
{
    let offset = cpu.fetch_byte();
    let base = cpu.register.get_pc();
    let address = if offset >= 0x80 {
        base.wrapping_sub(0x100 - offset as Word)
    } else {
        base.wrapping_add(offset as Word)
    };
    DecodeResult { operand: address, page_crossed: page_crossed(base, address) }
}

fn decode_absolute(cpu: &mut CPU) -> (result: DecodeResult)
    requires
        old(cpu)@.wf(),
    ensures
        (final(cpu)@, result) == old(cpu)@.decode_absolute(),
        final(cpu)@.follows(old(cpu)@),
{
    let address = cpu.fetch_word();
    DecodeResult { operand: address, page_crossed: false }
}

fn decode_absolute_indexed(cpu: &mut CPU, index: u8) -> (result: DecodeResult)
    requires
        old(cpu)@.wf(),
    ensures
        (final(cpu)@, result) == old(cpu)@.decode_absolute_indexed(index),
        final(cpu)@.follows(old(cpu)@),
{
    let base = cpu.fetch_word();
    let address = base.wrapping_add(index as Word);
    DecodeResult { operand: address, page_crossed: page_crossed(base, address) }
}

fn decode_indirect(cpu: &mut CPU) -> (result: DecodeResult)
    requires
        old(cpu)@.wf(),
    ensures
        (final(cpu)@, result) == old(cpu)@.decode_indirect(),
        final(cpu)@.follows(old(cpu)@),
{
    let address = cpu.fetch_word();
    // The high byte comes from the same page as the low byte.
    let indirect_address = read_pointer(cpu, address, next_in_page(address));
    DecodeResult { operand: indirect_address, page_crossed: page_crossed(address, indirect_address) }
}

fn decode_indexed_indirect(cpu: &mut CPU) -> (result: DecodeResult)
    requires
        old(cpu)@.wf(),
    ensures
        (final(cpu)@, result) == old(cpu)@.decode_indexed_indirect(),
        final(cpu)@.follows(old(cpu)@),
{
    let base = cpu.fetch_byte() as Word;
    let offset = cpu.register.get_x() as Word;
    let address = (base + offset) % 0x100;
    let indirect_address = read_pointer(cpu, address, (address + 1) % 0x100);
    DecodeResult { operand: indirect_address, page_crossed: page_crossed(address, indirect_address) }
}

fn decode_indirect_indexed(cpu: &mut CPU) -> (result: DecodeResult)
    requires
        old(cpu)@.wf(),
    ensures
        (final(cpu)@, result) == old(cpu)@.decode_indirect_indexed(),
        final(cpu)@.follows(old(cpu)@),
{
    let base = cpu.fetch_byte() as Word;
    let address = read_pointer(cpu, base, (base + 1) % 0x100);
    let offset = cpu.register.get_y() as Word;
    let indirect_address = address.wrapping_add(offset);
    DecodeResult { operand: indirect_address, page_crossed: page_crossed(indirect_address, address) }
}

/// Reads the pointer whose two bytes stand at the given addresses.
fn read_pointer(cpu: &mut CPU, low_address: Word, high_address: Word) -> (pointer: Word)
    requires
        old(cpu)@.wf(),
    ensures
        (final(cpu)@, pointer) == old(cpu)@.read_pointer(low_address, high_address),
        final(cpu)@.follows(old(cpu)@),
{
    let low = cpu.read_byte(low_address);
    let high = cpu.read_byte(high_address);
    word(low, high)
}

/// Whether two addresses lie in different pages.
pub fn page_crossed(address1: Word, address2: Word) -> (crossed: bool)
    ensures
        crossed == pages_differ(address1, address2),
{
    assert((address1 & 0xFF00 != address2 & 0xFF00) == (address1 / 0x100 != address2 / 0x100))
        by (bit_vector);
    address1 & 0xFF00 != address2 & 0xFF00
}

/// The address after `address` in the same page.
fn next_in_page(address: Word) -> (next: Word)
    ensures
        next == pointer_high_address(address),
{
    let following = address.wrapping_add(1);
    assert((address & 0xFF00) | (following & 0x00FF) == (address / 0x100) * 0x100 + (address + 1)
        % 0x100) by (bit_vector)
        requires
            following == if address == 0xFFFF {
                0u16
            } else {
                (address + 1) as u16
            },
    ;
    (address & 0xFF00) | (following & 0x00FF)
}

/// The zero-page wrap: an indexed zero-page address stays in page zero, so
/// base 0xF0 with index 0x20 gives 0x0010 and not 0x0110.
pub proof fn lemma_zero_page_wraps(base: u8, offset: u8)
    ensures
        zero_page_indexed(base, offset) < 0x100,
        base + offset < 0x100 ==> zero_page_indexed(base, offset) == base + offset,
        base + offset >= 0x100 ==> zero_page_indexed(base, offset) == base + offset - 0x100,
{
}

/// With zero-page indexed addressing the operand is the byte that follows the
/// opcode plus the index register, kept inside page zero, whatever the state.
pub proof fn lemma_zero_page_operand(cpu: CpuView, opcode: Opcode)
    requires
        opcode.addressing == Addressing::ZeroPageX || opcode.addressing == Addressing::ZeroPageY,
    ensures
        cpu.decode(opcode).1.operand == zero_page_indexed(
            cpu.fetch_byte().1,
            if opcode.addressing == Addressing::ZeroPageX {
                cpu.register.x
            } else {
                cpu.register.y
            },
        ),
        cpu.decode(opcode).1.operand < 0x100,
        !cpu.decode(opcode).1.page_crossed,
        cpu.decode(opcode).0 == cpu.fetch_byte().0,
{
}

/// The indirect wrap: the two bytes of an indirect pointer come from one
/// page. A pointer at 0x..FF takes its high byte from 0x..00 of the same
/// page, every other pointer from the next address.
pub proof fn lemma_pointer_stays_in_page(address: u16)
    ensures
        !pages_differ(pointer_high_address(address), address),
        address % 0x100 == 0xFF ==> pointer_high_address(address) == address - 0xFF,
        address % 0x100 != 0xFF ==> pointer_high_address(address) == address + 1,
{
}

/// With indirect addressing the operand is the pointer read with that wrap,
/// whatever the state.
pub proof fn lemma_indirect_operand(cpu: CpuView, opcode: Opcode)
    requires
        opcode.addressing == Addressing::Indirect,
    ensures
        ({
            let (fetched, address) = cpu.fetch_word();
            let (low_read, low) = fetched.read_byte(address);
            let (high_read, high) = low_read.read_byte(pointer_high_address(address));
            cpu.decode(opcode) == (
                high_read,
                DecodeResult {
                    operand: word_of(low, high),
                    page_crossed: pages_differ(address, word_of(low, high)),
                },
            )
        }),
{
}

/// Only the modes that add an index or an offset to a 16-bit base, and the
/// indirect ones, can report a crossed page; the others never do.
pub proof fn lemma_modes_without_penalty(cpu: CpuView, opcode: Opcode)
    requires
        opcode.addressing == Addressing::Implied || opcode.addressing == Addressing::Accumulator
            || opcode.addressing == Addressing::Immediate || opcode.addressing
            == Addressing::ZeroPage || opcode.addressing == Addressing::ZeroPageX
            || opcode.addressing == Addressing::ZeroPageY || opcode.addressing
            == Addressing::Absolute,
    ensures
        !cpu.decode(opcode).1.page_crossed,
{
}

} // verus!
