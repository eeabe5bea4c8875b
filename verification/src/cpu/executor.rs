//! The instructions: what each mnemonic does to the registers and to
//! memory.
use vstd::prelude::*;
use crate::cpu::opcode::{Addressing, Opcode, OpcodeBaseName};
use crate::cpu::register::{pack_status, rotated_left, rotated_right, CPUStatusRegister};
use crate::cpu::{high_byte, lemma_push, low, low_byte, CpuView, CPU, IRQ_VECTOR};
use crate::{Byte, Word};

verus! {

/// `value - 1` modulo 256.
pub open spec fn decremented(value: u8) -> u8 {
    if value == 0 {
        0xFF
    } else {
        (value - 1) as u8
    }
}

/// `value + 1` modulo 256.
pub open spec fn incremented(value: u8) -> u8 {
    if value == 0xFF {
        0
    } else {
        (value + 1) as u8
    }
}

impl CpuView {
    /// The value that an instruction works on: the operand itself with
    /// immediate addressing, else the byte read at the operand address.
    pub open spec fn load_operand(self, addressing: Addressing, operand: u16) -> (CpuView, u8) {
        if addressing == Addressing::Immediate {
            (self, low_byte(operand))
        } else {
            self.read_byte(operand)
        }
    }

    /// LDA. Loads A with the operand and sets Z and N from it.
    pub open spec fn load_a(self, addressing: Addressing, operand: u16) -> CpuView {
        let (read, value) = self.load_operand(addressing, operand);
        read.with_register(read.register.with_a(value).with_zn(value))
    }

    /// LDX. Loads X with the operand and sets Z and N from it.
    pub open spec fn load_x(self, addressing: Addressing, operand: u16) -> CpuView {
        let (read, value) = self.load_operand(addressing, operand);
        read.with_register(read.register.with_x(value).with_zn(value))
    }

    /// LDY. Loads Y with the operand and sets Z and N from it.
    pub open spec fn load_y(self, addressing: Addressing, operand: u16) -> CpuView {
        let (read, value) = self.load_operand(addressing, operand);
        read.with_register(read.register.with_y(value).with_zn(value))
    }

    /// STA. Stores A at the operand address.
    pub open spec fn store_a(self, operand: u16) -> CpuView {
        self.write(operand, self.register.a)
    }

    /// STX. Stores X at the operand address.
    pub open spec fn store_x(self, operand: u16) -> CpuView {
        self.write(operand, self.register.x)
    }

    /// STY. Stores Y at the operand address.
    pub open spec fn store_y(self, operand: u16) -> CpuView {
        self.write(operand, self.register.y)
    }

    /// TAX. Copies A to X and sets Z and N from it.
    pub open spec fn transfer_a_to_x(self) -> CpuView {
        self.with_register(self.register.with_x(self.register.a).with_zn(self.register.a))
    }

    /// TAY. Copies A to Y and sets Z and N from it.
    pub open spec fn transfer_a_to_y(self) -> CpuView {
        self.with_register(self.register.with_y(self.register.a).with_zn(self.register.a))
    }

    /// TSX. Copies S to X and sets Z and N from it.
    pub open spec fn transfer_s_to_x(self) -> CpuView {
        self.with_register(self.register.with_x(self.register.s).with_zn(self.register.s))
    }

    /// TXA. Copies X to A and sets Z and N from it.
    pub open spec fn transfer_x_to_a(self) -> CpuView {
        self.with_register(self.register.with_a(self.register.x).with_zn(self.register.x))
    }

    /// TXS. Copies X to S; the flags stay.
    pub open spec fn transfer_x_to_s(self) -> CpuView {
        self.with_register(self.register.with_s(self.register.x))
    }

    /// TYA. Copies Y to A and sets Z and N from it.
    pub open spec fn transfer_y_to_a(self) -> CpuView {
        self.with_register(self.register.with_a(self.register.y).with_zn(self.register.y))
    }

    /// ADC. Adds the operand and the carry to A.
    pub open spec fn add_with_carry(self, addressing: Addressing, operand: u16) -> CpuView {
        let (read, value) = self.load_operand(addressing, operand);
        read.with_register(read.register.added(value))
    }

    /// AND. Replaces A by the bitwise and of A and the operand and sets Z and
    /// N from it.
    pub open spec fn and_a(self, addressing: Addressing, operand: u16) -> CpuView {
        let (read, value) = self.load_operand(addressing, operand);
        read.with_register(
            read.register.with_a(read.register.a & value).with_zn(read.register.a & value),
        )
    }

    /// ASL. Shifts A or the byte at the operand address left by one bit.
    pub open spec fn shift_left(self, addressing: Addressing, operand: u16) -> CpuView {
        if addressing == Addressing::Accumulator {
            self.with_register(
                self.register.shifted_left(self.register.a).with_a(self.register.a << 1),
            )
        } else {
            let (read, value) = self.read_byte(operand);
            read.with_register(read.register.shifted_left(value)).write(operand, value << 1)
        }
    }

    /// BIT. Tests the byte at the operand address against A: Z says that they
    /// share no bit, V and N take bits 6 and 7 of the byte.
    pub open spec fn bit_test(self, operand: u16) -> CpuView {
        let (read, value) = self.read_byte(operand);
        read.with_register(
            read.register.with_flags(
                CPUStatusRegister {
                    z: read.register.a & value == 0,
                    v: value & 0b0100_0000 != 0,
                    n: value & 0b1000_0000 != 0,
                    ..read.register.p
                },
            ),
        )
    }

    /// CMP. Compares A with the operand.
    pub open spec fn compare_a(self, addressing: Addressing, operand: u16) -> CpuView {
        let (read, value) = self.load_operand(addressing, operand);
        read.with_register(read.register.compared(read.register.a, value))
    }

    /// CPX. Compares X with the operand.
    pub open spec fn compare_x(self, addressing: Addressing, operand: u16) -> CpuView {
        let (read, value) = self.load_operand(addressing, operand);
        read.with_register(read.register.compared(read.register.x, value))
    }

    /// CPY. Compares Y with the operand.
    pub open spec fn compare_y(self, addressing: Addressing, operand: u16) -> CpuView {
        let (read, value) = self.load_operand(addressing, operand);
        read.with_register(read.register.compared(read.register.y, value))
    }

    /// DEC. Decrements the byte at the operand address by one, modulo 256,
    /// and sets Z and N from the result.
    pub open spec fn decrement(self, operand: u16) -> CpuView {
        let (read, value) = self.read_byte(operand);
        let written = read.write(operand, decremented(value));
        written.with_register(written.register.with_zn(decremented(value)))
    }

    /// DEX. Decrements X by one, modulo 256, and sets Z and N from the
    /// result.
    pub open spec fn decrement_x(self) -> CpuView {
        self.with_register(
            self.register.with_x(decremented(self.register.x)).with_zn(decremented(self.register.x)),
        )
    }

    /// DEY. Decrements Y by one, modulo 256, and sets Z and N from the
    /// result.
    pub open spec fn decrement_y(self) -> CpuView {
        self.with_register(
            self.register.with_y(decremented(self.register.y)).with_zn(decremented(self.register.y)),
        )
    }

    /// EOR. Replaces A by the bitwise exclusive or of A and the operand and
    /// sets Z and N from it.
    pub open spec fn exclusive_or_a(self, addressing: Addressing, operand: u16) -> CpuView {
        let (read, value) = self.load_operand(addressing, operand);
        read.with_register(
            read.register.with_a(read.register.a ^ value).with_zn(read.register.a ^ value),
        )
    }

    /// INC. Increments the byte at the operand address by one, modulo 256,
    /// and sets Z and N from the result.
    pub open spec fn increment(self, operand: u16) -> CpuView {
        let (read, value) = self.read_byte(operand);
        let written = read.write(operand, incremented(value));
        written.with_register(written.register.with_zn(incremented(value)))
    }

    /// INX. Increments X by one, modulo 256, and sets Z and N from the
    /// result.
    pub open spec fn increment_x(self) -> CpuView {
        self.with_register(
            self.register.with_x(incremented(self.register.x)).with_zn(incremented(self.register.x)),
        )
    }

    /// INY. Increments Y by one, modulo 256, and sets Z and N from the
    /// result.
    pub open spec fn increment_y(self) -> CpuView {
        self.with_register(
            self.register.with_y(incremented(self.register.y)).with_zn(incremented(self.register.y)),
        )
    }

    /// LSR. Shifts A or the byte at the operand address right by one bit.
    pub open spec fn shift_right(self, addressing: Addressing, operand: u16) -> CpuView {
        if addressing == Addressing::Accumulator {
            self.with_register(
                self.register.shifted_right(self.register.a).with_a(self.register.a >> 1),
            )
        } else {
            let (read, value) = self.read_byte(operand);
            read.with_register(read.register.shifted_right(value)).write(operand, value >> 1)
        }
    }

    /// ORA. Replaces A by the bitwise or of A and the operand and sets Z and
    /// N from it.
    pub open spec fn or_a(self, addressing: Addressing, operand: u16) -> CpuView {
        let (read, value) = self.load_operand(addressing, operand);
        read.with_register(
            read.register.with_a(read.register.a | value).with_zn(read.register.a | value),
        )
    }

    /// ROL. Rotates A or the byte at the operand address left through the
    /// carry.
    pub open spec fn rotate_left(self, addressing: Addressing, operand: u16) -> CpuView {
        if addressing == Addressing::Accumulator {
            self.with_register(
                self.register.rotated_left(self.register.a).with_a(rotated_left(self.register.a, self.register.p.c)),
            )
        } else {
            let (read, value) = self.read_byte(operand);
            read.with_register(read.register.rotated_left(value)).write(operand, rotated_left(value, read.register.p.c))
        }
    }

    /// ROR. Rotates A or the byte at the operand address right through the
    /// carry.
    pub open spec fn rotate_right(self, addressing: Addressing, operand: u16) -> CpuView {
        if addressing == Addressing::Accumulator {
            self.with_register(
                self.register.rotated_right(self.register.a).with_a(rotated_right(self.register.a, self.register.p.c)),
            )
        } else {
            let (read, value) = self.read_byte(operand);
            read.with_register(read.register.rotated_right(value)).write(operand, rotated_right(value, read.register.p.c))
        }
    }

    /// SBC. Subtracts the operand and the borrow from A.
    pub open spec fn subtract_with_carry(self, addressing: Addressing, operand: u16) -> CpuView {
        let (read, value) = self.load_operand(addressing, operand);
        read.with_register(read.register.subtracted(value))
    }

    /// PHA. Pushes A.
    pub open spec fn push_a(self) -> CpuView {
        self.push(self.register.a)
    }

    /// PHP. Sets B and R and pushes the status.
    pub open spec fn push_flags(self) -> CpuView {
        self.with_register(
            self.register.with_flags(CPUStatusRegister { b: true, r: true, ..self.register.p }),
        ).push_status()
    }

    /// PLA. Pops A and sets Z and N from it.
    pub open spec fn pull_a(self) -> CpuView {
        let (popped, value) = self.pop();
        popped.with_register(popped.register.with_a(value).with_zn(value))
    }

    /// PLP. Pops the status; R stays set.
    pub open spec fn pull_flags(self) -> CpuView {
        let popped = self.pop_status();
        popped.with_register(
            popped.register.with_flags(CPUStatusRegister { r: true, ..popped.register.p }),
        )
    }

    /// JMP. Continues at the operand address.
    pub open spec fn jump(self, operand: u16) -> CpuView {
        self.branch(operand)
    }

    /// JSR. Pushes the address of the last byte of the instruction, high byte
    /// first, and continues at the operand address.
    pub open spec fn jump_to_subroutine(self, operand: u16) -> CpuView {
        self.with_register(self.register.spec_decrement_pc_byte()).push_pc().branch(operand)
    }

    /// RTS. Pops PC, low byte first, and moves it on by one.
    pub open spec fn return_from_subroutine(self) -> CpuView {
        let popped = self.pop_pc();
        popped.with_register(popped.register.spec_increment_pc_byte())
    }

    /// RTI. Pops the status and then PC; R stays set.
    pub open spec fn return_from_interrupt(self) -> CpuView {
        let popped = self.pop_status().pop_pc();
        popped.with_register(
            popped.register.with_flags(CPUStatusRegister { r: true, ..popped.register.p }),
        )
    }

    /// BCC. Continues at the operand address if the carry is clear.
    pub open spec fn branch_if_carry_clear(self, operand: u16) -> CpuView {
        if !self.register.p.c {
            self.branch(operand)
        } else {
            self
        }
    }

    /// BCS. Continues at the operand address if the carry is set.
    pub open spec fn branch_if_carry_set(self, operand: u16) -> CpuView {
        if self.register.p.c {
            self.branch(operand)
        } else {
            self
        }
    }

    /// BEQ. Continues at the operand address if Z is set.
    pub open spec fn branch_if_equal(self, operand: u16) -> CpuView {
        if self.register.p.z {
            self.branch(operand)
        } else {
            self
        }
    }

    /// BMI. Continues at the operand address if N is set.
    pub open spec fn branch_if_minus(self, operand: u16) -> CpuView {
        if self.register.p.n {
            self.branch(operand)
        } else {
            self
        }
    }

    /// BNE. Continues at the operand address if Z is clear.
    pub open spec fn branch_if_not_equal(self, operand: u16) -> CpuView {
        if !self.register.p.z {
            self.branch(operand)
        } else {
            self
        }
    }

    /// BPL. Continues at the operand address if N is clear.
    pub open spec fn branch_if_plus(self, operand: u16) -> CpuView {
        if !self.register.p.n {
            self.branch(operand)
        } else {
            self
        }
    }

    /// BVC. Continues at the operand address if V is clear.
    pub open spec fn branch_if_overflow_clear(self, operand: u16) -> CpuView {
        if !self.register.p.v {
            self.branch(operand)
        } else {
            self
        }
    }

    /// BVS. Continues at the operand address if V is set.
    pub open spec fn branch_if_overflow_set(self, operand: u16) -> CpuView {
        if self.register.p.v {
            self.branch(operand)
        } else {
            self
        }
    }

    /// CLC. Clears C.
    pub open spec fn clear_carry(self) -> CpuView {
        self.with_register(
            self.register.with_flags(CPUStatusRegister { c: false, ..self.register.p }),
        )
    }

    /// CLD. Clears D.
    pub open spec fn clear_decimal(self) -> CpuView {
        self.with_register(
            self.register.with_flags(CPUStatusRegister { d: false, ..self.register.p }),
        )
    }

    /// CLI. Clears I.
    pub open spec fn clear_interrupt_disable(self) -> CpuView {
        self.with_register(
            self.register.with_flags(CPUStatusRegister { i: false, ..self.register.p }),
        )
    }

    /// CLV. Clears V.
    pub open spec fn clear_overflow(self) -> CpuView {
        self.with_register(
            self.register.with_flags(CPUStatusRegister { v: false, ..self.register.p }),
        )
    }

    /// SEC. Sets C.
    pub open spec fn set_carry(self) -> CpuView {
        self.with_register(
            self.register.with_flags(CPUStatusRegister { c: true, ..self.register.p }),
        )
    }

    /// SED. Sets D.
    pub open spec fn set_decimal(self) -> CpuView {
        self.with_register(
            self.register.with_flags(CPUStatusRegister { d: true, ..self.register.p }),
        )
    }

    /// SEI. Sets I.
    pub open spec fn set_interrupt_disable(self) -> CpuView {
        self.with_register(
            self.register.with_flags(CPUStatusRegister { i: true, ..self.register.p }),
        )
    }

    /// BRK. Pushes PC plus one, high byte first, and then the status with B
    /// and R set, and sets I. If I was set before, PC is loaded from the IRQ
    /// vector; if it was clear, the vector is not read and PC stays where it
    /// was, at the byte after the opcode.
    pub open spec fn force_break(self) -> CpuView {
        let skipped = self.with_register(self.register.spec_increment_pc_byte()).push_pc();
        let pushed = skipped.with_register(
            skipped.register.with_flags(
                CPUStatusRegister { b: true, r: true, ..skipped.register.p },
            ),
        ).push_status();
        let masked = pushed.with_register(
            pushed.register.with_flags(CPUStatusRegister { i: true, ..pushed.register.p }),
        );
        if self.register.p.i {
            masked.load_pc(IRQ_VECTOR)
        } else {
            masked.with_register(masked.register.with_pc(self.register.pc))
        }
    }

    /// LAX. LDA followed by LDX on the same operand.
    pub open spec fn load_a_and_x(self, addressing: Addressing, operand: u16) -> CpuView {
        self.load_a(addressing, operand).load_x(addressing, operand)
    }

    /// SAX. Stores the bitwise and of A and X at the operand address.
    pub open spec fn store_a_and_x(self, operand: u16) -> CpuView {
        self.write(operand, self.register.a & self.register.x)
    }

    /// DCP. DEC followed by CMP on the same address.
    pub open spec fn decrement_then_compare(self, addressing: Addressing, operand: u16) -> CpuView {
        self.decrement(operand).compare_a(addressing, operand)
    }

    /// ISB. INC followed by SBC on the same address.
    pub open spec fn increment_then_subtract(self, addressing: Addressing, operand: u16) -> CpuView {
        self.increment(operand).subtract_with_carry(addressing, operand)
    }

    /// SLO. ASL followed by ORA on the same address.
    pub open spec fn shift_left_then_or(self, addressing: Addressing, operand: u16) -> CpuView {
        self.shift_left(addressing, operand).or_a(addressing, operand)
    }

    /// RLA. ROL followed by AND on the same address.
    pub open spec fn rotate_left_then_and(self, addressing: Addressing, operand: u16) -> CpuView {
        self.rotate_left(addressing, operand).and_a(addressing, operand)
    }

    /// SRE. LSR followed by EOR on the same address.
    pub open spec fn shift_right_then_exclusive_or(self, addressing: Addressing, operand: u16) -> CpuView {
        self.shift_right(addressing, operand).exclusive_or_a(addressing, operand)
    }

    /// RRA. ROR followed by ADC on the same address.
    pub open spec fn rotate_right_then_add(self, addressing: Addressing, operand: u16) -> CpuView {
        self.rotate_right(addressing, operand).add_with_carry(addressing, operand)
    }

    /// The state after the instruction `opcode` is executed on `operand`.
    pub open spec fn execute(self, opcode: Opcode, operand: u16) -> CpuView {
        match opcode.base_name {
            OpcodeBaseName::LDA => self.load_a(opcode.addressing, operand),
            OpcodeBaseName::LDX => self.load_x(opcode.addressing, operand),
            OpcodeBaseName::LDY => self.load_y(opcode.addressing, operand),
            OpcodeBaseName::STA => self.store_a(operand),
            OpcodeBaseName::STX => self.store_x(operand),
            OpcodeBaseName::STY => self.store_y(operand),
            OpcodeBaseName::TAX => self.transfer_a_to_x(),
            OpcodeBaseName::TAY => self.transfer_a_to_y(),
            OpcodeBaseName::TSX => self.transfer_s_to_x(),
            OpcodeBaseName::TXA => self.transfer_x_to_a(),
            OpcodeBaseName::TXS => self.transfer_x_to_s(),
            OpcodeBaseName::TYA => self.transfer_y_to_a(),
            OpcodeBaseName::ADC => self.add_with_carry(opcode.addressing, operand),
            OpcodeBaseName::AND => self.and_a(opcode.addressing, operand),
            OpcodeBaseName::ASL => self.shift_left(opcode.addressing, operand),
            OpcodeBaseName::BIT => self.bit_test(operand),
            OpcodeBaseName::CMP => self.compare_a(opcode.addressing, operand),
            OpcodeBaseName::CPX => self.compare_x(opcode.addressing, operand),
            OpcodeBaseName::CPY => self.compare_y(opcode.addressing, operand),
            OpcodeBaseName::DEC => self.decrement(operand),
            OpcodeBaseName::DEX => self.decrement_x(),
            OpcodeBaseName::DEY => self.decrement_y(),
            OpcodeBaseName::EOR => self.exclusive_or_a(opcode.addressing, operand),
            OpcodeBaseName::INC => self.increment(operand),
            OpcodeBaseName::INX => self.increment_x(),
            OpcodeBaseName::INY => self.increment_y(),
            OpcodeBaseName::LSR => self.shift_right(opcode.addressing, operand),
            OpcodeBaseName::ORA => self.or_a(opcode.addressing, operand),
            OpcodeBaseName::ROL => self.rotate_left(opcode.addressing, operand),
            OpcodeBaseName::ROR => self.rotate_right(opcode.addressing, operand),
            OpcodeBaseName::SBC => self.subtract_with_carry(opcode.addressing, operand),
            OpcodeBaseName::PHA => self.push_a(),
            OpcodeBaseName::PHP => self.push_flags(),
            OpcodeBaseName::PLA => self.pull_a(),
            OpcodeBaseName::PLP => self.pull_flags(),
            OpcodeBaseName::JMP => self.jump(operand),
            OpcodeBaseName::JSR => self.jump_to_subroutine(operand),
            OpcodeBaseName::RTS => self.return_from_subroutine(),
            OpcodeBaseName::RTI => self.return_from_interrupt(),
            OpcodeBaseName::BCC => self.branch_if_carry_clear(operand),
            OpcodeBaseName::BCS => self.branch_if_carry_set(operand),
            OpcodeBaseName::BEQ => self.branch_if_equal(operand),
            OpcodeBaseName::BMI => self.branch_if_minus(operand),
            OpcodeBaseName::BNE => self.branch_if_not_equal(operand),
            OpcodeBaseName::BPL => self.branch_if_plus(operand),
            OpcodeBaseName::BVC => self.branch_if_overflow_clear(operand),
            OpcodeBaseName::BVS => self.branch_if_overflow_set(operand),
            OpcodeBaseName::CLC => self.clear_carry(),
            OpcodeBaseName::CLD => self.clear_decimal(),
            OpcodeBaseName::CLI => self.clear_interrupt_disable(),
            OpcodeBaseName::CLV => self.clear_overflow(),
            OpcodeBaseName::SEC => self.set_carry(),
            OpcodeBaseName::SED => self.set_decimal(),
            OpcodeBaseName::SEI => self.set_interrupt_disable(),
            OpcodeBaseName::BRK => self.force_break(),
            OpcodeBaseName::NOP => self,
            OpcodeBaseName::NOPD => self,
            OpcodeBaseName::NOPI => self,
            OpcodeBaseName::LAX => self.load_a_and_x(opcode.addressing, operand),
            OpcodeBaseName::SAX => self.store_a_and_x(operand),
            OpcodeBaseName::DCP => self.decrement_then_compare(opcode.addressing, operand),
            OpcodeBaseName::ISB => self.increment_then_subtract(opcode.addressing, operand),
            OpcodeBaseName::SLO => self.shift_left_then_or(opcode.addressing, operand),
            OpcodeBaseName::RLA => self.rotate_left_then_and(opcode.addressing, operand),
            OpcodeBaseName::SRE => self.shift_right_then_exclusive_or(opcode.addressing, operand),
            OpcodeBaseName::RRA => self.rotate_right_then_add(opcode.addressing, operand),
        }
    }
}

/// BRK, with PC at the byte after the opcode: PC plus one, high byte first,
/// and then the status with B and R set go onto the stack, S ends three
/// lower and I is set. If I was set before, PC is the word at the IRQ vector;
/// if it was clear, the vector is not read and PC is where it was.
pub proof fn lemma_force_break(cpu: CpuView)
    requires
        cpu.wf(),
    ensures
        ({
            let pushed = cpu.with_frame_pushed(
                cpu.register.spec_increment_pc_byte().pc,
                CPUStatusRegister { b: true, r: true, ..cpu.register.p },
            );
            &&& cpu.register.p.i ==> cpu.force_break() == pushed.load_pc(IRQ_VECTOR)
            &&& !cpu.register.p.i ==> cpu.force_break() == pushed.with_register(
                pushed.register.with_pc(cpu.register.pc),
            )
        }),
{
    let skipped = cpu.with_register(cpu.register.spec_increment_pc_byte());
    lemma_push(skipped, high_byte(skipped.register.pc));
    let first = skipped.push(high_byte(skipped.register.pc));
    lemma_push(first, low_byte(skipped.register.pc));
    let second = first.push(low_byte(skipped.register.pc));
    let flagged = second.with_register(
        second.register.with_flags(CPUStatusRegister { b: true, r: true, ..second.register.p }),
    );
    lemma_push(flagged, pack_status(flagged.register.p));
}

/// The word at a vector in program ROM does not depend on what is on the
/// stack: after an interrupt entry or a BRK that loads it, PC is the word
/// that the vector held before.
pub proof fn lemma_vector_is_read_from_rom(
    cpu: CpuView,
    pc: u16,
    p: CPUStatusRegister,
    vector: u16,
)
    requires
        cpu.wf(),
        0x8000 <= vector < 0xFFFF,
    ensures
        cpu.with_frame_pushed(pc, p).load_pc(vector).register.pc == cpu.read_word(vector).1,
        cpu.with_frame_pushed(pc, p).load_pc(vector).bus == cpu.with_frame_pushed(pc, p).bus,
{
}

/// Executes the instruction `opcode` on `operand`.
pub fn execute(cpu: &mut CPU, opcode: &Opcode, operand: Word)
    requires
        old(cpu)@.wf(),
    ensures
        final(cpu)@ == old(cpu)@.execute(*opcode, operand),
        final(cpu)@.follows(old(cpu)@),
{
    match opcode.base_name {
        OpcodeBaseName::LDA => execute_lda(cpu, opcode, operand),
        OpcodeBaseName::LDX => execute_ldx(cpu, opcode, operand),
        OpcodeBaseName::LDY => execute_ldy(cpu, opcode, operand),
        OpcodeBaseName::STA => execute_sta(cpu, opcode, operand),
        OpcodeBaseName::STX => execute_stx(cpu, opcode, operand),
        OpcodeBaseName::STY => execute_sty(cpu, opcode, operand),
        OpcodeBaseName::TAX => execute_tax(cpu, opcode, operand),
        OpcodeBaseName::TAY => execute_tay(cpu, opcode, operand),
        OpcodeBaseName::TSX => execute_tsx(cpu, opcode, operand),
        OpcodeBaseName::TXA => execute_txa(cpu, opcode, operand),
        OpcodeBaseName::TXS => execute_txs(cpu, opcode, operand),
        OpcodeBaseName::TYA => execute_tya(cpu, opcode, operand),
        OpcodeBaseName::ADC => execute_adc(cpu, opcode, operand),
        OpcodeBaseName::AND => execute_and(cpu, opcode, operand),
        OpcodeBaseName::ASL => execute_asl(cpu, opcode, operand),
        OpcodeBaseName::BIT => execute_bit(cpu, opcode, operand),
        OpcodeBaseName::CMP => execute_cmp(cpu, opcode, operand),
        OpcodeBaseName::CPX => execute_cpx(cpu, opcode, operand),
        OpcodeBaseName::CPY => execute_cpy(cpu, opcode, operand),
        OpcodeBaseName::DEC => execute_dec(cpu, opcode, operand),
        OpcodeBaseName::DEX => execute_dex(cpu, opcode, operand),
        OpcodeBaseName::DEY => execute_dey(cpu, opcode, operand),
        OpcodeBaseName::EOR => execute_eor(cpu, opcode, operand),
        OpcodeBaseName::INC => execute_inc(cpu, opcode, operand),
        OpcodeBaseName::INX => execute_inx(cpu, opcode, operand),
        OpcodeBaseName::INY => execute_iny(cpu, opcode, operand),
        OpcodeBaseName::LSR => execute_lsr(cpu, opcode, operand),
        OpcodeBaseName::ORA => execute_ora(cpu, opcode, operand),
        OpcodeBaseName::ROL => execute_rol(cpu, opcode, operand),
        OpcodeBaseName::ROR => execute_ror(cpu, opcode, operand),
        OpcodeBaseName::SBC => execute_sbc(cpu, opcode, operand),
        OpcodeBaseName::PHA => execute_pha(cpu, opcode, operand),
        OpcodeBaseName::PHP => execute_php(cpu, opcode, operand),
        OpcodeBaseName::PLA => execute_pla(cpu, opcode, operand),
        OpcodeBaseName::PLP => execute_plp(cpu, opcode, operand),
        OpcodeBaseName::JMP => execute_jmp(cpu, opcode, operand),
        OpcodeBaseName::JSR => execute_jsr(cpu, opcode, operand),
        OpcodeBaseName::RTS => execute_rts(cpu, opcode, operand),
        OpcodeBaseName::RTI => execute_rti(cpu, opcode, operand),
        OpcodeBaseName::BCC => execute_bcc(cpu, opcode, operand),
        OpcodeBaseName::BCS => execute_bcs(cpu, opcode, operand),
        OpcodeBaseName::BEQ => execute_beq(cpu, opcode, operand),
        OpcodeBaseName::BMI => execute_bmi(cpu, opcode, operand),
        OpcodeBaseName::BNE => execute_bne(cpu, opcode, operand),
        OpcodeBaseName::BPL => execute_bpl(cpu, opcode, operand),
        OpcodeBaseName::BVC => execute_bvc(cpu, opcode, operand),
        OpcodeBaseName::BVS => execute_bvs(cpu, opcode, operand),
        OpcodeBaseName::CLC => execute_clc(cpu, opcode, operand),
        OpcodeBaseName::CLD => execute_cld(cpu, opcode, operand),
        OpcodeBaseName::CLI => execute_cli(cpu, opcode, operand),
        OpcodeBaseName::CLV => execute_clv(cpu, opcode, operand),
        OpcodeBaseName::SEC => execute_sec(cpu, opcode, operand),
        OpcodeBaseName::SED => execute_sed(cpu, opcode, operand),
        OpcodeBaseName::SEI => execute_sei(cpu, opcode, operand),
        OpcodeBaseName::BRK => execute_brk(cpu, opcode, operand),
        OpcodeBaseName::NOP => {},
        OpcodeBaseName::NOPD => {},
        OpcodeBaseName::NOPI => {},
        OpcodeBaseName::LAX => execute_lax(cpu, opcode, operand),
        OpcodeBaseName::SAX => execute_sax(cpu, opcode, operand),
        OpcodeBaseName::DCP => execute_dcp(cpu, opcode, operand),
        OpcodeBaseName::ISB => execute_isb(cpu, opcode, operand),
        OpcodeBaseName::SLO => execute_slo(cpu, opcode, operand),
        OpcodeBaseName::RLA => execute_rla(cpu, opcode, operand),
        OpcodeBaseName::SRE => execute_sre(cpu, opcode, operand),
        OpcodeBaseName::RRA => execute_rra(cpu, opcode, operand),
    }
}

/// The value that an instruction works on.
pub fn load_operand(cpu: &mut CPU, opcode: &Opcode, operand: Word) -> (value: Byte)
    requires
        old(cpu)@.wf(),
    ensures
        (final(cpu)@, value) == old(cpu)@.load_operand(opcode.addressing, operand),
        final(cpu)@.follows(old(cpu)@),
{
    if opcode.addressing == Addressing::Immediate {
        low(operand)
    } else {
        cpu.read_byte(operand)
    }
}

pub fn execute_lda(cpu: &mut CPU, opcode: &Opcode, operand: Word)
    requires
        old(cpu)@.wf(),
    ensures
        final(cpu)@ == old(cpu)@.load_a(opcode.addressing, operand),
        final(cpu)@.follows(old(cpu)@),
{
    let value = load_operand(cpu, opcode, operand);
    cpu.register.set_a(value);
    cpu.register.set_zn_by(value);
}

pub fn execute_ldx(cpu: &mut CPU, opcode: &Opcode, operand: Word)
    requires
        old(cpu)@.wf(),
    ensures
        final(cpu)@ == old(cpu)@.load_x(opcode.addressing, operand),
        final(cpu)@.follows(old(cpu)@),
{
    let value = load_operand(cpu, opcode, operand);
    cpu.register.set_x(value);
    cpu.register.set_zn_by(value);
}

pub fn execute_ldy(cpu: &mut CPU, opcode: &Opcode, operand: Word)
    requires
        old(cpu)@.wf(),
    ensures
        final(cpu)@ == old(cpu)@.load_y(opcode.addressing, operand),
        final(cpu)@.follows(old(cpu)@),
{
    let value = load_operand(cpu, opcode, operand);
    cpu.register.set_y(value);
    cpu.register.set_zn_by(value);
}

pub fn execute_sta(cpu: &mut CPU, _opcode: &Opcode, operand: Word)
    requires
        old(cpu)@.wf(),
    ensures
        final(cpu)@ == old(cpu)@.store_a(operand),
        final(cpu)@.follows(old(cpu)@),
{
    let value = cpu.register.get_a();
    cpu.write(operand, value);
}

pub fn execute_stx(cpu: &mut CPU, _opcode: &Opcode, operand: Word)
    requires
        old(cpu)@.wf(),
    ensures
        final(cpu)@ == old(cpu)@.store_x(operand),
        final(cpu)@.follows(old(cpu)@),
{
    let value = cpu.register.get_x();
    cpu.write(operand, value);
}

pub fn execute_sty(cpu: &mut CPU, _opcode: &Opcode, operand: Word)
    requires
        old(cpu)@.wf(),
    ensures
        final(cpu)@ == old(cpu)@.store_y(operand),
        final(cpu)@.follows(old(cpu)@),
{
    let value = cpu.register.get_y();
    cpu.write(operand, value);
}

pub fn execute_tax(cpu: &mut CPU, _opcode: &Opcode, _operand: Word)
    requires
        old(cpu)@.wf(),
    ensures
        final(cpu)@ == old(cpu)@.transfer_a_to_x(),
        final(cpu)@.follows(old(cpu)@),
{
    let value = cpu.register.get_a();
    cpu.register.set_x(value);
    cpu.register.set_zn_by(value);
}

pub fn execute_tay(cpu: &mut CPU, _opcode: &Opcode, _operand: Word)
    requires
        old(cpu)@.wf(),
    ensures
        final(cpu)@ == old(cpu)@.transfer_a_to_y(),
        final(cpu)@.follows(old(cpu)@),
{
    let value = cpu.register.get_a();
    cpu.register.set_y(value);
    cpu.register.set_zn_by(value);
}

pub fn execute_tsx(cpu: &mut CPU, _opcode: &Opcode, _operand: Word)
    requires
        old(cpu)@.wf(),
    ensures
        final(cpu)@ == old(cpu)@.transfer_s_to_x(),
        final(cpu)@.follows(old(cpu)@),
{
    let value = cpu.register.get_s();
    cpu.register.set_x(value);
    cpu.register.set_zn_by(value);
}

pub fn execute_txa(cpu: &mut CPU, _opcode: &Opcode, _operand: Word)
    requires
        old(cpu)@.wf(),
    ensures
        final(cpu)@ == old(cpu)@.transfer_x_to_a(),
        final(cpu)@.follows(old(cpu)@),
{
    let value = cpu.register.get_x();
    cpu.register.set_a(value);
    cpu.register.set_zn_by(value);
}

pub fn execute_txs(cpu: &mut CPU, _opcode: &Opcode, _operand: Word)
    requires
        old(cpu)@.wf(),
    ensures
        final(cpu)@ == old(cpu)@.transfer_x_to_s(),
        final(cpu)@.follows(old(cpu)@),
{
    let value = cpu.register.get_x();
    cpu.register.set_s(value);
}

pub fn execute_tya(cpu: &mut CPU, _opcode: &Opcode, _operand: Word)
    requires
        old(cpu)@.wf(),
    ensures
        final(cpu)@ == old(cpu)@.transfer_y_to_a(),
        final(cpu)@.follows(old(cpu)@),
{
    let value = cpu.register.get_y();
    cpu.register.set_a(value);
    cpu.register.set_zn_by(value);
}

pub fn execute_adc(cpu: &mut CPU, opcode: &Opcode, operand: Word)
    requires
        old(cpu)@.wf(),
    ensures
        final(cpu)@ == old(cpu)@.add_with_carry(opcode.addressing, operand),
        final(cpu)@.follows(old(cpu)@),
{
    let value = load_operand(cpu, opcode, operand);
    cpu.register.add_a(value);
}

pub fn execute_and(cpu: &mut CPU, opcode: &Opcode, operand: Word)
    requires
        old(cpu)@.wf(),
    ensures
        final(cpu)@ == old(cpu)@.and_a(opcode.addressing, operand),
        final(cpu)@.follows(old(cpu)@),
{
    let value = load_operand(cpu, opcode, operand);
    let a = cpu.register.get_a();
    let result = a & value;
    cpu.register.set_a(result);
    cpu.register.set_zn_by(result);
}

pub fn execute_asl(cpu: &mut CPU, opcode: &Opcode, operand: Word)
    requires
        old(cpu)@.wf(),
    ensures
        final(cpu)@ == old(cpu)@.shift_left(opcode.addressing, operand),
        final(cpu)@.follows(old(cpu)@),
{
    if opcode.addressing == Addressing::Accumulator {
        cpu.register.left_shift_a()
    } else {
        let value = cpu.read_byte(operand);
        let result = cpu.register.set_flag_by_left_shift(value);
        cpu.write(operand, result);
    };
}

pub fn execute_bit(cpu: &mut CPU, _opcode: &Opcode, operand: Word)
    requires
        old(cpu)@.wf(),
    ensures
        final(cpu)@ == old(cpu)@.bit_test(operand),
        final(cpu)@.follows(old(cpu)@),
{
    let value = cpu.read_byte(operand);
    let result = cpu.register.get_a() & value;
    if result == 0 {
        cpu.register.set_z()
    } else {
        cpu.register.clear_z();
    }
    if value & 0b0100_0000 != 0 {
        cpu.register.set_v();
    } else {
        cpu.register.clear_v();
    }
    if value & 0b1000_0000 != 0 {
        cpu.register.set_n();
    } else {
        cpu.register.clear_n();
    }
}

pub fn execute_cmp(cpu: &mut CPU, opcode: &Opcode, operand: Word)
    requires
        old(cpu)@.wf(),
    ensures
        final(cpu)@ == old(cpu)@.compare_a(opcode.addressing, operand),
        final(cpu)@.follows(old(cpu)@),
{
    let value = load_operand(cpu, opcode, operand);
    let a = cpu.register.get_a();
    cpu.register.cmp(a, value);
}

pub fn execute_cpx(cpu: &mut CPU, opcode: &Opcode, operand: Word)
    requires
        old(cpu)@.wf(),
    ensures
        final(cpu)@ == old(cpu)@.compare_x(opcode.addressing, operand),
        final(cpu)@.follows(old(cpu)@),
{
    let value = load_operand(cpu, opcode, operand);
    let x = cpu.register.get_x();
    cpu.register.cmp(x, value);
}

pub fn execute_cpy(cpu: &mut CPU, opcode: &Opcode, operand: Word)
    requires
        old(cpu)@.wf(),
    ensures
        final(cpu)@ == old(cpu)@.compare_y(opcode.addressing, operand),
        final(cpu)@.follows(old(cpu)@),
{
    let value = load_operand(cpu, opcode, operand);
    let y = cpu.register.get_y();
    cpu.register.cmp(y, value);
}

pub fn execute_dec(cpu: &mut CPU, _opcode: &Opcode, operand: Word)
    requires
        old(cpu)@.wf(),
    ensures
        final(cpu)@ == old(cpu)@.decrement(operand),
        final(cpu)@.follows(old(cpu)@),
{
    let value = cpu.read_byte(operand);
    let result = value.wrapping_sub(1);
    cpu.write(operand, result);
    cpu.register.set_zn_by(result);
}

pub fn execute_dex(cpu: &mut CPU, _opcode: &Opcode, _operand: Word)
    requires
        old(cpu)@.wf(),
    ensures
        final(cpu)@ == old(cpu)@.decrement_x(),
        final(cpu)@.follows(old(cpu)@),
{
    let value = cpu.register.get_x();
    let result = value.wrapping_sub(1);
    cpu.register.set_x(result);
    cpu.register.set_zn_by(result);
}

pub fn execute_dey(cpu: &mut CPU, _opcode: &Opcode, _operand: Word)
    requires
        old(cpu)@.wf(),
    ensures
        final(cpu)@ == old(cpu)@.decrement_y(),
        final(cpu)@.follows(old(cpu)@),
{
    let value = cpu.register.get_y();
    let result = value.wrapping_sub(1);
    cpu.register.set_y(result);
    cpu.register.set_zn_by(result);
}

pub fn execute_eor(cpu: &mut CPU, opcode: &Opcode, operand: Word)
    requires
        old(cpu)@.wf(),
    ensures
        final(cpu)@ == old(cpu)@.exclusive_or_a(opcode.addressing, operand),
        final(cpu)@.follows(old(cpu)@),
{
    let value = load_operand(cpu, opcode, operand);
    let a = cpu.register.get_a();
    let result = a ^ value;
    cpu.register.set_a(result);
    cpu.register.set_zn_by(result);
}

pub fn execute_inc(cpu: &mut CPU, _opcode: &Opcode, operand: Word)
    requires
        old(cpu)@.wf(),
    ensures
        final(cpu)@ == old(cpu)@.increment(operand),
        final(cpu)@.follows(old(cpu)@),
{
    let value = cpu.read_byte(operand);
    let result = value.wrapping_add(1);
    cpu.write(operand, result);
    cpu.register.set_zn_by(result);
}

pub fn execute_inx(cpu: &mut CPU, _opcode: &Opcode, _operand: Word)
    requires
        old(cpu)@.wf(),
    ensures
        final(cpu)@ == old(cpu)@.increment_x(),
        final(cpu)@.follows(old(cpu)@),
{
    let value = cpu.register.get_x();
    let result = value.wrapping_add(1);
    cpu.register.set_x(result);
    cpu.register.set_zn_by(result);
}

pub fn execute_iny(cpu: &mut CPU, _opcode: &Opcode, _operand: Word)
    requires
        old(cpu)@.wf(),
    ensures
        final(cpu)@ == old(cpu)@.increment_y(),
        final(cpu)@.follows(old(cpu)@),
{
    let value = cpu.register.get_y();
    let result = value.wrapping_add(1);
    cpu.register.set_y(result);
    cpu.register.set_zn_by(result);
}

pub fn execute_lsr(cpu: &mut CPU, opcode: &Opcode, operand: Word)
    requires
        old(cpu)@.wf(),
    ensures
        final(cpu)@ == old(cpu)@.shift_right(opcode.addressing, operand),
        final(cpu)@.follows(old(cpu)@),
{
    if opcode.addressing == Addressing::Accumulator {
        cpu.register.right_shift_a()
    } else {
        let value = cpu.read_byte(operand);
        let result = cpu.register.set_flag_by_right_shift(value);
        cpu.write(operand, result);
    };
}

pub fn execute_ora(cpu: &mut CPU, opcode: &Opcode, operand: Word)
    requires
        old(cpu)@.wf(),
    ensures
        final(cpu)@ == old(cpu)@.or_a(opcode.addressing, operand),
        final(cpu)@.follows(old(cpu)@),
{
    let value = load_operand(cpu, opcode, operand);
    let a = cpu.register.get_a();
    let result = a | value;
    cpu.register.set_a(result);
    cpu.register.set_zn_by(result);
}

pub fn execute_rol(cpu: &mut CPU, opcode: &Opcode, operand: Word)
    requires
        old(cpu)@.wf(),
    ensures
        final(cpu)@ == old(cpu)@.rotate_left(opcode.addressing, operand),
        final(cpu)@.follows(old(cpu)@),
{
    if opcode.addressing == Addressing::Accumulator {
        cpu.register.left_rotate_a()
    } else {
        let value = cpu.read_byte(operand);
        let result = cpu.register.set_flag_by_left_rotate(value);
        cpu.write(operand, result);
    };
}

pub fn execute_ror(cpu: &mut CPU, opcode: &Opcode, operand: Word)
    requires
        old(cpu)@.wf(),
    ensures
        final(cpu)@ == old(cpu)@.rotate_right(opcode.addressing, operand),
        final(cpu)@.follows(old(cpu)@),
{
    if opcode.addressing == Addressing::Accumulator {
        cpu.register.right_rotate_a()
    } else {
        let value = cpu.read_byte(operand);
        let result = cpu.register.set_flag_by_right_rotate(value);
        cpu.write(operand, result);
    };
}

pub fn execute_sbc(cpu: &mut CPU, opcode: &Opcode, operand: Word)
    requires
        old(cpu)@.wf(),
    ensures
        final(cpu)@ == old(cpu)@.subtract_with_carry(opcode.addressing, operand),
        final(cpu)@.follows(old(cpu)@),
{
    let value = load_operand(cpu, opcode, operand);
    cpu.register.sub_a(value);
}

pub fn execute_pha(cpu: &mut CPU, _opcode: &Opcode, _operand: Word)
    requires
        old(cpu)@.wf(),
    ensures
        final(cpu)@ == old(cpu)@.push_a(),
        final(cpu)@.follows(old(cpu)@),
{
    let a = cpu.register.get_a();
    cpu.push(a);
}

pub fn execute_php(cpu: &mut CPU, _opcode: &Opcode, _operand: Word)
    requires
        old(cpu)@.wf(),
    ensures
        final(cpu)@ == old(cpu)@.push_flags(),
        final(cpu)@.follows(old(cpu)@),
{
    cpu.register.set_b();
    cpu.register.set_r();
    cpu.push_status();
}

pub fn execute_pla(cpu: &mut CPU, _opcode: &Opcode, _operand: Word)
    requires
        old(cpu)@.wf(),
    ensures
        final(cpu)@ == old(cpu)@.pull_a(),
        final(cpu)@.follows(old(cpu)@),
{
    let value = cpu.pop();
    cpu.register.set_a(value);
    cpu.register.set_zn_by(value);
}

pub fn execute_plp(cpu: &mut CPU, _opcode: &Opcode, _operand: Word)
    requires
        old(cpu)@.wf(),
    ensures
        final(cpu)@ == old(cpu)@.pull_flags(),
        final(cpu)@.follows(old(cpu)@),
{
    cpu.pop_status();
    cpu.register.set_r();
}

pub fn execute_jmp(cpu: &mut CPU, _opcode: &Opcode, operand: Word)
    requires
        old(cpu)@.wf(),
    ensures
        final(cpu)@ == old(cpu)@.jump(operand),
        final(cpu)@.follows(old(cpu)@),
{
    cpu.register.set_pc(operand);
}

pub fn execute_jsr(cpu: &mut CPU, _opcode: &Opcode, operand: Word)
    requires
        old(cpu)@.wf(),
    ensures
        final(cpu)@ == old(cpu)@.jump_to_subroutine(operand),
        final(cpu)@.follows(old(cpu)@),
{
    cpu.register.decrement_pc_byte();
    cpu.push_pc();
    cpu.register.set_pc(operand);
}

pub fn execute_rts(cpu: &mut CPU, _opcode: &Opcode, _operand: Word)
    requires
        old(cpu)@.wf(),
    ensures
        final(cpu)@ == old(cpu)@.return_from_subroutine(),
        final(cpu)@.follows(old(cpu)@),
{
    cpu.pop_pc();
    cpu.register.increment_pc_byte();
}

pub fn execute_rti(cpu: &mut CPU, _opcode: &Opcode, _operand: Word)
    requires
        old(cpu)@.wf(),
    ensures
        final(cpu)@ == old(cpu)@.return_from_interrupt(),
        final(cpu)@.follows(old(cpu)@),
{
    cpu.pop_status();
    cpu.pop_pc();
    cpu.register.set_r();
}

pub fn execute_bcc(cpu: &mut CPU, _opcode: &Opcode, operand: Word)
    requires
        old(cpu)@.wf(),
    ensures
        final(cpu)@ == old(cpu)@.branch_if_carry_clear(operand),
        final(cpu)@.follows(old(cpu)@),
{
    if !cpu.register.get_c() {
        cpu.branch(operand);
    }
}

pub fn execute_bcs(cpu: &mut CPU, _opcode: &Opcode, operand: Word)
    requires
        old(cpu)@.wf(),
    ensures
        final(cpu)@ == old(cpu)@.branch_if_carry_set(operand),
        final(cpu)@.follows(old(cpu)@),
{
    if cpu.register.get_c() {
        cpu.branch(operand);
    }
}

pub fn execute_beq(cpu: &mut CPU, _opcode: &Opcode, operand: Word)
    requires
        old(cpu)@.wf(),
    ensures
        final(cpu)@ == old(cpu)@.branch_if_equal(operand),
        final(cpu)@.follows(old(cpu)@),
{
    if cpu.register.get_z() {
        cpu.branch(operand);
    }
}

pub fn execute_bmi(cpu: &mut CPU, _opcode: &Opcode, operand: Word)
    requires
        old(cpu)@.wf(),
    ensures
        final(cpu)@ == old(cpu)@.branch_if_minus(operand),
        final(cpu)@.follows(old(cpu)@),
{
    if cpu.register.get_n() {
        cpu.branch(operand);
    }
}

pub fn execute_bne(cpu: &mut CPU, _opcode: &Opcode, operand: Word)
    requires
        old(cpu)@.wf(),
    ensures
        final(cpu)@ == old(cpu)@.branch_if_not_equal(operand),
        final(cpu)@.follows(old(cpu)@),
{
    if !cpu.register.get_z() {
        cpu.branch(operand);
    }
}

pub fn execute_bpl(cpu: &mut CPU, _opcode: &Opcode, operand: Word)
    requires
        old(cpu)@.wf(),
    ensures
        final(cpu)@ == old(cpu)@.branch_if_plus(operand),
        final(cpu)@.follows(old(cpu)@),
{
    if !cpu.register.get_n() {
        cpu.branch(operand);
    }
}

pub fn execute_bvc(cpu: &mut CPU, _opcode: &Opcode, operand: Word)
    requires
        old(cpu)@.wf(),
    ensures
        final(cpu)@ == old(cpu)@.branch_if_overflow_clear(operand),
        final(cpu)@.follows(old(cpu)@),
{
    if !cpu.register.get_v() {
        cpu.branch(operand);
    }
}

pub fn execute_bvs(cpu: &mut CPU, _opcode: &Opcode, operand: Word)
    requires
        old(cpu)@.wf(),
    ensures
        final(cpu)@ == old(cpu)@.branch_if_overflow_set(operand),
        final(cpu)@.follows(old(cpu)@),
{
    if cpu.register.get_v() {
        cpu.branch(operand);
    }
}

pub fn execute_clc(cpu: &mut CPU, _opcode: &Opcode, _operand: Word)
    requires
        old(cpu)@.wf(),
    ensures
        final(cpu)@ == old(cpu)@.clear_carry(),
        final(cpu)@.follows(old(cpu)@),
{
    cpu.register.clear_c();
}

pub fn execute_cld(cpu: &mut CPU, _opcode: &Opcode, _operand: Word)
    requires
        old(cpu)@.wf(),
    ensures
        final(cpu)@ == old(cpu)@.clear_decimal(),
        final(cpu)@.follows(old(cpu)@),
{
    cpu.register.clear_d();
}

pub fn execute_cli(cpu: &mut CPU, _opcode: &Opcode, _operand: Word)
    requires
        old(cpu)@.wf(),
    ensures
        final(cpu)@ == old(cpu)@.clear_interrupt_disable(),
        final(cpu)@.follows(old(cpu)@),
{
    cpu.register.clear_i();
}

pub fn execute_clv(cpu: &mut CPU, _opcode: &Opcode, _operand: Word)
    requires
        old(cpu)@.wf(),
    ensures
        final(cpu)@ == old(cpu)@.clear_overflow(),
        final(cpu)@.follows(old(cpu)@),
{
    cpu.register.clear_v();
}

pub fn execute_sec(cpu: &mut CPU, _opcode: &Opcode, _operand: Word)
    requires
        old(cpu)@.wf(),
    ensures
        final(cpu)@ == old(cpu)@.set_carry(),
        final(cpu)@.follows(old(cpu)@),
{
    cpu.register.set_c();
}

pub fn execute_sed(cpu: &mut CPU, _opcode: &Opcode, _operand: Word)
    requires
        old(cpu)@.wf(),
    ensures
        final(cpu)@ == old(cpu)@.set_decimal(),
        final(cpu)@.follows(old(cpu)@),
{
    cpu.register.set_d();
}

pub fn execute_sei(cpu: &mut CPU, _opcode: &Opcode, _operand: Word)
    requires
        old(cpu)@.wf(),
    ensures
        final(cpu)@ == old(cpu)@.set_interrupt_disable(),
        final(cpu)@.follows(old(cpu)@),
{
    cpu.register.set_i();
}

pub fn execute_brk(cpu: &mut CPU, _opcode: &Opcode, _operand: Word)
    requires
        old(cpu)@.wf(),
    ensures
        final(cpu)@ == old(cpu)@.force_break(),
        final(cpu)@.follows(old(cpu)@),
{
    let interrupt = cpu.register.get_i();
    cpu.register.increment_pc_byte();
    cpu.push_pc();
    cpu.register.set_b();
    cpu.register.set_r();
    cpu.push_status();
    cpu.register.set_i();
    if interrupt {
        cpu.set_pc_by_irq();
    } else {
        cpu.register.decrement_pc_byte();
    }
}

pub fn execute_lax(cpu: &mut CPU, opcode: &Opcode, operand: Word)
    requires
        old(cpu)@.wf(),
    ensures
        final(cpu)@ == old(cpu)@.load_a_and_x(opcode.addressing, operand),
        final(cpu)@.follows(old(cpu)@),
{
    execute_lda(cpu, opcode, operand);
    execute_ldx(cpu, opcode, operand);
}

pub fn execute_sax(cpu: &mut CPU, _opcode: &Opcode, operand: Word)
    requires
        old(cpu)@.wf(),
    ensures
        final(cpu)@ == old(cpu)@.store_a_and_x(operand),
        final(cpu)@.follows(old(cpu)@),
{
    let a = cpu.register.get_a();
    let x = cpu.register.get_x();
    let value = a & x;
    cpu.write(operand, value);
}

pub fn execute_dcp(cpu: &mut CPU, opcode: &Opcode, operand: Word)
    requires
        old(cpu)@.wf(),
    ensures
        final(cpu)@ == old(cpu)@.decrement_then_compare(opcode.addressing, operand),
        final(cpu)@.follows(old(cpu)@),
{
    execute_dec(cpu, opcode, operand);
    execute_cmp(cpu, opcode, operand);
}

pub fn execute_isb(cpu: &mut CPU, opcode: &Opcode, operand: Word)
    requires
        old(cpu)@.wf(),
    ensures
        final(cpu)@ == old(cpu)@.increment_then_subtract(opcode.addressing, operand),
        final(cpu)@.follows(old(cpu)@),
{
    execute_inc(cpu, opcode, operand);
    execute_sbc(cpu, opcode, operand);
}

pub fn execute_slo(cpu: &mut CPU, opcode: &Opcode, operand: Word)
    requires
        old(cpu)@.wf(),
    ensures
        final(cpu)@ == old(cpu)@.shift_left_then_or(opcode.addressing, operand),
        final(cpu)@.follows(old(cpu)@),
{
    execute_asl(cpu, opcode, operand);
    execute_ora(cpu, opcode, operand);
}

pub fn execute_rla(cpu: &mut CPU, opcode: &Opcode, operand: Word)
    requires
        old(cpu)@.wf(),
    ensures
        final(cpu)@ == old(cpu)@.rotate_left_then_and(opcode.addressing, operand),
        final(cpu)@.follows(old(cpu)@),
{
    execute_rol(cpu, opcode, operand);
    execute_and(cpu, opcode, operand);
}

pub fn execute_sre(cpu: &mut CPU, opcode: &Opcode, operand: Word)
    requires
        old(cpu)@.wf(),
    ensures
        final(cpu)@ == old(cpu)@.shift_right_then_exclusive_or(opcode.addressing, operand),
        final(cpu)@.follows(old(cpu)@),
{
    execute_lsr(cpu, opcode, operand);
    execute_eor(cpu, opcode, operand);
}

pub fn execute_rra(cpu: &mut CPU, opcode: &Opcode, operand: Word)
    requires
        old(cpu)@.wf(),
    ensures
        final(cpu)@ == old(cpu)@.rotate_right_then_add(opcode.addressing, operand),
        final(cpu)@.follows(old(cpu)@),
{
    execute_ror(cpu, opcode, operand);
    execute_adc(cpu, opcode, operand);
}

} // verus!
