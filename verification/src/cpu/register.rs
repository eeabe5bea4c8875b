//! The CPU's register file: accumulator, index registers, stack pointer,
//! program counter and the eight status flags, with the arithmetic that sets
//! the flags.
use vstd::prelude::*;
use crate::{Byte, Word};

verus! {

#[derive(Debug, Clone, Copy, PartialEq, Eq, Structural)]
pub struct CPUStatusRegister {
    pub c: bool,
    pub z: bool,
    pub i: bool,
    pub d: bool,
    pub b: bool,
    pub r: bool,
    pub v: bool,
    pub n: bool,
}

#[derive(Debug, Clone, Copy, PartialEq, Eq, Structural)]
pub struct CPURegister {
    pub a: Byte,
    pub x: Byte,
    pub y: Byte,
    pub s: Byte,
    pub p: CPUStatusRegister,
    pub pc: Word,
}

/// The status flags as one byte: C in bit 0, then Z, I, D, B, R, V and N in
/// bit 7.
pub open spec fn pack_status(p: CPUStatusRegister) -> u8 {
    (if p.c { 0x01u8 } else { 0u8 })
    | (if p.z { 0x02u8 } else { 0u8 })
    | (if p.i { 0x04u8 } else { 0u8 })
    | (if p.d { 0x08u8 } else { 0u8 })
    | (if p.b { 0x10u8 } else { 0u8 })
    | (if p.r { 0x20u8 } else { 0u8 })
    | (if p.v { 0x40u8 } else { 0u8 })
    | (if p.n { 0x80u8 } else { 0u8 })
}

/// The status flags that a byte stands for: flag k is bit k.
pub open spec fn unpack_status(byte: u8) -> CPUStatusRegister {
    CPUStatusRegister {
        c: byte & 0x01 != 0,
        z: byte & 0x02 != 0,
        i: byte & 0x04 != 0,
        d: byte & 0x08 != 0,
        b: byte & 0x10 != 0,
        r: byte & 0x20 != 0,
        v: byte & 0x40 != 0,
        n: byte & 0x80 != 0,
    }
}

/// The flags after the zero and negative flags are set from `value`.
pub open spec fn zn_from(p: CPUStatusRegister, value: u8) -> CPUStatusRegister {
    CPUStatusRegister { z: value == 0, n: value & 0x80 != 0, ..p }
}

/// `a + m + carry`, not yet reduced to a byte.
pub open spec fn wide_sum(a: u8, m: u8, carry: bool) -> int {
    a + m + if carry { 1int } else { 0int }
}

/// The low byte of `a + m + carry`.
pub open spec fn sum_byte(a: u8, m: u8, carry: bool) -> u8 {
    if wide_sum(a, m, carry) > 0xFF {
        (wide_sum(a, m, carry) - 0x100) as u8
    } else {
        wide_sum(a, m, carry) as u8
    }
}

/// Whether `a + m + carry` leaves the byte range.
pub open spec fn sum_carry(a: u8, m: u8, carry: bool) -> bool {
    wide_sum(a, m, carry) > 0xFF
}

/// Signed overflow of an addition: both operands have one sign and the
/// result has the other.
pub open spec fn sum_overflow(a: u8, m: u8, carry: bool) -> bool {
    (a ^ m) & 0x80 == 0 && (a ^ sum_byte(a, m, carry)) & 0x80 != 0
}

/// `a - m - (1 - carry)`, not yet reduced to a byte.
pub open spec fn wide_difference(a: u8, m: u8, carry: bool) -> int {
    a - m - if carry { 0int } else { 1int }
}

/// The low byte of `a - m - (1 - carry)`.
pub open spec fn difference_byte(a: u8, m: u8, carry: bool) -> u8 {
    if wide_difference(a, m, carry) < 0 {
        (wide_difference(a, m, carry) + 0x100) as u8
    } else {
        wide_difference(a, m, carry) as u8
    }
}

/// The carry after a subtraction: set when no borrow was needed.
pub open spec fn difference_carry(a: u8, m: u8, carry: bool) -> bool {
    wide_difference(a, m, carry) >= 0
}

/// Signed overflow of a subtraction: the operands have different signs and
/// the result has not the sign of `a`.
pub open spec fn difference_overflow(a: u8, m: u8, carry: bool) -> bool {
    (a ^ m) & 0x80 != 0 && (a ^ difference_byte(a, m, carry)) & 0x80 != 0
}

/// `value` rotated left by one bit through the carry.
pub open spec fn rotated_left(value: u8, carry: bool) -> u8 {
    (value << 1) | (if carry { 1u8 } else { 0u8 })
}

/// `value` rotated right by one bit through the carry.
pub open spec fn rotated_right(value: u8, carry: bool) -> u8 {
    (value >> 1) | (if carry { 0x80u8 } else { 0u8 })
}

impl CPUStatusRegister {
    /// The flags at power-up: interrupts disabled, the reserved bit set.
    pub open spec fn initial() -> CPUStatusRegister {
        CPUStatusRegister {
            c: false,
            z: false,
            i: true,
            d: false,
            b: false,
            r: true,
            v: false,
            n: false,
        }
    }
}

impl Default for CPUStatusRegister {
    fn default() -> (p: Self)
        ensures
            p == CPUStatusRegister::initial(),
    {
        CPUStatusRegister {
            c: false,
            z: false,
            i: true,
            d: false,
            b: false,
            r: true,
            v: false,
            n: false,
        }
    }
}

impl Default for CPURegister {
    fn default() -> (register: Self)
        ensures
            register == CPURegister::initial(),
    {
        CPURegister {
            a: 0x00,
            x: 0x00,
            y: 0x00,
            s: 0xFD,
            p: CPUStatusRegister::default(),
            pc: 0x8000,
        }
    }
}

impl CPURegister {
    /// The registers at power-up, before the reset vector is loaded.
    pub open spec fn initial() -> CPURegister {
        CPURegister {
            a: 0x00,
            x: 0x00,
            y: 0x00,
            s: 0xFD,
            p: CPUStatusRegister::initial(),
            pc: 0x8000,
        }
    }

    pub open spec fn with_a(self, a: Byte) -> CPURegister {
        CPURegister { a, ..self }
    }

    pub open spec fn with_x(self, x: Byte) -> CPURegister {
        CPURegister { x, ..self }
    }

    pub open spec fn with_y(self, y: Byte) -> CPURegister {
        CPURegister { y, ..self }
    }

    pub open spec fn with_s(self, s: Byte) -> CPURegister {
        CPURegister { s, ..self }
    }

    pub open spec fn with_pc(self, pc: Word) -> CPURegister {
        CPURegister { pc, ..self }
    }

    pub open spec fn with_flags(self, p: CPUStatusRegister) -> CPURegister {
        CPURegister { p, ..self }
    }

    pub open spec fn with_zn(self, value: Byte) -> CPURegister {
        CPURegister { p: zn_from(self.p, value), ..self }
    }

    /// S moves up by one, modulo 256: a pop.
    pub open spec fn spec_increment_s(self) -> CPURegister {
        self.with_s(if self.s == 0xFF { 0u8 } else { (self.s + 1) as u8 })
    }

    /// S moves down by one, modulo 256: a push.
    pub open spec fn spec_decrement_s(self) -> CPURegister {
        self.with_s(if self.s == 0 { 0xFFu8 } else { (self.s - 1) as u8 })
    }

    /// PC moves on by one, modulo 2^16.
    pub open spec fn spec_increment_pc_byte(self) -> CPURegister {
        self.with_pc(if self.pc == 0xFFFF { 0u16 } else { (self.pc + 1) as u16 })
    }

    /// PC moves on by two, modulo 2^16.
    pub open spec fn spec_increment_pc_word(self) -> CPURegister {
        self.with_pc(if self.pc >= 0xFFFE { (self.pc - 0xFFFE) as u16 } else { (self.pc + 2) as u16 })
    }

    /// PC moves back by one, modulo 2^16.
    pub open spec fn spec_decrement_pc_byte(self) -> CPURegister {
        self.with_pc(if self.pc == 0 { 0xFFFFu16 } else { (self.pc - 1) as u16 })
    }

    /// The address of the stack slot that S points at, in page 1.
    pub open spec fn stack_slot(self) -> Word {
        (0x0100 + self.s) as u16
    }

    /// The registers after `value` and the carry are added to A.
    pub open spec fn added(self, value: Byte) -> CPURegister {
        let result = sum_byte(self.a, value, self.p.c);
        CPURegister {
            a: result,
            p: zn_from(
                CPUStatusRegister {
                    c: sum_carry(self.a, value, self.p.c),
                    v: sum_overflow(self.a, value, self.p.c),
                    ..self.p
                },
                result,
            ),
            ..self
        }
    }

    /// The registers after `value` and the borrow are subtracted from A.
    pub open spec fn subtracted(self, value: Byte) -> CPURegister {
        let result = difference_byte(self.a, value, self.p.c);
        CPURegister {
            a: result,
            p: zn_from(
                CPUStatusRegister {
                    c: difference_carry(self.a, value, self.p.c),
                    v: difference_overflow(self.a, value, self.p.c),
                    ..self.p
                },
                result,
            ),
            ..self
        }
    }

    /// The registers after `a` is compared with `b`: C says that `a >= b`,
    /// Z and N come from the low byte of `a - b`.
    pub open spec fn compared(self, a: Byte, b: Byte) -> CPURegister {
        CPURegister {
            p: zn_from(CPUStatusRegister { c: a >= b, ..self.p }, difference_byte(a, b, true)),
            ..self
        }
    }

    /// The flags after `value` is shifted left: C takes bit 7.
    pub open spec fn shifted_left(self, value: Byte) -> CPURegister {
        CPURegister {
            p: zn_from(CPUStatusRegister { c: value & 0x80 != 0, ..self.p }, value << 1),
            ..self
        }
    }

    /// The flags after `value` is shifted right: C takes bit 0.
    pub open spec fn shifted_right(self, value: Byte) -> CPURegister {
        CPURegister {
            p: zn_from(CPUStatusRegister { c: value & 0x01 != 0, ..self.p }, value >> 1),
            ..self
        }
    }

    /// The flags after `value` is rotated left through the carry.
    pub open spec fn rotated_left(self, value: Byte) -> CPURegister {
        CPURegister {
            p: zn_from(
                CPUStatusRegister { c: value & 0x80 != 0, ..self.p },
                rotated_left(value, self.p.c),
            ),
            ..self
        }
    }

    /// The flags after `value` is rotated right through the carry.
    pub open spec fn rotated_right(self, value: Byte) -> CPURegister {
        CPURegister {
            p: zn_from(
                CPUStatusRegister { c: value & 0x01 != 0, ..self.p },
                rotated_right(value, self.p.c),
            ),
            ..self
        }
    }

    pub fn get_a(&self) -> (value: Byte)
        ensures
            value == self.a,
    {
        self.a
    }

    pub fn set_a(&mut self, a: Byte)
        ensures
            *final(self) == old(self).with_a(a),
    {
        self.a = a;
    }

    pub fn get_x(&self) -> (value: Byte)
        ensures
            value == self.x,
    {
        self.x
    }

    pub fn set_x(&mut self, x: Byte)
        ensures
            *final(self) == old(self).with_x(x),
    {
        self.x = x;
    }

    pub fn get_y(&self) -> (value: Byte)
        ensures
            value == self.y,
    {
        self.y
    }

    pub fn set_y(&mut self, y: Byte)
        ensures
            *final(self) == old(self).with_y(y),
    {
        self.y = y;
    }

    pub fn get_s(&self) -> (value: Byte)
        ensures
            value == self.s,
    {
        self.s
    }

    pub fn set_s(&mut self, s: Byte)
        ensures
            *final(self) == old(self).with_s(s),
    {
        self.s = s;
    }

    pub fn increment_s(&mut self)
        ensures
            *final(self) == old(self).spec_increment_s(),
    {
        self.s = self.s.wrapping_add(1);
    }

    pub fn decrement_s(&mut self)
        ensures
            *final(self) == old(self).spec_decrement_s(),
    {
        self.s = self.s.wrapping_sub(1);
    }

    pub fn get_pc(&self) -> (value: Word)
        ensures
            value == self.pc,
    {
        self.pc
    }

    pub fn set_pc(&mut self, pc: Word)
        ensures
            *final(self) == old(self).with_pc(pc),
    {
        self.pc = pc;
    }

    pub fn increment_pc_byte(&mut self)
        ensures
            *final(self) == old(self).spec_increment_pc_byte(),
    {
        self.pc = self.pc.wrapping_add(1);
    }

    pub fn increment_pc_word(&mut self)
        ensures
            *final(self) == old(self).spec_increment_pc_word(),
    {
        self.pc = self.pc.wrapping_add(2);
    }

    pub fn decrement_pc_byte(&mut self)
        ensures
            *final(self) == old(self).spec_decrement_pc_byte(),
    {
        self.pc = self.pc.wrapping_sub(1);
    }

    pub fn stack_address(&self) -> (address: Word)
        ensures
            address == self.stack_slot(),
    {
        let s = self.s;
        assert(0x0100u16 | (s as u16) == 0x0100 + s) by (bit_vector);
        0x0100 | self.s as Word
    }

    pub fn get_p(&self) -> (p: Byte)
        ensures
            p == pack_status(self.p),
    {
        let c: u8 = if self.p.c { 0x01 } else { 0x00 };
        let z: u8 = if self.p.z { 0x02 } else { 0x00 };
        let i: u8 = if self.p.i { 0x04 } else { 0x00 };
        let d: u8 = if self.p.d { 0x08 } else { 0x00 };
        let b: u8 = if self.p.b { 0x10 } else { 0x00 };
        let r: u8 = if self.p.r { 0x20 } else { 0x00 };
        let v: u8 = if self.p.v { 0x40 } else { 0x00 };
        let n: u8 = if self.p.n { 0x80 } else { 0x00 };
        c | z | i | d | b | r | v | n
    }

    pub fn set_p(&mut self, p: Byte)
        ensures
            *final(self) == old(self).with_flags(unpack_status(p)),
    {
        self.p.c = (p & 0x01) != 0;
        self.p.z = (p & 0x02) != 0;
        self.p.i = (p & 0x04) != 0;
        self.p.d = (p & 0x08) != 0;
        self.p.b = (p & 0x10) != 0;
        self.p.r = (p & 0x20) != 0;
        self.p.v = (p & 0x40) != 0;
        self.p.n = (p & 0x80) != 0;
    }

    pub fn get_c(&self) -> (flag: bool)
        ensures
            flag == self.p.c,
    {
        self.p.c
    }

    pub fn clear_c(&mut self)
        ensures
            *final(self) == old(self).with_flags(CPUStatusRegister { c: false, ..old(self).p }),
    {
        self.p.c = false;
    }

    pub fn set_c(&mut self)
        ensures
            *final(self) == old(self).with_flags(CPUStatusRegister { c: true, ..old(self).p }),
    {
        self.p.c = true;
    }

    pub fn get_z(&self) -> (flag: bool)
        ensures
            flag == self.p.z,
    {
        self.p.z
    }

    pub fn clear_z(&mut self)
        ensures
            *final(self) == old(self).with_flags(CPUStatusRegister { z: false, ..old(self).p }),
    {
        self.p.z = false;
    }

    pub fn set_z(&mut self)
        ensures
            *final(self) == old(self).with_flags(CPUStatusRegister { z: true, ..old(self).p }),
    {
        self.p.z = true;
    }

    pub fn get_i(&self) -> (flag: bool)
        ensures
            flag == self.p.i,
    {
        self.p.i
    }

    pub fn clear_i(&mut self)
        ensures
            *final(self) == old(self).with_flags(CPUStatusRegister { i: false, ..old(self).p }),
    {
        self.p.i = false;
    }

    pub fn set_i(&mut self)
        ensures
            *final(self) == old(self).with_flags(CPUStatusRegister { i: true, ..old(self).p }),
    {
        self.p.i = true;
    }

    pub fn get_d(&self) -> (flag: bool)
        ensures
            flag == self.p.d,
    {
        self.p.d
    }

    pub fn clear_d(&mut self)
        ensures
            *final(self) == old(self).with_flags(CPUStatusRegister { d: false, ..old(self).p }),
    {
        self.p.d = false;
    }

    pub fn set_d(&mut self)
        ensures
            *final(self) == old(self).with_flags(CPUStatusRegister { d: true, ..old(self).p }),
    {
        self.p.d = true;
    }

    pub fn get_b(&self) -> (flag: bool)
        ensures
            flag == self.p.b,
    {
        self.p.b
    }

    pub fn clear_b(&mut self)
        ensures
            *final(self) == old(self).with_flags(CPUStatusRegister { b: false, ..old(self).p }),
    {
        self.p.b = false;
    }

    pub fn set_b(&mut self)
        ensures
            *final(self) == old(self).with_flags(CPUStatusRegister { b: true, ..old(self).p }),
    {
        self.p.b = true;
    }

    pub fn get_r(&self) -> (flag: bool)
        ensures
            flag == self.p.r,
    {
        self.p.r
    }

    pub fn clear_r(&mut self)
        ensures
            *final(self) == old(self).with_flags(CPUStatusRegister { r: false, ..old(self).p }),
    {
        self.p.r = false;
    }

    pub fn set_r(&mut self)
        ensures
            *final(self) == old(self).with_flags(CPUStatusRegister { r: true, ..old(self).p }),
    {
        self.p.r = true;
    }

    pub fn get_v(&self) -> (flag: bool)
        ensures
            flag == self.p.v,
    {
        self.p.v
    }

    pub fn clear_v(&mut self)
        ensures
            *final(self) == old(self).with_flags(CPUStatusRegister { v: false, ..old(self).p }),
    {
        self.p.v = false;
    }

    pub fn set_v(&mut self)
        ensures
            *final(self) == old(self).with_flags(CPUStatusRegister { v: true, ..old(self).p }),
    {
        self.p.v = true;
    }

    pub fn get_n(&self) -> (flag: bool)
        ensures
            flag == self.p.n,
    {
        self.p.n
    }

    pub fn clear_n(&mut self)
        ensures
            *final(self) == old(self).with_flags(CPUStatusRegister { n: false, ..old(self).p }),
    {
        self.p.n = false;
    }

    pub fn set_n(&mut self)
        ensures
            *final(self) == old(self).with_flags(CPUStatusRegister { n: true, ..old(self).p }),
    {
        self.p.n = true;
    }

    pub fn add_a(&mut self, value: Byte)
        ensures
            *final(self) == old(self).added(value),
    {
        let carry: u16 = if self.p.c { 1 } else { 0 };
        let sum: u16 = self.a as u16 + value as u16 + carry;
        let result: u8 = if sum > 0xFF { (sum - 0x100) as u8 } else { sum as u8 };
        let overflow = (self.a ^ value) & 0x80 == 0 && (self.a ^ result) & 0x80 != 0;
        self.p.v = overflow;
        self.p.c = sum > 0xFF;
        self.a = result;
        self.set_zn_by(result);
    }

    pub fn sub_a(&mut self, value: Byte)
        ensures
            *final(self) == old(self).subtracted(value),
    {
        let borrow: i16 = if self.p.c { 0 } else { 1 };
        let diff: i16 = self.a as i16 - value as i16 - borrow;
        let result: u8 = if diff < 0 { (diff + 0x100) as u8 } else { diff as u8 };
        let overflow = (self.a ^ value) & 0x80 != 0 && (self.a ^ result) & 0x80 != 0;
        self.p.v = overflow;
        self.p.c = diff >= 0;
        self.a = result;
        self.set_zn_by(result);
    }

    pub fn left_shift_a(&mut self)
        ensures
            *final(self) == old(self).shifted_left(old(self).a).with_a(old(self).a << 1),
    {
        let result = self.set_flag_by_left_shift(self.a);
        self.a = result;
    }

    pub fn right_shift_a(&mut self)
        ensures
            *final(self) == old(self).shifted_right(old(self).a).with_a(old(self).a >> 1),
    {
        let result = self.set_flag_by_right_shift(self.a);
        self.a = result;
    }

    pub fn set_flag_by_left_shift(&mut self, value: Byte) -> (result: Byte)
        ensures
            result == value << 1,
            *final(self) == old(self).shifted_left(value),
    {
        self.p.c = (value & 0x80) != 0;
        let result = value << 1;
        self.set_zn_by(result);
        result
    }

    pub fn set_flag_by_right_shift(&mut self, value: Byte) -> (result: Byte)
        ensures
            result == value >> 1,
            *final(self) == old(self).shifted_right(value),
    {
        self.p.c = (value & 0x01) != 0;
        let result = value >> 1;
        self.set_zn_by(result);
        result
    }

    pub fn left_rotate_a(&mut self)
        ensures
            *final(self) == old(self).rotated_left(old(self).a).with_a(
                rotated_left(old(self).a, old(self).p.c),
            ),
    {
        let result = self.set_flag_by_left_rotate(self.a);
        self.a = result;
    }

    pub fn right_rotate_a(&mut self)
        ensures
            *final(self) == old(self).rotated_right(old(self).a).with_a(
                rotated_right(old(self).a, old(self).p.c),
            ),
    {
        let result = self.set_flag_by_right_rotate(self.a);
        self.a = result;
    }

    pub fn set_flag_by_left_rotate(&mut self, value: Byte) -> (result: Byte)
        ensures
            result == rotated_left(value, old(self).p.c),
            *final(self) == old(self).rotated_left(value),
    {
        let c: u8 = if self.p.c { 1 } else { 0 };
        self.p.c = (value & 0x80) != 0;
        let result = (value << 1) | c;
        self.set_zn_by(result);
        result
    }

    pub fn set_flag_by_right_rotate(&mut self, value: Byte) -> (result: Byte)
        ensures
            result == rotated_right(value, old(self).p.c),
            *final(self) == old(self).rotated_right(value),
    {
        let c: u8 = if self.p.c { 0x80 } else { 0 };
        self.p.c = (value & 0x01) != 0;
        let result = (value >> 1) | c;
        self.set_zn_by(result);
        result
    }

    pub fn cmp(&mut self, a: Byte, b: Byte)
        ensures
            *final(self) == old(self).compared(a, b),
    {
        self.p.c = a >= b;
        self.set_zn_by(a.wrapping_sub(b));
    }

    pub fn set_zn_by(&mut self, value: Byte)
        ensures
            *final(self) == old(self).with_zn(value),
    {
        self.p.z = value == 0;
        self.p.n = (value & 0x80) != 0;
    }
}

/// Packing the flags into a byte and unpacking that byte gives the flags
/// back, and the other way round.
pub proof fn lemma_status_round_trip(p: CPUStatusRegister, byte: u8)
    ensures
        unpack_status(pack_status(p)) == p,
        pack_status(unpack_status(byte)) == byte,
{
    lemma_unpack_pack(p.c, p.z, p.i, p.d, p.b, p.r, p.v, p.n);
    lemma_pack_unpack(byte);
}

proof fn lemma_unpack_pack(c: bool, z: bool, i: bool, d: bool, b: bool, r: bool, v: bool, n: bool)
    by (bit_vector)
    ensures
        ({
            let byte = (if c { 0x01u8 } else { 0u8 }) | (if z { 0x02u8 } else { 0u8 }) | (if i {
                0x04u8
            } else {
                0u8
            }) | (if d { 0x08u8 } else { 0u8 }) | (if b { 0x10u8 } else { 0u8 }) | (if r {
                0x20u8
            } else {
                0u8
            }) | (if v { 0x40u8 } else { 0u8 }) | (if n { 0x80u8 } else { 0u8 });
            &&& (byte & 0x01 != 0) == c
            &&& (byte & 0x02 != 0) == z
            &&& (byte & 0x04 != 0) == i
            &&& (byte & 0x08 != 0) == d
            &&& (byte & 0x10 != 0) == b
            &&& (byte & 0x20 != 0) == r
            &&& (byte & 0x40 != 0) == v
            &&& (byte & 0x80 != 0) == n
        }),
{
}

proof fn lemma_pack_unpack(byte: u8)
    by (bit_vector)
    ensures
        (if byte & 0x01 != 0 { 0x01u8 } else { 0u8 }) | (if byte & 0x02 != 0 {
            0x02u8
        } else {
            0u8
        }) | (if byte & 0x04 != 0 { 0x04u8 } else { 0u8 }) | (if byte & 0x08 != 0 {
            0x08u8
        } else {
            0u8
        }) | (if byte & 0x10 != 0 { 0x10u8 } else { 0u8 }) | (if byte & 0x20 != 0 {
            0x20u8
        } else {
            0u8
        }) | (if byte & 0x40 != 0 { 0x40u8 } else { 0u8 }) | (if byte & 0x80 != 0 {
            0x80u8
        } else {
            0u8
        }) == byte,
{
}

/// Adding `m` with carry and then subtracting `m` with the carry that the
/// addition left gives back the accumulator and the carry that went in,
/// whenever the addition changed the carry.
pub proof fn lemma_add_then_subtract(a: u8, m: u8, carry: bool)
    requires
        sum_carry(a, m, carry) != carry,
    ensures
        difference_byte(sum_byte(a, m, carry), m, sum_carry(a, m, carry)) == a,
        difference_carry(sum_byte(a, m, carry), m, sum_carry(a, m, carry)) == carry,
{
}

/// The same on the register file: A and C come back.
pub proof fn lemma_added_then_subtracted(register: CPURegister, m: u8)
    requires
        sum_carry(register.a, m, register.p.c) != register.p.c,
    ensures
        register.added(m).subtracted(m).a == register.a,
        register.added(m).subtracted(m).p.c == register.p.c,
{
    lemma_add_then_subtract(register.a, m, register.p.c);
}

/// The overflow flag of an addition says that the sum of the operands, read
/// as signed bytes, does not fit in a signed byte.
pub proof fn lemma_sum_overflow_is_signed_overflow(a: u8, m: u8, carry: bool)
    ensures
        sum_overflow(a, m, carry) <==> {
            let signed = signed_value(a) + signed_value(m) + if carry { 1int } else { 0int };
            signed < -128 || signed > 127
        },
{
    let r = sum_byte(a, m, carry);
    assert((a ^ m) & 0x80 == 0 <==> ((a >= 128) == (m >= 128))) by (bit_vector);
    assert((a ^ r) & 0x80 != 0 <==> ((a >= 128) != (r >= 128))) by (bit_vector);
}

/// A byte read as a two's complement number.
pub open spec fn signed_value(value: u8) -> int {
    if value >= 128 {
        value - 256
    } else {
        value as int
    }
}

} // verus!
