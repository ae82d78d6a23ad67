//! Arithmetic and logic of the SM83: what each operation computes and
//! what it does to the flags, and the register-file methods that do it.

use vstd::prelude::*;
use crate::bits::{lemma_nibbles, lemma_word_masks};
use crate::register::{CPUFlag, Registers, pack_flags, lemma_flags_packed, lemma_packed_flags};

verus! {

/// What an operation does to the flags: a new value for a flag, or `None`
/// for a flag that it leaves alone.
pub struct FlagUpdate {
    pub z: Option<bool>,
    pub n: Option<bool>,
    pub h: Option<bool>,
    pub c: Option<bool>,
}

/// The update that gives all four flags a value.
pub open spec fn all_flags(z: bool, n: bool, h: bool, c: bool) -> FlagUpdate {
    FlagUpdate { z: Some(z), n: Some(n), h: Some(h), c: Some(c) }
}

/// `1` for a set carry, `0` for a clear one.
pub open spec fn carry_bit(carry: bool) -> u8 {
    if carry {
        1
    } else {
        0
    }
}

/// `a + x + carry` in eight bits. `H` is the carry out of bit 3, `C` the
/// carry out of bit 7.
pub open spec fn add8(a: u8, x: u8, carry: u8) -> (u8, FlagUpdate) {
    let sum = a + x + carry;
    (((sum % 256) as u8), all_flags(sum % 256 == 0, false, a % 16 + x % 16 + carry > 0x0F, sum > 0xFF))
}

/// `a - x - borrow` in eight bits. `H` is the borrow from bit 4, `C` the
/// borrow from bit 8.
pub open spec fn sub8(a: u8, x: u8, borrow: u8) -> (u8, FlagUpdate) {
    let difference = a - x - borrow;
    (
        ((difference % 256) as u8),
        all_flags(difference % 256 == 0, true, x % 16 + borrow > a % 16, x + borrow > a),
    )
}

pub open spec fn and8(a: u8, x: u8) -> (u8, FlagUpdate) {
    (a & x, all_flags(a & x == 0, false, true, false))
}

pub open spec fn or8(a: u8, x: u8) -> (u8, FlagUpdate) {
    (a | x, all_flags(a | x == 0, false, false, false))
}

pub open spec fn xor8(a: u8, x: u8) -> (u8, FlagUpdate) {
    (a ^ x, all_flags(a ^ x == 0, false, false, false))
}

/// The comparison `a - x`: the flags of the subtraction, `a` kept.
pub open spec fn cp8(a: u8, x: u8) -> (u8, FlagUpdate) {
    (a, sub8(a, x, 0).1)
}

/// The operation on `A` that the three bits `operation` of an opcode
/// select: `ADD`, `ADC`, `SUB`, `SBC`, `AND`, `XOR`, `OR`, `CP`.
pub open spec fn alu8(operation: u8, a: u8, x: u8, carry: bool) -> (u8, FlagUpdate) {
    if operation == 0 {
        add8(a, x, 0)
    } else if operation == 1 {
        add8(a, x, carry_bit(carry))
    } else if operation == 2 {
        sub8(a, x, 0)
    } else if operation == 3 {
        sub8(a, x, carry_bit(carry))
    } else if operation == 4 {
        and8(a, x)
    } else if operation == 5 {
        xor8(a, x)
    } else if operation == 6 {
        or8(a, x)
    } else {
        cp8(a, x)
    }
}

/// `value + 1` in eight bits; the carry flag is left alone.
pub open spec fn inc8(value: u8) -> (u8, FlagUpdate) {
    (
        ((value + 1) % 256) as u8,
        FlagUpdate { z: Some(value == 0xFF), n: Some(false), h: Some(value % 16 == 0x0F), c: None },
    )
}

/// `value - 1` in eight bits; the carry flag is left alone.
pub open spec fn dec8(value: u8) -> (u8, FlagUpdate) {
    (
        ((value - 1) % 256) as u8,
        FlagUpdate { z: Some(value == 1), n: Some(true), h: Some(value % 16 == 0), c: None },
    )
}

/// `hl + value` in sixteen bits. `H` is the carry out of bit 11, `C` the
/// carry out of bit 15; the zero flag is left alone.
pub open spec fn add16(hl: u16, value: u16) -> (u16, FlagUpdate) {
    (
        ((hl + value) % 0x10000) as u16,
        FlagUpdate {
            z: None,
            n: Some(false),
            h: Some(hl % 0x1000 + value % 0x1000 > 0x0FFF),
            c: Some(hl + value > 0xFFFF),
        },
    )
}

/// The byte `offset` read as a signed number.
pub open spec fn signed(offset: u8) -> int {
    if offset < 0x80 {
        offset as int
    } else {
        offset - 0x100
    }
}

/// `base + signed(offset)` in sixteen bits.
pub open spec fn displaced(base: u16, offset: u8) -> u16 {
    let sum = base + signed(offset);
    if sum > 0xFFFF {
        (sum - 0x10000) as u16
    } else if sum < 0 {
        (sum + 0x10000) as u16
    } else {
        sum as u16
    }
}

/// `base` plus the signed byte `offset`. `H` and `C` are the carries out
/// of bit 3 and bit 7 of the unsigned sum of the two low bytes.
pub open spec fn add_offset(base: u16, offset: u8) -> (u16, FlagUpdate) {
    (
        displaced(base, offset),
        all_flags(false, false, base % 16 + offset % 16 > 0x0F, base % 256 + offset > 0xFF),
    )
}

/// The flags of a rotate or shift: zero from the result, carry from the
/// bit that left.
pub open spec fn shifted(result: u8, carry: bool) -> (u8, FlagUpdate) {
    (result, all_flags(result == 0, false, false, carry))
}

/// Rotate left; bit 7 goes to bit 0 and to the carry.
pub open spec fn rlc(value: u8) -> (u8, FlagUpdate) {
    shifted(value << 1 | value >> 7, value & 0x80 != 0)
}

/// Rotate right; bit 0 goes to bit 7 and to the carry.
pub open spec fn rrc(value: u8) -> (u8, FlagUpdate) {
    shifted(value >> 1 | value << 7, value & 0x01 != 0)
}

/// Rotate left through the carry.
pub open spec fn rl(value: u8, carry: bool) -> (u8, FlagUpdate) {
    shifted(value << 1 | carry_bit(carry), value & 0x80 != 0)
}

/// Rotate right through the carry.
pub open spec fn rr(value: u8, carry: bool) -> (u8, FlagUpdate) {
    shifted(value >> 1 | carry_bit(carry) << 7, value & 0x01 != 0)
}

/// Shift left; bit 0 becomes zero.
pub open spec fn sla(value: u8) -> (u8, FlagUpdate) {
    shifted(value << 1, value & 0x80 != 0)
}

/// Shift right; bit 7 keeps its value.
pub open spec fn sra(value: u8) -> (u8, FlagUpdate) {
    shifted(value >> 1 | value & 0x80, value & 0x01 != 0)
}

/// Shift right; bit 7 becomes zero.
pub open spec fn srl(value: u8) -> (u8, FlagUpdate) {
    shifted(value >> 1, value & 0x01 != 0)
}

/// The two nibbles exchanged.
pub open spec fn swap_nibbles(value: u8) -> u8 {
    (value & 0x0F) << 4 | (value & 0xF0) >> 4
}

pub open spec fn swap8(value: u8) -> (u8, FlagUpdate) {
    shifted(swap_nibbles(value), false)
}

/// The rotate or shift that the three bits `operation` of a prefixed
/// opcode select: `RLC`, `RRC`, `RL`, `RR`, `SLA`, `SRA`, `SWAP`, `SRL`.
pub open spec fn shift8(operation: u8, value: u8, carry: bool) -> (u8, FlagUpdate) {
    if operation == 0 {
        rlc(value)
    } else if operation == 1 {
        rrc(value)
    } else if operation == 2 {
        rl(value, carry)
    } else if operation == 3 {
        rr(value, carry)
    } else if operation == 4 {
        sla(value)
    } else if operation == 5 {
        sra(value)
    } else if operation == 6 {
        swap8(value)
    } else {
        srl(value)
    }
}

/// Whether bit `index` of `value` is set.
pub open spec fn bit_of(index: u8, value: u8) -> bool {
    (1u8 << index) & value != 0
}

/// `value` with bit `index` cleared.
pub open spec fn with_bit_clear(index: u8, value: u8) -> u8 {
    !(1u8 << index) & value
}

/// `value` with bit `index` set.
pub open spec fn with_bit_set(index: u8, value: u8) -> u8 {
    (1u8 << index) | value
}

/// The flags of `BIT`: zero when the bit is clear; carry left alone.
pub open spec fn bit_test(index: u8, value: u8) -> FlagUpdate {
    FlagUpdate { z: Some(!bit_of(index, value)), n: Some(false), h: Some(true), c: None }
}

/// The decimal adjustment of `a` after an addition (`n` clear) or a
/// subtraction (`n` set) of two packed decimal numbers.
pub open spec fn daa(a: u8, n: bool, h: bool, c: bool) -> (u8, FlagUpdate) {
    let high: int = if (!n && (c || a > 0x99)) || (n && c) {
        0x60
    } else {
        0
    };
    let low: int = if (!n && (h || a % 16 > 0x09)) || (n && h) {
        0x06
    } else {
        0
    };
    let adjusted = if n {
        (a - high - low) % 256
    } else {
        (a + high + low) % 256
    };
    (
        adjusted as u8,
        FlagUpdate { z: Some(adjusted == 0), n: None, h: Some(false), c: Some(c || (!n && a > 0x99)) },
    )
}

impl Registers {
    /// The register file after a flag update.
    pub open spec fn with_flags(self, update: FlagUpdate) -> Registers {
        Registers {
            f: pack_flags(
                match update.z {
                    Some(z) => z,
                    None => self.flag(CPUFlag::Z),
                },
                match update.n {
                    Some(n) => n,
                    None => self.flag(CPUFlag::N),
                },
                match update.h {
                    Some(h) => h,
                    None => self.flag(CPUFlag::H),
                },
                match update.c {
                    Some(c) => c,
                    None => self.flag(CPUFlag::C),
                },
            ),
            ..self
        }
    }

    /// Gives each flag for which a value is passed that value.
    pub fn set_flags(&mut self, z: Option<bool>, n: Option<bool>, h: Option<bool>, c: Option<bool>)
        requires
            old(self).wf(),
        ensures
            *final(self) == old(self).with_flags(FlagUpdate { z, n, h, c }),
            final(self).wf(),
    {
        if let Some(z) = z {
            self.set_flag(CPUFlag::Z, z);
        }
        if let Some(n) = n {
            self.set_flag(CPUFlag::N, n);
        }
        if let Some(h) = h {
            self.set_flag(CPUFlag::H, h);
        }
        if let Some(c) = c {
            self.set_flag(CPUFlag::C, c);
        }
        proof {
            lemma_flags_packed(self.f);
        }
    }

    /// The register file with the value of `result` in `A` and its flag
    /// update applied.
    pub open spec fn with_a(self, result: (u8, FlagUpdate)) -> Registers {
        (Registers { a: result.0, ..self }).with_flags(result.1)
    }

    pub fn rotate_left_carry(&mut self, value: u8) -> (new: u8)
        requires
            old(self).wf(),
        ensures
            new == rl(value, old(self).flag(CPUFlag::C)).0,
            *final(self) == old(self).with_flags(rl(value, old(self).flag(CPUFlag::C)).1),
            final(self).wf(),
    {
        let top: u8 = value & 0x80;
        let new: u8 = value << 1 | self.get_flag(CPUFlag::C);
        self.set_flags(Some(new == 0), Some(false), Some(false), Some(top != 0));
        new
    }

    pub fn rotate_left(&mut self, value: u8) -> (new: u8)
        requires
            old(self).wf(),
        ensures
            new == rlc(value).0,
            *final(self) == old(self).with_flags(rlc(value).1),
            final(self).wf(),
    {
        let top: u8 = value & 0x80;
        let new: u8 = value << 1 | value >> 7;
        self.set_flags(Some(new == 0), Some(false), Some(false), Some(top != 0));
        new
    }

    pub fn rotate_right_carry(&mut self, value: u8) -> (new: u8)
        requires
            old(self).wf(),
        ensures
            new == rr(value, old(self).flag(CPUFlag::C)).0,
            *final(self) == old(self).with_flags(rr(value, old(self).flag(CPUFlag::C)).1),
            final(self).wf(),
    {
        let bottom: u8 = value & 0x01;
        let new: u8 = value >> 1 | self.get_flag(CPUFlag::C) << 7;
        self.set_flags(Some(new == 0), Some(false), Some(false), Some(bottom != 0));
        new
    }

    pub fn rotate_right(&mut self, value: u8) -> (new: u8)
        requires
            old(self).wf(),
        ensures
            new == rrc(value).0,
            *final(self) == old(self).with_flags(rrc(value).1),
            final(self).wf(),
    {
        let bottom: u8 = value & 0x01;
        let new: u8 = value >> 1 | value << 7;
        self.set_flags(Some(new == 0), Some(false), Some(false), Some(bottom != 0));
        new
    }

    pub fn shift_left(&mut self, value: u8) -> (new: u8)
        requires
            old(self).wf(),
        ensures
            new == sla(value).0,
            *final(self) == old(self).with_flags(sla(value).1),
            final(self).wf(),
    {
        let top: u8 = value & 0x80;
        let new: u8 = value << 1;
        self.set_flags(Some(new == 0), Some(false), Some(false), Some(top != 0));
        new
    }

    pub fn shift_right_arithmetic(&mut self, value: u8) -> (new: u8)
        requires
            old(self).wf(),
        ensures
            new == sra(value).0,
            *final(self) == old(self).with_flags(sra(value).1),
            final(self).wf(),
    {
        let bottom: u8 = value & 0x01;
        let new: u8 = value >> 1 | value & 0x80;
        self.set_flags(Some(new == 0), Some(false), Some(false), Some(bottom != 0));
        new
    }

    pub fn shift_right_logic(&mut self, value: u8) -> (new: u8)
        requires
            old(self).wf(),
        ensures
            new == srl(value).0,
            *final(self) == old(self).with_flags(srl(value).1),
            final(self).wf(),
    {
        let bottom: u8 = value & 0x01;
        let new: u8 = value >> 1;
        self.set_flags(Some(new == 0), Some(false), Some(false), Some(bottom != 0));
        new
    }

    pub fn swap(&mut self, value: u8) -> (swapped: u8)
        requires
            old(self).wf(),
        ensures
            swapped == swap8(value).0,
            *final(self) == old(self).with_flags(swap8(value).1),
            final(self).wf(),
    {
        let swapped: u8 = (value & 0x0F) << 4 | (value & 0xF0) >> 4;
        self.set_flags(Some(swapped == 0), Some(false), Some(false), Some(false));
        swapped
    }

    pub fn inc_reg(&mut self, value: u8) -> (incremented: u8)
        requires
            old(self).wf(),
        ensures
            incremented == inc8(value).0,
            *final(self) == old(self).with_flags(inc8(value).1),
            final(self).wf(),
    {
        let incremented: u8 = value.wrapping_add(1);
        proof {
            lemma_nibbles(value);
        }
        self.set_flags(Some(incremented == 0), Some(false), Some((value & 0x0F) + 1 > 0x0F), None);
        incremented
    }

    pub fn dec_reg(&mut self, value: u8) -> (decremented: u8)
        requires
            old(self).wf(),
        ensures
            decremented == dec8(value).0,
            *final(self) == old(self).with_flags(dec8(value).1),
            final(self).wf(),
    {
        let decremented: u8 = value.wrapping_sub(1);
        proof {
            lemma_nibbles(value);
        }
        self.set_flags(Some(decremented == 0), Some(true), Some((value & 0x0F) == 0), None);
        decremented
    }

    pub fn add_hl(&mut self, value: u16)
        requires
            old(self).wf(),
        ensures
            *final(self) == old(self).with_hl(add16(old(self).spec_hl(), value).0).with_flags(
                add16(old(self).spec_hl(), value).1,
            ),
            final(self).wf(),
    {
        let hl: u16 = self.hl();
        let sum: u16 = hl.wrapping_add(value);
        proof {
            lemma_word_masks(hl);
            lemma_word_masks(value);
        }
        self.set_flags(
            None,
            Some(false),
            Some((hl & 0x0FFF) + (value & 0x0FFF) > 0x0FFF),
            Some(hl > sum),
        );
        self.write_hl(sum);
    }

    pub fn add_a(&mut self, value: u8, carry: u8)
        requires
            old(self).wf(),
            carry <= 1,
        ensures
            *final(self) == old(self).with_a(add8(old(self).a, value, carry)),
            final(self).wf(),
    {
        let a: u8 = self.a;
        let sum: u8 = a.wrapping_add(value).wrapping_add(carry);
        proof {
            lemma_nibbles(a);
            lemma_nibbles(value);
        }
        self.set_flags(
            Some(sum == 0),
            Some(false),
            Some((a & 0x0F) + (value & 0x0F) + carry > 0x0F),
            Some((a as u16) + (value as u16) + (carry as u16) > 0xFF),
        );
        self.a = sum;
    }

    pub fn sub_a(&mut self, value: u8, carry: u8)
        requires
            old(self).wf(),
            carry <= 1,
        ensures
            *final(self) == old(self).with_a(sub8(old(self).a, value, carry)),
            final(self).wf(),
    {
        let a: u8 = self.a;
        let sub: u8 = a.wrapping_sub(value).wrapping_sub(carry);
        proof {
            lemma_nibbles(a);
            lemma_nibbles(value);
        }
        self.set_flags(
            Some(sub == 0),
            Some(true),
            Some((value & 0x0F) + carry > (a & 0x0F)),
            Some((value as u16) + (carry as u16) > (a as u16)),
        );
        self.a = sub;
    }

    pub fn and_a(&mut self, value: u8)
        requires
            old(self).wf(),
        ensures
            *final(self) == old(self).with_a(and8(old(self).a, value)),
            final(self).wf(),
    {
        self.a = self.a & value;
        self.set_flags(Some(self.a == 0), Some(false), Some(true), Some(false));
    }

    pub fn or_a(&mut self, value: u8)
        requires
            old(self).wf(),
        ensures
            *final(self) == old(self).with_a(or8(old(self).a, value)),
            final(self).wf(),
    {
        self.a = self.a | value;
        self.set_flags(Some(self.a == 0), Some(false), Some(false), Some(false));
    }

    pub fn xor_a(&mut self, value: u8)
        requires
            old(self).wf(),
        ensures
            *final(self) == old(self).with_a(xor8(old(self).a, value)),
            final(self).wf(),
    {
        self.a = self.a ^ value;
        self.set_flags(Some(self.a == 0), Some(false), Some(false), Some(false));
    }

    pub fn cp_a(&mut self, value: u8)
        requires
            old(self).wf(),
        ensures
            *final(self) == old(self).with_a(cp8(old(self).a, value)),
            final(self).wf(),
    {
        let a: u8 = self.a;
        let sub: u8 = a.wrapping_sub(value);
        proof {
            lemma_nibbles(a);
            lemma_nibbles(value);
        }
        self.set_flags(
            Some(sub == 0),
            Some(true),
            Some((value & 0x0F) > (a & 0x0F)),
            Some(value > a),
        );
    }

    /// `base` plus the signed byte `offset`, with the flags of `ADD SP,e`.
    pub fn add_signed(&mut self, base: u16, offset: u8) -> (sum: u16)
        requires
            old(self).wf(),
        ensures
            sum == add_offset(base, offset).0,
            *final(self) == old(self).with_flags(add_offset(base, offset).1),
            final(self).wf(),
    {
        let byte: u16 = offset as u16;
        proof {
            lemma_word_masks(base);
            lemma_word_masks(byte);
        }
        self.set_flags(
            Some(false),
            Some(false),
            Some((base & 0x000F) + (byte & 0x000F) > 0x000F),
            Some((base & 0x00FF) + (byte & 0x00FF) > 0x00FF),
        );
        if offset < 0x80 {
            base.wrapping_add(byte)
        } else {
            base.wrapping_sub(0x100 - byte)
        }
    }

    pub fn test_bit(&mut self, index: u8, value: u8)
        requires
            old(self).wf(),
            index <= 7,
        ensures
            *final(self) == old(self).with_flags(bit_test(index, value)),
            final(self).wf(),
    {
        let is_not_set: bool = ((1u8 << index) & value) == 0;
        self.set_flags(Some(is_not_set), Some(false), Some(true), None);
    }

    /// Adjusts `A` to packed decimal after an addition or a subtraction.
    pub fn decimal_adjust(&mut self)
        requires
            old(self).wf(),
        ensures
            *final(self) == old(self).with_a(
                daa(
                    old(self).a,
                    old(self).flag(CPUFlag::N),
                    old(self).flag(CPUFlag::H),
                    old(self).flag(CPUFlag::C),
                ),
            ),
            final(self).wf(),
    {
        let n: bool = self.get_flag(CPUFlag::N) != 0;
        let c: bool = self.get_flag(CPUFlag::C) != 0;
        let h: bool = self.get_flag(CPUFlag::H) != 0;
        let (a, carry) = if n {
            (adjusted_after_sub(self.a, h, c), c)
        } else {
            adjusted_after_add(self.a, h, c)
        };
        self.set_flags(Some(a == 0), None, Some(false), Some(carry));
        self.a = a;
    }
}

/// The decimal adjustment after an addition, with the new carry.
fn adjusted_after_add(a: u8, h: bool, c: bool) -> (adjusted: (u8, bool))
    ensures
        adjusted.0 == daa(a, false, h, c).0,
        adjusted.1 == (c || a > 0x99),
{
    let mut value: u8 = a;
    let mut carry: bool = c;
    if c || a > 0x99 {
        value = value.wrapping_add(0x60);
        carry = true;
    }
    proof {
        lemma_nibbles(value);
        assert(value % 16 == a % 16);
    }
    if h || (value & 0x0F) > 0x09 {
        value = value.wrapping_add(0x06);
    }
    (value, carry)
}

/// The decimal adjustment after a subtraction.
fn adjusted_after_sub(a: u8, h: bool, c: bool) -> (adjusted: u8)
    ensures
        adjusted == daa(a, true, h, c).0,
{
    let mut value: u8 = a;
    if c {
        value = value.wrapping_sub(0x60);
    }
    if h {
        value = value.wrapping_sub(0x06);
    }
    value
}

/// `value` with bit `index` cleared.
pub fn zero_bit(index: u8, value: u8) -> (cleared: u8)
    requires
        index <= 7,
    ensures
        cleared == with_bit_clear(index, value),
{
    !(1u8 << index) & value
}

/// `value` with bit `index` set.
pub fn set_bit(index: u8, value: u8) -> (raised: u8)
    requires
        index <= 7,
    ensures
        raised == with_bit_set(index, value),
{
    (1u8 << index) | value
}

/// The flags after `A + x + carry`: zero when the low byte of the sum is
/// zero, half carry when the low nibbles and the carry add up to more
/// than `0x0F`, carry when the sum is more than `0xFF`; the subtract flag
/// is clear.
pub proof fn lemma_add_flags(r: Registers, x: u8, carry: u8)
    requires
        carry <= 1,
    ensures
        r.with_a(add8(r.a, x, carry)).a == (r.a + x + carry) % 256,
        r.with_a(add8(r.a, x, carry)).flag(CPUFlag::Z) == ((r.a + x + carry) % 256 == 0),
        !r.with_a(add8(r.a, x, carry)).flag(CPUFlag::N),
        r.with_a(add8(r.a, x, carry)).flag(CPUFlag::H) == ((r.a & 0x0F) + (x & 0x0F) + carry
            > 0x0F),
        r.with_a(add8(r.a, x, carry)).flag(CPUFlag::C) == (r.a + x + carry > 0xFF),
        r.with_a(add8(r.a, x, carry)).wf(),
{
    let sum = r.a + x + carry;
    lemma_nibbles(r.a);
    lemma_nibbles(x);
    lemma_packed_flags(sum % 256 == 0, false, r.a % 16 + x % 16 + carry > 0x0F, sum > 0xFF);
}

/// The flags after `A - x - borrow`: zero when the low byte of the
/// difference is zero, half carry when the low nibble of `x` and the
/// borrow are more than the low nibble of `A`, carry when `x` and the
/// borrow are more than `A`; the subtract flag is set.
pub proof fn lemma_sub_flags(r: Registers, x: u8, borrow: u8)
    requires
        borrow <= 1,
    ensures
        r.with_a(sub8(r.a, x, borrow)).a == (r.a - x - borrow) % 256,
        r.with_a(sub8(r.a, x, borrow)).flag(CPUFlag::Z) == ((r.a - x - borrow) % 256 == 0),
        r.with_a(sub8(r.a, x, borrow)).flag(CPUFlag::N),
        r.with_a(sub8(r.a, x, borrow)).flag(CPUFlag::H) == ((x & 0x0F) + borrow > (r.a & 0x0F)),
        r.with_a(sub8(r.a, x, borrow)).flag(CPUFlag::C) == (x + borrow > r.a),
        r.with_a(sub8(r.a, x, borrow)).wf(),
{
    let difference = r.a - x - borrow;
    lemma_nibbles(r.a);
    lemma_nibbles(x);
    lemma_packed_flags(difference % 256 == 0, true, x % 16 + borrow > r.a % 16, x + borrow > r.a);
}

/// A bit that `SET` has set tests as set, a bit that `RES` has cleared
/// tests as clear, and neither changes another bit.
pub proof fn lemma_set_res_then_bit(index: u8, value: u8)
    requires
        index <= 7,
    ensures
        bit_of(index, with_bit_set(index, value)),
        !bit_of(index, with_bit_clear(index, value)),
        bit_test(index, with_bit_set(index, value)).z == Some(false),
        bit_test(index, with_bit_clear(index, value)).z == Some(true),
        forall|other: u8|
            other <= 7 && other != index ==> bit_of(other, with_bit_set(index, value)) == bit_of(
                other,
                value,
            ) && bit_of(other, with_bit_clear(index, value)) == bit_of(other, value),
{
    assert((1u8 << index) & ((1u8 << index) | value) != 0 && (1u8 << index) & (!(1u8 << index)
        & value) == 0) by (bit_vector)
        requires
            index <= 7,
    ;
    assert forall|other: u8| other <= 7 && other != index implies bit_of(
        other,
        with_bit_set(index, value),
    ) == bit_of(other, value) && bit_of(other, with_bit_clear(index, value)) == bit_of(
        other,
        value,
    ) by {
        assert((1u8 << other) & ((1u8 << index) | value) == (1u8 << other) & value && (1u8 << other)
            & (!(1u8 << index) & value) == (1u8 << other) & value) by (bit_vector)
            requires
                index <= 7,
                other <= 7,
                other != index,
        ;
    }
}

/// Exchanging the nibbles twice gives the byte back.
pub proof fn lemma_swap_twice(value: u8)
    ensures
        swap_nibbles(swap_nibbles(value)) == value,
        swap8(swap8(value).0).0 == value,
{
    assert(((((value & 0x0F) << 4 | (value & 0xF0) >> 4) & 0x0F) << 4 | (((value & 0x0F) << 4 | (
    value & 0xF0) >> 4) & 0xF0) >> 4) == value) by (bit_vector);
}

/// Whether both nibbles of `x` are decimal digits.
pub open spec fn is_bcd(x: u8) -> bool {
    x / 16 <= 9 && x % 16 <= 9
}

/// The number from 0 to 99 that the packed decimal byte `x` stands for.
pub open spec fn bcd_value(x: u8) -> int {
    10 * (x / 16) + x % 16
}

/// `DAA` after the addition of two packed decimal bytes and a carry gives
/// the packed decimal sum: its two low digits in `A`, and the carry set
/// when the sum is 100 or more.
pub proof fn lemma_daa_after_add(a: u8, b: u8, carry: u8)
    requires
        is_bcd(a),
        is_bcd(b),
        carry <= 1,
    ensures
        ({
            let sum = add8(a, b, carry);
            let adjusted = daa(sum.0, false, sum.1.h == Some(true), sum.1.c == Some(true));
            &&& is_bcd(adjusted.0)
            &&& bcd_value(adjusted.0) == (bcd_value(a) + bcd_value(b) + carry) % 100
            &&& adjusted.1.c == Some(bcd_value(a) + bcd_value(b) + carry >= 100)
            &&& adjusted.1.z == Some((bcd_value(a) + bcd_value(b) + carry) % 100 == 0)
        }),
{
    let s = ((a + b + carry) % 256) as u8;
    let h = a % 16 + b % 16 + carry > 0x0F;
    let c = a + b + carry > 0xFF;
    let r = ((s + (if c || s > 0x99 {
        0x60int
    } else {
        0int
    }) + (if h || s % 16 > 0x09 {
        0x06int
    } else {
        0int
    })) % 256) as u8;
    assert(r / 16 <= 9 && r % 16 <= 9 && 10 * (r / 16) + r % 16 == (10 * (a / 16) + a % 16 + 10 * (b
        / 16) + b % 16 + carry) % 100 && ((c || s > 0x99) <==> 10 * (a / 16) + a % 16 + 10 * (b / 16)
        + b % 16 + carry >= 100) && (r == 0 <==> (10 * (a / 16) + a % 16 + 10 * (b / 16) + b % 16
        + carry) % 100 == 0)) by (bit_vector)
        requires
            a / 16 <= 9 && a % 16 <= 9 && b / 16 <= 9 && b % 16 <= 9 && carry <= 1,
            s == ((a + b + carry) % 256) as u8,
            h == (a % 16 + b % 16 + carry > 0x0F),
            c == (a + b + carry > 0xFF),
            r == ((s + (if c || s > 0x99 {
                0x60int
            } else {
                0int
            }) + (if h || s % 16 > 0x09 {
                0x06int
            } else {
                0int
            })) % 256) as u8,
    ;
    assert(add8(a, b, carry).0 == s);
    assert(daa(s, false, h, c).0 == r);
}

/// `DAA` after the subtraction of a packed decimal byte and a borrow from
/// another gives the packed decimal difference, counted modulo 100; the
/// carry stays as the subtraction left it, set when it borrowed.
pub proof fn lemma_daa_after_sub(a: u8, b: u8, borrow: u8)
    requires
        is_bcd(a),
        is_bcd(b),
        borrow <= 1,
    ensures
        ({
            let difference = sub8(a, b, borrow);
            let adjusted = daa(
                difference.0,
                true,
                difference.1.h == Some(true),
                difference.1.c == Some(true),
            );
            &&& is_bcd(adjusted.0)
            &&& bcd_value(adjusted.0) == (bcd_value(a) - bcd_value(b) - borrow) % 100
            &&& adjusted.1.c == Some(bcd_value(a) - bcd_value(b) - borrow < 0)
            &&& adjusted.1.z == Some((bcd_value(a) - bcd_value(b) - borrow) % 100 == 0)
        }),
{
    let h = b % 16 + borrow > a % 16;
    let c = b + borrow > a;
    let s: u8 = if c {
        (a + 256 - b - borrow) as u8
    } else {
        (a - b - borrow) as u8
    };
    let less: u8 = ((if c {
        0x60int
    } else {
        0int
    }) + (if h {
        0x06int
    } else {
        0int
    })) as u8;
    let r: u8 = if less > s {
        (s + 256 - less) as u8
    } else {
        (s - less) as u8
    };
    let x: u8 = bcd_value(a) as u8;
    let y: u8 = (bcd_value(b) + borrow) as u8;
    assert(r / 16 <= 9 && r % 16 <= 9 && (c <==> y > x) && 10 * (r / 16) + r % 16 == (if y > x {
        x + 100 - y
    } else {
        x - y
    })) by (bit_vector)
        requires
            a / 16 <= 9 && a % 16 <= 9 && b / 16 <= 9 && b % 16 <= 9 && borrow <= 1,
            h == (b % 16 + borrow > a % 16),
            c == (b + borrow > a),
            s == (if c {
                (a + 256 - b - borrow) as u8
            } else {
                (a - b - borrow) as u8
            }),
            less == ((if c {
                0x60int
            } else {
                0int
            }) + (if h {
                0x06int
            } else {
                0int
            })) as u8,
            r == (if less > s {
                (s + 256 - less) as u8
            } else {
                (s - less) as u8
            }),
            x == 10 * (a / 16) + a % 16,
            y == 10 * (b / 16) + b % 16 + borrow,
    ;
    lemma_wrapped(a - b - borrow, 256);
    lemma_wrapped(s - less, 256);
    lemma_wrapped(bcd_value(a) - bcd_value(b) - borrow, 100);
    assert(sub8(a, b, borrow).0 == s);
    assert(daa(s, true, h, c).0 == r);
}

/// The remainder of a number that is less than one modulus away from the
/// range of remainders.
proof fn lemma_wrapped(x: int, modulus: int)
    requires
        modulus > 0,
        -modulus <= x < 2 * modulus,
    ensures
        x % modulus == (if x < 0 {
            x + modulus
        } else if x >= modulus {
            x - modulus
        } else {
            x
        }),
{
    if x < 0 {
        vstd::arithmetic::div_mod::lemma_fundamental_div_mod_converse(x, modulus, -1, x + modulus);
    } else if x >= modulus {
        vstd::arithmetic::div_mod::lemma_fundamental_div_mod_converse(x, modulus, 1, x - modulus);
    } else {
        vstd::arithmetic::div_mod::lemma_fundamental_div_mod_converse(x, modulus, 0, x);
    }
}

} // verus!
