//! The SM83 register file: eight 8-bit registers, the stack pointer and
//! the program counter, with the 16-bit pairs and the four flags of `F`.

use vstd::prelude::*;
use crate::bits::{word, high_byte, low_byte, lemma_join, lemma_split, lemma_nibbles};
use crate::hex::{hex_byte, hex_short, hex_word, push_hex, push_hex_short, push_hex_word};

verus! {

/// One of the four condition flags held in the high nibble of `F`.
#[derive(Debug, Clone, Copy, PartialEq, Eq, Structural)]
pub enum CPUFlag {
    Z,
    N,
    H,
    C,
}

impl CPUFlag {
    /// The bit of `F` that holds this flag.
    pub open spec fn spec_mask(self) -> u8 {
        match self {
            CPUFlag::Z => 0x80,
            CPUFlag::N => 0x40,
            CPUFlag::H => 0x20,
            CPUFlag::C => 0x10,
        }
    }

    #[verifier::when_used_as_spec(spec_mask)]
    pub fn mask(self) -> (m: u8)
        ensures
            m == self.spec_mask(),
    {
        match self {
            CPUFlag::Z => 0x80,
            CPUFlag::N => 0x40,
            CPUFlag::H => 0x20,
            CPUFlag::C => 0x10,
        }
    }
}

/// `F` with the given values in its four flag bits and a zero low nibble.
pub open spec fn pack_flags(z: bool, n: bool, h: bool, c: bool) -> u8 {
    let zero: int = if z {
        0x80
    } else {
        0
    };
    let subtract: int = if n {
        0x40
    } else {
        0
    };
    let half_carry: int = if h {
        0x20
    } else {
        0
    };
    let carry: int = if c {
        0x10
    } else {
        0
    };
    (zero + subtract + half_carry + carry) as u8
}

/// Whether `flag` is set in the flag register `f`.
pub open spec fn flag_in(f: u8, flag: CPUFlag) -> bool {
    f & flag.spec_mask() != 0
}

/// The register file.
#[derive(Debug, Clone, Copy)]
pub struct Registers {
    pub a: u8,
    pub b: u8,
    pub d: u8,
    pub h: u8,
    pub f: u8,
    pub c: u8,
    pub e: u8,
    pub l: u8,
    pub sp: u16,
    pub pc: u16,
}

impl Registers {
    /// The flag register keeps its low nibble at zero.
    pub open spec fn wf(self) -> bool {
        self.f & 0x0F == 0
    }

    /// Whether `flag` is set.
    pub open spec fn flag(self, flag: CPUFlag) -> bool {
        flag_in(self.f, flag)
    }

    /// The register values that the boot sequence leaves behind.
    pub open spec fn post_boot() -> Registers {
        Registers {
            a: 0x01,
            f: 0xB0,
            b: 0x00,
            c: 0x13,
            d: 0x00,
            e: 0xD8,
            h: 0x01,
            l: 0x4D,
            sp: 0xFFFE,
            pc: 0x0100,
        }
    }

    /// The register file as the boot sequence leaves it.
    pub fn new() -> (r: Registers)
        ensures
            r == Registers::post_boot(),
            r.wf(),
    {
        assert(0xB0u8 & 0x0F == 0) by (bit_vector);
        Registers {
            a: 1,
            f: 0xB0,
            b: 0x00,
            c: 0x13,
            d: 0x00,
            e: 0xD8,
            h: 0x01,
            l: 0x4D,
            pc: 0x0100,
            sp: 0xFFFE,
        }
    }

    /// The register file with `flag` set or cleared and nothing else changed.
    pub open spec fn with_flag(self, flag: CPUFlag, set: bool) -> Registers {
        Registers {
            f: if set {
                self.f | flag.spec_mask()
            } else {
                self.f & !flag.spec_mask()
            },
            ..self
        }
    }

    /// Sets or clears exactly the bit of `flag` in `F`.
    pub fn set_flag(&mut self, flag: CPUFlag, set: bool)
        ensures
            *final(self) == old(self).with_flag(flag, set),
            final(self).flag(flag) == set,
            forall|other: CPUFlag| other != flag ==> final(self).flag(other) == old(self).flag(other),
            old(self).wf() ==> final(self).wf(),
    {
        proof {
            lemma_flag_update(*self, flag, set);
        }
        if set {
            self.f = self.f | flag.mask();
        } else {
            self.f = self.f & !flag.mask();
        }
    }

    /// `1` if `flag` is set, `0` if it is clear.
    pub fn get_flag(&self, flag: CPUFlag) -> (bit: u8)
        ensures
            bit == (if self.flag(flag) { 1u8 } else { 0u8 }),
    {
        if (self.f & flag.mask()) != 0 {
            1
        } else {
            0
        }
    }

    /// The pair `AF`; the low nibble of `F` reads as zero.
    pub open spec fn spec_af(&self) -> u16 {
        word(self.a, self.f & 0xF0)
    }

    /// The pair `BC`, `B` being the high byte.
    pub open spec fn spec_bc(&self) -> u16 {
        word(self.b, self.c)
    }

    /// The pair `DE`, `D` being the high byte.
    pub open spec fn spec_de(&self) -> u16 {
        word(self.d, self.e)
    }

    /// The pair `HL`, `H` being the high byte.
    pub open spec fn spec_hl(&self) -> u16 {
        word(self.h, self.l)
    }

    /// The register file after `value` is written to `AF`.
    pub open spec fn with_af(self, value: u16) -> Registers {
        Registers { a: high_byte(value), f: low_byte(value) & 0xF0, ..self }
    }

    /// The register file after `value` is written to `BC`.
    pub open spec fn with_bc(self, value: u16) -> Registers {
        Registers { b: high_byte(value), c: low_byte(value), ..self }
    }

    /// The register file after `value` is written to `DE`.
    pub open spec fn with_de(self, value: u16) -> Registers {
        Registers { d: high_byte(value), e: low_byte(value), ..self }
    }

    /// The register file after `value` is written to `HL`.
    pub open spec fn with_hl(self, value: u16) -> Registers {
        Registers { h: high_byte(value), l: low_byte(value), ..self }
    }

    #[verifier::when_used_as_spec(spec_af)]
    pub fn af(&self) -> (value: u16)
        ensures
            value == self.spec_af(),
    {
        proof {
            lemma_join(self.a, self.f & 0xF0);
        }
        (self.a as u16) << 8 | ((self.f & 0xF0) as u16)
    }

    /// Writes `AF`; the low nibble of the new `F` is zero.
    pub fn write_af(&mut self, value: u16)
        ensures
            *final(self) == old(self).with_af(value),
            final(self).wf(),
    {
        proof {
            lemma_split(value);
            lemma_low_masked(value);
            lemma_nibbles(low_byte(value));
        }
        self.a = (value >> 8) as u8;
        self.f = (value & 0x00F0) as u8;
    }

    #[verifier::when_used_as_spec(spec_bc)]
    pub fn bc(&self) -> (value: u16)
        ensures
            value == self.spec_bc(),
    {
        proof {
            lemma_join(self.b, self.c);
        }
        (self.b as u16) << 8 | self.c as u16
    }

    pub fn write_bc(&mut self, value: u16)
        ensures
            *final(self) == old(self).with_bc(value),
            final(self).wf() == old(self).wf(),
    {
        proof {
            lemma_split(value);
        }
        self.b = (value >> 8) as u8;
        self.c = (value & 0xFF) as u8;
    }

    #[verifier::when_used_as_spec(spec_de)]
    pub fn de(&self) -> (value: u16)
        ensures
            value == self.spec_de(),
    {
        proof {
            lemma_join(self.d, self.e);
        }
        (self.d as u16) << 8 | self.e as u16
    }

    pub fn write_de(&mut self, value: u16)
        ensures
            *final(self) == old(self).with_de(value),
            final(self).wf() == old(self).wf(),
    {
        proof {
            lemma_split(value);
        }
        self.d = (value >> 8) as u8;
        self.e = (value & 0xFF) as u8;
    }

    #[verifier::when_used_as_spec(spec_hl)]
    pub fn hl(&self) -> (value: u16)
        ensures
            value == self.spec_hl(),
    {
        proof {
            lemma_join(self.h, self.l);
        }
        (self.h as u16) << 8 | self.l as u16
    }

    pub fn write_hl(&mut self, value: u16)
        ensures
            *final(self) == old(self).with_hl(value),
            final(self).wf() == old(self).wf(),
    {
        proof {
            lemma_split(value);
        }
        self.h = (value >> 8) as u8;
        self.l = (value & 0xFF) as u8;
    }
}

/// A register with its name in front: the name, a colon, a space, the
/// two hexadecimal digits of the value, and a space.
pub open spec fn named_byte(name: char, value: u8) -> Seq<char> {
    seq![name, ':', ' '] + hex_byte(value) + seq![' ']
}

fn push_named(text: &mut String, name: char, value: u8)
    ensures
        final(text)@ == old(text)@ + named_byte(name, value),
{
    text.push(name);
    text.push(':');
    text.push(' ');
    push_hex(text, value);
    text.push(' ');
    assert(text@ =~= old(text)@ + named_byte(name, value));
}

impl Registers {
    /// The register file as one line of text, such as
    /// `A: 01 F: B0 B: 00 C: 13 D: 00 E: D8 H: 01 L: 4D SP: FFFE PC: 00:0100 `.
    pub open spec fn text(self) -> Seq<char> {
        named_byte('A', self.a) + named_byte('F', self.f) + named_byte('B', self.b) + named_byte(
            'C',
            self.c,
        ) + named_byte('D', self.d) + named_byte('E', self.e) + named_byte('H', self.h)
            + named_byte('L', self.l) + seq!['S', 'P', ':', ' '] + hex_short(self.sp) + seq![
            ' ',
            'P',
            'C',
            ':',
            ' ',
            '0',
            '0',
            ':',
        ] + hex_word(self.pc) + seq![' ']
    }

    /// The register file as one line of text; see `text`.
    pub fn describe(&self) -> (line: String)
        ensures
            line@ == self.text(),
    {
        let mut line: String = String::new();
        push_named(&mut line, 'A', self.a);
        push_named(&mut line, 'F', self.f);
        push_named(&mut line, 'B', self.b);
        push_named(&mut line, 'C', self.c);
        push_named(&mut line, 'D', self.d);
        push_named(&mut line, 'E', self.e);
        push_named(&mut line, 'H', self.h);
        push_named(&mut line, 'L', self.l);
        let ghost named = line@;
        line.push('S');
        line.push('P');
        line.push(':');
        line.push(' ');
        assert(line@ =~= named + seq!['S', 'P', ':', ' ']);
        push_hex_short(&mut line, self.sp);
        let ghost with_sp = line@;
        line.push(' ');
        line.push('P');
        line.push('C');
        line.push(':');
        line.push(' ');
        line.push('0');
        line.push('0');
        line.push(':');
        assert(line@ =~= with_sp + seq![' ', 'P', 'C', ':', ' ', '0', '0', ':']);
        push_hex_word(&mut line, self.pc);
        line.push(' ');
        assert(line@ =~= self.text());
        line
    }
}

/// The low byte of a word masked with `0x00F0` is the masked low byte.
proof fn lemma_low_masked(value: u16)
    ensures
        (value & 0x00F0) as u8 == low_byte(value) & 0xF0,
        value & 0x00F0 < 256,
{
    assert(((value & 0x00F0) as u8) == ((value % 256) as u8) & 0xF0 && value & 0x00F0 < 256)
        by (bit_vector);
}

/// Setting or clearing one flag gives that flag the new value, leaves the
/// other three flags as they were, and keeps a zero low nibble zero.
pub proof fn lemma_flag_update(r: Registers, flag: CPUFlag, set: bool)
    ensures
        r.with_flag(flag, set).flag(flag) == set,
        forall|other: CPUFlag| other != flag ==> r.with_flag(flag, set).flag(other) == r.flag(other),
        r.wf() ==> r.with_flag(flag, set).wf(),
{
    let f = r.f;
    let m = flag.spec_mask();
    assert(((f | m) & m != 0) && ((f & !m) & m == 0) && (m != 0x80 ==> ((f | m) & 0x80 == f & 0x80
        && (f & !m) & 0x80 == f & 0x80)) && (m != 0x40 ==> ((f | m) & 0x40 == f & 0x40 && (f & !m)
        & 0x40 == f & 0x40)) && (m != 0x20 ==> ((f | m) & 0x20 == f & 0x20 && (f & !m) & 0x20 == f
        & 0x20)) && (m != 0x10 ==> ((f | m) & 0x10 == f & 0x10 && (f & !m) & 0x10 == f & 0x10))
        && (f & 0x0F == 0 ==> ((f | m) & 0x0F == 0 && (f & !m) & 0x0F == 0))) by (bit_vector)
        requires
            m == 0x80 || m == 0x40 || m == 0x20 || m == 0x10,
    ;
    assert forall|other: CPUFlag| other != flag implies r.with_flag(flag, set).flag(other)
        == r.flag(other) by {
        assert(other.spec_mask() != m);
    }
}

/// A flag register with a zero low nibble is made of its four flags.
pub proof fn lemma_flags_packed(f: u8)
    requires
        f & 0x0F == 0,
    ensures
        f == pack_flags(
            flag_in(f, CPUFlag::Z),
            flag_in(f, CPUFlag::N),
            flag_in(f, CPUFlag::H),
            flag_in(f, CPUFlag::C),
        ),
        forall|z: bool, n: bool, h: bool, c: bool| #[trigger]
            pack_flags(z, n, h, c) & 0x0F == 0,
{
    assert(f == (if f & 0x80 != 0 {
        0x80u8
    } else {
        0u8
    }) + (if f & 0x40 != 0 {
        0x40u8
    } else {
        0u8
    }) + (if f & 0x20 != 0 {
        0x20u8
    } else {
        0u8
    }) + (if f & 0x10 != 0 {
        0x10u8
    } else {
        0u8
    })) by (bit_vector)
        requires
            f & 0x0F == 0,
    ;
    assert forall|z: bool, n: bool, h: bool, c: bool| #[trigger]
        pack_flags(z, n, h, c) & 0x0F == 0 by {
        let p = pack_flags(z, n, h, c);
        assert(p % 16 == 0);
        lemma_nibbles(p);
    }
}

/// Each flag of a packed flag register is the value that was packed, and
/// its low nibble is zero.
pub proof fn lemma_packed_flags(z: bool, n: bool, h: bool, c: bool)
    ensures
        pack_flags(z, n, h, c) & 0x0F == 0,
        flag_in(pack_flags(z, n, h, c), CPUFlag::Z) == z,
        flag_in(pack_flags(z, n, h, c), CPUFlag::N) == n,
        flag_in(pack_flags(z, n, h, c), CPUFlag::H) == h,
        flag_in(pack_flags(z, n, h, c), CPUFlag::C) == c,
{
    let f = pack_flags(z, n, h, c);
    assert((f >= 0x80 <==> f & 0x80 != 0) && (f % 0x80 >= 0x40 <==> f & 0x40 != 0) && (f % 0x40
        >= 0x20 <==> f & 0x20 != 0) && (f % 0x20 >= 0x10 <==> f & 0x10 != 0)) by (bit_vector);
    lemma_nibbles(f);
}

/// A flag that is set and then cleared reads as clear, whatever the
/// register file held before; the other flags keep their values throughout.
pub proof fn lemma_set_then_clear(r: Registers, flag: CPUFlag)
    ensures
        r.with_flag(flag, true).flag(flag),
        !r.with_flag(flag, true).with_flag(flag, false).flag(flag),
        forall|other: CPUFlag|
            other != flag ==> r.with_flag(flag, true).with_flag(flag, false).flag(other) == r.flag(
                other,
            ),
{
    lemma_flag_update(r, flag, true);
    lemma_flag_update(r.with_flag(flag, true), flag, false);
}

/// Reading `AF` back after a write gives the written value with the low
/// nibble cleared.
pub proof fn lemma_write_af_then_read(r: Registers, value: u16)
    ensures
        r.with_af(value).spec_af() == value & 0xFFF0,
        r.with_af(value).wf(),
{
    lemma_nibbles(low_byte(value));
    assert((value / 256) * 256 + ((((value % 256) as u8) & 0xF0) as u16) == value & 0xFFF0)
        by (bit_vector);
}

/// Reading `BC`, `DE` or `HL` back after a write gives the written value.
pub proof fn lemma_write_pair_then_read(r: Registers, value: u16)
    ensures
        r.with_bc(value).spec_bc() == value,
        r.with_de(value).spec_de() == value,
        r.with_hl(value).spec_hl() == value,
{
    lemma_split(value);
}

} // verus!
