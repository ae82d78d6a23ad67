//! The five interrupt sources, their priority and their service vectors.

use vstd::prelude::*;

verus! {

/// An interrupt source. The sources are listed from the highest priority
/// to the lowest.
#[derive(Debug, Clone, Copy, PartialEq, Eq, Structural)]
pub enum Interrupt {
    VBlank,
    LCDStatus,
    TimeOverflow,
    SerialLink,
    JoypadPress,
}

/// Whether bit `index` of `value` is set.
pub open spec fn bit_is_set(value: u8, index: u8) -> bool {
    (value >> index) & 1 == 1
}

impl Interrupt {
    /// The bit that the source has in the enable and flag registers.
    pub open spec fn spec_index(&self) -> u8 {
        match self {
            Interrupt::VBlank => 0,
            Interrupt::LCDStatus => 1,
            Interrupt::TimeOverflow => 2,
            Interrupt::SerialLink => 3,
            Interrupt::JoypadPress => 4,
        }
    }

    /// The address at which the source is serviced.
    pub open spec fn spec_vector(&self) -> u16 {
        match self {
            Interrupt::VBlank => 0x0040,
            Interrupt::LCDStatus => 0x0048,
            Interrupt::TimeOverflow => 0x0050,
            Interrupt::SerialLink => 0x0058,
            Interrupt::JoypadPress => 0x0060,
        }
    }

    /// The source with the highest priority among those whose bit is set
    /// in `value`.
    pub open spec fn lowest(value: u8) -> Option<Interrupt> {
        if bit_is_set(value, 0) {
            Some(Interrupt::VBlank)
        } else if bit_is_set(value, 1) {
            Some(Interrupt::LCDStatus)
        } else if bit_is_set(value, 2) {
            Some(Interrupt::TimeOverflow)
        } else if bit_is_set(value, 3) {
            Some(Interrupt::SerialLink)
        } else if bit_is_set(value, 4) {
            Some(Interrupt::JoypadPress)
        } else {
            None
        }
    }

    /// The source of the lowest bit set among bits 0 to 4 of `value`, if
    /// one of them is set.
    pub fn first_from(value: u8) -> (first: Option<Interrupt>)
        ensures
            first == Interrupt::lowest(value),
            match first {
                Some(source) => bit_is_set(value, source.spec_index()) && forall|lower: u8|
                    lower < source.spec_index() ==> !bit_is_set(value, lower),
                None => forall|index: u8| index < 5 ==> !bit_is_set(value, index),
            },
    {
        assert(value >> 0u8 == value) by (bit_vector);
        if value & 1 == 1 {
            Some(Self::VBlank)
        } else if value >> 1u8 & 1 == 1 {
            Some(Self::LCDStatus)
        } else if value >> 2u8 & 1 == 1 {
            Some(Self::TimeOverflow)
        } else if value >> 3u8 & 1 == 1 {
            Some(Self::SerialLink)
        } else if value >> 4u8 & 1 == 1 {
            Some(Self::JoypadPress)
        } else {
            None
        }
    }

    #[verifier::when_used_as_spec(spec_index)]
    pub fn get_index(&self) -> (index: u8)
        ensures
            index == self.spec_index(),
            index < 5,
    {
        match &self {
            Interrupt::VBlank => 0,
            Interrupt::LCDStatus => 1,
            Interrupt::TimeOverflow => 2,
            Interrupt::SerialLink => 3,
            Interrupt::JoypadPress => 4,
        }
    }

    #[verifier::when_used_as_spec(spec_vector)]
    pub fn vector(&self) -> (address: u16)
        ensures
            address == self.spec_vector(),
            address == 0x0040 + 8 * self.spec_index(),
    {
        match &self {
            Interrupt::VBlank => 0x0040,
            Interrupt::LCDStatus => 0x0048,
            Interrupt::TimeOverflow => 0x0050,
            Interrupt::SerialLink => 0x0058,
            Interrupt::JoypadPress => 0x0060,
        }
    }
}

/// `flags` with the bit of `source` set.
pub open spec fn raised(flags: u8, source: Interrupt) -> u8 {
    flags | (1u8 << source.spec_index())
}

/// `flags` with the bit of `source` cleared.
pub open spec fn cleared(flags: u8, source: Interrupt) -> u8 {
    flags & !(1u8 << source.spec_index())
}

/// Raising a source sets its bit, clearing it clears the bit, and neither
/// touches another bit.
pub proof fn lemma_raise_and_clear(flags: u8, source: Interrupt)
    ensures
        bit_is_set(raised(flags, source), source.spec_index()),
        !bit_is_set(cleared(flags, source), source.spec_index()),
        forall|other: u8|
            other < 8 && other != source.spec_index() ==> bit_is_set(raised(flags, source), other)
                == bit_is_set(flags, other) && bit_is_set(cleared(flags, source), other)
                == bit_is_set(flags, other),
{
    let i = source.spec_index();
    assert(((flags | (1u8 << i)) >> i) & 1 == 1 && ((flags & !(1u8 << i)) >> i) & 1 == 0) by (bit_vector)
        requires
            i < 5,
    ;
    assert forall|other: u8| other < 8 && other != i implies bit_is_set(raised(flags, source), other)
        == bit_is_set(flags, other) && bit_is_set(cleared(flags, source), other) == bit_is_set(
        flags,
        other,
    ) by {
        assert(((flags | (1u8 << i)) >> other) & 1 == (flags >> other) & 1 && ((flags & !(1u8 << i))
            >> other) & 1 == (flags >> other) & 1) by (bit_vector)
            requires
                i < 5,
                other < 8,
                other != i,
        ;
    }
}

} // verus!
