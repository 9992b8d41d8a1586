//! The processor status byte and its eight named flags.

use vstd::prelude::*;

verus! {

/// Status byte right after power-on: Break-B and Interrupt-Disable set.
pub const POWER_ON_STATUS: u8 = 0b0010_0100;

/// One of the eight flags packed into the status byte.
#[derive(Clone, Copy, Debug, PartialEq, Eq, Structural)]
pub enum Flag {
    Carry,
    Zero,
    InterruptDisable,
    DecimalMode,
    BreakA,
    BreakB,
    Overflow,
    Negative,
}

impl Flag {
    /// The bit that the flag occupies in the status byte.
    pub open spec fn spec_mask(self) -> u8 {
        match self {
            Flag::Carry => 0b0000_0001,
            Flag::Zero => 0b0000_0010,
            Flag::InterruptDisable => 0b0000_0100,
            Flag::DecimalMode => 0b0000_1000,
            Flag::BreakA => 0b0001_0000,
            Flag::BreakB => 0b0010_0000,
            Flag::Overflow => 0b0100_0000,
            Flag::Negative => 0b1000_0000,
        }
    }

    #[verifier::when_used_as_spec(spec_mask)]
    pub fn mask(self) -> (r: u8)
        ensures
            r == self.spec_mask(),
    {
        match self {
            Flag::Carry => 0b0000_0001,
            Flag::Zero => 0b0000_0010,
            Flag::InterruptDisable => 0b0000_0100,
            Flag::DecimalMode => 0b0000_1000,
            Flag::BreakA => 0b0001_0000,
            Flag::BreakB => 0b0010_0000,
            Flag::Overflow => 0b0100_0000,
            Flag::Negative => 0b1000_0000,
        }
    }
}

/// Whether `flag` is set in the status byte `bits`.
pub open spec fn flag_set(bits: u8, flag: Flag) -> bool {
    bits & flag.spec_mask() == flag.spec_mask()
}

/// The status byte `bits` with Zero and Negative recomputed from `result`
/// and the six other flags kept.
pub open spec fn with_zero_negative(bits: u8, result: u8) -> u8 {
    (bits & 0b0111_1101u8) | (if result == 0 {
        0b0000_0010u8
    } else {
        0u8
    }) | (if result >= 0x80 {
        0b1000_0000u8
    } else {
        0u8
    })
}

/// Recomputing Zero and Negative from a result byte sets Zero exactly when
/// the byte is zero, sets Negative exactly when its high bit is one, and
/// leaves every other flag as it was.
pub proof fn lemma_zero_negative_flags(bits: u8, result: u8, flag: Flag)
    ensures
        flag_set(with_zero_negative(bits, result), Flag::Zero) <==> result == 0,
        flag_set(with_zero_negative(bits, result), Flag::Negative) <==> result >= 0x80,
        flag != Flag::Zero && flag != Flag::Negative ==> (flag_set(
            with_zero_negative(bits, result),
            flag,
        ) <==> flag_set(bits, flag)),
{
    let zero: u8 = if result == 0 { 0x02u8 } else { 0u8 };
    let negative: u8 = if result >= 0x80 { 0x80u8 } else { 0u8 };
    let kept: u8 = bits & 0x7Du8;
    let after: u8 = kept | zero | negative;
    let m: u8 = flag.spec_mask();
    assert(kept == bits & 0x7Du8 && after == kept | zero | negative && (zero == 0 || zero == 0x02)
        && (negative == 0 || negative == 0x80) ==> {
        &&& (after & 0x02 == 0x02 <==> zero == 0x02)
        &&& (after & 0x80 == 0x80 <==> negative == 0x80)
        &&& (m == 0x01 || m == 0x04 || m == 0x08 || m == 0x10 || m == 0x20 || m == 0x40) ==> (after
            & m == m <==> bits & m == m)
    }) by (bit_vector);
}

/// The status register: a byte whose bits are the eight flags.
#[derive(Clone, Copy, Debug, PartialEq, Eq, Structural)]
pub struct StatusRegister {
    bits: u8,
}

impl StatusRegister {
    /// The raw status byte.
    pub closed spec fn view(&self) -> u8 {
        self.bits
    }

    /// Whether `flag` is set.
    pub open spec fn has(&self, flag: Flag) -> bool {
        flag_set(self@, flag)
    }

    /// The register with no flag set.
    pub fn empty() -> (r: StatusRegister)
        ensures
            r@ == 0,
    {
        StatusRegister { bits: 0 }
    }

    /// The register holding exactly `bits`; all eight bits are named flags,
    /// so none is dropped.
    pub fn from_bits_truncate(bits: u8) -> (r: StatusRegister)
        ensures
            r@ == bits,
    {
        StatusRegister { bits }
    }

    pub fn bits(&self) -> (r: u8)
        ensures
            r == self@,
    {
        self.bits
    }

    pub fn contains(&self, flag: Flag) -> (r: bool)
        ensures
            r == self.has(flag),
    {
        let m: u8 = flag.mask();
        self.bits & m == m
    }

    /// Sets `flag` and keeps the others.
    pub fn insert(&mut self, flag: Flag)
        ensures
            final(self)@ == old(self)@ | flag.spec_mask(),
    {
        self.bits = self.bits | flag.mask();
    }

    /// Clears `flag` and keeps the others.
    pub fn remove(&mut self, flag: Flag)
        ensures
            final(self)@ == old(self)@ & !flag.spec_mask(),
    {
        self.bits = self.bits & !flag.mask();
    }

    /// Recomputes Zero and Negative from an 8-bit result.
    pub fn update_zero_and_negative(&mut self, result: u8)
        ensures
            final(self)@ == with_zero_negative(old(self)@, result),
            final(self).has(Flag::Zero) <==> result == 0,
            final(self).has(Flag::Negative) <==> result >= 0x80,
    {
        let ghost before: u8 = self.bits;
        if result == 0 {
            self.insert(Flag::Zero);
        } else {
            self.remove(Flag::Zero);
        }
        if result >> 7 == 1 {
            self.insert(Flag::Negative);
        } else {
            self.remove(Flag::Negative);
        }
        proof {
            assert((result >> 7u8 == 1u8) <==> result >= 0x80u8) by (bit_vector);
            assert({
                &&& (before | 0x02u8) | 0x80u8 == (before & 0x7Du8) | 0x02u8 | 0x80u8
                &&& (before | 0x02u8) & !0x80u8 == (before & 0x7Du8) | 0x02u8 | 0u8
                &&& (before & !0x02u8) | 0x80u8 == (before & 0x7Du8) | 0u8 | 0x80u8
                &&& (before & !0x02u8) & !0x80u8 == (before & 0x7Du8) | 0u8 | 0u8
            }) by (bit_vector);
            lemma_zero_negative_flags(before, result, Flag::Zero);
        }
    }
}

} // verus!
