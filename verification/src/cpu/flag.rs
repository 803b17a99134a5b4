//! The processor status register `P`, a byte of named bits.

use vstd::prelude::*;

verus! {

/// Carry out of bit 7, or no borrow; the bit a shift moves out.
pub const CARRY: u8 = 0x01;

/// The last result was zero.
pub const ZERO: u8 = 0x02;

/// Maskable interrupts are ignored.
pub const INTERRUPT_DISABLE: u8 = 0x04;

/// Decimal arithmetic was asked for.
pub const DECIMAL_MODE: u8 = 0x08;

/// Set only in a copy of `P` on the stack, by `BRK` and `PHP`.
pub const BREAK_COMMAND: u8 = 0x10;

/// Reads as one in every copy of `P` on the stack.
pub const UNUSED: u8 = 0x20;

/// Signed overflow of the last addition or subtraction; bit 6 of what `BIT` tested.
pub const OVERFLOW: u8 = 0x40;

/// Bit 7 of the last result.
pub const NEGATIVE: u8 = 0x80;

/// A set of status flags, packed as the hardware packs them: flag `n` of the
/// table above is bit `n` of `bits`.
#[derive(Clone, Copy, Debug, PartialEq, Eq, Structural)]
pub struct Flag {
    pub bits: u8,
}

impl Flag {
    /// The Carry flag alone.
    #[verifier::allow_in_spec]
    pub fn carry() -> Flag
        returns
            (Flag { bits: CARRY }),
    {
        Flag { bits: CARRY }
    }

    /// The Zero flag alone.
    #[verifier::allow_in_spec]
    pub fn zero() -> Flag
        returns
            (Flag { bits: ZERO }),
    {
        Flag { bits: ZERO }
    }

    /// The Interrupt-disable flag alone.
    #[verifier::allow_in_spec]
    pub fn interrupt_disable() -> Flag
        returns
            (Flag { bits: INTERRUPT_DISABLE }),
    {
        Flag { bits: INTERRUPT_DISABLE }
    }

    /// The Decimal flag alone.
    #[verifier::allow_in_spec]
    pub fn decimal_mode() -> Flag
        returns
            (Flag { bits: DECIMAL_MODE }),
    {
        Flag { bits: DECIMAL_MODE }
    }

    /// The Break flag alone.
    #[verifier::allow_in_spec]
    pub fn break_command() -> Flag
        returns
            (Flag { bits: BREAK_COMMAND }),
    {
        Flag { bits: BREAK_COMMAND }
    }

    /// The Unused flag alone.
    #[verifier::allow_in_spec]
    pub fn unused() -> Flag
        returns
            (Flag { bits: UNUSED }),
    {
        Flag { bits: UNUSED }
    }

    /// The Overflow flag alone.
    #[verifier::allow_in_spec]
    pub fn overflow() -> Flag
        returns
            (Flag { bits: OVERFLOW }),
    {
        Flag { bits: OVERFLOW }
    }

    /// The Negative flag alone.
    #[verifier::allow_in_spec]
    pub fn negative() -> Flag
        returns
            (Flag { bits: NEGATIVE }),
    {
        Flag { bits: NEGATIVE }
    }

    /// The set without a flag in it.
    #[verifier::allow_in_spec]
    pub fn empty() -> Flag
        returns
            (Flag { bits: 0 }),
    {
        Flag { bits: 0 }
    }

    /// The set of all eight flags.
    #[verifier::allow_in_spec]
    pub fn all() -> Flag
        returns
            (Flag { bits: 0xFF }),
    {
        Flag { bits: 0xFF }
    }

    /// The set as the byte the stack holds.
    #[verifier::allow_in_spec]
    pub fn bits(&self) -> u8
        returns
            self.bits,
    {
        self.bits
    }

    /// The set a byte stands for.  All eight bits name a flag, so none is
    /// dropped.
    #[verifier::allow_in_spec]
    pub fn from_bits_truncate(bits: u8) -> Flag
        returns
            (Flag { bits }),
    {
        Flag { bits }
    }

    /// Whether no flag is in this set.
    #[verifier::allow_in_spec]
    pub fn is_empty(&self) -> bool
        returns
            self.bits == 0,
    {
        self.bits == 0
    }

    /// Whether every flag of `other` is in this set.
    #[verifier::allow_in_spec]
    pub fn contains(&self, other: Flag) -> bool
        returns
            self.bits & other.bits == other.bits,
    {
        self.bits & other.bits == other.bits
    }

    /// The flags that are in this set or in `other`.
    #[verifier::allow_in_spec]
    pub fn union(self, other: Flag) -> Flag
        returns
            (Flag { bits: self.bits | other.bits }),
    {
        Flag { bits: self.bits | other.bits }
    }

    /// The flags of this set that are not in `other`.
    #[verifier::allow_in_spec]
    pub fn difference(self, other: Flag) -> Flag
        returns
            (Flag { bits: self.bits & !other.bits }),
    {
        Flag { bits: self.bits & !other.bits }
    }

    /// This set with the flags of `other` put in if `on`, taken out if not.
    pub open spec fn with(self, other: Flag, on: bool) -> Flag {
        if on {
            self.union(other)
        } else {
            self.difference(other)
        }
    }

    /// This set after a result `value`: Zero says whether `value` is zero,
    /// Negative whether its bit 7 is set.
    pub open spec fn with_nz(self, value: u8) -> Flag {
        self.with(Flag::zero(), value == 0).with(Flag::negative(), value >= 0x80)
    }

    /// Puts the flags of `other` in.
    pub fn insert(&mut self, other: Flag)
        ensures
            *final(self) == old(self).union(other),
    {
        self.bits = self.bits | other.bits;
    }

    /// Takes the flags of `other` out.
    pub fn remove(&mut self, other: Flag)
        ensures
            *final(self) == old(self).difference(other),
    {
        self.bits = self.bits & !other.bits;
    }

    /// Puts the flags of `other` in if `on`, takes them out if not.
    pub fn set(&mut self, other: Flag, on: bool)
        ensures
            *final(self) == old(self).with(other, on),
    {
        if on {
            self.insert(other);
        } else {
            self.remove(other);
        }
    }

    /// Takes every flag out.
    pub fn clear(&mut self)
        ensures
            *final(self) == Flag::empty(),
    {
        self.bits = 0;
    }

    /// Records a result: see [`Flag::with_nz`].
    pub fn set_nz(&mut self, value: u8)
        ensures
            *final(self) == old(self).with_nz(value),
    {
        self.set(Flag::zero(), value == 0);
        self.set(Flag::negative(), value >= 0x80);
    }
}

impl core::ops::BitOr for Flag {
    type Output = Flag;

    fn bitor(self, rhs: Flag) -> (union: Flag) {
        Flag { bits: self.bits | rhs.bits }
    }
}

impl vstd::std_specs::ops::BitOrSpecImpl for Flag {
    open spec fn obeys_bitor_spec() -> bool {
        true
    }

    open spec fn bitor_req(self, rhs: Flag) -> bool {
        true
    }

    open spec fn bitor_spec(self, rhs: Flag) -> Flag {
        self.union(rhs)
    }
}

/// A flag that was put in is in, one that was taken out is not.
pub proof fn lemma_with_same(flags: Flag, flag: Flag, on: bool)
    requires
        flag.bits != 0,
    ensures
        flags.with(flag, on).contains(flag) == on,
{
    let p = flags.bits;
    let m = flag.bits;
    assert((p | m) & m == m) by (bit_vector);
    assert(m != 0 ==> (p & !m) & m != m) by (bit_vector);
}

/// Changing one flag leaves a flag that shares no bit with it as it was.
pub proof fn lemma_with_other(flags: Flag, flag: Flag, on: bool, other: Flag)
    requires
        flag.bits & other.bits == 0,
    ensures
        flags.with(flag, on).contains(other) == flags.contains(other),
{
    let p = flags.bits;
    let m = flag.bits;
    let o = other.bits;
    assert(m & o == 0 ==> (p | m) & o == p & o) by (bit_vector);
    assert(m & o == 0 ==> (p & !m) & o == p & o) by (bit_vector);
}

} // verus!
