//! The status word: one byte whose bits are eight independent flags.

use vstd::prelude::*;
use crate::util::types::Byte;

verus! {

/// The flags, from bit 0 of the status word to bit 7.
#[derive(Clone, Copy, Debug, PartialEq, Eq, Structural)]
pub enum Flag {
    Carry,
    Zero,
    /// Interrupt disable.
    Interrupt,
    Decimal,
    Break,
    Unused,
    Overflow,
    Negative,
}

impl Flag {
    /// The bit of the status word that holds this flag.
    pub open spec fn spec_mask(self) -> Byte {
        match self {
            Flag::Carry => 0b0000_0001,
            Flag::Zero => 0b0000_0010,
            Flag::Interrupt => 0b0000_0100,
            Flag::Decimal => 0b0000_1000,
            Flag::Break => 0b0001_0000,
            Flag::Unused => 0b0010_0000,
            Flag::Overflow => 0b0100_0000,
            Flag::Negative => 0b1000_0000,
        }
    }

    /// The bit of the status word that holds this flag.
    #[verifier::when_used_as_spec(spec_mask)]
    pub fn mask(self) -> (mask: Byte)
        ensures
            mask == self.spec_mask(),
    {
        match self {
            Flag::Carry => 0b0000_0001,
            Flag::Zero => 0b0000_0010,
            Flag::Interrupt => 0b0000_0100,
            Flag::Decimal => 0b0000_1000,
            Flag::Break => 0b0001_0000,
            Flag::Unused => 0b0010_0000,
            Flag::Overflow => 0b0100_0000,
            Flag::Negative => 0b1000_0000,
        }
    }
}

impl From<Flag> for Byte {
    /// The bit of the status word that holds `flag`.
    fn from(flag: Flag) -> (mask: Byte) {
        flag.mask()
    }
}

impl vstd::std_specs::convert::FromSpecImpl<Flag> for Byte {
    open spec fn obeys_from_spec() -> bool {
        true
    }

    open spec fn from_spec(flag: Flag) -> Byte {
        flag.mask()
    }
}

/// Whether `flag` is set in `status`.
pub open spec fn flag_of(status: Byte, flag: Flag) -> bool {
    status & flag.mask() != 0
}

/// `status` with `flag` set to `value` and every other bit as it was.
pub open spec fn with_flag(status: Byte, flag: Flag, value: bool) -> Byte {
    if value {
        status | flag.mask()
    } else {
        status & !flag.mask()
    }
}

/// Setting or clearing one bit of a byte shows in that bit and in no other.
proof fn lemma_single_bit(status: Byte, changed: Byte, other: Byte)
    by (bit_vector)
    requires
        changed == 1 || changed == 2 || changed == 4 || changed == 8 || changed == 16 || changed
            == 32 || changed == 64 || changed == 128,
        other == 1 || other == 2 || other == 4 || other == 8 || other == 16 || other == 32
            || other == 64 || other == 128,
        changed != other,
    ensures
        (status | changed) & changed != 0,
        (status & !changed) & changed == 0,
        ((status | changed) & other != 0) == (status & other != 0),
        ((status & !changed) & other != 0) == (status & other != 0),
{
}

/// A flag reads back as it was last written.
pub proof fn lemma_flag_written(status: Byte, flag: Flag, value: bool)
    ensures
        flag_of(with_flag(status, flag, value), flag) == value,
{
    let other = if flag == Flag::Carry {
        Flag::Zero
    } else {
        Flag::Carry
    };
    lemma_single_bit(status, flag.mask(), other.mask());
}

/// Flag independence: writing one flag, to either value, leaves the reading
/// of every other flag as it was.
pub proof fn lemma_flag_independence(status: Byte, written: Flag, value: bool, read: Flag)
    requires
        read != written,
    ensures
        flag_of(with_flag(status, written, value), read) == flag_of(status, read),
{
    lemma_single_bit(status, written.mask(), read.mask());
}

} // verus!
