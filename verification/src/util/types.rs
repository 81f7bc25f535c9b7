use vstd::prelude::*;

verus! {

/// A location in the 64 KiB address space.
pub type Address = u16;

/// One byte.
pub type Byte = u8;

/// Two bytes, low byte first in memory.
pub type Word = u16;

} // verus!
