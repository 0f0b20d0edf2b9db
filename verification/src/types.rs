//! Shared scalar type names for the console core.

use vstd::prelude::*;

verus! {

/// A 16-bit address on the CPU bus.
pub type Addr = u16;

/// One byte of data as moved over the bus.
pub type Data = u8;

/// A 16-bit quantity: a resolved operand or a full address.
pub type Word = u16;

} // verus!
