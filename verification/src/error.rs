//! The ways in which decoding or executing an instruction can fail.

use vstd::prelude::*;

verus! {

/// A fatal failure of the instruction stream. None is recovered from inside
/// the processor; each is handed to the caller.
#[derive(Clone, Copy, Debug, PartialEq, Eq, Structural)]
pub enum CpuError {
    /// The fetched byte has no entry in the opcode table. `pc` is the
    /// address the byte was fetched from.
    UnrecognizedOpcode { code: u8, pc: u16 },
    /// The opcode or its addressing mode is known but has no behaviour yet.
    UnimplementedOpcode,
    /// An operand address was asked for under the mode that has none.
    InvalidAddressingUse,
}

} // verus!
