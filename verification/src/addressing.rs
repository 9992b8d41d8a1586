//! Addressing modes: how an instruction's operand address is found.

use vstd::prelude::*;

verus! {

/// The scheme by which an instruction finds its operand.
#[derive(Clone, Copy, Debug, PartialEq, Eq, Structural)]
#[allow(non_camel_case_types)]
pub enum AddressingMode {
    Immediate,
    ZeroPage,
    ZeroPage_X,
    ZeroPage_Y,
    Absolute,
    Absolute_X,
    Absolute_Y,
    Indirect_X,
    Indirect_Y,
    NoneAddressing,
}

impl AddressingMode {
    /// Number of operand bytes that follow the opcode under this mode.
    pub open spec fn spec_operand_width(self) -> u8 {
        match self {
            AddressingMode::NoneAddressing => 0,
            AddressingMode::Absolute | AddressingMode::Absolute_X | AddressingMode::Absolute_Y => 2,
            _ => 1,
        }
    }

    #[verifier::when_used_as_spec(spec_operand_width)]
    pub fn operand_width(self) -> (r: u8)
        ensures
            r == self.spec_operand_width(),
    {
        match self {
            AddressingMode::NoneAddressing => 0,
            AddressingMode::Absolute | AddressingMode::Absolute_X | AddressingMode::Absolute_Y => 2,
            _ => 1,
        }
    }
}

} // verus!
