//! Opcode descriptors and the table that maps an opcode byte to its
//! descriptor. The processor only reads the table.

use std::collections::HashMap;
use crate::addressing::AddressingMode;
use vstd::prelude::*;

verus! {

broadcast use vstd::std_specs::hash::group_hash_axioms;

/// What the table records for one opcode byte.
#[derive(Clone, Copy, Debug)]
pub struct OpCode {
    pub code: u8,
    pub mnemonic: &'static str,
    /// Length of the whole instruction in bytes, opcode included.
    pub len: u8,
    pub cycles: u8,
    pub mode: AddressingMode,
}

impl OpCode {
    pub fn new(code: u8, mnemonic: &'static str, len: u8, cycles: u8, mode: AddressingMode) -> (r:
        OpCode)
        ensures
            r == (OpCode { code, mnemonic, len, cycles, mode }),
    {
        OpCode { code, mnemonic, len, cycles, mode }
    }
}

/// The instructions that have behaviour.
#[derive(Clone, Copy, Debug, PartialEq, Eq, Structural)]
pub enum Instruction {
    /// Load the accumulator.
    Lda,
    /// Load index X.
    Ldx,
    /// Load index Y.
    Ldy,
    /// Store the accumulator.
    Sta,
    /// Copy the accumulator to index X.
    Tax,
    /// Halt.
    Brk,
}

/// The instruction that an opcode byte selects, if it has behaviour. Opcode
/// bytes that differ only in addressing mode select the same instruction.
pub open spec fn spec_decode(code: u8) -> Option<Instruction> {
    if code == 0x00 {
        Some(Instruction::Brk)
    } else if code == 0xAA {
        Some(Instruction::Tax)
    } else if code == 0xA9 || code == 0xA5 || code == 0xB5 || code == 0xAD || code == 0xBD || code
        == 0xB9 || code == 0xA1 || code == 0xB1 {
        Some(Instruction::Lda)
    } else if code == 0xA2 || code == 0xA6 || code == 0xB6 || code == 0xAE || code == 0xBE {
        Some(Instruction::Ldx)
    } else if code == 0xA0 || code == 0xA4 || code == 0xB4 || code == 0xAC || code == 0xBC {
        Some(Instruction::Ldy)
    } else if code == 0x85 || code == 0x95 || code == 0x8D || code == 0x9D || code == 0x99 || code
        == 0x81 || code == 0x91 {
        Some(Instruction::Sta)
    } else {
        None
    }
}

#[verifier::when_used_as_spec(spec_decode)]
pub fn decode(code: u8) -> (r: Option<Instruction>)
    ensures
        r == spec_decode(code),
{
    match code {
        0x00 => Some(Instruction::Brk),
        0xAA => Some(Instruction::Tax),
        0xA9 | 0xA5 | 0xB5 | 0xAD | 0xBD | 0xB9 | 0xA1 | 0xB1 => Some(Instruction::Lda),
        0xA2 | 0xA6 | 0xB6 | 0xAE | 0xBE => Some(Instruction::Ldx),
        0xA0 | 0xA4 | 0xB4 | 0xAC | 0xBC => Some(Instruction::Ldy),
        0x85 | 0x95 | 0x8D | 0x9D | 0x99 | 0x81 | 0x91 => Some(Instruction::Sta),
        _ => None,
    }
}

/// A lookup from opcode byte to descriptor.
pub struct OpcodeTable {
    entries: HashMap<u8, OpCode>,
}

impl OpcodeTable {
    /// The table as a map from opcode byte to descriptor.
    pub closed spec fn view(&self) -> Map<u8, OpCode> {
        self.entries@
    }

    /// The table with no entry.
    pub fn new() -> (r: OpcodeTable)
        ensures
            r@ == Map::<u8, OpCode>::empty(),
    {
        OpcodeTable { entries: HashMap::new() }
    }

    /// Files `op` under its own opcode byte, in place of any entry that was
    /// there.
    pub fn insert(&mut self, op: OpCode)
        ensures
            final(self)@ == old(self)@.insert(op.code, op),
    {
        self.entries.insert(op.code, op);
    }

    /// The descriptor filed under `code`, if there is one.
    pub fn lookup(&self, code: u8) -> (r: Option<OpCode>)
        ensures
            r == (if self@.contains_key(code) {
                Some(self@[code])
            } else {
                None
            }),
    {
        match self.entries.get(&code) {
            Some(op) => Some(*op),
            None => None,
        }
    }
}

} // verus!
