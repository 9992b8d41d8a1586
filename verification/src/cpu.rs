//! The processor: its register file, its model as a mathematical state, and
//! the fetch-decode-execute cycle over that state.

pub use crate::addressing::AddressingMode;
use crate::error::CpuError;
use crate::memory::{lemma_word_round_trip, read_word, write_word, Memory};
use crate::opcodes::{decode, spec_decode, Instruction, OpCode, OpcodeTable};
pub use crate::status::StatusRegister;
use crate::status::{with_zero_negative, Flag, POWER_ON_STATUS};
use vstd::prelude::*;

verus! {

/// Address at which a program image is placed.
pub const PROGRAM_ORIGIN: u16 = 0x8000;

/// Address of the little-endian word that `reset` takes the program counter
/// from.
pub const RESET_VECTOR: u16 = 0xFFFC;

/// Stack pointer right after power-on.
pub const STACK_RESET: u8 = 0xFD;

/// The machine as a mathematical value: registers, status byte, and the
/// 65536 memory cells in address order.
pub struct CpuState {
    pub a: u8,
    pub x: u8,
    pub y: u8,
    pub status: u8,
    pub pc: u16,
    pub sp: u8,
    pub mem: Seq<u8>,
}

/// Whether the machine can go on after an instruction.
#[derive(Clone, Copy, Debug, PartialEq, Eq, Structural)]
pub enum Progress {
    /// An instruction was executed, or none was asked for; the next one can
    /// be fetched.
    Running,
    /// The break opcode was decoded.
    Halted,
}

/// `i` reduced to eight bits.
pub open spec fn wrap8(i: int) -> u8 {
    (i % 256) as u8
}

/// `i` reduced to sixteen bits.
pub open spec fn wrap16(i: int) -> u16 {
    (i % 65536) as u16
}

/// The operand address that `mode` yields when the program counter stands on
/// the first operand byte, or the error with which the mode is refused.
pub open spec fn operand_address(s: CpuState, mode: AddressingMode) -> Result<u16, CpuError> {
    match mode {
        AddressingMode::Immediate => Ok(s.pc),
        AddressingMode::ZeroPage => Ok(s.mem[s.pc as int] as u16),
        AddressingMode::ZeroPage_X => Ok(wrap8(s.mem[s.pc as int] + s.x) as u16),
        AddressingMode::ZeroPage_Y => Ok(wrap8(s.mem[s.pc as int] + s.y) as u16),
        AddressingMode::Absolute => Ok(read_word(s.mem, s.pc)),
        AddressingMode::Absolute_X => Ok(wrap16(read_word(s.mem, s.pc) + s.x)),
        AddressingMode::Absolute_Y => Ok(wrap16(read_word(s.mem, s.pc) + s.y)),
        AddressingMode::Indirect_X => Err(CpuError::UnimplementedOpcode),
        AddressingMode::Indirect_Y => Err(CpuError::UnimplementedOpcode),
        AddressingMode::NoneAddressing => Err(CpuError::InvalidAddressingUse),
    }
}

/// `s` with Zero and Negative recomputed from `result`.
pub open spec fn flags_from(s: CpuState, result: u8) -> CpuState {
    CpuState { status: with_zero_negative(s.status, result), ..s }
}

/// `s` after the accumulator is loaded from `addr`.
pub open spec fn load_a(s: CpuState, addr: u16) -> CpuState {
    flags_from(CpuState { a: s.mem[addr as int], ..s }, s.mem[addr as int])
}

/// `s` after index X is loaded from `addr`.
pub open spec fn load_x(s: CpuState, addr: u16) -> CpuState {
    flags_from(CpuState { x: s.mem[addr as int], ..s }, s.mem[addr as int])
}

/// `s` after index Y is loaded from `addr`.
pub open spec fn load_y(s: CpuState, addr: u16) -> CpuState {
    flags_from(CpuState { y: s.mem[addr as int], ..s }, s.mem[addr as int])
}

/// `s` after the accumulator is stored at `addr`; no flag changes.
pub open spec fn store_a(s: CpuState, addr: u16) -> CpuState {
    CpuState { mem: s.mem.update(addr as int, s.a), ..s }
}

/// `s` after the accumulator is copied to index X.
pub open spec fn transfer_a_to_x(s: CpuState) -> CpuState {
    flags_from(CpuState { x: s.a, ..s }, s.a)
}

/// The effect of one instruction on `s`, whose program counter stands just
/// behind the opcode byte. The program counter is not moved here.
pub open spec fn execute(s: CpuState, ins: Instruction, mode: AddressingMode) -> Result<
    CpuState,
    CpuError,
> {
    match ins {
        Instruction::Brk => Ok(s),
        Instruction::Tax => Ok(transfer_a_to_x(s)),
        Instruction::Lda => match operand_address(s, mode) {
            Ok(addr) => Ok(load_a(s, addr)),
            Err(e) => Err(e),
        },
        Instruction::Ldx => match operand_address(s, mode) {
            Ok(addr) => Ok(load_x(s, addr)),
            Err(e) => Err(e),
        },
        Instruction::Ldy => match operand_address(s, mode) {
            Ok(addr) => Ok(load_y(s, addr)),
            Err(e) => Err(e),
        },
        Instruction::Sta => match operand_address(s, mode) {
            Ok(addr) => Ok(store_a(s, addr)),
            Err(e) => Err(e),
        },
    }
}

/// One fetch-decode-execute cycle from `s`: the state it leaves and how it
/// ended.
///
/// The opcode is the byte at the program counter, which then moves on by one.
/// A byte with no table entry is unrecognized; one with an entry but no
/// behaviour is unimplemented; the break opcode halts. In these cases, and
/// when the operand's addressing mode is refused, nothing else changes. An
/// instruction that is carried out leaves the program counter behind its
/// last operand byte, that is, at the fetch address plus the length that the
/// table declares, modulo 65536.
pub open spec fn step_spec(s: CpuState, table: Map<u8, OpCode>) -> (CpuState, Result<
    Progress,
    CpuError,
>) {
    let code = s.mem[s.pc as int];
    let fetched = CpuState { pc: wrap16(s.pc + 1), ..s };
    if !table.contains_key(code) {
        (fetched, Err(CpuError::UnrecognizedOpcode { code, pc: s.pc }))
    } else {
        match spec_decode(code) {
            None => (fetched, Err(CpuError::UnimplementedOpcode)),
            Some(Instruction::Brk) => (fetched, Ok(Progress::Halted)),
            Some(ins) => match execute(fetched, ins, table[code].mode) {
                Err(e) => (fetched, Err(e)),
                Ok(done) => (
                    CpuState { pc: wrap16(done.pc + table[code].len - 1), ..done },
                    Ok(Progress::Running),
                ),
            },
        }
    }
}

/// At most `steps` cycles from `s`, stopping at the first that does not end
/// in `Running`.
pub open spec fn run_spec(s: CpuState, table: Map<u8, OpCode>, steps: nat) -> (CpuState, Result<
    Progress,
    CpuError,
>)
    decreases steps,
{
    if steps == 0 {
        (s, Ok(Progress::Running))
    } else {
        let after = step_spec(s, table);
        if after.1 == Ok::<Progress, CpuError>(Progress::Running) {
            run_spec(after.0, table, (steps - 1) as nat)
        } else {
            after
        }
    }
}

/// Running out of budget loses nothing: a run of `first + second` steps is a
/// run of `first` steps followed, if the machine is still running, by a run
/// of `second` steps from where the first one stopped.
pub proof fn lemma_run_resumes(s: CpuState, table: Map<u8, OpCode>, first: nat, second: nat)
    ensures
        run_spec(s, table, first + second) == (if run_spec(s, table, first).1 == Ok::<
            Progress,
            CpuError,
        >(Progress::Running) {
            run_spec(run_spec(s, table, first).0, table, second)
        } else {
            run_spec(s, table, first)
        }),
    decreases first,
{
    if first > 0 {
        let after = step_spec(s, table);
        if after.1 == Ok::<Progress, CpuError>(Progress::Running) {
            lemma_run_resumes(after.0, table, (first - 1) as nat, second);
        }
    }
}

/// `mem` with `program` copied in from address 0x8000 on.
pub open spec fn load_image(mem: Seq<u8>, program: Seq<u8>) -> Seq<u8> {
    Seq::new(
        65536,
        |i: int|
            if 0x8000 <= i < 0x8000 + program.len() {
                program[i - 0x8000]
            } else {
                mem[i]
            },
    )
}

/// `s` after a reset: registers zero, stack pointer and status at their
/// power-on values, program counter taken from the reset vector, memory kept.
pub open spec fn reset_state(s: CpuState) -> CpuState {
    CpuState {
        a: 0,
        x: 0,
        y: 0,
        status: POWER_ON_STATUS,
        pc: read_word(s.mem, RESET_VECTOR),
        sp: STACK_RESET,
        mem: s.mem,
    }
}

/// The processor with its memory.
pub struct CPU {
    pub a_register: u8,
    pub x_register: u8,
    pub y_register: u8,
    pub status: StatusRegister,
    pub program_counter: u16,
    pub stack_pointer: u8,
    pub memory: Memory,
}

impl CPU {
    /// The memory cells in address order.
    pub open spec fn mem(&self) -> Seq<u8> {
        self.memory@
    }

    pub open spec fn view(&self) -> CpuState {
        CpuState {
            a: self.a_register,
            x: self.x_register,
            y: self.y_register,
            status: self.status@,
            pc: self.program_counter,
            sp: self.stack_pointer,
            mem: self.mem(),
        }
    }

    /// Every processor has exactly 65536 memory cells.
    pub proof fn lemma_memory_size(&self)
        ensures
            self.mem().len() == 65536,
    {
        self.memory.lemma_size();
    }

    /// A processor with zeroed registers and memory and the power-on status.
    pub fn new() -> (r: CPU)
        ensures
            r@ == (CpuState {
                a: 0,
                x: 0,
                y: 0,
                status: POWER_ON_STATUS,
                pc: 0,
                sp: 0,
                mem: Seq::new(65536, |i: int| 0u8),
            }),
    {
        CPU {
            a_register: 0,
            x_register: 0,
            y_register: 0,
            status: StatusRegister::from_bits_truncate(POWER_ON_STATUS),
            program_counter: 0,
            stack_pointer: 0,
            memory: Memory::new(),
        }
    }

    pub fn read_memory(&self, addr: u16) -> (r: u8)
        ensures
            r == self.mem()[addr as int],
    {
        self.memory.read(addr)
    }

    pub fn write_memory(&mut self, addr: u16, data: u8)
        ensures
            final(self)@ == (CpuState { mem: old(self).mem().update(addr as int, data), ..old(self)@ }),
    {
        self.memory.write(addr, data);
    }

    /// The little-endian word at `pos`; the high byte of a word at 0xFFFF is
    /// the byte at 0.
    pub fn read_u16_memory(&self, pos: u16) -> (r: u16)
        ensures
            r == read_word(self.mem(), pos),
    {
        self.memory.read_u16(pos)
    }

    /// Stores `data` little-endian at `pos`; the high byte of a word at
    /// 0xFFFF goes to address 0.
    pub fn write_u16_memory(&mut self, pos: u16, data: u16)
        ensures
            final(self)@ == (CpuState { mem: write_word(old(self).mem(), pos, data), ..old(self)@ }),
            read_word(final(self).mem(), pos) == data,
    {
        proof {
            self.memory.lemma_size();
            lemma_word_round_trip(self.mem(), pos, data);
        }
        self.memory.write_u16(pos, data);
    }

    /// The effective operand address under `mode`, with the program counter
    /// on the first operand byte. Neither the program counter nor anything
    /// else is changed.
    pub fn get_op_addr_from_mode(&self, mode: &AddressingMode) -> (r: Result<u16, CpuError>)
        ensures
            r == operand_address(self@, *mode),
    {
        match mode {
            AddressingMode::Immediate => Ok(self.program_counter),
            AddressingMode::ZeroPage => Ok(self.read_memory(self.program_counter) as u16),
            AddressingMode::Absolute => Ok(self.read_u16_memory(self.program_counter)),
            AddressingMode::ZeroPage_X => {
                let base: u8 = self.read_memory(self.program_counter);
                Ok(base.wrapping_add(self.x_register) as u16)
            },
            AddressingMode::ZeroPage_Y => {
                let base: u8 = self.read_memory(self.program_counter);
                Ok(base.wrapping_add(self.y_register) as u16)
            },
            AddressingMode::Absolute_X => {
                let base: u16 = self.read_u16_memory(self.program_counter);
                Ok(base.wrapping_add(self.x_register as u16))
            },
            AddressingMode::Absolute_Y => {
                let base: u16 = self.read_u16_memory(self.program_counter);
                Ok(base.wrapping_add(self.y_register as u16))
            },
            AddressingMode::Indirect_X => Err(CpuError::UnimplementedOpcode),
            AddressingMode::Indirect_Y => Err(CpuError::UnimplementedOpcode),
            AddressingMode::NoneAddressing => Err(CpuError::InvalidAddressingUse),
        }
    }

    /// Copies `program` into memory from 0x8000 on and points the program
    /// counter there. Registers and flags are kept.
    pub fn load(&mut self, program: Vec<u8>)
        requires
            program@.len() <= 0x8000,
        ensures
            final(self)@ == (CpuState {
                pc: PROGRAM_ORIGIN,
                mem: load_image(old(self).mem(), program@),
                ..old(self)@
            }),
    {
        let ghost before = self@;
        let n: usize = program.len();
        let mut i: usize = 0;
        proof {
            self.memory.lemma_size();
        }
        while i < n
            invariant
                n == program@.len(),
                self.mem().len() == 65536,
                n <= 0x8000,
                i <= n,
                self@ == (CpuState { mem: self.mem(), ..before }),
                self.mem() =~= load_image(before.mem, program@.take(i as int)),
            decreases n - i,
        {
            self.memory.write((0x8000 + i) as u16, program[i]);
            i = i + 1;
            proof {
                self.memory.lemma_size();
            }
        }
        assert(program@.take(n as int) =~= program@);
        self.program_counter = PROGRAM_ORIGIN;
    }

    /// Puts the registers in their power-on state and takes the program
    /// counter from the reset vector. Memory is kept.
    pub fn reset(&mut self)
        ensures
            final(self)@ == reset_state(old(self)@),
            final(self).stack_pointer == 0xFD,
            final(self).status@ == 0b0010_0100,
    {
        self.a_register = 0;
        self.x_register = 0;
        self.y_register = 0;
        self.stack_pointer = STACK_RESET;
        self.status = StatusRegister::from_bits_truncate(POWER_ON_STATUS);
        self.program_counter = self.read_u16_memory(RESET_VECTOR);
    }

    /// Recomputes Zero and Negative from `result`: Zero is set exactly when
    /// `result` is zero, Negative exactly when its high bit is one. The other
    /// six flags, the registers and memory are kept.
    pub fn update_status_register_flags(&mut self, result: u8)
        ensures
            final(self)@ == flags_from(old(self)@, result),
            final(self).status.has(Flag::Zero) <==> result == 0,
            final(self).status.has(Flag::Negative) <==> result >= 0x80,
    {
        self.status.update_zero_and_negative(result);
    }

    /// Loads the accumulator from the operand and updates Zero and Negative.
    /// Where the mode is refused the processor is left as it was.
    pub fn lda(&mut self, mode: &AddressingMode) -> (r: Result<(), CpuError>)
        ensures
            match operand_address(old(self)@, *mode) {
                Ok(addr) => r.is_ok() && final(self)@ == load_a(old(self)@, addr),
                Err(e) => r == Err::<(), CpuError>(e) && final(self)@ == old(self)@,
            },
    {
        match self.get_op_addr_from_mode(mode) {
            Ok(addr) => {
                let value: u8 = self.read_memory(addr);
                self.a_register = value;
                self.update_status_register_flags(value);
                Ok(())
            },
            Err(e) => Err(e),
        }
    }

    /// Loads index X from the operand and updates Zero and Negative.
    /// Where the mode is refused the processor is left as it was.
    pub fn ldx(&mut self, mode: &AddressingMode) -> (r: Result<(), CpuError>)
        ensures
            match operand_address(old(self)@, *mode) {
                Ok(addr) => r.is_ok() && final(self)@ == load_x(old(self)@, addr),
                Err(e) => r == Err::<(), CpuError>(e) && final(self)@ == old(self)@,
            },
    {
        match self.get_op_addr_from_mode(mode) {
            Ok(addr) => {
                let value: u8 = self.read_memory(addr);
                self.x_register = value;
                self.update_status_register_flags(value);
                Ok(())
            },
            Err(e) => Err(e),
        }
    }

    /// Loads index Y from the operand and updates Zero and Negative.
    /// Where the mode is refused the processor is left as it was.
    pub fn ldy(&mut self, mode: &AddressingMode) -> (r: Result<(), CpuError>)
        ensures
            match operand_address(old(self)@, *mode) {
                Ok(addr) => r.is_ok() && final(self)@ == load_y(old(self)@, addr),
                Err(e) => r == Err::<(), CpuError>(e) && final(self)@ == old(self)@,
            },
    {
        match self.get_op_addr_from_mode(mode) {
            Ok(addr) => {
                let value: u8 = self.read_memory(addr);
                self.y_register = value;
                self.update_status_register_flags(value);
                Ok(())
            },
            Err(e) => Err(e),
        }
    }

    /// Stores the accumulator at the operand address. No flag changes.
    /// Where the mode is refused the processor is left as it was.
    pub fn sta(&mut self, mode: &AddressingMode) -> (r: Result<(), CpuError>)
        ensures
            match operand_address(old(self)@, *mode) {
                Ok(addr) => r.is_ok() && final(self)@ == store_a(old(self)@, addr),
                Err(e) => r == Err::<(), CpuError>(e) && final(self)@ == old(self)@,
            },
    {
        match self.get_op_addr_from_mode(mode) {
            Ok(addr) => {
                let value: u8 = self.a_register;
                self.write_memory(addr, value);
                Ok(())
            },
            Err(e) => Err(e),
        }
    }

    /// Copies the accumulator to index X and updates Zero and Negative.
    pub fn tax(&mut self)
        ensures
            final(self)@ == transfer_a_to_x(old(self)@),
    {
        let value: u8 = self.a_register;
        self.x_register = value;
        self.update_status_register_flags(value);
    }

    /// One fetch-decode-execute cycle.
    pub fn step(&mut self, table: &OpcodeTable) -> (r: Result<Progress, CpuError>)
        ensures
            (final(self)@, r) == step_spec(old(self)@, table@),
    {
        let fetch_pc: u16 = self.program_counter;
        let code: u8 = self.read_memory(fetch_pc);
        self.program_counter = fetch_pc.wrapping_add(1);
        let op: OpCode = match table.lookup(code) {
            Some(op) => op,
            None => {
                return Err(CpuError::UnrecognizedOpcode { code, pc: fetch_pc });
            },
        };
        let ins: Instruction = match decode(code) {
            Some(ins) => ins,
            None => {
                return Err(CpuError::UnimplementedOpcode);
            },
        };
        let done: Result<(), CpuError> = match ins {
            Instruction::Brk => {
                return Ok(Progress::Halted);
            },
            Instruction::Lda => self.lda(&op.mode),
            Instruction::Ldx => self.ldx(&op.mode),
            Instruction::Ldy => self.ldy(&op.mode),
            Instruction::Sta => self.sta(&op.mode),
            Instruction::Tax => {
                self.tax();
                Ok(())
            },
        };
        match done {
            Ok(()) => {
                let operands: u16 = (op.len as u16).wrapping_sub(1);
                self.program_counter = self.program_counter.wrapping_add(operands);
                Ok(Progress::Running)
            },
            Err(e) => Err(e),
        }
    }

    /// Runs cycles until the break opcode is decoded, an error arises, or
    /// `max_steps` instructions have been carried out. `Ok(Halted)` reports
    /// the break; `Ok(Running)` reports that the budget ran out first, with
    /// the processor ready for a further call.
    pub fn run(&mut self, table: &OpcodeTable, max_steps: u64) -> (r: Result<Progress, CpuError>)
        ensures
            (final(self)@, r) == run_spec(old(self)@, table@, max_steps as nat),
    {
        let ghost start = self@;
        let mut remaining: u64 = max_steps;
        while remaining > 0
            invariant
                start == old(self)@,
                run_spec(start, table@, max_steps as nat) == run_spec(
                    self@,
                    table@,
                    remaining as nat,
                ),
            decreases remaining,
        {
            let outcome: Result<Progress, CpuError> = self.step(table);
            match outcome {
                Ok(Progress::Running) => {
                    remaining = remaining - 1;
                },
                _ => {
                    return outcome;
                },
            }
        }
        Ok(Progress::Running)
    }

    /// Loads `program`, resets the processor, and runs it as `run` does.
    pub fn load_and_run(&mut self, program: Vec<u8>, table: &OpcodeTable, max_steps: u64) -> (r:
        Result<Progress, CpuError>)
        requires
            program@.len() <= 0x8000,
        ensures
            (final(self)@, r) == run_spec(
                reset_state(
                    CpuState {
                        pc: PROGRAM_ORIGIN,
                        mem: load_image(old(self).mem(), program@),
                        ..old(self)@
                    },
                ),
                table@,
                max_steps as nat,
            ),
    {
        self.load(program);
        self.reset();
        self.run(table, max_steps)
    }
}

} // verus!
