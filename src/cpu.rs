//! The machine state and its fetch-decode-execute loop.
use vstd::prelude::*;

use crate::opcode::{assemble, classify, instruction_of, word_of, Instruction};

verus! {

/// Number of bytes of memory.
pub const MEMORY_SIZE: usize = 4096;

/// The register that arithmetic instructions use as carry flag.
pub const FLAG_REGISTER: usize = 15;

/// Why the machine stopped with a fault.
#[derive(Clone, Copy, Debug, PartialEq, Eq, Structural)]
pub enum RunError {
    /// The fetched word names no instruction that the machine implements.
    UnimplementedOpcode(u16),
    /// The program counter left no room for a two-byte fetch.
    ProgramCounterOutOfBounds(usize),
}

/// What one cycle of the machine led to.
#[derive(Clone, Copy, Debug, PartialEq, Eq, Structural)]
pub enum StepOutcome {
    /// An instruction was executed and the machine goes on.
    Continued,
    /// The halt instruction was fetched.
    Halted,
    /// The machine stopped on a fault.
    Failed(RunError),
}

/// The word stored at `p` and `p + 1` of `mem`, high byte first.
pub open spec fn opcode_at(mem: Seq<u8>, p: int) -> u16
    recommends
        0 <= p,
        p + 1 < mem.len(),
{
    word_of(mem[p], mem[p + 1]) as u16
}

/// The registers after adding register `y` into register `x`: the sum
/// modulo 256 goes to `x`, then the carry (1 on overflow, else 0) goes to the
/// flag register.
pub open spec fn add_registers(regs: Seq<u8>, x: int, y: int) -> Seq<u8> {
    let sum = regs[x] + regs[y];
    regs.update(x, (sum % 256) as u8).update(
        FLAG_REGISTER as int,
        if sum > 255 {
            1u8
        } else {
            0u8
        },
    )
}

/// One cycle from registers `regs` and program counter `pc` over memory
/// `mem`: the new registers, the new program counter and the outcome.
pub open spec fn step_spec(regs: Seq<u8>, mem: Seq<u8>, pc: int) -> (Seq<u8>, int, StepOutcome) {
    if pc < 0 || pc + 1 >= mem.len() {
        (regs, pc, StepOutcome::Failed(RunError::ProgramCounterOutOfBounds(pc as usize)))
    } else {
        match instruction_of(opcode_at(mem, pc)) {
            Instruction::Halt => (regs, pc + 2, StepOutcome::Halted),
            Instruction::AddXY { x, y } => (
                add_registers(regs, x as int, y as int),
                pc + 2,
                StepOutcome::Continued,
            ),
            Instruction::Unimplemented { opcode } => (
                regs,
                pc + 2,
                StepOutcome::Failed(RunError::UnimplementedOpcode(opcode)),
            ),
        }
    }
}

/// Cycles from registers `regs` and program counter `pc` over memory `mem`
/// until the machine halts or faults: the final registers, the final
/// program counter and the result.
pub open spec fn run_spec(regs: Seq<u8>, mem: Seq<u8>, pc: int) -> (Seq<u8>, int, Result<(), RunError>)
    decreases mem.len() - pc,
{
    let (r, p, outcome) = step_spec(regs, mem, pc);
    match outcome {
        StepOutcome::Continued => run_spec(r, mem, p),
        StepOutcome::Halted => (r, p, Ok(())),
        StepOutcome::Failed(e) => (r, p, Err(e)),
    }
}

/// A halt word (two zero bytes) at the program counter ends the run at once:
/// nothing more is fetched, the registers stay as they were, the counter
/// moves past the word, and the run succeeds.
pub proof fn lemma_halt_ends_run(regs: Seq<u8>, mem: Seq<u8>, pc: int)
    requires
        0 <= pc,
        pc + 1 < mem.len(),
        mem[pc] == 0,
        mem[pc + 1] == 0,
    ensures
        run_spec(regs, mem, pc) == (regs, pc + 2, Ok::<(), RunError>(())),
{
}

/// A word at the program counter that is neither the halt word nor an add
/// word (class 8 with selector 4) ends the run with an unimplemented-opcode
/// fault that carries exactly that word; the registers stay as they were.
pub proof fn lemma_unimplemented_faults(regs: Seq<u8>, mem: Seq<u8>, pc: int)
    requires
        0 <= pc,
        pc + 1 < mem.len(),
        opcode_at(mem, pc) != 0,
        !((opcode_at(mem, pc) >> 12u16) & 0xF == 8 && opcode_at(mem, pc) & 0xF == 4),
    ensures
        run_spec(regs, mem, pc) == (
            regs,
            pc + 2,
            Err::<(), RunError>(RunError::UnimplementedOpcode(opcode_at(mem, pc))),
        ),
{
}

/// The whole state of the machine.
pub struct CPU {
    /// General registers; the last one is the carry flag.
    pub registers: [u8; 16],
    /// Address of the next instruction to fetch.
    pub position_in_memory: usize,
    /// Program and data.
    pub memory: [u8; 4096],
}

impl CPU {
    /// A machine with every register and every byte of memory zero, about to
    /// fetch from address 0.
    pub fn new() -> (r: CPU)
        ensures
            r.registers@ == Seq::new(16, |i: int| 0u8),
            r.memory@ == Seq::new(4096, |i: int| 0u8),
            r.position_in_memory == 0,
    {
        let r = CPU { registers: [0u8; 16], position_in_memory: 0, memory: [0u8; 4096] };
        assert(r.registers@ =~= Seq::new(16, |i: int| 0u8));
        assert(r.memory@ =~= Seq::new(4096, |i: int| 0u8));
        r
    }

    /// The instruction word at the program counter, high byte first.
    pub fn read_opcode(&self) -> (r: u16)
        requires
            self.position_in_memory + 1 < MEMORY_SIZE,
        ensures
            r == opcode_at(self.memory@, self.position_in_memory as int),
            r as int == self.memory@[self.position_in_memory as int] as int * 256
                + self.memory@[self.position_in_memory as int + 1] as int,
    {
        let p = self.position_in_memory;
        assemble(self.memory[p], self.memory[p + 1])
    }

    /// Adds register `y` into register `x` modulo 256 and sets the flag
    /// register to the carry.
    pub fn add_xy(&mut self, x: u8, y: u8)
        requires
            x < 16,
            y < 16,
        ensures
            final(self).registers@ == add_registers(old(self).registers@, x as int, y as int),
            final(self).memory@ == old(self).memory@,
            final(self).position_in_memory == old(self).position_in_memory,
    {
        let arg1 = self.registers[x as usize];
        let arg2 = self.registers[y as usize];
        let val = arg1.wrapping_add(arg2);
        let overflow = val < arg1;
        self.registers[x as usize] = val;
        if overflow {
            self.registers[FLAG_REGISTER] = 1;
        } else {
            self.registers[FLAG_REGISTER] = 0;
        }
        assert(self.registers@ =~= add_registers(old(self).registers@, x as int, y as int));
    }

    /// Runs one cycle: fetches the word at the program counter, advances the
    /// counter by 2, then halts, adds, or stops on an unimplemented word.
    /// Without room for a fetch, nothing changes and the outcome is a fault.
    pub fn step(&mut self) -> (r: StepOutcome)
        ensures
            (final(self).registers@, final(self).position_in_memory as int, r) == step_spec(
                old(self).registers@,
                old(self).memory@,
                old(self).position_in_memory as int,
            ),
            final(self).memory@ == old(self).memory@,
    {
        if self.position_in_memory >= MEMORY_SIZE - 1 {
            return StepOutcome::Failed(RunError::ProgramCounterOutOfBounds(self.position_in_memory));
        }
        let opcode = self.read_opcode();
        self.position_in_memory = self.position_in_memory + 2;
        match classify(opcode) {
            Instruction::Halt => StepOutcome::Halted,
            Instruction::AddXY { x, y } => {
                self.add_xy(x, y);
                StepOutcome::Continued
            },
            Instruction::Unimplemented { opcode } => StepOutcome::Failed(
                RunError::UnimplementedOpcode(opcode),
            ),
        }
    }

    /// Cycles until the halt instruction (`Ok`) or a fault (`Err`).
    pub fn run(&mut self) -> (r: Result<(), RunError>)
        ensures
            (final(self).registers@, final(self).position_in_memory as int, r) == run_spec(
                old(self).registers@,
                old(self).memory@,
                old(self).position_in_memory as int,
            ),
            final(self).memory@ == old(self).memory@,
    {
        let ghost mem = self.memory@;
        loop
            invariant
                mem == old(self).memory@,
                self.memory@ == mem,
                run_spec(self.registers@, mem, self.position_in_memory as int) == run_spec(
                    old(self).registers@,
                    mem,
                    old(self).position_in_memory as int,
                ),
            decreases MEMORY_SIZE - self.position_in_memory,
        {
            let outcome = self.step();
            match outcome {
                StepOutcome::Continued => {},
                StepOutcome::Halted => {
                    return Ok(());
                },
                StepOutcome::Failed(e) => {
                    return Err(e);
                },
            }
        }
    }
}

} // verus!
