//! The CPU: register file, memory, halt flag and cycle counter, with the
//! quadrant dispatcher and the fetch-decode-execute loop.
use vstd::prelude::*;

use crate::error::CpuError;
use crate::handlers::{
    agrees, machine_of, Type0InstructionHandler, Type1InstructionHandler, Type2InstructionHandler,
    Type3InstructionHandler,
};
use crate::machine::{execute, run_from, step, Machine, MAX_INSTRUCTION_CYCLES};
use crate::memory::{Memory, MEMORY_SIZE};
use crate::registers::Registers;

verus! {

pub struct Cpu {
    pub is_halting: bool,
    pub cycle_counter: u64,
    /// The program; it is loaded into memory from address 0, and a run stops
    /// once PC reaches its end.
    pub instructions: Vec<u8>,
    pub registers: Registers,
    pub memory: Memory,
    pub type0_instruction_handler: Type0InstructionHandler,
    pub type1_instruction_handler: Type1InstructionHandler,
    pub type2_instruction_handler: Type2InstructionHandler,
    pub type3_instruction_handler: Type3InstructionHandler,
}

/// Memory at power-on with `program` at its start and zeros after it.
pub open spec fn loaded_memory(program: Seq<u8>) -> Seq<u8> {
    program + Seq::new((MEMORY_SIZE - program.len()) as nat, |i: int| 0u8)
}

/// The state of every CPU has memory of the fixed size.
pub proof fn lemma_machine_wf(cpu: &Cpu)
    ensures
        cpu.machine().wf(),
{
}

impl Cpu {
    /// The state that instructions act on.
    pub open spec fn machine(&self) -> Machine {
        machine_of(self.registers, self.memory.bytes(), self.is_halting, self.cycle_counter)
    }

    /// A CPU at power-on, with `instructions` loaded into memory from
    /// address 0: registers zero, not halted, no cycles counted.
    pub fn new(instructions: Vec<u8>) -> (r: Cpu)
        requires
            instructions.len() <= MEMORY_SIZE,
        ensures
            r.instructions@ == instructions@,
            r.registers == Registers::zeroed(),
            r.memory.bytes() == loaded_memory(instructions@),
            !r.is_halting,
            r.cycle_counter == 0,
    {
        let mut memory = Memory::new();
        let mut i: usize = 0;
        while i < instructions.len()
            invariant
                i <= instructions.len() <= MEMORY_SIZE,
                memory.bytes() == instructions@.subrange(0, i as int) + Seq::new(
                    (MEMORY_SIZE - i) as nat,
                    |j: int| 0u8,
                ),
            decreases instructions.len() - i,
        {
            memory.set_value_at_memory_address(i as u16, instructions[i]);
            i = i + 1;
            assert(memory.bytes() =~= instructions@.subrange(0, i as int) + Seq::new(
                (MEMORY_SIZE - i) as nat,
                |j: int| 0u8,
            ));
        }
        assert(instructions@.subrange(0, i as int) =~= instructions@);
        Cpu {
            is_halting: false,
            cycle_counter: 0,
            instructions,
            registers: Registers::new(),
            memory,
            type0_instruction_handler: Type0InstructionHandler {  },
            type1_instruction_handler: Type1InstructionHandler {  },
            type2_instruction_handler: Type2InstructionHandler {  },
            type3_instruction_handler: Type3InstructionHandler {  },
        }
    }

    /// Executes one opcode whose fetch is done (PC already past it): its top
    /// two bits pick the quadrant handler.
    pub fn handle_instruction(&mut self, instruction: u8) -> (r: Result<(), CpuError>)
        requires
            old(self).cycle_counter <= u64::MAX - MAX_INSTRUCTION_CYCLES,
        ensures
            agrees(
                execute(old(self).machine(), instruction),
                r,
                final(self).registers,
                final(self).memory.bytes(),
                final(self).is_halting,
                final(self).cycle_counter,
            ),
            final(self).instructions == old(self).instructions,
    {
        let op_type: u8 = instruction >> 6;
        if op_type == 0 {
            self.type0_instruction_handler.handle_instruction(
                instruction,
                &mut self.cycle_counter,
                &mut self.registers,
                &mut self.memory,
            )
        } else if op_type == 1 {
            self.type1_instruction_handler.handle_instruction(
                instruction,
                &mut self.cycle_counter,
                &mut self.registers,
                &mut self.memory,
                &mut self.is_halting,
            )
        } else if op_type == 2 {
            self.type2_instruction_handler.handle_instruction(
                instruction,
                &mut self.cycle_counter,
                &mut self.registers,
                &self.memory,
            )
        } else {
            self.type3_instruction_handler.handle_instruction(
                instruction,
                &mut self.cycle_counter,
                &mut self.registers,
                &mut self.memory,
            )
        }
    }

    /// Fetches the opcode at PC, moves PC past it and executes it.
    pub fn step(&mut self) -> (r: Result<(), CpuError>)
        requires
            old(self).cycle_counter <= u64::MAX - MAX_INSTRUCTION_CYCLES,
        ensures
            agrees(
                step(old(self).machine()),
                r,
                final(self).registers,
                final(self).memory.bytes(),
                final(self).is_halting,
                final(self).cycle_counter,
            ),
            final(self).instructions == old(self).instructions,
    {
        let opcode = match self.memory.load(self.registers.pc) {
            Ok(v) => v,
            Err(e) => return Err(e),
        };
        self.registers.pc = self.registers.pc.wrapping_add(1);
        self.handle_instruction(opcode)
    }

    /// Runs until halted or until PC is at or past the end of the program.
    /// A fault, or a cycle counter with no room for another instruction,
    /// ends the run with its error.
    pub fn run(&mut self) -> (r: Result<(), CpuError>)
        ensures
            match run_from(old(self).machine(), old(self).instructions.len() as int) {
                Ok(m) => r is Ok && final(self).machine() == m,
                Err(e) => r == Err::<(), CpuError>(e),
            },
            final(self).instructions == old(self).instructions,
            r is Ok ==> final(self).is_halting || final(self).registers.pc >= final(self).instructions.len(),
    {
        let ghost bound = self.instructions.len() as int;
        while !self.is_halting && (self.registers.pc as usize) < self.instructions.len()
            invariant
                self.instructions == old(self).instructions,
                bound == self.instructions.len(),
                run_from(self.machine(), bound) == run_from(old(self).machine(), bound),
            decreases u64::MAX - self.cycle_counter,
        {
            if self.cycle_counter > u64::MAX - MAX_INSTRUCTION_CYCLES {
                return Err(CpuError::CycleCounterOverflow);
            }
            let ghost before = self.machine();
            proof {
                crate::machine::lemma_step_cycles(before);
            }
            if let Err(e) = self.step() {
                return Err(e);
            }
        }
        Ok(())
    }
}

impl Default for Cpu {
    /// A CPU at power-on with an empty program.
    fn default() -> (r: Cpu)
        ensures
            r.instructions@ == Seq::<u8>::empty(),
            r.registers == Registers::zeroed(),
            r.memory.bytes() == loaded_memory(Seq::empty()),
            !r.is_halting,
            r.cycle_counter == 0,
    {
        Cpu::new(Vec::new())
    }
}

} // verus!
