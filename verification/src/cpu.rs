//! The executable CPU: a register file, a program counter and a cycle
//! counter, changed by one instruction at a time.

use vstd::prelude::*;

use crate::decode::decode;
use crate::machine::{
    lemma_wrapping_add_advances, Machine, CYCLES_PER_INSTRUCTION, INITIAL_PC,
    INITIAL_STACK_POINTER, INSTRUCTION_BYTES, REGISTER_COUNT, STACK_POINTER,
};

verus! {

/// A 64-bit CPU with 32 general-purpose registers, of which register 0 is
/// hard-wired to zero.
pub struct CPU {
    registers: [u64; 32],
    pc: u64,
    cycle_count: u64,
}

impl View for CPU {
    type V = Machine;

    closed spec fn view(&self) -> Machine {
        Machine {
            registers: self.registers@,
            pc: self.pc as nat,
            cycle_count: self.cycle_count as nat,
        }
    }
}

impl Clone for CPU {
    fn clone(&self) -> (copy: CPU)
        ensures
            copy@ == self@,
    {
        proof {
            use_type_invariant(&*self);
        }
        CPU { registers: self.registers, pc: self.pc, cycle_count: self.cycle_count }
    }
}

impl Default for CPU {
    fn default() -> (cpu: CPU)
        ensures
            cpu@ == Machine::initial(),
    {
        CPU::new()
    }
}

impl CPU {
    #[verifier::type_invariant]
    spec fn register_zero_holds_zero(&self) -> bool {
        self.registers[0] == 0
    }

    /// Creates a CPU in the initial state: every register zero but the stack
    /// pointer, the program counter at its start address, no cycle consumed.
    pub fn new() -> (cpu: CPU)
        ensures
            cpu@ == Machine::initial(),
            cpu@.wf(),
    {
        let mut cpu = CPU { registers: [0; 32], pc: INITIAL_PC, cycle_count: 0 };
        cpu.registers[STACK_POINTER] = INITIAL_STACK_POINTER;
        cpu
    }

    /// The program counter.
    pub fn pc(&self) -> (pc: u64)
        ensures
            pc == self@.pc,
            self@.wf(),
    {
        proof {
            use_type_invariant(&*self);
        }
        self.pc
    }

    /// Sets the program counter and changes nothing else.
    pub fn set_pc(&mut self, pc: u64)
        ensures
            final(self)@ == old(self)@.with_pc(pc),
            final(self)@.wf(),
    {
        proof {
            use_type_invariant(&*self);
        }
        self.pc = pc;
    }

    /// Reads register `index`; an index outside the register file reads as
    /// zero, and so does register 0.
    pub fn get_register(&self, index: usize) -> (value: u64)
        ensures
            value == self@.register(index as int),
            index == 0 ==> value == 0,
            self@.wf(),
    {
        proof {
            use_type_invariant(&*self);
        }
        if index < REGISTER_COUNT {
            self.registers[index]
        } else {
            0
        }
    }

    /// Writes register `index`; a write to register 0 or to an index outside
    /// the register file changes nothing.
    pub fn set_register(&mut self, index: usize, value: u64)
        ensures
            final(self)@ == old(self)@.with_register(index as int, value),
            final(self)@.wf(),
    {
        proof {
            use_type_invariant(&*self);
        }
        if index > 0 && index < REGISTER_COUNT {
            self.registers[index] = value;
        }
    }

    /// A copy of all 32 registers in index order.
    pub fn get_all_registers(&self) -> (registers: Vec<u64>)
        ensures
            registers@ == self@.registers,
            self@.wf(),
    {
        proof {
            use_type_invariant(&*self);
        }
        let mut registers: Vec<u64> = Vec::with_capacity(REGISTER_COUNT);
        let mut index: usize = 0;
        while index < REGISTER_COUNT
            invariant
                index <= REGISTER_COUNT,
                registers@ == self.registers@.take(index as int),
            decreases REGISTER_COUNT - index,
        {
            registers.push(self.registers[index]);
            index += 1;
        }
        registers
    }

    /// Cycles consumed since the initial state.
    pub fn cycle_count(&self) -> (cycles: u64)
        ensures
            cycles == self@.cycle_count,
            self@.wf(),
    {
        proof {
            use_type_invariant(&*self);
        }
        self.cycle_count
    }

    /// Executes one instruction and returns the cycles it cost.
    ///
    /// A word that selects no operation changes no register. Every word
    /// advances the program counter by 4 and costs one cycle. Nothing is
    /// logged here: the diagnostic that a word calls for is
    /// `decode(instruction).diagnostic()`, for the host to emit.
    pub fn execute(&mut self, instruction: u32) -> (cycles: u32)
        ensures
            final(self)@ == old(self)@.step(instruction),
            final(self)@.wf(),
            cycles == CYCLES_PER_INSTRUCTION,
    {
        proof {
            use_type_invariant(&*self);
        }
        let fields = decode(instruction);
        match fields.operation() {
            Some(operation) => {
                let value = operation.apply(
                    self.registers[fields.rs1],
                    self.registers[fields.rs2],
                    fields.imm,
                );
                self.set_register(fields.rd, value);
            },
            None => {},
        }
        proof {
            lemma_wrapping_add_advances(self.pc, INSTRUCTION_BYTES);
            lemma_wrapping_add_advances(self.cycle_count, CYCLES_PER_INSTRUCTION as u64);
        }
        self.pc = self.pc.wrapping_add(INSTRUCTION_BYTES);
        self.cycle_count = self.cycle_count.wrapping_add(CYCLES_PER_INSTRUCTION as u64);
        CYCLES_PER_INSTRUCTION
    }

    /// Returns the CPU to the initial state, whatever state it was in.
    pub fn reset(&mut self)
        ensures
            final(self)@ == Machine::initial(),
            final(self)@.wf(),
    {
        self.registers = [0; 32];
        self.registers[STACK_POINTER] = INITIAL_STACK_POINTER;
        self.pc = INITIAL_PC;
        self.cycle_count = 0;
    }
}

} // verus!
