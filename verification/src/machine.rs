//! The mathematical model of the CPU: its state as plain values, the
//! transition that one instruction makes, and what holds of every run.

use vstd::prelude::*;

use crate::decode::{immediate_of, Fields, Operation};

verus! {

/// Number of general-purpose registers.
pub const REGISTER_COUNT: usize = 32;

/// Index of the register that holds the stack pointer by convention.
pub const STACK_POINTER: usize = 2;

/// Value of the stack pointer in the initial state.
pub const INITIAL_STACK_POINTER: u64 = 0x7FFF_FFF0;

/// Value of the program counter in the initial state.
pub const INITIAL_PC: u64 = 0x1000;

/// Bytes by which every instruction advances the program counter.
pub const INSTRUCTION_BYTES: u64 = 4;

/// Cycles charged for every instruction.
pub const CYCLES_PER_INSTRUCTION: u32 = 1;

/// One more than the largest value of a 64-bit counter.
pub open spec fn counter_modulus() -> nat {
    0x1_0000_0000_0000_0000
}

/// A 64-bit counter advanced by `amount`: the sum modulo 2^64.
pub open spec fn advanced(counter: nat, amount: nat) -> nat {
    (counter + amount) % counter_modulus()
}

/// A wrapping addition of 64-bit numbers advances a counter.
pub proof fn lemma_wrapping_add_advances(counter: u64, amount: u64)
    ensures
        vstd::wrapping::u64_specs::wrapping_add(counter, amount) == advanced(
            counter as nat,
            amount as nat,
        ),
{
    let sum = counter + amount;
    if sum < 0x1_0000_0000_0000_0000 {
        assert(sum % 0x1_0000_0000_0000_0000 == sum);
    } else {
        assert(sum % 0x1_0000_0000_0000_0000 == sum - 0x1_0000_0000_0000_0000);
    }
}

/// Advancing a counter twice is advancing it once by the sum.
pub proof fn lemma_advanced_twice(counter: nat, first: nat, second: nat)
    ensures
        advanced(advanced(counter, first), second) == advanced(counter, first + second),
{
    let m = counter_modulus() as int;
    let total = (counter + first) as int;
    assert((total % m + second) % m == (total + second) % m) by {
        vstd::arithmetic::div_mod::lemma_add_mod_noop(total, second as int, m);
        vstd::arithmetic::div_mod::lemma_add_mod_noop(total % m, second as int, m);
        vstd::arithmetic::div_mod::lemma_mod_twice(total, m);
    }
}

/// The state of the CPU between two instructions.
#[verifier::ext_equal]
pub ghost struct Machine {
    /// The register file, in index order.
    pub registers: Seq<u64>,
    /// The program counter.
    pub pc: nat,
    /// Cycles consumed since the initial state.
    pub cycle_count: nat,
}

impl Machine {
    /// A state is well formed when it has 32 registers of which the first
    /// holds zero, and both counters fit in 64 bits.
    pub open spec fn wf(self) -> bool {
        &&& self.registers.len() == REGISTER_COUNT
        &&& self.registers[0] == 0
        &&& self.pc < counter_modulus()
        &&& self.cycle_count < counter_modulus()
    }

    /// The state after construction and after a reset.
    pub open spec fn initial() -> Machine {
        Machine {
            registers: Seq::new(
                REGISTER_COUNT as nat,
                |i: int| if i == STACK_POINTER { INITIAL_STACK_POINTER } else { 0 },
            ),
            pc: INITIAL_PC as nat,
            cycle_count: 0,
        }
    }

    /// What a read of register `index` yields: its value, or zero for an
    /// index outside the register file.
    pub open spec fn register(self, index: int) -> u64 {
        if 0 <= index < REGISTER_COUNT {
            self.registers[index]
        } else {
            0
        }
    }

    /// The state after a write of `value` to register `index`: register zero
    /// and indices outside the register file take no write.
    pub open spec fn with_register(self, index: int, value: u64) -> Machine {
        if 0 < index < REGISTER_COUNT {
            Machine { registers: self.registers.update(index, value), ..self }
        } else {
            self
        }
    }

    /// The state with the program counter set to `pc`.
    pub open spec fn with_pc(self, pc: u64) -> Machine {
        Machine { pc: pc as nat, ..self }
    }

    /// The state after executing the instruction `word`: the selected
    /// operation, if there is one, writes its result to the destination
    /// register; in every case the program counter advances by 4 and the
    /// cycle counter by 1, both modulo 2^64.
    pub open spec fn step(self, word: u32) -> Machine {
        let fields = Fields::of(word);
        let written = match fields.spec_operation() {
            Some(operation) => self.with_register(
                fields.rd as int,
                operation.result(
                    self.register(fields.rs1 as int),
                    self.register(fields.rs2 as int),
                    fields.imm,
                ),
            ),
            None => self,
        };
        Machine {
            registers: written.registers,
            pc: advanced(self.pc, INSTRUCTION_BYTES as nat),
            cycle_count: advanced(self.cycle_count, CYCLES_PER_INSTRUCTION as nat),
        }
    }

    /// The state after executing the instructions `words` in order.
    pub open spec fn run(self, words: Seq<u32>) -> Machine
        decreases words.len(),
    {
        if words.len() == 0 {
            self
        } else {
            self.run(words.drop_last()).step(words.last())
        }
    }
}

/// One use of the CPU's mutating interface.
pub ghost enum Action {
    /// Execute an instruction word.
    Execute(u32),
    /// Write a value to a register.
    SetRegister(usize, u64),
    /// Set the program counter.
    SetPc(u64),
    /// Return to the initial state.
    Reset,
}

impl Machine {
    /// The state after one action.
    pub open spec fn perform(self, action: Action) -> Machine {
        match action {
            Action::Execute(word) => self.step(word),
            Action::SetRegister(index, value) => self.with_register(index as int, value),
            Action::SetPc(pc) => self.with_pc(pc),
            Action::Reset => Machine::initial(),
        }
    }

    /// The state after the actions `actions` in order.
    pub open spec fn perform_all(self, actions: Seq<Action>) -> Machine
        decreases actions.len(),
    {
        if actions.len() == 0 {
            self
        } else {
            self.perform_all(actions.drop_last()).perform(actions.last())
        }
    }

    /// The initial state is well formed: every register holds zero but the
    /// stack pointer, which holds its fixed start value; the program counter
    /// is at its start address and no cycle is consumed.
    pub proof fn lemma_initial_state()
        ensures
            Machine::initial().wf(),
            forall|i: int|
                0 <= i < REGISTER_COUNT && i != STACK_POINTER ==> Machine::initial().register(i)
                    == 0,
            Machine::initial().register(STACK_POINTER as int) == INITIAL_STACK_POINTER,
            Machine::initial().pc == INITIAL_PC,
            Machine::initial().cycle_count == 0,
    {
    }

    /// Every action takes a well-formed state to a well-formed state.
    pub proof fn lemma_perform_preserves_wf(self, action: Action)
        requires
            self.wf(),
        ensures
            self.perform(action).wf(),
    {
    }

    /// Register 0 reads as zero after every sequence of actions, a write to
    /// it included.
    pub proof fn lemma_register_zero_reads_zero(self, actions: Seq<Action>)
        requires
            self.wf(),
        ensures
            self.perform_all(actions).wf(),
            self.perform_all(actions).register(0) == 0,
        decreases actions.len(),
    {
        if actions.len() > 0 {
            self.lemma_register_zero_reads_zero(actions.drop_last());
            self.perform_all(actions.drop_last()).lemma_perform_preserves_wf(actions.last());
        }
    }

    /// A write to register 0, or to an index outside the register file,
    /// leaves the state as it was.
    pub proof fn lemma_ignored_write(self, index: int, value: u64)
        requires
            index <= 0 || index >= REGISTER_COUNT,
        ensures
            self.with_register(index, value) == self,
    {
    }

    /// `ADD` leaves the sum of the two source registers modulo 2^64 in the
    /// destination register, and `SUB` their difference modulo 2^64.
    pub proof fn lemma_add_sub_wrap(self, word: u32)
        requires
            self.wf(),
            Fields::of(word).rd != 0,
        ensures
            ({
                let fields = Fields::of(word);
                let a = self.register(fields.rs1 as int);
                let b = self.register(fields.rs2 as int);
                let rd = self.step(word).register(fields.rd as int);
                &&& fields.spec_operation() == Some(Operation::Add) ==> rd == (a + b) % (
                counter_modulus() as int)
                &&& fields.spec_operation() == Some(Operation::Sub) ==> rd == (a - b) % (
                counter_modulus() as int)
            }),
    {
    }

    /// `ADDI` adds the signed immediate: the destination register holds the
    /// first source register plus the immediate, modulo 2^64, also where the
    /// immediate is negative.
    pub proof fn lemma_addi_adds_signed_immediate(self, word: u32)
        requires
            self.wf(),
            Fields::of(word).rd != 0,
            Fields::of(word).spec_operation() == Some(Operation::Addi),
        ensures
            self.step(word).register(Fields::of(word).rd as int) == (self.register(
                Fields::of(word).rs1 as int,
            ) + immediate_of(word)) % (counter_modulus() as int),
    {
    }

    /// An instruction that selects no operation changes no register,
    /// advances the program counter by 4, costs one cycle and calls for
    /// one diagnostic; an instruction that selects one calls for none.
    pub proof fn lemma_unrecognized_instruction(self, word: u32)
        ensures
            Fields::of(word).spec_operation() is None ==> {
                &&& self.step(word).registers == self.registers
                &&& self.step(word).pc == advanced(self.pc, 4)
                &&& self.step(word).cycle_count == advanced(self.cycle_count, 1)
                &&& Fields::of(word).spec_diagnostic() is Some
            },
            Fields::of(word).spec_operation() is Some ==> Fields::of(word).spec_diagnostic()
                is None,
    {
    }

    /// After `words.len()` instructions the cycle counter has grown by the
    /// sum of their costs, one cycle each, and the program counter by 4
    /// bytes each, both modulo 2^64.
    pub proof fn lemma_run_counts(self, words: Seq<u32>)
        requires
            self.wf(),
        ensures
            self.run(words).wf(),
            self.run(words).cycle_count == advanced(self.cycle_count, words.len()),
            self.run(words).pc == advanced(self.pc, 4 * words.len()),
            self.cycle_count + words.len() < counter_modulus() ==> self.run(words).cycle_count
                == self.cycle_count + words.len(),
        decreases words.len(),
    {
        if words.len() > 0 {
            let before = self.run(words.drop_last());
            let count = (words.len() - 1) as nat;
            self.lemma_run_counts(words.drop_last());
            before.lemma_perform_preserves_wf(Action::Execute(words.last()));
            lemma_advanced_twice(self.cycle_count, count, 1);
            lemma_advanced_twice(self.pc, 4 * count, 4);
        }
    }
}

} // verus!
