//! The mathematical model of the machine.
//!
//! A [`Machine`] is the state that a program can observe: the memory, the
//! registers, the return addresses on the call stack and the program
//! counter. Every operation of the executable machine is described here as
//! a function from states to states, and [`Machine::run`] is the fixed
//! meaning of running a program: apply [`Machine::step`] until it stops.
//!
//! Running always stops. Each frame of the call stack can only move forward
//! through memory, and finishing a frame hands control back to the frame
//! below it, so the frames, read from the bottom of the stack up, go down in
//! lexicographic order with every step. [`Machine::level`] measures one
//! frame, and [`Machine::rank`] reads the levels of all frames as the digits
//! of one number, which [`lemma_step_lowers_rank`] shows to go down.

use crate::instruction::{instruction_of, Instruction};
use crate::word::{high_byte, low_byte, word_of};
use vstd::prelude::*;

verus! {

/// Number of bytes of memory.
pub const MEMORY_SIZE: usize = 0x1000;

/// Number of registers.
pub const REGISTER_COUNT: usize = 16;

/// Number of return addresses that the call stack can hold.
pub const STACK_DEPTH: usize = 16;

/// The register that receives the carry of an addition.
pub const FLAG_REGISTER: usize = 0xF;

/// The base in which [`Machine::rank`] reads the levels: one more than the
/// largest level.
pub const RANK_BASE: u32 = 0x1_0001;

/// Why a program was stopped before it reached a halt instruction.
#[derive(Debug, Clone, Copy, PartialEq, Eq, Structural)]
pub enum Fault {
    /// The program counter left no room for an instruction word.
    ProgramCounterOutOfBounds,
    /// A call found the call stack full.
    StackOverflow,
    /// A return found the call stack empty.
    StackUnderflow,
    /// The word at the program counter matches no known instruction.
    UnimplementedOpcode { opcode: u16 },
}

/// What a single step left behind.
#[derive(Debug, Clone, Copy, PartialEq, Eq, Structural)]
pub enum Status {
    /// The instruction was carried out; the next one can be fetched.
    Running,
    /// A halt instruction was reached.
    Halted,
    /// The step could not be carried out.
    Faulted(Fault),
}

/// The observable state of the machine.
pub struct Machine {
    /// The general-purpose registers; the last one receives the carry.
    pub registers: Seq<u8>,
    /// The memory, holding program and data.
    pub memory: Seq<u8>,
    /// The return addresses of the calls in progress, oldest first.
    pub stack: Seq<u16>,
    /// The address of the next instruction word.
    pub program_counter: int,
}

impl Machine {
    /// The sizes that every state of the machine keeps.
    pub open spec fn wf(self) -> bool {
        &&& self.registers.len() == REGISTER_COUNT
        &&& self.memory.len() == MEMORY_SIZE
        &&& self.stack.len() <= STACK_DEPTH
        &&& 0 <= self.program_counter <= u16::MAX
    }

    /// The state of a new machine: everything zero, no call in progress.
    pub open spec fn init() -> Machine {
        Machine {
            registers: Seq::new(REGISTER_COUNT as nat, |i: int| 0u8),
            memory: Seq::new(MEMORY_SIZE as nat, |i: int| 0u8),
            stack: Seq::empty(),
            program_counter: 0,
        }
    }

    /// Whether an instruction word fits at `address`.
    pub open spec fn holds_word_at(address: int) -> bool {
        0 <= address && address + 1 < MEMORY_SIZE
    }

    /// The instruction word stored at `address`, high byte first.
    pub open spec fn read_instruction(self, address: int) -> u16 {
        word_of(self.memory[address], self.memory[address + 1])
    }

    /// The state after storing `word` at `address`, high byte first.
    pub open spec fn write_instruction(self, address: int, word: u16) -> Machine {
        Machine {
            memory: self.memory.update(address, high_byte(word)).update(
                address + 1,
                low_byte(word),
            ),
            ..self
        }
    }

    /// Whether the program counter may be set to `value` from outside: the
    /// address of a byte of memory, and even.
    pub open spec fn accepts_program_counter(value: int) -> bool {
        0 <= value < MEMORY_SIZE && value % 2 == 0
    }

    /// The state with the program counter at `value`.
    pub open spec fn with_program_counter(self, value: int) -> Machine {
        Machine { program_counter: value, ..self }
    }

    /// The state with register `index` holding `value`.
    pub open spec fn with_register(self, index: int, value: u8) -> Machine {
        Machine { registers: self.registers.update(index, value), ..self }
    }

    /// The state after adding register `y` to register `x`: register `x`
    /// holds the sum modulo 256, and then the flag register holds 1 if the
    /// sum of the two operands did not fit in a byte and 0 if it did.
    pub open spec fn add_xy(self, x: int, y: int) -> Machine {
        let sum = self.registers[x] + self.registers[y];
        let flag = if sum > u8::MAX { 1u8 } else { 0u8 };
        Machine {
            registers: self.registers.update(x, (sum % 0x100) as u8).update(
                FLAG_REGISTER as int,
                flag,
            ),
            ..self
        }
    }

    /// Whether the call stack has room for another return address.
    pub open spec fn can_call(self) -> bool {
        self.stack.len() < STACK_DEPTH
    }

    /// The state after a call of `address`: the program counter is saved on
    /// the stack and moved to `address`.
    pub open spec fn call(self, address: u16) -> Machine {
        Machine {
            stack: self.stack.push(self.program_counter as u16),
            program_counter: address as int,
            ..self
        }
    }

    /// Whether there is a call to return from.
    pub open spec fn can_return(self) -> bool {
        self.stack.len() > 0
    }

    /// The state after a return: the newest return address leaves the stack
    /// and becomes the program counter.
    pub open spec fn ret(self) -> Machine {
        Machine {
            stack: self.stack.drop_last(),
            program_counter: self.stack.last() as int,
            ..self
        }
    }

    /// Whether an instruction word can be fetched at the program counter.
    pub open spec fn can_fetch(self) -> bool {
        Self::holds_word_at(self.program_counter)
    }

    /// The state after carrying out `instruction`, the program counter
    /// already standing behind it, and what the machine does next. An
    /// instruction that cannot be carried out leaves the state as it is.
    pub open spec fn execute(self, instruction: Instruction) -> (Machine, Status) {
        match instruction {
            Instruction::Halt => (self, Status::Halted),
            Instruction::Return => if self.can_return() {
                (self.ret(), Status::Running)
            } else {
                (self, Status::Faulted(Fault::StackUnderflow))
            },
            Instruction::Call { address } => if self.can_call() {
                (self.call(address), Status::Running)
            } else {
                (self, Status::Faulted(Fault::StackOverflow))
            },
            Instruction::AddWithCarry { x, y } => (self.add_xy(x as int, y as int), Status::Running),
        }
    }

    /// One round of fetch, decode and dispatch.
    ///
    /// Without room for a word at the program counter nothing changes and
    /// the step faults. Otherwise the word is fetched, the program counter
    /// moves behind it, and the word is decoded and carried out; a word that
    /// does not decode faults with the program counter behind it.
    pub open spec fn step(self) -> (Machine, Status) {
        if !self.can_fetch() {
            (self, Status::Faulted(Fault::ProgramCounterOutOfBounds))
        } else {
            let opcode = self.read_instruction(self.program_counter);
            let fetched = self.with_program_counter(self.program_counter + 2);
            match instruction_of(opcode) {
                Some(instruction) => fetched.execute(instruction),
                None => (fetched, Status::Faulted(Fault::UnimplementedOpcode { opcode })),
            }
        }
    }

    /// How far frame `i` still is from the end of the address space: for a
    /// call in progress the distance of its return address, for the running
    /// code the distance of the program counter, and zero above that.
    pub open spec fn level(self, i: int) -> nat {
        if 0 <= i < self.stack.len() {
            (0x1_0000 - self.stack[i]) as nat
        } else if i == self.stack.len() {
            (0x1_0000 - self.program_counter) as nat
        } else {
            0
        }
    }

    /// The levels of the frames below `k`, read as the digits of one number,
    /// frame 0 most significant.
    pub open spec fn rank_below(self, k: nat) -> nat
        decreases k,
    {
        if k == 0 {
            0
        } else {
            (self.rank_below((k - 1) as nat) * RANK_BASE + self.level(k - 1)) as nat
        }
    }

    /// The number that goes down with every step: the levels of all frames,
    /// read as the digits of one number.
    pub open spec fn rank(self) -> nat {
        self.rank_below(STACK_DEPTH as nat + 1)
    }

    /// The state in which the program stops when started in `self`, and how
    /// it stops: `Ok` at a halt instruction, or the fault.
    pub open spec fn run(self) -> (Machine, Result<(), Fault>)
        decreases self.rank(),
        when self.wf()
    {
        let (next, status) = self.step();
        match status {
            Status::Running => {
                proof {
                    lemma_step_lowers_rank(self);
                }
                next.run()
            },
            Status::Halted => (next, Ok(())),
            Status::Faulted(fault) => (next, Err(fault)),
        }
    }
}

/// Two states with the same levels below `k` have the same rank below `k`.
proof fn lemma_rank_below_agrees(a: Machine, b: Machine, k: nat)
    requires
        forall|i: int| 0 <= i < k ==> a.level(i) == b.level(i),
    ensures
        a.rank_below(k) == b.rank_below(k),
    decreases k,
{
    if k > 0 {
        lemma_rank_below_agrees(a, b, (k - 1) as nat);
    }
}

/// If two states have the same levels below `k` and the second has the
/// smaller level at `k`, the second has the smaller rank below every `j`
/// above `k`, whatever its levels above `k` are.
proof fn lemma_rank_below_lowers(a: Machine, b: Machine, k: nat, j: nat)
    requires
        b.wf(),
        k < j,
        forall|i: int| 0 <= i < k ==> a.level(i) == b.level(i),
        b.level(k as int) < a.level(k as int),
    ensures
        b.rank_below(j) < a.rank_below(j),
    decreases j,
{
    if j == k + 1 {
        lemma_rank_below_agrees(a, b, k);
    } else {
        lemma_rank_below_lowers(a, b, k, (j - 1) as nat);
        assert(b.level(j - 1) < RANK_BASE);
    }
}

/// Every step after which the machine is still running lowers the rank.
pub proof fn lemma_step_lowers_rank(m: Machine)
    requires
        m.wf(),
        m.step().1 == Status::Running,
    ensures
        m.step().0.rank() < m.rank(),
{
    let next = m.step().0;
    let k = m.stack.len();
    assert(next.wf());
    assert forall|i: int| 0 <= i < k implies m.level(i) == next.level(i) by {}
    assert(next.level(k as int) < m.level(k as int));
    lemma_rank_below_lowers(m, next, k, STACK_DEPTH as nat + 1);
}

} // verus!
