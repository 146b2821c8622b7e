//! The executable machine.
//!
//! [`CPU`] keeps the state in fixed arrays and is proved to follow the model
//! in [`crate::machine`]: its view is a [`Machine`], and the contract of
//! every operation says which model function it computes.

use crate::instruction::{decode, Instruction};
use crate::machine::{
    lemma_step_lowers_rank, Fault, Machine, Status, FLAG_REGISTER, MEMORY_SIZE, REGISTER_COUNT,
    STACK_DEPTH,
};
use crate::word::{join_bytes, split_word};
use vstd::prelude::*;

verus! {

/// A machine with its memory, registers, call stack and program counter.
pub struct CPU {
    registers: [u8; 16],
    program_counter: usize,
    memory: [u8; 0x1000],
    stack: [u16; 16],
    stack_pointer: usize,
}

impl View for CPU {
    type V = Machine;

    /// The state of the machine. Of the stack only the entries below the
    /// stack pointer belong to it.
    closed spec fn view(&self) -> Machine {
        Machine {
            registers: self.registers@,
            memory: self.memory@,
            stack: self.stack@.take(self.stack_pointer as int),
            program_counter: self.program_counter as int,
        }
    }
}

impl CPU {
    #[verifier::type_invariant]
    spec fn inv(self) -> bool {
        &&& self.stack_pointer <= STACK_DEPTH
        &&& self.program_counter <= u16::MAX
    }

    /// A machine with everything zero and no call in progress.
    pub fn new() -> (cpu: Self)
        ensures
            cpu@ == Machine::init(),
            cpu@.wf(),
    {
        let cpu = CPU {
            registers: [0; 16],
            program_counter: 0,
            memory: [0; 0x1000],
            stack: [0; 16],
            stack_pointer: 0,
        };
        assert(cpu@.registers =~= Machine::init().registers);
        assert(cpu@.memory =~= Machine::init().memory);
        assert(cpu@.stack =~= Machine::init().stack);
        cpu
    }

    /// The address of the next instruction word.
    pub fn program_counter(&self) -> (counter: usize)
        ensures
            counter == self@.program_counter,
            self@.wf(),
    {
        proof {
            use_type_invariant(self);
        }
        self.program_counter
    }

    /// Stores `word` at `address` and `address + 1`, high byte first.
    pub fn write_instruction(&mut self, address: usize, word: u16)
        requires
            Machine::holds_word_at(address as int),
        ensures
            final(self)@ == old(self)@.write_instruction(address as int, word),
            old(self)@.wf(),
            final(self)@.wf(),
    {
        proof {
            use_type_invariant(&*self);
        }
        let (high, low) = split_word(word);
        self.memory[address] = high;
        self.memory[address + 1] = low;
    }

    /// Reads the word stored at `address` and `address + 1`, high byte first.
    pub fn read_instruction(&self, address: usize) -> (word: u16)
        requires
            Machine::holds_word_at(address as int),
        ensures
            word == self@.read_instruction(address as int),
            self@.wf(),
    {
        proof {
            use_type_invariant(self);
        }
        join_bytes(self.memory[address], self.memory[address + 1])
    }

    /// Stores `opcode` at the program counter.
    pub fn write_opcode(&mut self, opcode: u16)
        requires
            old(self)@.can_fetch(),
        ensures
            final(self)@ == old(self)@.write_instruction(old(self)@.program_counter, opcode),
            old(self)@.wf(),
            final(self)@.wf(),
    {
        let address = self.program_counter;
        self.write_instruction(address, opcode);
    }

    /// Reads the word at the program counter.
    pub fn read_opcode(&self) -> (opcode: u16)
        requires
            self@.can_fetch(),
        ensures
            opcode == self@.read_instruction(self@.program_counter),
            self@.wf(),
    {
        self.read_instruction(self.program_counter)
    }

    /// Moves the program counter to `counter` if that is an even address
    /// within memory, and refuses otherwise, changing nothing. The length of
    /// the memory is itself no address within it.
    pub fn set_program_counter(&mut self, counter: u16) -> (res: Result<(), String>)
        ensures
            res is Ok <==> Machine::accepts_program_counter(counter as int),
            res is Ok ==> final(self)@ == old(self)@.with_program_counter(counter as int),
            res is Err ==> final(self)@ == old(self)@,
            res is Err ==> res->Err_0@ == "cannot set program counter"@,
            old(self)@.wf(),
            final(self)@.wf(),
    {
        proof {
            use_type_invariant(&*self);
        }
        if counter as usize >= MEMORY_SIZE || counter % 2 != 0 {
            Err("cannot set program counter".to_string())
        } else {
            self.program_counter = counter as usize;
            Ok(())
        }
    }

    /// Stores `value` in register `num` if there is such a register, and
    /// refuses otherwise, changing nothing.
    pub fn write_register(&mut self, num: usize, value: u8) -> (res: Result<(), String>)
        ensures
            res is Ok <==> num < REGISTER_COUNT,
            res is Ok ==> final(self)@ == old(self)@.with_register(num as int, value),
            res is Err ==> final(self)@ == old(self)@,
            res is Err ==> res->Err_0@ == "cannot write"@,
            old(self)@.wf(),
            final(self)@.wf(),
    {
        proof {
            use_type_invariant(&*self);
        }
        if num >= REGISTER_COUNT {
            Err("cannot write".to_string())
        } else {
            self.registers[num] = value;
            Ok(())
        }
    }

    /// The byte in register `num`.
    pub fn read_register(&self, num: usize) -> (value: u8)
        requires
            num < REGISTER_COUNT,
        ensures
            value == self@.registers[num as int],
            self@.wf(),
    {
        proof {
            use_type_invariant(self);
        }
        self.registers[num]
    }

    /// Adds register `y` to register `x`, wrapping, and sets the flag
    /// register to the carry of the two operands.
    pub fn add_xy(&mut self, x: u8, y: u8)
        requires
            x < REGISTER_COUNT,
            y < REGISTER_COUNT,
        ensures
            final(self)@ == old(self)@.add_xy(x as int, y as int),
            old(self)@.wf(),
            final(self)@.wf(),
    {
        proof {
            use_type_invariant(&*self);
        }
        let arg1 = self.registers[x as usize];
        let arg2 = self.registers[y as usize];
        let overflow = arg2 > u8::MAX - arg1;
        self.registers[x as usize] = arg1.wrapping_add(arg2);
        if overflow {
            self.registers[FLAG_REGISTER] = 1;
        } else {
            self.registers[FLAG_REGISTER] = 0;
        }
    }

    /// Saves the program counter on the call stack and continues at `addr`.
    /// With the stack full nothing changes and the call overflows.
    pub fn call(&mut self, addr: u16) -> (res: Result<(), Fault>)
        ensures
            res is Ok <==> old(self)@.can_call(),
            res is Ok ==> final(self)@ == old(self)@.call(addr),
            res is Err ==> final(self)@ == old(self)@,
            res is Err ==> res == Err::<(), Fault>(Fault::StackOverflow),
            old(self)@.wf(),
            final(self)@.wf(),
    {
        proof {
            use_type_invariant(&*self);
        }
        if self.stack_pointer >= STACK_DEPTH {
            return Err(Fault::StackOverflow);
        }
        self.stack[self.stack_pointer] = self.program_counter as u16;
        self.stack_pointer += 1;
        self.program_counter = addr as usize;
        assert(self@.stack =~= old(self)@.call(addr).stack);
        Ok(())
    }

    /// Takes the newest return address off the call stack and continues
    /// there. With the stack empty nothing changes and the return underflows.
    pub fn ret(&mut self) -> (res: Result<(), Fault>)
        ensures
            res is Ok <==> old(self)@.can_return(),
            res is Ok ==> final(self)@ == old(self)@.ret(),
            res is Err ==> final(self)@ == old(self)@,
            res is Err ==> res == Err::<(), Fault>(Fault::StackUnderflow),
            old(self)@.wf(),
            final(self)@.wf(),
    {
        proof {
            use_type_invariant(&*self);
        }
        if self.stack_pointer == 0 {
            return Err(Fault::StackUnderflow);
        }
        self.stack_pointer -= 1;
        let call_addr = self.stack[self.stack_pointer];
        self.program_counter = call_addr as usize;
        assert(self@.stack =~= old(self)@.ret().stack);
        Ok(())
    }

    /// Carries out a decoded instruction, the program counter already
    /// standing behind it.
    pub fn execute(&mut self, instruction: Instruction) -> (status: Status)
        requires
            instruction.names_registers(),
        ensures
            (final(self)@, status) == old(self)@.execute(instruction),
            old(self)@.wf(),
            final(self)@.wf(),
    {
        proof {
            use_type_invariant(&*self);
        }
        match instruction {
            Instruction::Halt => Status::Halted,
            Instruction::Return => match self.ret() {
                Ok(()) => Status::Running,
                Err(fault) => Status::Faulted(fault),
            },
            Instruction::Call { address } => match self.call(address) {
                Ok(()) => Status::Running,
                Err(fault) => Status::Faulted(fault),
            },
            Instruction::AddWithCarry { x, y } => {
                self.add_xy(x, y);
                Status::Running
            },
        }
    }

    /// One round of fetch, decode and dispatch.
    pub fn step(&mut self) -> (status: Status)
        ensures
            (final(self)@, status) == old(self)@.step(),
            old(self)@.wf(),
            final(self)@.wf(),
    {
        proof {
            use_type_invariant(&*self);
        }
        if self.program_counter + 1 >= MEMORY_SIZE {
            return Status::Faulted(Fault::ProgramCounterOutOfBounds);
        }
        let opcode = self.read_opcode();
        self.program_counter += 2;
        match decode(opcode) {
            Some(instruction) => self.execute(instruction),
            None => Status::Faulted(Fault::UnimplementedOpcode { opcode }),
        }
    }

    /// Runs the program at the program counter until it halts or faults,
    /// one step after the other. Every program does one or the other.
    pub fn run(&mut self) -> (res: Result<(), Fault>)
        ensures
            (final(self)@, res) == old(self)@.run(),
            old(self)@.wf(),
            final(self)@.wf(),
    {
        proof {
            use_type_invariant(&*self);
        }
        loop
            invariant
                old(self)@.wf(),
                self@.wf(),
                self@.run() == old(self)@.run(),
            decreases self@.rank(),
        {
            proof {
                if self@.step().1 == Status::Running {
                    lemma_step_lowers_rank(self@);
                }
            }
            match self.step() {
                Status::Running => {},
                Status::Halted => {
                    return Ok(());
                },
                Status::Faulted(fault) => {
                    return Err(fault);
                },
            }
        }
    }
}

} // verus!
