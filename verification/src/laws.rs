//! What holds of the machine in every state.
//!
//! The operations of [`crate::cpu::CPU`] are specified by the functions of
//! [`Machine`], so a law proved of those functions holds of the executable
//! machine as well.

use crate::instruction::{instruction_of, lemma_field_widths, Instruction};
use crate::machine::{
    lemma_step_lowers_rank, Fault, Machine, Status, FLAG_REGISTER, MEMORY_SIZE, REGISTER_COUNT,
};
use crate::word::lemma_join_split;
use vstd::prelude::*;

verus! {

/// A new machine has the sizes that every state keeps.
pub proof fn lemma_init_wf()
    ensures
        Machine::init().wf(),
{
}

/// An instruction word that was written is the word that is read.
pub proof fn lemma_instruction_round_trip(m: Machine, address: int, word: u16)
    requires
        m.wf(),
        Machine::holds_word_at(address),
    ensures
        m.write_instruction(address, word).read_instruction(address) == word,
{
    lemma_join_split(word);
}

/// Writing an instruction word leaves every word that does not overlap it,
/// and everything but the memory, as it was.
pub proof fn lemma_write_instruction_elsewhere(m: Machine, address: int, word: u16, other: int)
    requires
        m.wf(),
        Machine::holds_word_at(address),
        Machine::holds_word_at(other),
        other + 1 < address || address + 1 < other,
    ensures
        m.write_instruction(address, word).read_instruction(other) == m.read_instruction(other),
        m.write_instruction(address, word).wf(),
        m.write_instruction(address, word).registers == m.registers,
        m.write_instruction(address, word).stack == m.stack,
        m.write_instruction(address, word).program_counter == m.program_counter,
{
}

/// A byte that was written to a register is the byte that is read from it,
/// and the other registers keep theirs.
pub proof fn lemma_register_round_trip(m: Machine, index: int, value: u8)
    requires
        m.wf(),
        0 <= index < REGISTER_COUNT,
    ensures
        m.with_register(index, value).registers[index] == value,
        m.with_register(index, value).wf(),
        forall|other: int|
            0 <= other < REGISTER_COUNT && other != index ==> m.with_register(
                index,
                value,
            ).registers[other] == m.registers[other],
{
}

/// A value that the program counter accepts is the value it has afterwards
/// and leaves room for an instruction word; odd values, and the length of
/// the memory and every value above it, are not accepted.
pub proof fn lemma_program_counter_round_trip(m: Machine, value: int)
    requires
        m.wf(),
    ensures
        m.with_program_counter(value).program_counter == value,
        Machine::accepts_program_counter(value) ==> m.with_program_counter(value).wf(),
        Machine::accepts_program_counter(value) ==> m.with_program_counter(value).can_fetch(),
        value % 2 != 0 ==> !Machine::accepts_program_counter(value),
        value >= MEMORY_SIZE ==> !Machine::accepts_program_counter(value),
{
}

/// A call followed at once by a return leaves the machine as it was before
/// the call.
pub proof fn lemma_call_then_return(m: Machine, address: u16)
    requires
        m.wf(),
        m.can_call(),
    ensures
        m.call(address).wf(),
        m.call(address).can_return(),
        m.call(address).ret() == m,
{
    assert(m.call(address).ret().stack =~= m.stack);
}

/// An addition sets the flag register to 0 if the sum of the two operands
/// fits in a byte and to 1 if it does not.
pub proof fn lemma_add_sets_flag(m: Machine, x: int, y: int)
    requires
        m.wf(),
        0 <= x < REGISTER_COUNT,
        0 <= y < REGISTER_COUNT,
    ensures
        m.add_xy(x, y).wf(),
        m.registers[x] + m.registers[y] <= 255 ==> m.add_xy(x, y).registers[FLAG_REGISTER as int]
            == 0,
        m.registers[x] + m.registers[y] > 255 ==> m.add_xy(x, y).registers[FLAG_REGISTER as int]
            == 1,
{
}

/// An addition into a register other than the flag register leaves there
/// the sum of the two operands if it fits in a byte, and 256 less if it
/// does not. Registers that are neither the destination nor the flag
/// register keep their bytes.
pub proof fn lemma_add_wraps_destination(m: Machine, x: int, y: int)
    requires
        m.wf(),
        0 <= x < REGISTER_COUNT,
        0 <= y < REGISTER_COUNT,
        x != FLAG_REGISTER,
    ensures
        m.registers[x] + m.registers[y] <= 255 ==> m.add_xy(x, y).registers[x] == m.registers[x]
            + m.registers[y],
        m.registers[x] + m.registers[y] > 255 ==> m.add_xy(x, y).registers[x] == m.registers[x]
            + m.registers[y] - 256,
        forall|other: int|
            0 <= other < REGISTER_COUNT && other != x && other != FLAG_REGISTER ==> m.add_xy(
                x,
                y,
            ).registers[other] == m.registers[other],
{
}

/// A step keeps the sizes of the state and never writes to memory.
pub proof fn lemma_step_keeps_shape(m: Machine)
    requires
        m.wf(),
    ensures
        m.step().0.wf(),
        m.step().0.memory == m.memory,
{
    if m.can_fetch() {
        lemma_field_widths(m.read_instruction(m.program_counter));
    }
}

/// Running a program keeps the sizes of the state and never writes to
/// memory.
pub proof fn lemma_run_keeps_shape(m: Machine)
    requires
        m.wf(),
    ensures
        m.run().0.wf(),
        m.run().0.memory == m.memory,
    decreases m.rank(),
{
    lemma_step_keeps_shape(m);
    if m.step().1 == Status::Running {
        lemma_step_lowers_rank(m);
        lemma_run_keeps_shape(m.step().0);
    }
}

/// Running is stepping until a step stops: after a step that leaves the
/// machine running, the run goes on from the state it left; a step that
/// halts or faults ends the run in the state it left, with `Ok` or with the
/// fault.
pub proof fn lemma_run_unfolds(m: Machine)
    requires
        m.wf(),
    ensures
        m.step().1 == Status::Running ==> m.run() == m.step().0.run(),
        m.step().1 == Status::Halted ==> m.run() == (m.step().0, Ok::<(), Fault>(())),
        forall|fault: Fault|
            m.step().1 == Status::Faulted(fault) ==> m.run() == (
                m.step().0,
                Err::<(), Fault>(fault),
            ),
{
}

/// A machine that finds the zero word at the program counter halts at once:
/// the program counter moves behind the word and nothing else changes.
pub proof fn lemma_halt_stops(m: Machine)
    requires
        m.wf(),
        m.can_fetch(),
        m.read_instruction(m.program_counter) == 0,
    ensures
        instruction_of(0) == Some(Instruction::Halt),
        m.run() == (m.with_program_counter(m.program_counter + 2), Ok::<(), Fault>(())),
{
}

/// A run that ends with `Ok` ends right behind a zero word: only a halt
/// instruction ends a run without a fault.
pub proof fn lemma_run_ends_behind_halt(m: Machine)
    requires
        m.wf(),
        m.run().1 is Ok,
    ensures
        Machine::holds_word_at(m.run().0.program_counter - 2),
        m.run().0.read_instruction(m.run().0.program_counter - 2) == 0,
    decreases m.rank(),
{
    lemma_step_keeps_shape(m);
    if m.step().1 == Status::Running {
        lemma_step_lowers_rank(m);
        lemma_run_ends_behind_halt(m.step().0);
    } else {
        let opcode = m.read_instruction(m.program_counter);
        assert(instruction_of(opcode) == Some(Instruction::Halt));
        assert(opcode == 0);
    }
}

/// A machine whose program counter leaves no room for a word stops at once
/// and unchanged.
pub proof fn lemma_run_out_of_bounds(m: Machine)
    requires
        m.wf(),
        !m.can_fetch(),
    ensures
        m.run() == (m, Err::<(), Fault>(Fault::ProgramCounterOutOfBounds)),
{
}

} // verus!
