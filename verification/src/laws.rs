//! Laws of the instruction set that span more than one instruction, proved
//! of the model in [`crate::machine`].

use crate::emulator::{CycleResult, EmulatorError, InstructionResult, OpcodeResult};
use crate::keypad::WaitState;
use crate::machine::{Machine, MAX_MEMORY};
use crate::opcode::Opcode;
use vstd::prelude::*;

verus! {

/// The opcode `2NNN` that calls the subroutine at `target`.
pub open spec fn call_opcode(target: u16) -> Opcode {
    Opcode::decoded((0x2000 + target) as u16)
}

/// The opcode `00EE` that returns from a subroutine.
pub open spec fn return_opcode() -> Opcode {
    Opcode::decoded(0x00EE)
}

/// The state after calls to `targets` were executed, first to last.
pub open spec fn after_calls(machine: Machine, targets: Seq<u16>) -> Machine
    decreases targets.len(),
{
    if targets.len() == 0 {
        machine
    } else {
        after_calls(machine, targets.drop_last()).execute_instruction(
            call_opcode(targets.last()),
            0,
        ).0
    }
}

/// The state after `count` returns were executed.
pub open spec fn after_returns(machine: Machine, count: nat) -> Machine
    decreases count,
{
    if count == 0 {
        machine
    } else {
        after_returns(machine, (count - 1) as nat).execute_instruction(return_opcode(), 0).0
    }
}

/// The return addresses that calls to `targets`, executed from `start` on,
/// put on the stack: the address after the first call, then the address
/// after each call's target but the last.
pub open spec fn return_addresses(start: u16, targets: Seq<u16>) -> Seq<u16> {
    Seq::new(
        targets.len(),
        |depth: int|
            if depth == 0 {
                (start + 2) as u16
            } else {
                (targets[depth - 1] + 2) as u16
            },
    )
}

/// Whether calls to `targets` from `start` on, and as many returns after
/// them, all stay inside memory.
pub open spec fn calls_stay_in_memory(start: u16, targets: Seq<u16>) -> bool {
    &&& start + 2 < MAX_MEMORY - 1
    &&& forall|depth: int| 0 <= depth < targets.len() ==> targets[depth] < MAX_MEMORY - 1
    &&& forall|depth: int| 0 <= depth < targets.len() - 1 ==> targets[depth] + 2 < MAX_MEMORY - 1
}

/// Calls only push: after them the program counter is at the last target
/// and the stack is longer by the return addresses, in the order of the
/// calls.
pub proof fn lemma_after_calls(machine: Machine, targets: Seq<u16>)
    requires
        machine.wf(),
        calls_stay_in_memory(machine.program_counter, targets),
    ensures
        after_calls(machine, targets) == (Machine {
            program_counter: if targets.len() == 0 {
                machine.program_counter
            } else {
                targets.last()
            },
            subroutine_return_pointers: machine.subroutine_return_pointers + return_addresses(
                machine.program_counter,
                targets,
            ),
            ..machine
        }),
    decreases targets.len(),
{
    let addresses = return_addresses(machine.program_counter, targets);
    if targets.len() == 0 {
        assert(machine.subroutine_return_pointers + addresses
            =~= machine.subroutine_return_pointers);
    } else {
        let earlier = targets.drop_last();
        lemma_after_calls(machine, earlier);
        let before = after_calls(machine, earlier);
        let target = targets.last();
        assert(call_opcode(target).fourth_nibble == 2 && call_opcode(target).address() == target);
        assert(before.subroutine_return_pointers.push((before.program_counter + 2) as u16)
            =~= machine.subroutine_return_pointers + addresses);
    }
}

/// Returns only pop: after `count` of them, out of a state that `targets`
/// calls have left, the stack has lost its `count` innermost return
/// addresses and the program counter is at the last one taken off.
pub proof fn lemma_after_returns(machine: Machine, targets: Seq<u16>, count: nat)
    requires
        machine.wf(),
        calls_stay_in_memory(machine.program_counter, targets),
        count <= targets.len(),
    ensures
        after_returns(after_calls(machine, targets), count) == (Machine {
            program_counter: if count == 0 {
                after_calls(machine, targets).program_counter
            } else {
                return_addresses(machine.program_counter, targets)[targets.len() - count]
            },
            subroutine_return_pointers: machine.subroutine_return_pointers + return_addresses(
                machine.program_counter,
                targets,
            ).take(targets.len() - count),
            ..machine
        }),
    decreases count,
{
    let addresses = return_addresses(machine.program_counter, targets);
    lemma_after_calls(machine, targets);
    if count == 0 {
        assert(addresses.take(targets.len() as int) =~= addresses);
    } else {
        lemma_after_returns(machine, targets, (count - 1) as nat);
        let before = after_returns(after_calls(machine, targets), (count - 1) as nat);
        let kept = targets.len() - count;
        assert(return_opcode().fourth_nibble == 0 && return_opcode().full_opcode == 0x00EE);
        assert(before.subroutine_return_pointers =~= machine.subroutine_return_pointers
            + addresses.take(kept + 1));
        assert(before.subroutine_return_pointers.last() == addresses[kept]);
        assert(before.subroutine_return_pointers.drop_last()
            =~= machine.subroutine_return_pointers + addresses.take(kept));
    }
}

/// Matched calls and returns cancel: after any number of calls, at least
/// one, followed by as many returns, the call stack is what it was before
/// the first call, so its depth is too, and execution goes on at the
/// address after the first call. Nothing else has changed.
///
/// This holds of the runs that stay inside memory; a call or a return that
/// would leave it ends the run without moving the program counter.
pub proof fn law_calls_and_returns_cancel(machine: Machine, targets: Seq<u16>)
    requires
        machine.wf(),
        targets.len() > 0,
        calls_stay_in_memory(machine.program_counter, targets),
    ensures
        after_calls(machine, targets).subroutine_return_pointers.len()
            == machine.subroutine_return_pointers.len() + targets.len(),
        after_returns(after_calls(machine, targets), targets.len()) == (Machine {
            program_counter: (machine.program_counter + 2) as u16,
            ..machine
        }),
{
    lemma_after_calls(machine, targets);
    lemma_after_returns(machine, targets, targets.len());
    assert(return_addresses(machine.program_counter, targets).take(0) =~= Seq::<u16>::empty());
    assert(machine.subroutine_return_pointers + Seq::<u16>::empty()
        =~= machine.subroutine_return_pointers);
}

/// A jump `1NNN` sets the program counter to `NNN` exactly, from any
/// state, and touches neither registers, memory, stack nor display. The
/// one target it refuses is the last byte of memory, `0xFFF`, where no
/// instruction fits: the run then ends with the program counter unmoved.
pub proof fn law_jump_sets_program_counter(machine: Machine, opcode: Opcode, random: u8)
    requires
        machine.wf(),
        opcode.wf(),
        opcode.fourth_nibble == 1,
    ensures
        opcode.address() < MAX_MEMORY - 1 ==> machine.execute_instruction(opcode, random) == (
            Machine {
                program_counter: opcode.address(),
                end_loop_reached: machine.end_loop_reached || opcode.address()
                    == machine.program_counter,
                ..machine
            },
            Ok::<InstructionResult, EmulatorError>(InstructionResult::Working),
        ),
        opcode.address() >= MAX_MEMORY - 1 ==> machine.execute_instruction(opcode, random).1
            == Err::<InstructionResult, EmulatorError>(EmulatorError::AddressBoundsViolation)
            && machine.execute_instruction(opcode, random).0.program_counter
            == machine.program_counter,
{
}

/// Bulk store and load round-trip: once `FX55` has stored `V0` to `VX`,
/// an `FX65` with the same `X` brings the stored values back into `V0` to
/// `VX`, whatever has happened to the registers in between, as long as the
/// memory written and the address register are as the store left them.
/// Neither instruction changes the address register.
pub proof fn law_store_then_load_restores(machine: Machine, later: Machine, opcode: Opcode)
    requires
        machine.wf(),
        later.wf(),
        opcode.wf(),
        machine.address_register + opcode.third_nibble < MAX_MEMORY,
        later.address_register == machine.address_register,
        later.memory_space == machine.store_registers_to_address(opcode).0.memory_space,
    ensures
        machine.store_registers_to_address(opcode).1 == OpcodeResult::Continue,
        later.load_registers_from_address(opcode).1 == OpcodeResult::Continue,
        machine.store_registers_to_address(opcode).0.address_register == machine.address_register,
        later.load_registers_from_address(opcode).0.address_register == machine.address_register,
        forall|register: int|
            0 <= register <= opcode.third_nibble ==> later.load_registers_from_address(
                opcode,
            ).0.registers[register] == machine.registers[register],
        later.registers == machine.registers ==> later.load_registers_from_address(
            opcode,
        ).0.registers == machine.registers,
{
    let loaded = later.load_registers_from_address(opcode).0;
    if later.registers == machine.registers {
        assert(loaded.registers =~= machine.registers);
    }
}

/// A cycle of a running machine is one instruction: the program counter
/// moves as the outcome of the instruction at it says, by two, by four, to
/// the jump target, or not at all, and the cycle reports what that one
/// instruction meant. A move that would leave memory is refused.
pub proof fn law_cycle_is_one_instruction(machine: Machine, random: u8)
    requires
        machine.wf(),
        machine.wait_state == WaitState::Running,
    ensures
        ({
            let here = machine.program_counter;
            let outcome = machine.process_opcode(machine.load_opcode(), random).1;
            let (after, result) = machine.execute_cycle(random);
            &&& outcome == OpcodeResult::Continue && here + 2 < MAX_MEMORY - 1
                ==> after.program_counter == here + 2 && result == Ok::<
                CycleResult,
                EmulatorError,
            >(CycleResult::Working)
            &&& outcome == OpcodeResult::SkipNext && here + 4 < MAX_MEMORY - 1
                ==> after.program_counter == here + 4 && result == Ok::<
                CycleResult,
                EmulatorError,
            >(CycleResult::Working)
            &&& outcome == OpcodeResult::RequestRedraw && here + 2 < MAX_MEMORY - 1
                ==> after.program_counter == here + 2 && result == Ok::<
                CycleResult,
                EmulatorError,
            >(CycleResult::RedrawRequested)
            &&& (outcome matches OpcodeResult::Jump(target) ==> (target < MAX_MEMORY - 1
                ==> after.program_counter == target && result == Ok::<CycleResult, EmulatorError>(
                CycleResult::Working,
            )))
            &&& outcome == OpcodeResult::Terminate ==> after.program_counter == here && result
                == Ok::<CycleResult, EmulatorError>(CycleResult::Terminated)
            &&& outcome is WaitingForKey ==> after.program_counter == here && result == Ok::<
                CycleResult,
                EmulatorError,
            >(CycleResult::Working)
            &&& outcome == OpcodeResult::Malformed ==> after.program_counter == here && result
                == Err::<CycleResult, EmulatorError>(EmulatorError::InvalidOpcode)
            &&& outcome == OpcodeResult::OutOfBounds ==> after.program_counter == here && result
                == Err::<CycleResult, EmulatorError>(EmulatorError::AddressBoundsViolation)
            &&& result == Err::<CycleResult, EmulatorError>(EmulatorError::AddressBoundsViolation)
                ==> after.program_counter == here
        }),
{
}

/// A cycle does not tick, and only the instruction that sets a timer
/// changes one: the delay timer is as it was unless the cycle executed
/// `FX15`, the sound timer unless it executed `FX18`. So a timer at zero
/// stays at zero, and none ever grows, through any other cycle.
pub proof fn law_cycle_leaves_timers(machine: Machine, random: u8)
    requires
        machine.wf(),
    ensures
        machine.wait_state != WaitState::Running || !(machine.load_opcode().fourth_nibble == 0xF
            && machine.load_opcode().right_byte == 0x15) ==> machine.execute_cycle(
            random,
        ).0.timer_counter == machine.timer_counter,
        machine.wait_state != WaitState::Running || !(machine.load_opcode().fourth_nibble == 0xF
            && machine.load_opcode().right_byte == 0x18) ==> machine.execute_cycle(
            random,
        ).0.sound_counter == machine.sound_counter,
{
}

} // verus!
