//! The emulator's state and its lifecycle: construction, program loading
//! and instruction fetch.

use crate::display::Display;
use crate::keypad::WaitState;
use crate::machine::{Machine, BUILTIN_SPRITES, MAX_MEMORY, MAX_PROGRAM, PROGRAM_START};
use crate::opcode::Opcode;
use vstd::prelude::*;

verus! {

/// What the dispatcher reports after one instruction.
#[derive(Clone, Copy, Debug, PartialEq, Eq, Structural)]
pub enum OpcodeResult {
    /// Go on with the next instruction.
    Continue,
    /// The program has ended.
    Terminate,
    /// Go on at this address.
    Jump(u16),
    /// Go on with the instruction after the next.
    SkipNext,
    /// The word is no instruction, or a return found nothing to return to.
    Malformed,
    /// Go on with the next instruction; the display has changed.
    RequestRedraw,
    /// No key edge was seen; wait for one, for this register.
    WaitingForKey(u8),
    /// The instruction would have reached beyond the end of memory.
    OutOfBounds,
}

/// What one executed instruction means for the host.
#[derive(Clone, Copy, Debug, PartialEq, Eq, Structural)]
pub enum InstructionResult {
    /// Nothing to do.
    Working,
    /// The display should be repainted.
    RedrawRequested,
    /// The program has ended.
    Terminated,
}

/// What one cycle, or one frame of cycles, means for the host.
#[derive(Clone, Copy, Debug, PartialEq, Eq, Structural)]
pub enum CycleResult {
    /// Nothing to do.
    Working,
    /// The display should be repainted.
    RedrawRequested,
    /// The program has ended.
    Terminated,
}

/// The ways in which a run ends for good.
#[derive(Clone, Copy, Debug, PartialEq, Eq, Structural)]
pub enum EmulatorError {
    /// The program does not fit into memory.
    RomLoadFailure,
    /// The word fetched is no instruction, or a return was executed with
    /// nothing to return to.
    InvalidOpcode,
    /// The program counter would have left memory, or an instruction
    /// reached beyond its end.
    AddressBoundsViolation,
}

/// A CHIP-8 machine.
///
/// The fields are open to the host and to tests. The key states are the
/// host's to write before each cycle; `program_counter`, `wait_state` and
/// `display` are to be changed only in ways that keep [`Emulator::wf`].
pub struct Emulator {
    /// `V0` to `VF`.
    pub registers: [u8; 16],
    /// `I`.
    pub address_register: u16,
    pub memory_space: [u8; MAX_MEMORY],
    /// The delay timer.
    pub timer_counter: u8,
    /// The sound timer.
    pub sound_counter: u8,
    pub program_counter: u16,
    /// The call stack, innermost return address last.
    pub subroutine_return_pointers: Vec<u16>,
    /// Which keys are down, by key digit.
    pub key_states: [bool; 16],
    /// Which keys were down at the end of the cycle before.
    pub previous_key_states: [bool; 16],
    pub wait_state: WaitState,
    pub display: Display,
    /// Whether a jump to its own address has been executed.
    pub end_loop_reached: bool,
}

impl View for Emulator {
    type V = Machine;

    open spec fn view(&self) -> Machine {
        Machine {
            registers: self.registers@,
            address_register: self.address_register,
            memory_space: self.memory_space@,
            timer_counter: self.timer_counter,
            sound_counter: self.sound_counter,
            program_counter: self.program_counter,
            subroutine_return_pointers: self.subroutine_return_pointers@,
            key_states: self.key_states@,
            previous_key_states: self.previous_key_states@,
            wait_state: self.wait_state,
            pixels: self.display@,
            end_loop_reached: self.end_loop_reached,
        }
    }
}

impl Emulator {
    /// The state is well formed and the display holds only the two
    /// canonical colours.
    pub open spec fn wf(self) -> bool {
        self@.wf() && self.display.wf()
    }

    /// A new emulator that draws on `display`, which is cleared.
    pub fn new(display: Display) -> (emulator: Emulator)
        ensures
            emulator.wf(),
            emulator@ == Machine::fresh(),
    {
        let mut emulator = Emulator {
            registers: [0u8; 16],
            address_register: 0,
            memory_space: [0u8; MAX_MEMORY],
            timer_counter: 0,
            sound_counter: 0,
            program_counter: PROGRAM_START,
            subroutine_return_pointers: Vec::new(),
            key_states: [false; 16],
            previous_key_states: [false; 16],
            wait_state: WaitState::Running,
            display,
            end_loop_reached: false,
        };
        let mut address: usize = 0;
        while address < 80
            invariant
                address <= 80,
                forall|below: int| 0 <= below < address ==> emulator.memory_space@[below]
                    == BUILTIN_SPRITES@[below],
                forall|above: int| address <= above < MAX_MEMORY ==> emulator.memory_space@[above]
                    == 0,
                emulator.registers@ == Machine::fresh().registers,
                emulator.key_states@ == Machine::fresh().key_states,
                emulator.previous_key_states@ == Machine::fresh().previous_key_states,
                emulator.subroutine_return_pointers@ == Seq::<u16>::empty(),
                emulator.address_register == 0,
                emulator.timer_counter == 0,
                emulator.sound_counter == 0,
                emulator.program_counter == PROGRAM_START,
                emulator.wait_state == WaitState::Running,
                !emulator.end_loop_reached,
            decreases 80 - address,
        {
            emulator.memory_space[address] = BUILTIN_SPRITES[address];
            address += 1;
        }
        emulator.display.clear();
        assert(emulator.memory_space@ =~= Machine::fresh().memory_space);
        emulator
    }

    /// A new emulator with a display of its own.
    pub fn new_headless() -> (emulator: Emulator)
        ensures
            emulator.wf(),
            emulator@ == Machine::fresh(),
    {
        Emulator::new(Display::new())
    }

    /// Copies the program `rom` into memory at the load address and tells
    /// how many bytes it has. A program too long for the memory above the
    /// load address is refused, and nothing is changed.
    pub fn load_program(&mut self, rom: &[u8]) -> (loaded: Result<usize, EmulatorError>)
        ensures
            old(self).wf() ==> final(self).wf(),
            rom@.len() <= MAX_PROGRAM ==> loaded == Ok::<usize, EmulatorError>(rom@.len() as usize)
                && final(self)@ == old(self)@.load_program(rom@) && final(self).display == old(
                self,
            ).display,
            rom@.len() > MAX_PROGRAM ==> loaded == Err::<usize, EmulatorError>(
                EmulatorError::RomLoadFailure,
            ) && *final(self) == *old(self),
    {
        if rom.len() > MAX_PROGRAM {
            return Err(EmulatorError::RomLoadFailure);
        }
        let mut offset: usize = 0;
        while offset < rom.len()
            invariant
                offset <= rom@.len() <= MAX_PROGRAM,
                forall|address: int|
                    0 <= address < MAX_MEMORY ==> self.memory_space@[address] == if PROGRAM_START
                        <= address < PROGRAM_START + offset {
                        rom@[address - PROGRAM_START]
                    } else {
                        old(self).memory_space@[address]
                    },
                self.registers == old(self).registers,
                self.address_register == old(self).address_register,
                self.timer_counter == old(self).timer_counter,
                self.sound_counter == old(self).sound_counter,
                self.program_counter == old(self).program_counter,
                self.subroutine_return_pointers == old(self).subroutine_return_pointers,
                self.key_states == old(self).key_states,
                self.previous_key_states == old(self).previous_key_states,
                self.wait_state == old(self).wait_state,
                self.display == old(self).display,
                self.end_loop_reached == old(self).end_loop_reached,
            decreases rom@.len() - offset,
        {
            self.memory_space[PROGRAM_START as usize + offset] = rom[offset];
            offset += 1;
        }
        assert(self.memory_space@ =~= old(self)@.load_program(rom@).memory_space);
        Ok(rom.len())
    }

    /// Fetches the instruction that the program counter points at: two
    /// bytes, most significant first.
    pub fn load_opcode(&self) -> (opcode: Opcode)
        requires
            self.wf(),
        ensures
            opcode == self@.load_opcode(),
            opcode.wf(),
    {
        let address = self.program_counter as usize;
        Opcode::from_bytes(self.memory_space[address], self.memory_space[address + 1])
    }

    /// Remembers the keys of this cycle as those of the cycle before. Edges
    /// are measured against what was remembered last.
    pub fn snapshot_keys(&mut self)
        ensures
            old(self).wf() ==> final(self).wf(),
            final(self)@ == old(self)@.snapshot_keys(),
            final(self).display == old(self).display,
    {
        self.previous_key_states = self.key_states;
    }
}

} // verus!
