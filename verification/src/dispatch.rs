//! The dispatcher and the driver steps around it: decode group by group,
//! move the program counter as the outcome says, poll the keys while
//! waiting. A cycle is one such step; a frame is a timer tick and a batch
//! of cycles.

use crate::emulator::{CycleResult, Emulator, EmulatorError, InstructionResult, OpcodeResult};
use crate::keypad::{find_key_edge, WaitState};
use crate::machine::{lemma_frame_over, Machine, CYCLES_PER_FRAME, MAX_MEMORY, REGISTER_COUNT};
use crate::opcode::Opcode;
use crate::timers::tick;
use vstd::prelude::*;

verus! {

impl Emulator {
    /// Executes one decoded instruction and reports its outcome. The
    /// program counter is not moved.
    ///
    /// Only `CXNN` draws a random byte; of every other instruction the
    /// state afterwards and the outcome are determined.
    pub fn process_opcode(&mut self, opcode: Opcode) -> (result: OpcodeResult)
        requires
            old(self).wf(),
            opcode.wf(),
        ensures
            final(self).wf(),
            exists|random: u8|
                (final(self)@, result) == #[trigger] old(self)@.process_opcode(opcode, random),
            opcode.fourth_nibble != 0xC ==> (final(self)@, result) == old(self)@.process_opcode(
                opcode,
                0,
            ),
            result matches OpcodeResult::WaitingForKey(register) ==> register < REGISTER_COUNT,
    {
        let result = match opcode.fourth_nibble {
            0x0 => {
                match opcode.full_opcode {
                    0x00E0 => self.clear_screen(),
                    0x00EE => self.return_from_subroutine(),
                    0x0000 => OpcodeResult::Terminate,
                    _ => OpcodeResult::Continue,
                }
            },
            0x1 => self.jump(opcode),
            0x2 => self.call_subroutine(opcode),
            0x3 => self.skip_next_if_x_reg_equal(opcode),
            0x4 => self.skip_next_if_x_reg_not_equal(opcode),
            0x5 => self.skip_next_if_regs_equal(opcode),
            0x6 => self.x_reg_store_value(opcode),
            0x7 => self.x_reg_add_value(opcode),
            0x8 => match opcode.first_nibble {
                0x0 => self.y_reg_copy_to_x_reg(opcode),
                0x1 => self.x_reg_or_y_reg(opcode),
                0x2 => self.x_reg_and_y_reg(opcode),
                0x3 => self.x_reg_xor_reg_y(opcode),
                0x4 => self.x_reg_plus_y_reg(opcode),
                0x5 => self.x_reg_minus_y_reg(opcode),
                0x6 => self.shift_register_right(opcode),
                0x7 => self.y_reg_minus_x_reg(opcode),
                0xE => self.shift_register_left(opcode),
                _ => OpcodeResult::Malformed,
            },
            0x9 => self.skip_next_if_not_equal(opcode),
            0xA => self.store_address(opcode),
            0xB => self.jump_with_offset(opcode),
            0xC => self.generate_rnd_num(opcode),
            0xD => self.draw_sprite(opcode),
            0xE => self.skip_next_if_key_is_down(opcode),
            0xF => match opcode.right_byte {
                0x07 => self.load_delay_counter_value(opcode),
                0x0A => self.wait_for_key_and_store(opcode),
                0x15 => self.set_delay_counter(opcode),
                0x18 => self.set_sound_counter(opcode),
                0x1E => self.add_to_address_reg(opcode),
                0x29 => self.lookup_sprite_for_digit(opcode),
                0x33 => self.store_bcd_at_address(opcode),
                0x55 => self.store_registers_to_address(opcode),
                0x65 => self.load_registers_from_address(opcode),
                _ => OpcodeResult::Malformed,
            },
            _ => OpcodeResult::Malformed,
        };
        proof {
            if opcode.fourth_nibble == 0xC {
                let random = choose|random: u8|
                    (self@, result) == #[trigger] old(self)@.store_masked_random(opcode, random);
                assert((self@, result) == old(self)@.process_opcode(opcode, random));
            } else {
                assert((self@, result) == old(self)@.process_opcode(opcode, 0));
            }
        }
        result
    }

    /// Moves the program counter to `target` if an instruction fits there
    /// before the last byte of memory, and reports `result`; refuses the
    /// move otherwise.
    fn move_to(&mut self, target: usize, result: InstructionResult) -> (moved: Result<
        InstructionResult,
        EmulatorError,
    >)
        requires
            old(self).wf(),
        ensures
            final(self).wf(),
            (final(self)@, moved) == old(self)@.move_to(target as int, result),
    {
        if target < MAX_MEMORY - 1 {
            self.program_counter = target as u16;
            Ok(result)
        } else {
            Err(EmulatorError::AddressBoundsViolation)
        }
    }

    /// Acts on the dispatcher's `outcome`: moves the program counter, or
    /// enters the wait for a key, and tells the host what the instruction
    /// meant. A malformed instruction and a move out of memory end the
    /// run with an error.
    pub fn settle(&mut self, outcome: OpcodeResult) -> (result: Result<
        InstructionResult,
        EmulatorError,
    >)
        requires
            old(self).wf(),
            outcome matches OpcodeResult::WaitingForKey(register) ==> register < REGISTER_COUNT,
        ensures
            final(self).wf(),
            (final(self)@, result) == old(self)@.settle(outcome),
    {
        let here = self.program_counter as usize;
        match outcome {
            OpcodeResult::Continue => self.move_to(here + 2, InstructionResult::Working),
            OpcodeResult::SkipNext => self.move_to(here + 4, InstructionResult::Working),
            OpcodeResult::Jump(target) => self.move_to(
                target as usize,
                InstructionResult::Working,
            ),
            OpcodeResult::RequestRedraw => self.move_to(
                here + 2,
                InstructionResult::RedrawRequested,
            ),
            OpcodeResult::WaitingForKey(register) => {
                self.wait_state = WaitState::WaitingForKey(register);
                Ok(InstructionResult::Working)
            },
            OpcodeResult::Terminate => Ok(InstructionResult::Terminated),
            OpcodeResult::Malformed => Err(EmulatorError::InvalidOpcode),
            OpcodeResult::OutOfBounds => Err(EmulatorError::AddressBoundsViolation),
        }
    }

    /// Executes `opcode` and moves the program counter accordingly.
    pub fn execute_instruction(&mut self, opcode: Opcode) -> (result: Result<
        InstructionResult,
        EmulatorError,
    >)
        requires
            old(self).wf(),
            opcode.wf(),
        ensures
            final(self).wf(),
            exists|random: u8|
                (final(self)@, result) == #[trigger] old(self)@.execute_instruction(
                    opcode,
                    random,
                ),
            opcode.fourth_nibble != 0xC ==> (final(self)@, result) == old(
                self,
            )@.execute_instruction(opcode, 0),
    {
        let outcome = self.process_opcode(opcode);
        let ghost executed = self@;
        let result = self.settle(outcome);
        proof {
            let random = choose|random: u8|
                (executed, outcome) == #[trigger] old(self)@.process_opcode(opcode, random);
            assert((self@, result) == old(self)@.execute_instruction(opcode, random));
        }
        result
    }

    /// One poll of an emulator that waits for a key to go to `register`.
    /// On an edge the key's digit is stored, the wait ends and the program
    /// counter moves past the instruction that waited, which so completes
    /// once; with no edge nothing changes.
    pub fn poll_key(&mut self, register: u8) -> (result: Result<InstructionResult, EmulatorError>)
        requires
            old(self).wf(),
            register < REGISTER_COUNT,
        ensures
            final(self).wf(),
            (final(self)@, result) == old(self)@.poll_key(register),
    {
        match find_key_edge(&self.key_states, &self.previous_key_states) {
            Some(key) => {
                self.wait_state = WaitState::Running;
                self.registers[register as usize] = key;
                self.settle(OpcodeResult::Continue)
            },
            None => Ok(InstructionResult::Working),
        }
    }

    /// One driver step. A waiting emulator polls the keys; a running one
    /// fetches the instruction at the program counter and executes it.
    /// Either way the key states are then remembered as those of the cycle
    /// before.
    pub fn execute_next_instruction(&mut self) -> (result: Result<
        InstructionResult,
        EmulatorError,
    >)
        requires
            old(self).wf(),
        ensures
            final(self).wf(),
            exists|random: u8|
                (final(self)@, result) == #[trigger] old(self)@.execute_next_instruction(random),
            old(self).wait_state != WaitState::Running || old(self)@.load_opcode().fourth_nibble
                != 0xC ==> (final(self)@, result) == old(self)@.execute_next_instruction(0),
    {
        let result = match self.wait_state {
            WaitState::WaitingForKey(register) => {
                let result = self.poll_key(register);
                assert((self@.snapshot_keys(), result) == old(self)@.execute_next_instruction(0));
                result
            },
            WaitState::Running => {
                let opcode = self.load_opcode();
                let result = self.execute_instruction(opcode);
                proof {
                    let random = choose|random: u8|
                        (self@, result) == #[trigger] old(self)@.execute_instruction(
                            opcode,
                            random,
                        );
                    assert((self@.snapshot_keys(), result) == old(
                        self,
                    )@.execute_next_instruction(random));
                    if opcode.fourth_nibble != 0xC {
                        assert((self@.snapshot_keys(), result) == old(
                            self,
                        )@.execute_next_instruction(0));
                    }
                }
                result
            },
        };
        self.snapshot_keys();
        result
    }

    /// Lets both timers tick once.
    pub fn update_time_counters(&mut self)
        ensures
            old(self).wf() ==> final(self).wf(),
            final(self)@ == old(self)@.update_time_counters(),
            final(self).display == old(self).display,
    {
        tick(&mut self.timer_counter);
        tick(&mut self.sound_counter);
    }

    /// One cycle: one driver step, as [`Emulator::execute_next_instruction`]
    /// makes it, reported as the result of a cycle. A waiting emulator
    /// polls the keys; a running one executes the one instruction at the
    /// program counter. The timers do not tick: that is
    /// [`Emulator::update_time_counters`]. The host writes the key states
    /// before each cycle.
    pub fn execute_cycle(&mut self) -> (result: Result<CycleResult, EmulatorError>)
        requires
            old(self).wf(),
        ensures
            final(self).wf(),
            exists|random: u8|
                (final(self)@, result) == #[trigger] old(self)@.execute_cycle(random),
            old(self).wait_state != WaitState::Running || old(self)@.load_opcode().fourth_nibble
                != 0xC ==> (final(self)@, result) == old(self)@.execute_cycle(0),
    {
        let step = self.execute_next_instruction();
        let result = match step {
            Ok(InstructionResult::Working) => Ok(CycleResult::Working),
            Ok(InstructionResult::RedrawRequested) => Ok(CycleResult::RedrawRequested),
            Ok(InstructionResult::Terminated) => Ok(CycleResult::Terminated),
            Err(error) => Err(error),
        };
        proof {
            let random = choose|random: u8|
                (self@, step) == #[trigger] old(self)@.execute_next_instruction(random);
            assert((self@, result) == old(self)@.execute_cycle(random));
        }
        result
    }

    /// One frame of the host's loop: the timers tick once, then up to
    /// [`CYCLES_PER_FRAME`] cycles are run. The cycles stop early when the
    /// program ends or the run fails. The frame asks for a repaint if any
    /// of its cycles did. The key states are read as they stand when the
    /// frame begins; a host that has new ones for each cycle runs the
    /// cycles itself.
    pub fn execute_frame(&mut self) -> (result: Result<CycleResult, EmulatorError>)
        requires
            old(self).wf(),
        ensures
            final(self).wf(),
            exists|randoms: Seq<u8>|
                randoms.len() == CYCLES_PER_FRAME && (final(self)@, result) == #[trigger] old(
                    self,
                )@.execute_frame(randoms),
    {
        self.update_time_counters();
        let ghost start = self@;
        let ghost mut randoms: Seq<u8> = Seq::empty();
        let mut result: Result<CycleResult, EmulatorError> = Ok(CycleResult::Working);
        let mut executed: usize = 0;
        let mut over = false;
        while executed < CYCLES_PER_FRAME && !over
            invariant
                self.wf(),
                executed <= CYCLES_PER_FRAME,
                randoms.len() == executed,
                (self@, result) == start.run_cycles(randoms),
                over == Machine::frame_is_over(result),
            decreases CYCLES_PER_FRAME - executed,
        {
            let ghost before = self@;
            let ghost so_far = randoms;
            let cycle = self.execute_cycle();
            proof {
                let random = choose|random: u8|
                    (self@, cycle) == #[trigger] before.execute_cycle(random);
                randoms = so_far.push(random);
                assert(randoms.drop_last() =~= so_far);
            }
            match cycle {
                Ok(CycleResult::Working) => {},
                Ok(CycleResult::RedrawRequested) => {
                    result = cycle;
                },
                Ok(CycleResult::Terminated) => {
                    result = cycle;
                    over = true;
                },
                Err(_) => {
                    result = cycle;
                    over = true;
                },
            }
            executed += 1;
        }
        proof {
            let rest = Seq::new((CYCLES_PER_FRAME - executed) as nat, |index: int| 0u8);
            if over {
                lemma_frame_over(start, randoms, rest);
            } else {
                assert(randoms + rest =~= randoms);
            }
            assert((randoms + rest).len() == CYCLES_PER_FRAME);
            assert((self@, result) == old(self)@.execute_frame(randoms + rest));
        }
        result
    }
}

} // verus!
