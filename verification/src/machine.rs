//! The mathematical model of the interpreter.
//!
//! [`Machine`] is the whole state of an emulator as plain mathematical
//! values, and the functions on it say, instruction by instruction, what the
//! interpreter does: each takes a state and a decoded opcode and gives the
//! state afterwards together with the outcome that the dispatcher reports.
//! The executable code in the other modules is proved to compute exactly
//! these functions.
//!
//! Decisions taken where the instruction set leaves room:
//!
//! * `FX55` and `FX65` leave the address register as it was.
//! * The shifts `8XY6` and `8XYE` shift `VX` in place; `VY` is not read.
//! * The arithmetic instructions write their result first and the flag
//!   second, the shifts the flag first and the result second; this decides
//!   what `VF` holds when `X` is `0xF`.
//! * An instruction that would read or write memory beyond its end changes
//!   nothing and reports [`OpcodeResult::OutOfBounds`].
//! * `EX9E` and `EXA1` treat a register value above `0xF` as a key that is
//!   not down.
//! * The low nibble of `5XYN` and `9XYN` is not inspected.

use crate::display::{blank, collides, drawn, PIXEL_COUNT};
use crate::emulator::{CycleResult, EmulatorError, InstructionResult, OpcodeResult};
use crate::keypad::{first_key_edge, key_is_down, WaitState, KEY_COUNT};
use crate::opcode::Opcode;
use crate::timers::ticked;
use vstd::prelude::*;

verus! {

/// Bytes of memory.
pub const MAX_MEMORY: usize = 4096;

/// General registers, `V0` to `VF`.
pub const REGISTER_COUNT: usize = 16;

/// The register that doubles as the carry, borrow, shift and collision flag.
pub const FLAG_REGISTER: usize = 0xF;

/// Where programs are loaded and where execution starts.
pub const PROGRAM_START: u16 = 0x200;

/// The most bytes a program can have.
pub const MAX_PROGRAM: usize = 3584;

/// Cycles that one frame runs at most.
pub const CYCLES_PER_FRAME: usize = 9;

/// Bytes in each built-in digit sprite.
pub const DIGIT_SPRITE_LEN: u16 = 5;

/// The built-in sprites for the hex digits `0` to `F`, five bytes each, as
/// they stand at the bottom of memory.
pub const BUILTIN_SPRITES: [u8; 80] = [
    0xF0, 0x90, 0x90, 0x90, 0xF0,
    0x20, 0x60, 0x20, 0x20, 0x70,
    0xF0, 0x10, 0xF0, 0x80, 0xF0,
    0xF0, 0x10, 0xF0, 0x10, 0xF0,
    0x90, 0x90, 0xF0, 0x10, 0x10,
    0xF0, 0x80, 0xF0, 0x10, 0xF0,
    0xF0, 0x80, 0xF0, 0x90, 0xF0,
    0xF0, 0x10, 0x20, 0x40, 0x40,
    0xF0, 0x90, 0xF0, 0x90, 0xF0,
    0xF0, 0x90, 0xF0, 0x10, 0xF0,
    0xF0, 0x90, 0xF0, 0x90, 0x90,
    0xE0, 0x90, 0xE0, 0x90, 0xE0,
    0xF0, 0x80, 0x80, 0x80, 0xF0,
    0xE0, 0x90, 0x90, 0x90, 0xE0,
    0xF0, 0x80, 0xF0, 0x80, 0xF0,
    0xF0, 0x80, 0xF0, 0x80, 0x80,
];

/// The state of an emulator.
pub struct Machine {
    /// `V0` to `VF`.
    pub registers: Seq<u8>,
    /// `I`.
    pub address_register: u16,
    pub memory_space: Seq<u8>,
    /// The delay timer.
    pub timer_counter: u8,
    /// The sound timer.
    pub sound_counter: u8,
    pub program_counter: u16,
    /// The call stack, innermost return address last.
    pub subroutine_return_pointers: Seq<u16>,
    /// Which keys are down.
    pub key_states: Seq<bool>,
    /// Which keys were down at the end of the cycle before.
    pub previous_key_states: Seq<bool>,
    pub wait_state: WaitState,
    /// The display, cell `(x, y)` at index `x + 64 * y`.
    pub pixels: Seq<bool>,
    /// Whether a jump to its own address has been executed.
    pub end_loop_reached: bool,
}

impl Machine {
    /// The parts have their sizes, the program counter leaves room for a
    /// whole instruction, and a pending key goes to a register that exists.
    pub open spec fn wf(self) -> bool {
        &&& self.registers.len() == REGISTER_COUNT
        &&& self.memory_space.len() == MAX_MEMORY
        &&& self.key_states.len() == KEY_COUNT
        &&& self.previous_key_states.len() == KEY_COUNT
        &&& self.pixels.len() == PIXEL_COUNT
        &&& self.program_counter < MAX_MEMORY - 1
        &&& (self.wait_state matches WaitState::WaitingForKey(register) ==> register
            < REGISTER_COUNT)
    }

    /// The state of a new emulator: everything zero, the built-in sprites
    /// at the bottom of memory, the display blank, the program counter at
    /// the load address.
    pub open spec fn fresh() -> Machine {
        Machine {
            registers: Seq::new(REGISTER_COUNT as nat, |register: int| 0u8),
            address_register: 0,
            memory_space: Seq::new(
                MAX_MEMORY as nat,
                |address: int|
                    if address < 80 {
                        BUILTIN_SPRITES@[address]
                    } else {
                        0u8
                    },
            ),
            timer_counter: 0,
            sound_counter: 0,
            program_counter: PROGRAM_START,
            subroutine_return_pointers: Seq::empty(),
            key_states: Seq::new(KEY_COUNT as nat, |key: int| false),
            previous_key_states: Seq::new(KEY_COUNT as nat, |key: int| false),
            wait_state: WaitState::Running,
            pixels: blank(),
            end_loop_reached: false,
        }
    }

    /// The state after `rom` was copied to the load address.
    pub open spec fn load_program(self, rom: Seq<u8>) -> Machine {
        Machine {
            memory_space: Seq::new(
                MAX_MEMORY as nat,
                |address: int|
                    if PROGRAM_START <= address < PROGRAM_START + rom.len() {
                        rom[address - PROGRAM_START]
                    } else {
                        self.memory_space[address]
                    },
            ),
            ..self
        }
    }

    /// `VX`.
    pub open spec fn vx(self, opcode: Opcode) -> u8 {
        self.registers[opcode.third_nibble as int]
    }

    /// `VY`.
    pub open spec fn vy(self, opcode: Opcode) -> u8 {
        self.registers[opcode.second_nibble as int]
    }

    /// The state with `value` in the register with number `register`.
    pub open spec fn with_register(self, register: int, value: u8) -> Machine {
        Machine { registers: self.registers.update(register, value), ..self }
    }

    /// The state with `value` in `VX`.
    pub open spec fn with_vx(self, opcode: Opcode, value: u8) -> Machine {
        self.with_register(opcode.third_nibble as int, value)
    }

    /// The state with `VF` at 1 if `raised`, at 0 if not.
    pub open spec fn with_flag(self, raised: bool) -> Machine {
        self.with_register(
            FLAG_REGISTER as int,
            if raised {
                1u8
            } else {
                0u8
            },
        )
    }

    /// `00E0`: every cell unset.
    pub open spec fn clear_screen(self) -> (Machine, OpcodeResult) {
        (Machine { pixels: blank(), ..self }, OpcodeResult::RequestRedraw)
    }

    /// `00EE`: the innermost return address is taken off the stack and
    /// jumped to. With nothing on the stack, or with a zero taken off it,
    /// there is no address to return to.
    pub open spec fn return_from_subroutine(self) -> (Machine, OpcodeResult) {
        if self.subroutine_return_pointers.len() == 0 {
            (self, OpcodeResult::Malformed)
        } else {
            let address = self.subroutine_return_pointers.last();
            let popped = Machine {
                subroutine_return_pointers: self.subroutine_return_pointers.drop_last(),
                ..self
            };
            if address != 0 {
                (popped, OpcodeResult::Jump(address))
            } else {
                (popped, OpcodeResult::Malformed)
            }
        }
    }

    /// `1NNN`: jump to `NNN`. A jump to the address it stands at is the
    /// idle loop that ends a program, and is remembered.
    pub open spec fn jump(self, opcode: Opcode) -> (Machine, OpcodeResult) {
        (
            Machine {
                end_loop_reached: self.end_loop_reached || opcode.address()
                    == self.program_counter,
                ..self
            },
            OpcodeResult::Jump(opcode.address()),
        )
    }

    /// `2NNN`: the address after this instruction goes onto the stack, then
    /// jump to `NNN`.
    pub open spec fn call_subroutine(self, opcode: Opcode) -> (Machine, OpcodeResult) {
        (
            Machine {
                subroutine_return_pointers: self.subroutine_return_pointers.push(
                    (self.program_counter + 2) as u16,
                ),
                ..self
            },
            OpcodeResult::Jump(opcode.address()),
        )
    }

    /// `3XNN`: skip the next instruction if `VX == NN`.
    pub open spec fn skip_next_if_x_reg_equal(self, opcode: Opcode) -> (Machine, OpcodeResult) {
        if self.vx(opcode) == opcode.right_byte {
            (self, OpcodeResult::SkipNext)
        } else {
            (self, OpcodeResult::Continue)
        }
    }

    /// `4XNN`: skip the next instruction if `VX != NN`.
    pub open spec fn skip_next_if_x_reg_not_equal(self, opcode: Opcode) -> (
        Machine,
        OpcodeResult,
    ) {
        if self.vx(opcode) != opcode.right_byte {
            (self, OpcodeResult::SkipNext)
        } else {
            (self, OpcodeResult::Continue)
        }
    }

    /// `5XY0`: skip the next instruction if `VX == VY`.
    pub open spec fn skip_next_if_regs_equal(self, opcode: Opcode) -> (Machine, OpcodeResult) {
        if self.vx(opcode) == self.vy(opcode) {
            (self, OpcodeResult::SkipNext)
        } else {
            (self, OpcodeResult::Continue)
        }
    }

    /// `6XNN`: `VX := NN`.
    pub open spec fn x_reg_store_value(self, opcode: Opcode) -> (Machine, OpcodeResult) {
        (self.with_vx(opcode, opcode.right_byte), OpcodeResult::Continue)
    }

    /// `7XNN`: `VX := (VX + NN) mod 256`; the flag is left alone.
    pub open spec fn x_reg_add_value(self, opcode: Opcode) -> (Machine, OpcodeResult) {
        (
            self.with_vx(opcode, ((self.vx(opcode) + opcode.right_byte) % 256) as u8),
            OpcodeResult::Continue,
        )
    }

    /// `8XY0`: `VX := VY`.
    pub open spec fn y_reg_copy_to_x_reg(self, opcode: Opcode) -> (Machine, OpcodeResult) {
        (self.with_vx(opcode, self.vy(opcode)), OpcodeResult::Continue)
    }

    /// `8XY1`: `VX := VX | VY`.
    pub open spec fn x_reg_or_y_reg(self, opcode: Opcode) -> (Machine, OpcodeResult) {
        (self.with_vx(opcode, self.vx(opcode) | self.vy(opcode)), OpcodeResult::Continue)
    }

    /// `8XY2`: `VX := VX & VY`.
    pub open spec fn x_reg_and_y_reg(self, opcode: Opcode) -> (Machine, OpcodeResult) {
        (self.with_vx(opcode, self.vx(opcode) & self.vy(opcode)), OpcodeResult::Continue)
    }

    /// `8XY3`: `VX := VX ^ VY`.
    pub open spec fn x_reg_xor_reg_y(self, opcode: Opcode) -> (Machine, OpcodeResult) {
        (self.with_vx(opcode, self.vx(opcode) ^ self.vy(opcode)), OpcodeResult::Continue)
    }

    /// `8XY4`: `VX := (VX + VY) mod 256`, then `VF := 1` if the sum did not
    /// fit in a byte, else 0.
    pub open spec fn x_reg_plus_y_reg(self, opcode: Opcode) -> (Machine, OpcodeResult) {
        let sum = self.vx(opcode) + self.vy(opcode);
        (self.with_vx(opcode, (sum % 256) as u8).with_flag(sum >= 256), OpcodeResult::Continue)
    }

    /// `8XY5`: `VX := (VX - VY) mod 256`, then `VF := 1` if nothing was
    /// borrowed, that is if `VX >= VY`, else 0.
    pub open spec fn x_reg_minus_y_reg(self, opcode: Opcode) -> (Machine, OpcodeResult) {
        let difference = self.vx(opcode) - self.vy(opcode);
        (
            self.with_vx(opcode, (difference % 256) as u8).with_flag(difference >= 0),
            OpcodeResult::Continue,
        )
    }

    /// `8XY6`: `VF :=` the lowest bit of `VX`, then `VX := VX / 2`.
    pub open spec fn shift_register_right(self, opcode: Opcode) -> (Machine, OpcodeResult) {
        let value = self.vx(opcode);
        (
            self.with_flag(value % 2 == 1).with_vx(opcode, (value / 2) as u8),
            OpcodeResult::Continue,
        )
    }

    /// `8XY7`: `VX := (VY - VX) mod 256`, then `VF := 1` if nothing was
    /// borrowed, that is if `VY >= VX`, else 0.
    pub open spec fn y_reg_minus_x_reg(self, opcode: Opcode) -> (Machine, OpcodeResult) {
        let difference = self.vy(opcode) - self.vx(opcode);
        (
            self.with_vx(opcode, (difference % 256) as u8).with_flag(difference >= 0),
            OpcodeResult::Continue,
        )
    }

    /// `8XYE`: `VF :=` the highest bit of `VX`, then
    /// `VX := (VX * 2) mod 256`.
    pub open spec fn shift_register_left(self, opcode: Opcode) -> (Machine, OpcodeResult) {
        let value = self.vx(opcode);
        (
            self.with_flag(value >= 128).with_vx(opcode, ((value * 2) % 256) as u8),
            OpcodeResult::Continue,
        )
    }

    /// `9XY0`: skip the next instruction if `VX != VY`.
    pub open spec fn skip_next_if_not_equal(self, opcode: Opcode) -> (Machine, OpcodeResult) {
        if self.vx(opcode) != self.vy(opcode) {
            (self, OpcodeResult::SkipNext)
        } else {
            (self, OpcodeResult::Continue)
        }
    }

    /// `ANNN`: `I := NNN`.
    pub open spec fn store_address(self, opcode: Opcode) -> (Machine, OpcodeResult) {
        (Machine { address_register: opcode.address(), ..self }, OpcodeResult::Continue)
    }

    /// `BNNN`: jump to `NNN + V0`.
    pub open spec fn jump_with_offset(self, opcode: Opcode) -> (Machine, OpcodeResult) {
        (self, OpcodeResult::Jump((opcode.address() + self.registers[0]) as u16))
    }

    /// `CXNN`: `VX := random & NN`, for the byte `random` that was drawn.
    pub open spec fn store_masked_random(self, opcode: Opcode, random: u8) -> (
        Machine,
        OpcodeResult,
    ) {
        (self.with_vx(opcode, random & opcode.right_byte), OpcodeResult::Continue)
    }

    /// The bytes of the sprite that `DXYN` draws: the `N` bytes at `I`.
    pub open spec fn sprite(self, opcode: Opcode) -> Seq<u8> {
        self.memory_space.subrange(
            self.address_register as int,
            self.address_register + opcode.first_nibble,
        )
    }

    /// `DXYN`: the sprite is drawn at `(VX, VY)` with exclusive-or, then
    /// `VF := 1` if a set cell was turned off, else 0.
    pub open spec fn draw_sprite(self, opcode: Opcode) -> (Machine, OpcodeResult) {
        if self.address_register + opcode.first_nibble > MAX_MEMORY {
            (self, OpcodeResult::OutOfBounds)
        } else {
            let sprite = self.sprite(opcode);
            let x = self.vx(opcode);
            let y = self.vy(opcode);
            (
                Machine { pixels: drawn(self.pixels, sprite, x, y), ..self }.with_flag(
                    collides(self.pixels, sprite, x, y),
                ),
                OpcodeResult::RequestRedraw,
            )
        }
    }

    /// `EX9E`: skip the next instruction if the key `VX` is down.
    /// `EXA1`: skip it if that key is not down.
    pub open spec fn skip_next_if_key_is_down(self, opcode: Opcode) -> (Machine, OpcodeResult) {
        let down = key_is_down(self.key_states, self.vx(opcode));
        if opcode.right_byte == 0x9E {
            if down {
                (self, OpcodeResult::SkipNext)
            } else {
                (self, OpcodeResult::Continue)
            }
        } else if opcode.right_byte == 0xA1 {
            if down {
                (self, OpcodeResult::Continue)
            } else {
                (self, OpcodeResult::SkipNext)
            }
        } else {
            (self, OpcodeResult::Malformed)
        }
    }

    /// `FX07`: `VX :=` the delay timer.
    pub open spec fn load_delay_counter_value(self, opcode: Opcode) -> (Machine, OpcodeResult) {
        (self.with_vx(opcode, self.timer_counter), OpcodeResult::Continue)
    }

    /// `FX0A`: if a key edge shows, `VX :=` the key's digit; if none does,
    /// nothing changes and the dispatcher reports that it waits.
    pub open spec fn wait_for_key_and_store(self, opcode: Opcode) -> (Machine, OpcodeResult) {
        match first_key_edge(self.key_states, self.previous_key_states) {
            Some(key) => (self.with_vx(opcode, key), OpcodeResult::Continue),
            None => (self, OpcodeResult::WaitingForKey(opcode.third_nibble)),
        }
    }

    /// `FX15`: the delay timer `:= VX`.
    pub open spec fn set_delay_counter(self, opcode: Opcode) -> (Machine, OpcodeResult) {
        (Machine { timer_counter: self.vx(opcode), ..self }, OpcodeResult::Continue)
    }

    /// `FX18`: the sound timer `:= VX`.
    pub open spec fn set_sound_counter(self, opcode: Opcode) -> (Machine, OpcodeResult) {
        (Machine { sound_counter: self.vx(opcode), ..self }, OpcodeResult::Continue)
    }

    /// `FX1E`: `I := (I + VX) mod 65536`.
    pub open spec fn add_to_address_reg(self, opcode: Opcode) -> (Machine, OpcodeResult) {
        (
            Machine {
                address_register: ((self.address_register + self.vx(opcode)) % 65536) as u16,
                ..self
            },
            OpcodeResult::Continue,
        )
    }

    /// `FX29`: `I :=` the address of the built-in sprite for the digit
    /// `VX`, which is `VX * 5`.
    pub open spec fn lookup_sprite_for_digit(self, opcode: Opcode) -> (Machine, OpcodeResult) {
        (
            Machine { address_register: (self.vx(opcode) * DIGIT_SPRITE_LEN) as u16, ..self },
            OpcodeResult::Continue,
        )
    }

    /// `FX33`: the decimal digits of `VX` go to `I`, `I + 1` and `I + 2`,
    /// hundreds first.
    pub open spec fn store_bcd_at_address(self, opcode: Opcode) -> (Machine, OpcodeResult) {
        let base = self.address_register as int;
        let value = self.vx(opcode);
        if base + 2 >= MAX_MEMORY {
            (self, OpcodeResult::OutOfBounds)
        } else {
            (
                Machine {
                    memory_space: self.memory_space.update(base, (value / 100) as u8).update(
                        base + 1,
                        ((value / 10) % 10) as u8,
                    ).update(base + 2, (value % 10) as u8),
                    ..self
                },
                OpcodeResult::Continue,
            )
        }
    }

    /// `FX55`: `V0` to `VX` go to memory at `I` to `I + X`.
    pub open spec fn store_registers_to_address(self, opcode: Opcode) -> (Machine, OpcodeResult) {
        let base = self.address_register as int;
        let last = base + opcode.third_nibble;
        if last >= MAX_MEMORY {
            (self, OpcodeResult::OutOfBounds)
        } else {
            (
                Machine {
                    memory_space: Seq::new(
                        MAX_MEMORY as nat,
                        |address: int|
                            if base <= address <= last {
                                self.registers[address - base]
                            } else {
                                self.memory_space[address]
                            },
                    ),
                    ..self
                },
                OpcodeResult::Continue,
            )
        }
    }

    /// `FX65`: `V0` to `VX` are filled from memory at `I` to `I + X`.
    pub open spec fn load_registers_from_address(self, opcode: Opcode) -> (Machine, OpcodeResult) {
        let base = self.address_register as int;
        if base + opcode.third_nibble >= MAX_MEMORY {
            (self, OpcodeResult::OutOfBounds)
        } else {
            (
                Machine {
                    registers: Seq::new(
                        REGISTER_COUNT as nat,
                        |register: int|
                            if register <= opcode.third_nibble {
                                self.memory_space[base + register]
                            } else {
                                self.registers[register]
                            },
                    ),
                    ..self
                },
                OpcodeResult::Continue,
            )
        }
    }

    /// What executing `opcode` does, `random` being the byte that `CXNN`
    /// draws: the instruction table. The top nibble picks the group; the
    /// groups `8`, `E` and `F` pick the instruction by the bottom nibble or
    /// byte, and what they do not list is malformed. Of the group `0` only
    /// `00E0`, `00EE` and `0000` do anything.
    pub open spec fn process_opcode(self, opcode: Opcode, random: u8) -> (Machine, OpcodeResult) {
        match opcode.fourth_nibble {
            0x0 => {
                if opcode.full_opcode == 0x00E0 {
                    self.clear_screen()
                } else if opcode.full_opcode == 0x00EE {
                    self.return_from_subroutine()
                } else if opcode.full_opcode == 0x0000 {
                    (self, OpcodeResult::Terminate)
                } else {
                    (self, OpcodeResult::Continue)
                }
            },
            0x1 => self.jump(opcode),
            0x2 => self.call_subroutine(opcode),
            0x3 => self.skip_next_if_x_reg_equal(opcode),
            0x4 => self.skip_next_if_x_reg_not_equal(opcode),
            0x5 => self.skip_next_if_regs_equal(opcode),
            0x6 => self.x_reg_store_value(opcode),
            0x7 => self.x_reg_add_value(opcode),
            0x8 => match opcode.first_nibble {
                0x0 => self.y_reg_copy_to_x_reg(opcode),
                0x1 => self.x_reg_or_y_reg(opcode),
                0x2 => self.x_reg_and_y_reg(opcode),
                0x3 => self.x_reg_xor_reg_y(opcode),
                0x4 => self.x_reg_plus_y_reg(opcode),
                0x5 => self.x_reg_minus_y_reg(opcode),
                0x6 => self.shift_register_right(opcode),
                0x7 => self.y_reg_minus_x_reg(opcode),
                0xE => self.shift_register_left(opcode),
                _ => (self, OpcodeResult::Malformed),
            },
            0x9 => self.skip_next_if_not_equal(opcode),
            0xA => self.store_address(opcode),
            0xB => self.jump_with_offset(opcode),
            0xC => self.store_masked_random(opcode, random),
            0xD => self.draw_sprite(opcode),
            0xE => self.skip_next_if_key_is_down(opcode),
            0xF => match opcode.right_byte {
                0x07 => self.load_delay_counter_value(opcode),
                0x0A => self.wait_for_key_and_store(opcode),
                0x15 => self.set_delay_counter(opcode),
                0x18 => self.set_sound_counter(opcode),
                0x1E => self.add_to_address_reg(opcode),
                0x29 => self.lookup_sprite_for_digit(opcode),
                0x33 => self.store_bcd_at_address(opcode),
                0x55 => self.store_registers_to_address(opcode),
                0x65 => self.load_registers_from_address(opcode),
                _ => (self, OpcodeResult::Malformed),
            },
            _ => (self, OpcodeResult::Malformed),
        }
    }

    /// The state with the program counter at `target` if that leaves room
    /// for an instruction before the last byte of memory; `result` is
    /// reported then, and a bounds violation otherwise.
    pub open spec fn move_to(self, target: int, result: InstructionResult) -> (
        Machine,
        Result<InstructionResult, EmulatorError>,
    ) {
        if target < MAX_MEMORY - 1 {
            (Machine { program_counter: target as u16, ..self }, Ok(result))
        } else {
            (self, Err(EmulatorError::AddressBoundsViolation))
        }
    }

    /// What the driver makes of the dispatcher's `outcome`: where the
    /// program counter goes and what the caller is told.
    pub open spec fn settle(self, outcome: OpcodeResult) -> (
        Machine,
        Result<InstructionResult, EmulatorError>,
    ) {
        match outcome {
            OpcodeResult::Continue => self.move_to(
                self.program_counter + 2,
                InstructionResult::Working,
            ),
            OpcodeResult::SkipNext => self.move_to(
                self.program_counter + 4,
                InstructionResult::Working,
            ),
            OpcodeResult::Jump(target) => self.move_to(target as int, InstructionResult::Working),
            OpcodeResult::RequestRedraw => self.move_to(
                self.program_counter + 2,
                InstructionResult::RedrawRequested,
            ),
            OpcodeResult::WaitingForKey(register) => (
                Machine { wait_state: WaitState::WaitingForKey(register), ..self },
                Ok(InstructionResult::Working),
            ),
            OpcodeResult::Terminate => (self, Ok(InstructionResult::Terminated)),
            OpcodeResult::Malformed => (self, Err(EmulatorError::InvalidOpcode)),
            OpcodeResult::OutOfBounds => (self, Err(EmulatorError::AddressBoundsViolation)),
        }
    }

    /// One instruction: `opcode` is executed and the program counter moved.
    pub open spec fn execute_instruction(self, opcode: Opcode, random: u8) -> (
        Machine,
        Result<InstructionResult, EmulatorError>,
    ) {
        let (after, outcome) = self.process_opcode(opcode, random);
        after.settle(outcome)
    }

    /// The instruction that the program counter points at.
    pub open spec fn load_opcode(self) -> Opcode {
        Opcode::decoded(
            Opcode::word_of(
                self.memory_space[self.program_counter as int],
                self.memory_space[self.program_counter + 1],
            ),
        )
    }

    /// The state with the keys of this cycle remembered as those of the
    /// cycle before.
    pub open spec fn snapshot_keys(self) -> Machine {
        Machine { previous_key_states: self.key_states, ..self }
    }

    /// One poll of a machine that waits for a key to go to `register`: on
    /// an edge the key's digit is stored, the wait ends and the program
    /// counter moves past the instruction that waited; with no edge nothing
    /// changes.
    pub open spec fn poll_key(self, register: u8) -> (
        Machine,
        Result<InstructionResult, EmulatorError>,
    ) {
        match first_key_edge(self.key_states, self.previous_key_states) {
            Some(key) => Machine { wait_state: WaitState::Running, ..self }.with_register(
                register as int,
                key,
            ).settle(OpcodeResult::Continue),
            None => (self, Ok(InstructionResult::Working)),
        }
    }

    /// One driver step: a waiting machine polls the keys, a running one
    /// fetches and executes; either way the keys are then remembered.
    pub open spec fn execute_next_instruction(self, random: u8) -> (
        Machine,
        Result<InstructionResult, EmulatorError>,
    ) {
        let (after, result) = match self.wait_state {
            WaitState::WaitingForKey(register) => self.poll_key(register),
            WaitState::Running => self.execute_instruction(self.load_opcode(), random),
        };
        (after.snapshot_keys(), result)
    }

    /// The state after both timers ticked once.
    pub open spec fn update_time_counters(self) -> Machine {
        Machine {
            timer_counter: ticked(self.timer_counter),
            sound_counter: ticked(self.sound_counter),
            ..self
        }
    }

    /// What a driver step's result means as the result of a cycle.
    pub open spec fn cycle_result(result: Result<InstructionResult, EmulatorError>) -> Result<
        CycleResult,
        EmulatorError,
    > {
        match result {
            Ok(InstructionResult::Working) => Ok(CycleResult::Working),
            Ok(InstructionResult::RedrawRequested) => Ok(CycleResult::RedrawRequested),
            Ok(InstructionResult::Terminated) => Ok(CycleResult::Terminated),
            Err(error) => Err(error),
        }
    }

    /// One cycle: one driver step, and nothing else. No timer ticks, and
    /// the program counter moves as the one instruction says.
    pub open spec fn execute_cycle(self, random: u8) -> (
        Machine,
        Result<CycleResult, EmulatorError>,
    ) {
        let (after, result) = self.execute_next_instruction(random);
        (after, Machine::cycle_result(result))
    }

    /// Whether a frame that has come to `so_far` runs no further cycle: the
    /// program has ended, or the run has failed.
    pub open spec fn frame_is_over(so_far: Result<CycleResult, EmulatorError>) -> bool {
        so_far is Err || so_far == Ok::<CycleResult, EmulatorError>(CycleResult::Terminated)
    }

    /// A batch of cycles, one for each byte of `randoms`, which is the
    /// random byte at that cycle's disposal. The batch stops at the first
    /// cycle that ends the program or fails; until then it remembers
    /// whether any cycle asked for a repaint.
    pub open spec fn run_cycles(self, randoms: Seq<u8>) -> (
        Machine,
        Result<CycleResult, EmulatorError>,
    )
        decreases randoms.len(),
    {
        if randoms.len() == 0 {
            (self, Ok(CycleResult::Working))
        } else {
            let (before, so_far) = self.run_cycles(randoms.drop_last());
            if Machine::frame_is_over(so_far) {
                (before, so_far)
            } else {
                let (after, result) = before.execute_cycle(randoms.last());
                if result == Ok::<CycleResult, EmulatorError>(CycleResult::Working) {
                    (after, so_far)
                } else {
                    (after, result)
                }
            }
        }
    }

    /// One frame: the timers tick once, then a batch of
    /// [`CYCLES_PER_FRAME`] cycles is run.
    pub open spec fn execute_frame(self, randoms: Seq<u8>) -> (
        Machine,
        Result<CycleResult, EmulatorError>,
    ) {
        self.update_time_counters().run_cycles(randoms)
    }
}

/// A batch that is over stays as it is, whatever is appended to it.
pub proof fn lemma_frame_over(machine: Machine, randoms: Seq<u8>, more: Seq<u8>)
    requires
        Machine::frame_is_over(machine.run_cycles(randoms).1),
    ensures
        machine.run_cycles(randoms + more) == machine.run_cycles(randoms),
    decreases more.len(),
{
    if more.len() == 0 {
        assert(randoms + more =~= randoms);
    } else {
        lemma_frame_over(machine, randoms, more.drop_last());
        assert((randoms + more).drop_last() =~= randoms + more.drop_last());
    }
}

} // verus!
