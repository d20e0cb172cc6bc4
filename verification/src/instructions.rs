//! The instruction handlers: one function for each instruction, or each
//! pair that shares a pattern. Each performs the instruction's effect on
//! the emulator and reports the outcome; none moves the program counter.

use crate::emulator::{Emulator, OpcodeResult};
use crate::keypad::find_key_edge;
use crate::machine::{FLAG_REGISTER, MAX_MEMORY};
use crate::opcode::Opcode;
use vstd::prelude::*;

verus! {

/// Draws a byte from the thread's random number generator, with
/// `rand::random`. Nothing is claimed of the byte: every value can come
/// out.
#[verifier::external_body]
fn random_byte() -> (byte: u8) {
    rand::random()
}

impl Emulator {
    /// `00E0`: clears the display.
    pub fn clear_screen(&mut self) -> (result: OpcodeResult)
        requires
            old(self).wf(),
        ensures
            final(self).wf(),
            (final(self)@, result) == old(self)@.clear_screen(),
    {
        self.display.clear();
        OpcodeResult::RequestRedraw
    }

    /// `00EE`: returns from a subroutine. The innermost return address is
    /// taken off the stack; with an empty stack, or a zero on top of it,
    /// there is nothing to return to and the instruction is malformed.
    pub fn return_from_subroutine(&mut self) -> (result: OpcodeResult)
        requires
            old(self).wf(),
        ensures
            final(self).wf(),
            (final(self)@, result) == old(self)@.return_from_subroutine(),
    {
        match self.subroutine_return_pointers.pop() {
            Some(address) => {
                if address != 0 {
                    OpcodeResult::Jump(address)
                } else {
                    OpcodeResult::Malformed
                }
            },
            None => OpcodeResult::Malformed,
        }
    }

    /// `1NNN`: jumps to `NNN`.
    pub fn jump(&mut self, opcode: Opcode) -> (result: OpcodeResult)
        requires
            old(self).wf(),
            opcode.wf(),
        ensures
            final(self).wf(),
            (final(self)@, result) == old(self)@.jump(opcode),
            result == OpcodeResult::Jump(opcode.address()),
    {
        let target = opcode.nnn();
        if target == self.program_counter && !self.end_loop_reached {
            self.end_loop_reached = true;
        }
        OpcodeResult::Jump(target)
    }

    /// `2NNN`: calls the subroutine at `NNN`; the address of the next
    /// instruction goes onto the stack.
    pub fn call_subroutine(&mut self, opcode: Opcode) -> (result: OpcodeResult)
        requires
            old(self).wf(),
            opcode.wf(),
        ensures
            final(self).wf(),
            (final(self)@, result) == old(self)@.call_subroutine(opcode),
    {
        self.subroutine_return_pointers.push(self.program_counter + 2);
        OpcodeResult::Jump(opcode.nnn())
    }

    /// `3XNN`: skips the next instruction if `VX == NN`.
    pub fn skip_next_if_x_reg_equal(&mut self, opcode: Opcode) -> (result: OpcodeResult)
        requires
            old(self).wf(),
            opcode.wf(),
        ensures
            final(self).wf(),
            (final(self)@, result) == old(self)@.skip_next_if_x_reg_equal(opcode),
    {
        if self.registers[opcode.third_nibble as usize] == opcode.right_byte {
            OpcodeResult::SkipNext
        } else {
            OpcodeResult::Continue
        }
    }

    /// `4XNN`: skips the next instruction if `VX != NN`.
    pub fn skip_next_if_x_reg_not_equal(&mut self, opcode: Opcode) -> (result: OpcodeResult)
        requires
            old(self).wf(),
            opcode.wf(),
        ensures
            final(self).wf(),
            (final(self)@, result) == old(self)@.skip_next_if_x_reg_not_equal(opcode),
    {
        if self.registers[opcode.third_nibble as usize] != opcode.right_byte {
            OpcodeResult::SkipNext
        } else {
            OpcodeResult::Continue
        }
    }

    /// `5XY0`: skips the next instruction if `VX == VY`.
    pub fn skip_next_if_regs_equal(&mut self, opcode: Opcode) -> (result: OpcodeResult)
        requires
            old(self).wf(),
            opcode.wf(),
        ensures
            final(self).wf(),
            (final(self)@, result) == old(self)@.skip_next_if_regs_equal(opcode),
    {
        if self.registers[opcode.third_nibble as usize]
            == self.registers[opcode.second_nibble as usize] {
            OpcodeResult::SkipNext
        } else {
            OpcodeResult::Continue
        }
    }

    /// `6XNN`: stores `NN` in `VX`.
    pub fn x_reg_store_value(&mut self, opcode: Opcode) -> (result: OpcodeResult)
        requires
            old(self).wf(),
            opcode.wf(),
        ensures
            final(self).wf(),
            (final(self)@, result) == old(self)@.x_reg_store_value(opcode),
    {
        self.registers[opcode.third_nibble as usize] = opcode.right_byte;
        OpcodeResult::Continue
    }

    /// `7XNN`: adds `NN` to `VX`, wrapping, and leaves the flag alone.
    pub fn x_reg_add_value(&mut self, opcode: Opcode) -> (result: OpcodeResult)
        requires
            old(self).wf(),
            opcode.wf(),
        ensures
            final(self).wf(),
            (final(self)@, result) == old(self)@.x_reg_add_value(opcode),
    {
        let x = opcode.third_nibble as usize;
        self.registers[x] = self.registers[x].wrapping_add(opcode.right_byte);
        OpcodeResult::Continue
    }

    /// `8XY0`: copies `VY` to `VX`.
    pub fn y_reg_copy_to_x_reg(&mut self, opcode: Opcode) -> (result: OpcodeResult)
        requires
            old(self).wf(),
            opcode.wf(),
        ensures
            final(self).wf(),
            (final(self)@, result) == old(self)@.y_reg_copy_to_x_reg(opcode),
    {
        self.registers[opcode.third_nibble as usize] =
            self.registers[opcode.second_nibble as usize];
        OpcodeResult::Continue
    }

    /// `8XY1`: sets `VX` to `VX | VY`.
    pub fn x_reg_or_y_reg(&mut self, opcode: Opcode) -> (result: OpcodeResult)
        requires
            old(self).wf(),
            opcode.wf(),
        ensures
            final(self).wf(),
            (final(self)@, result) == old(self)@.x_reg_or_y_reg(opcode),
    {
        let x = opcode.third_nibble as usize;
        self.registers[x] = self.registers[x] | self.registers[opcode.second_nibble as usize];
        OpcodeResult::Continue
    }

    /// `8XY2`: sets `VX` to `VX & VY`.
    pub fn x_reg_and_y_reg(&mut self, opcode: Opcode) -> (result: OpcodeResult)
        requires
            old(self).wf(),
            opcode.wf(),
        ensures
            final(self).wf(),
            (final(self)@, result) == old(self)@.x_reg_and_y_reg(opcode),
    {
        let x = opcode.third_nibble as usize;
        self.registers[x] = self.registers[x] & self.registers[opcode.second_nibble as usize];
        OpcodeResult::Continue
    }

    /// `8XY3`: sets `VX` to `VX ^ VY`.
    pub fn x_reg_xor_reg_y(&mut self, opcode: Opcode) -> (result: OpcodeResult)
        requires
            old(self).wf(),
            opcode.wf(),
        ensures
            final(self).wf(),
            (final(self)@, result) == old(self)@.x_reg_xor_reg_y(opcode),
    {
        let x = opcode.third_nibble as usize;
        self.registers[x] = self.registers[x] ^ self.registers[opcode.second_nibble as usize];
        OpcodeResult::Continue
    }

    /// `8XY4`: adds `VY` to `VX`, wrapping; `VF` tells whether the sum
    /// overflowed a byte.
    pub fn x_reg_plus_y_reg(&mut self, opcode: Opcode) -> (result: OpcodeResult)
        requires
            old(self).wf(),
            opcode.wf(),
        ensures
            final(self).wf(),
            (final(self)@, result) == old(self)@.x_reg_plus_y_reg(opcode),
            final(self).registers@[FLAG_REGISTER as int] == 1 <==> old(self)@.vx(opcode) + old(
                self,
            )@.vy(opcode) >= 256,
            final(self).registers@[FLAG_REGISTER as int] == 0 <==> old(self)@.vx(opcode) + old(
                self,
            )@.vy(opcode) < 256,
            opcode.third_nibble != FLAG_REGISTER ==> final(self)@.vx(opcode) == (old(self)@.vx(
                opcode,
            ) + old(self)@.vy(opcode)) % 256,
    {
        let x = opcode.third_nibble as usize;
        let left = self.registers[x];
        let right = self.registers[opcode.second_nibble as usize];
        let carry = left as u16 + right as u16 > 255;
        self.registers[x] = left.wrapping_add(right);
        self.registers[FLAG_REGISTER] = if carry {
            1
        } else {
            0
        };
        OpcodeResult::Continue
    }

    /// `8XY5`: subtracts `VY` from `VX`, wrapping; `VF` tells whether
    /// nothing was borrowed.
    pub fn x_reg_minus_y_reg(&mut self, opcode: Opcode) -> (result: OpcodeResult)
        requires
            old(self).wf(),
            opcode.wf(),
        ensures
            final(self).wf(),
            (final(self)@, result) == old(self)@.x_reg_minus_y_reg(opcode),
            final(self).registers@[FLAG_REGISTER as int] == 1 <==> old(self)@.vx(opcode) >= old(
                self,
            )@.vy(opcode),
            final(self).registers@[FLAG_REGISTER as int] == 0 <==> old(self)@.vx(opcode) < old(
                self,
            )@.vy(opcode),
            opcode.third_nibble != FLAG_REGISTER ==> final(self)@.vx(opcode) == (old(self)@.vx(
                opcode,
            ) - old(self)@.vy(opcode)) % 256,
    {
        let x = opcode.third_nibble as usize;
        let left = self.registers[x];
        let right = self.registers[opcode.second_nibble as usize];
        self.registers[x] = left.wrapping_sub(right);
        self.registers[FLAG_REGISTER] = if left >= right {
            1
        } else {
            0
        };
        OpcodeResult::Continue
    }

    /// `8XY6`: shifts `VX` right by one bit; `VF` gets the bit shifted out.
    pub fn shift_register_right(&mut self, opcode: Opcode) -> (result: OpcodeResult)
        requires
            old(self).wf(),
            opcode.wf(),
        ensures
            final(self).wf(),
            (final(self)@, result) == old(self)@.shift_register_right(opcode),
            opcode.third_nibble != FLAG_REGISTER ==> final(self).registers@[FLAG_REGISTER as int]
                == old(self)@.vx(opcode) & 1,
            final(self)@.vx(opcode) == old(self)@.vx(opcode) >> 1,
    {
        let x = opcode.third_nibble as usize;
        let value = self.registers[x];
        assert(value & 1 == value % 2 && value >> 1 == value / 2) by (bit_vector);
        self.registers[FLAG_REGISTER] = value & 1;
        self.registers[x] = value >> 1;
        OpcodeResult::Continue
    }

    /// `8XY7`: sets `VX` to `VY - VX`, wrapping; `VF` tells whether
    /// nothing was borrowed.
    pub fn y_reg_minus_x_reg(&mut self, opcode: Opcode) -> (result: OpcodeResult)
        requires
            old(self).wf(),
            opcode.wf(),
        ensures
            final(self).wf(),
            (final(self)@, result) == old(self)@.y_reg_minus_x_reg(opcode),
            final(self).registers@[FLAG_REGISTER as int] == 1 <==> old(self)@.vy(opcode) >= old(
                self,
            )@.vx(opcode),
            opcode.third_nibble != FLAG_REGISTER ==> final(self)@.vx(opcode) == (old(self)@.vy(
                opcode,
            ) - old(self)@.vx(opcode)) % 256,
    {
        let x = opcode.third_nibble as usize;
        let left = self.registers[opcode.second_nibble as usize];
        let right = self.registers[x];
        self.registers[x] = left.wrapping_sub(right);
        self.registers[FLAG_REGISTER] = if left >= right {
            1
        } else {
            0
        };
        OpcodeResult::Continue
    }

    /// `8XYE`: shifts `VX` left by one bit; `VF` gets the bit shifted out.
    pub fn shift_register_left(&mut self, opcode: Opcode) -> (result: OpcodeResult)
        requires
            old(self).wf(),
            opcode.wf(),
        ensures
            final(self).wf(),
            (final(self)@, result) == old(self)@.shift_register_left(opcode),
            opcode.third_nibble != FLAG_REGISTER ==> final(self).registers@[FLAG_REGISTER as int]
                == old(self)@.vx(opcode) >> 7,
            final(self)@.vx(opcode) == (old(self)@.vx(opcode) * 2) % 256,
    {
        let x = opcode.third_nibble as usize;
        let value = self.registers[x];
        assert(value >> 7 == (if value >= 128 {
            1u8
        } else {
            0u8
        }) && value << 1 == (value * 2) % 256) by (bit_vector);
        self.registers[FLAG_REGISTER] = value >> 7;
        self.registers[x] = value << 1;
        OpcodeResult::Continue
    }

    /// `9XY0`: skips the next instruction if `VX != VY`.
    pub fn skip_next_if_not_equal(&mut self, opcode: Opcode) -> (result: OpcodeResult)
        requires
            old(self).wf(),
            opcode.wf(),
        ensures
            final(self).wf(),
            (final(self)@, result) == old(self)@.skip_next_if_not_equal(opcode),
    {
        if self.registers[opcode.third_nibble as usize]
            != self.registers[opcode.second_nibble as usize] {
            OpcodeResult::SkipNext
        } else {
            OpcodeResult::Continue
        }
    }

    /// `ANNN`: stores `NNN` in `I`.
    pub fn store_address(&mut self, opcode: Opcode) -> (result: OpcodeResult)
        requires
            old(self).wf(),
            opcode.wf(),
        ensures
            final(self).wf(),
            (final(self)@, result) == old(self)@.store_address(opcode),
    {
        self.address_register = opcode.nnn();
        OpcodeResult::Continue
    }

    /// `BNNN`: jumps to `NNN + V0`.
    pub fn jump_with_offset(&mut self, opcode: Opcode) -> (result: OpcodeResult)
        requires
            old(self).wf(),
            opcode.wf(),
        ensures
            final(self).wf(),
            (final(self)@, result) == old(self)@.jump_with_offset(opcode),
    {
        OpcodeResult::Jump(opcode.nnn() + self.registers[0] as u16)
    }

    /// `CXNN`: sets `VX` to a random byte masked with `NN`. Whatever byte
    /// is drawn, no bit outside the mask is set in `VX` afterwards.
    pub fn generate_rnd_num(&mut self, opcode: Opcode) -> (result: OpcodeResult)
        requires
            old(self).wf(),
            opcode.wf(),
        ensures
            final(self).wf(),
            exists|random: u8|
                (final(self)@, result) == #[trigger] old(self)@.store_masked_random(
                    opcode,
                    random,
                ),
            final(self)@.vx(opcode) & !opcode.right_byte == 0,
    {
        let random = random_byte();
        self.store_masked_random(opcode, random)
    }

    /// The rest of `CXNN`, once the byte `random` was drawn: sets `VX` to
    /// `random & NN`.
    pub fn store_masked_random(&mut self, opcode: Opcode, random: u8) -> (result: OpcodeResult)
        requires
            old(self).wf(),
            opcode.wf(),
        ensures
            final(self).wf(),
            (final(self)@, result) == old(self)@.store_masked_random(opcode, random),
            final(self)@.vx(opcode) & !opcode.right_byte == 0,
    {
        let mask = opcode.right_byte;
        assert((random & mask) & !mask == 0) by (bit_vector);
        self.registers[opcode.third_nibble as usize] = random & mask;
        OpcodeResult::Continue
    }

    /// `DXYN`: draws the `N`-byte sprite at `I` onto the display at
    /// `(VX, VY)`; `VF` tells whether a set cell was turned off.
    pub fn draw_sprite(&mut self, opcode: Opcode) -> (result: OpcodeResult)
        requires
            old(self).wf(),
            opcode.wf(),
        ensures
            final(self).wf(),
            (final(self)@, result) == old(self)@.draw_sprite(opcode),
    {
        let start = self.address_register as usize;
        let end = start + opcode.first_nibble as usize;
        if end > MAX_MEMORY {
            return OpcodeResult::OutOfBounds;
        }
        let x = self.registers[opcode.third_nibble as usize];
        let y = self.registers[opcode.second_nibble as usize];
        let collision = self.display.draw_sprite(&self.memory_space[start..end], x, y);
        self.registers[FLAG_REGISTER] = if collision {
            1
        } else {
            0
        };
        OpcodeResult::RequestRedraw
    }

    /// `EX9E` and `EXA1`: skips the next instruction if the key whose
    /// digit is in `VX` is down, or respectively is not down. Any other
    /// low byte is malformed.
    pub fn skip_next_if_key_is_down(&mut self, opcode: Opcode) -> (result: OpcodeResult)
        requires
            old(self).wf(),
            opcode.wf(),
        ensures
            final(self).wf(),
            (final(self)@, result) == old(self)@.skip_next_if_key_is_down(opcode),
    {
        let key = self.registers[opcode.third_nibble as usize];
        let down = key < 16 && self.key_states[key as usize];
        if opcode.right_byte == 0x9E {
            if down {
                OpcodeResult::SkipNext
            } else {
                OpcodeResult::Continue
            }
        } else if opcode.right_byte == 0xA1 {
            if down {
                OpcodeResult::Continue
            } else {
                OpcodeResult::SkipNext
            }
        } else {
            OpcodeResult::Malformed
        }
    }

    /// `FX07`: stores the delay timer in `VX`.
    pub fn load_delay_counter_value(&mut self, opcode: Opcode) -> (result: OpcodeResult)
        requires
            old(self).wf(),
            opcode.wf(),
        ensures
            final(self).wf(),
            (final(self)@, result) == old(self)@.load_delay_counter_value(opcode),
    {
        self.registers[opcode.third_nibble as usize] = self.timer_counter;
        OpcodeResult::Continue
    }

    /// `FX0A`: looks for a key edge. If one shows, the key's digit is
    /// stored in `VX`; if none does, nothing changes and the caller is told
    /// to wait.
    pub fn wait_for_key_and_store(&mut self, opcode: Opcode) -> (result: OpcodeResult)
        requires
            old(self).wf(),
            opcode.wf(),
        ensures
            final(self).wf(),
            (final(self)@, result) == old(self)@.wait_for_key_and_store(opcode),
    {
        match find_key_edge(&self.key_states, &self.previous_key_states) {
            Some(key) => {
                self.registers[opcode.third_nibble as usize] = key;
                OpcodeResult::Continue
            },
            None => OpcodeResult::WaitingForKey(opcode.third_nibble),
        }
    }

    /// `FX15`: sets the delay timer to `VX`.
    pub fn set_delay_counter(&mut self, opcode: Opcode) -> (result: OpcodeResult)
        requires
            old(self).wf(),
            opcode.wf(),
        ensures
            final(self).wf(),
            (final(self)@, result) == old(self)@.set_delay_counter(opcode),
    {
        self.timer_counter = self.registers[opcode.third_nibble as usize];
        OpcodeResult::Continue
    }

    /// `FX18`: sets the sound timer to `VX`.
    pub fn set_sound_counter(&mut self, opcode: Opcode) -> (result: OpcodeResult)
        requires
            old(self).wf(),
            opcode.wf(),
        ensures
            final(self).wf(),
            (final(self)@, result) == old(self)@.set_sound_counter(opcode),
    {
        self.sound_counter = self.registers[opcode.third_nibble as usize];
        OpcodeResult::Continue
    }

    /// `FX1E`: adds `VX` to `I`, wrapping at 16 bits.
    pub fn add_to_address_reg(&mut self, opcode: Opcode) -> (result: OpcodeResult)
        requires
            old(self).wf(),
            opcode.wf(),
        ensures
            final(self).wf(),
            (final(self)@, result) == old(self)@.add_to_address_reg(opcode),
    {
        self.address_register = self.address_register.wrapping_add(
            self.registers[opcode.third_nibble as usize] as u16,
        );
        OpcodeResult::Continue
    }

    /// `FX29`: points `I` at the built-in sprite for the digit in `VX`.
    pub fn lookup_sprite_for_digit(&mut self, opcode: Opcode) -> (result: OpcodeResult)
        requires
            old(self).wf(),
            opcode.wf(),
        ensures
            final(self).wf(),
            (final(self)@, result) == old(self)@.lookup_sprite_for_digit(opcode),
    {
        self.address_register = self.registers[opcode.third_nibble as usize] as u16 * 5;
        OpcodeResult::Continue
    }

    /// `FX33`: stores the three decimal digits of `VX` at `I`, `I + 1` and
    /// `I + 2`, hundreds first.
    pub fn store_bcd_at_address(&mut self, opcode: Opcode) -> (result: OpcodeResult)
        requires
            old(self).wf(),
            opcode.wf(),
        ensures
            final(self).wf(),
            (final(self)@, result) == old(self)@.store_bcd_at_address(opcode),
            result == OpcodeResult::Continue ==> final(self).memory_space@[old(
                self,
            ).address_register as int] == old(self)@.vx(opcode) / 100,
            result == OpcodeResult::Continue ==> final(self).memory_space@[old(
                self,
            ).address_register + 1] == (old(self)@.vx(opcode) / 10) % 10,
            result == OpcodeResult::Continue ==> final(self).memory_space@[old(
                self,
            ).address_register + 2] == old(self)@.vx(opcode) % 10,
            result == OpcodeResult::Continue <==> old(self).address_register + 2 < MAX_MEMORY,
            final(self).address_register == old(self).address_register,
    {
        let base = self.address_register as usize;
        if base + 2 >= MAX_MEMORY {
            return OpcodeResult::OutOfBounds;
        }
        let value = self.registers[opcode.third_nibble as usize];
        self.memory_space[base] = value / 100;
        self.memory_space[base + 1] = (value / 10) % 10;
        self.memory_space[base + 2] = value % 10;
        OpcodeResult::Continue
    }

    /// `FX55`: stores `V0` to `VX` in memory from `I` on. `I` keeps its
    /// value.
    pub fn store_registers_to_address(&mut self, opcode: Opcode) -> (result: OpcodeResult)
        requires
            old(self).wf(),
            opcode.wf(),
        ensures
            final(self).wf(),
            (final(self)@, result) == old(self)@.store_registers_to_address(opcode),
            final(self).address_register == old(self).address_register,
    {
        let base = self.address_register as usize;
        let count = opcode.third_nibble as usize + 1;
        if base + count > MAX_MEMORY {
            return OpcodeResult::OutOfBounds;
        }
        let mut register: usize = 0;
        while register < count
            invariant
                register <= count <= 16,
                base + count <= MAX_MEMORY,
                base == old(self).address_register,
                forall|address: int|
                    0 <= address < MAX_MEMORY ==> self.memory_space@[address] == if base
                        <= address < base + register {
                        old(self).registers@[address - base]
                    } else {
                        old(self).memory_space@[address]
                    },
                self.registers == old(self).registers,
                self.address_register == old(self).address_register,
                self.timer_counter == old(self).timer_counter,
                self.sound_counter == old(self).sound_counter,
                self.program_counter == old(self).program_counter,
                self.subroutine_return_pointers == old(self).subroutine_return_pointers,
                self.key_states == old(self).key_states,
                self.previous_key_states == old(self).previous_key_states,
                self.wait_state == old(self).wait_state,
                self.display == old(self).display,
                self.end_loop_reached == old(self).end_loop_reached,
            decreases count - register,
        {
            self.memory_space[base + register] = self.registers[register];
            register += 1;
        }
        assert(self.memory_space@ =~= old(self)@.store_registers_to_address(
            opcode,
        ).0.memory_space);
        OpcodeResult::Continue
    }

    /// `FX65`: fills `V0` to `VX` from memory from `I` on. `I` keeps its
    /// value.
    pub fn load_registers_from_address(&mut self, opcode: Opcode) -> (result: OpcodeResult)
        requires
            old(self).wf(),
            opcode.wf(),
        ensures
            final(self).wf(),
            (final(self)@, result) == old(self)@.load_registers_from_address(opcode),
            final(self).address_register == old(self).address_register,
    {
        let base = self.address_register as usize;
        let count = opcode.third_nibble as usize + 1;
        if base + count > MAX_MEMORY {
            return OpcodeResult::OutOfBounds;
        }
        let mut register: usize = 0;
        while register < count
            invariant
                register <= count <= 16,
                base + count <= MAX_MEMORY,
                base == old(self).address_register,
                forall|index: int|
                    0 <= index < 16 ==> self.registers@[index] == if index < register {
                        old(self).memory_space@[base + index]
                    } else {
                        old(self).registers@[index]
                    },
                self.memory_space == old(self).memory_space,
                self.address_register == old(self).address_register,
                self.timer_counter == old(self).timer_counter,
                self.sound_counter == old(self).sound_counter,
                self.program_counter == old(self).program_counter,
                self.subroutine_return_pointers == old(self).subroutine_return_pointers,
                self.key_states == old(self).key_states,
                self.previous_key_states == old(self).previous_key_states,
                self.wait_state == old(self).wait_state,
                self.display == old(self).display,
                self.end_loop_reached == old(self).end_loop_reached,
            decreases count - register,
        {
            self.registers[register] = self.memory_space[base + register];
            register += 1;
        }
        assert(self.registers@ =~= old(self)@.load_registers_from_address(opcode).0.registers);
        OpcodeResult::Continue
    }
}

} // verus!
