//! Decoding of raw instruction words.
//!
//! Every CHIP-8 instruction is one big-endian 16-bit word. Decoding splits it
//! into its two bytes and its four 4-bit fields; it never fails, because
//! whether a word names an instruction is judged by the dispatcher.

use vstd::prelude::*;

verus! {

/// One instruction word, decomposed.
///
/// `fourth_nibble` is the top nibble of the word (the primary dispatch key),
/// `first_nibble` the bottom one. In the usual notation `X` is
/// `third_nibble`, `Y` is `second_nibble`, `N` is `first_nibble`, `NN` is
/// `right_byte` and `NNN` is [`Opcode::address`].
#[derive(Clone, Copy, Debug, PartialEq, Eq, Structural)]
pub struct Opcode {
    pub full_opcode: u16,
    pub left_byte: u8,
    pub right_byte: u8,
    pub fourth_nibble: u8,
    pub third_nibble: u8,
    pub second_nibble: u8,
    pub first_nibble: u8,
}

impl Opcode {
    /// The decomposition of `word`, stated arithmetically.
    pub open spec fn decoded(word: u16) -> Opcode {
        Opcode {
            full_opcode: word,
            left_byte: (word / 256) as u8,
            right_byte: (word % 256) as u8,
            fourth_nibble: (word / 4096) as u8,
            third_nibble: ((word / 256) % 16) as u8,
            second_nibble: ((word / 16) % 16) as u8,
            first_nibble: (word % 16) as u8,
        }
    }

    /// The word that the big-endian byte pair `left`, `right` spells.
    pub open spec fn word_of(left: u8, right: u8) -> u16 {
        (left * 256 + right) as u16
    }

    /// An opcode is well formed when its parts are those of its word.
    pub open spec fn wf(self) -> bool {
        self == Opcode::decoded(self.full_opcode)
    }

    /// The 12-bit immediate `NNN`.
    pub open spec fn address(self) -> u16 {
        (self.full_opcode % 4096) as u16
    }

    /// Decodes an already assembled instruction word.
    pub fn new(word: u16) -> (op: Opcode)
        ensures
            op == Opcode::decoded(word),
            op.wf(),
    {
        let left_byte = (word >> 8) as u8;
        let right_byte = (word & 0x00FF) as u8;
        assert(word >> 8 == word / 256 && word & 0x00FF == word % 256) by (bit_vector);
        let op = Opcode::from_bytes(left_byte, right_byte);
        assert(op.full_opcode == word);
        op
    }

    /// Decodes two adjacent memory bytes, most significant first.
    pub fn from_bytes(left_byte: u8, right_byte: u8) -> (op: Opcode)
        ensures
            op == Opcode::decoded(Opcode::word_of(left_byte, right_byte)),
            op.left_byte == left_byte,
            op.right_byte == right_byte,
            op.wf(),
    {
        let fourth_nibble = (0xF0 & left_byte) >> 4;
        let third_nibble = 0x0F & left_byte;
        let second_nibble = (0xF0 & right_byte) >> 4;
        let first_nibble = 0x0F & right_byte;
        let full_opcode = ((left_byte as u16) << 8) | (right_byte as u16);
        assert({
            &&& full_opcode == (left_byte as u16) * 256 + (right_byte as u16)
            &&& full_opcode / 256 == left_byte
            &&& full_opcode % 256 == right_byte
            &&& full_opcode / 4096 == fourth_nibble
            &&& (full_opcode / 256) % 16 == third_nibble
            &&& (full_opcode / 16) % 16 == second_nibble
            &&& full_opcode % 16 == first_nibble
        }) by (bit_vector)
            requires
                fourth_nibble == (0xF0 & left_byte) >> 4,
                third_nibble == 0x0F & left_byte,
                second_nibble == (0xF0 & right_byte) >> 4,
                first_nibble == 0x0F & right_byte,
                full_opcode == ((left_byte as u16) << 8) | (right_byte as u16),
        ;
        Opcode {
            full_opcode,
            left_byte,
            right_byte,
            fourth_nibble,
            third_nibble,
            second_nibble,
            first_nibble,
        }
    }

    /// The 12-bit immediate `NNN`, the word without its top nibble.
    pub fn nnn(&self) -> (target: u16)
        ensures
            target == self.address(),
            target < 4096,
    {
        let word = self.full_opcode;
        assert(word & 0x0FFF == word % 4096) by (bit_vector);
        word & 0x0FFF
    }
}

impl From<u16> for Opcode {
    fn from(word: u16) -> (op: Opcode) {
        Opcode::new(word)
    }
}

impl vstd::std_specs::convert::FromSpecImpl<u16> for Opcode {
    open spec fn obeys_from_spec() -> bool {
        true
    }

    open spec fn from_spec(word: u16) -> Opcode {
        Opcode::decoded(word)
    }
}

/// The decomposition loses nothing: the two bytes, and the four nibbles,
/// spell the word back.
pub proof fn law_decoding_loses_nothing(word: u16)
    ensures
        Opcode::decoded(word).wf(),
        Opcode::word_of(Opcode::decoded(word).left_byte, Opcode::decoded(word).right_byte)
            == word,
        Opcode::decoded(word).fourth_nibble * 4096 + Opcode::decoded(word).third_nibble * 256
            + Opcode::decoded(word).second_nibble * 16 + Opcode::decoded(word).first_nibble
            == word,
        Opcode::decoded(word).fourth_nibble < 16,
        Opcode::decoded(word).third_nibble < 16,
        Opcode::decoded(word).second_nibble < 16,
        Opcode::decoded(word).first_nibble < 16,
{
    assert({
        &&& (word / 256) * 256 + word % 256 == word
        &&& (word / 4096) * 4096 + ((word / 256) % 16) * 256 + ((word / 16) % 16) * 16 + word % 16
            == word
        &&& word / 256 < 256
        &&& word / 4096 < 16
    }) by (bit_vector);
}

} // verus!
