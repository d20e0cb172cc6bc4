//! The sixteen-key pad: which keys are down, rising edges, and the wait for
//! a key press.
//!
//! A key is a hex digit, `0x0` to `0xF`. The host reports which keys are
//! down; the interpreter keeps the report of the cycle before beside it and
//! calls a key that is down now and was not down then an edge. Edges are
//! looked for over all sixteen keys, lowest digit first.

use crate::emulator::Emulator;
use crate::machine::Machine;
use vstd::prelude::*;

verus! {

/// Keys on the pad.
pub const KEY_COUNT: usize = 16;

/// The keyboard scancode that stands for each key, by key digit:
/// the block `1234` / `QWER` / `ASDF` / `ZXCV` laid over the pad
/// `123C` / `456D` / `789E` / `A0BF`.
pub const KEY_SCANCODES: [u32; 16] = [
    0x02D,
    0x002,
    0x003,
    0x004,
    0x010,
    0x011,
    0x012,
    0x01E,
    0x01F,
    0x020,
    0x02C,
    0x02E,
    0x005,
    0x013,
    0x021,
    0x02F,
];

/// Whether the interpreter runs or is held until a key is pressed.
#[derive(Clone, Copy, Debug, PartialEq, Eq, Structural)]
pub enum WaitState {
    /// Instructions are fetched and executed.
    Running,
    /// Nothing is fetched until a key edge is seen; the key's digit then
    /// goes to the register named here.
    WaitingForKey(u8),
}

/// Whether `key` is down in `current` and was not in `previous`.
pub open spec fn is_key_edge(current: Seq<bool>, previous: Seq<bool>, key: int) -> bool {
    current[key] && !previous[key]
}

/// The lowest key at or above `start` that shows an edge.
pub open spec fn first_key_edge_from(current: Seq<bool>, previous: Seq<bool>, start: int) -> Option<
    u8,
>
    decreases KEY_COUNT - start,
{
    if start < 0 || start >= KEY_COUNT {
        None
    } else if is_key_edge(current, previous, start) {
        Some(start as u8)
    } else {
        first_key_edge_from(current, previous, start + 1)
    }
}

/// The lowest key that shows an edge, if any does.
pub open spec fn first_key_edge(current: Seq<bool>, previous: Seq<bool>) -> Option<u8> {
    first_key_edge_from(current, previous, 0)
}

/// Whether the key with digit `key` is down. A value above `0xF` names no
/// key, and no key is never down.
pub open spec fn key_is_down(keys: Seq<bool>, key: u8) -> bool {
    key < KEY_COUNT && keys[key as int]
}

/// What `first_key_edge_from` finds is an edge at or above `start` with no
/// edge between `start` and it; it finds nothing only where there is none.
pub proof fn lemma_first_key_edge_from(current: Seq<bool>, previous: Seq<bool>, start: int)
    requires
        0 <= start <= KEY_COUNT,
    ensures
        first_key_edge_from(current, previous, start) matches Some(key) ==> start <= key
            < KEY_COUNT && is_key_edge(current, previous, key as int) && forall|lower: int|
            start <= lower < key ==> !is_key_edge(current, previous, lower),
        first_key_edge_from(current, previous, start) is None ==> forall|key: int|
            start <= key < KEY_COUNT ==> !is_key_edge(current, previous, key),
    decreases KEY_COUNT - start,
{
    if start < KEY_COUNT && !is_key_edge(current, previous, start) {
        lemma_first_key_edge_from(current, previous, start + 1);
    }
}

/// The key that `scancode` stands for, if it stands for one.
pub fn key_for_scancode(scancode: u32) -> (key: Option<u8>)
    ensures
        key matches Some(found) ==> found < KEY_COUNT && KEY_SCANCODES@[found as int] == scancode,
        key is None ==> forall|other: int|
            0 <= other < KEY_COUNT ==> KEY_SCANCODES@[other] != scancode,
{
    let mut key: u8 = 0;
    while key < 16
        invariant
            key <= 16,
            forall|other: int| 0 <= other < key ==> KEY_SCANCODES@[other] != scancode,
        decreases 16 - key,
    {
        if KEY_SCANCODES[key as usize] == scancode {
            return Some(key);
        }
        key += 1;
    }
    None
}

/// Records a key event from the keyboard: if `scancode` stands for a key of
/// the pad, that key is down from now on if `pressed`, and up if not. Any
/// other scancode changes nothing.
pub fn update_key_states(scancode: u32, pressed: bool, emulator: &mut Emulator)
    ensures
        forall|key: int|
            0 <= key < KEY_COUNT && KEY_SCANCODES@[key] == scancode
                ==> final(emulator).key_states@[key] == pressed,
        forall|key: int|
            0 <= key < KEY_COUNT && KEY_SCANCODES@[key] != scancode
                ==> final(emulator).key_states@[key] == old(emulator).key_states@[key],
        final(emulator)@ == (Machine { key_states: final(emulator).key_states@, ..old(emulator)@ }),
        final(emulator).display == old(emulator).display,
        old(emulator).wf() ==> final(emulator).wf(),
{
    match key_for_scancode(scancode) {
        Some(key) => {
            emulator.key_states[key as usize] = pressed;
        },
        None => {},
    }
}

/// Looks for a rising edge: the lowest key that is down in `current` and
/// was not down in `previous`.
pub fn find_key_edge(current: &[bool; 16], previous: &[bool; 16]) -> (edge: Option<u8>)
    ensures
        edge == first_key_edge(current@, previous@),
        edge matches Some(key) ==> key < KEY_COUNT && is_key_edge(current@, previous@, key as int)
            && forall|lower: int| 0 <= lower < key ==> !is_key_edge(current@, previous@, lower),
        edge is None ==> forall|key: int|
            0 <= key < KEY_COUNT ==> !is_key_edge(current@, previous@, key),
{
    let mut key: u8 = 0;
    while key < 16
        invariant
            key <= 16,
            first_key_edge(current@, previous@) == first_key_edge_from(
                current@,
                previous@,
                key as int,
            ),
        decreases 16 - key,
    {
        if current[key as usize] && !previous[key as usize] {
            proof {
                lemma_first_key_edge_from(current@, previous@, 0);
            }
            return Some(key);
        }
        key += 1;
    }
    proof {
        lemma_first_key_edge_from(current@, previous@, 0);
    }
    None
}

} // verus!
