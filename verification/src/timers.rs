//! The delay and sound timers.
//!
//! Both are 8-bit counters that fall towards zero, one step per tick of
//! about 16 ms, and stay at zero. The interpreter reads and overwrites
//! them; a tick is a read followed by a compare-and-swap, so that a value
//! the interpreter wrote in between is never lost to a stale decrement.
//! The counters here are plain bytes: the functions state what each step
//! of that protocol does to one, and a host that shares them between
//! threads performs the same steps on its atomics.

use vstd::prelude::*;

verus! {

/// A counter's value after one tick.
pub open spec fn ticked(value: u8) -> u8 {
    if value > 0 {
        (value - 1) as u8
    } else {
        0
    }
}

/// What a ticker that has read `observed` tries to swap in: one less, or
/// nothing when the counter has run out.
pub fn decrement_target(observed: u8) -> (target: Option<u8>)
    ensures
        observed > 0 ==> target == Some(ticked(observed)),
        observed == 0 ==> target is None,
{
    if observed > 0 {
        Some(observed - 1)
    } else {
        None
    }
}

/// Replaces the counter's value with `new` if it still is `expected`, and
/// tells whether it did.
pub fn compare_and_swap(counter: &mut u8, expected: u8, new: u8) -> (swapped: bool)
    ensures
        swapped == (*old(counter) == expected),
        swapped ==> *final(counter) == new,
        !swapped ==> *final(counter) == *old(counter),
{
    if *counter == expected {
        *counter = new;
        true
    } else {
        false
    }
}

/// The second half of a tick, for a ticker that read `observed` some time
/// ago: the counter is decremented only if it is positive and unchanged
/// since the read. A value written in between stays as it is, and the
/// decrement is dropped for this tick.
pub fn tick_after_read(counter: &mut u8, observed: u8) -> (decremented: bool)
    ensures
        decremented == (observed > 0 && *old(counter) == observed),
        decremented ==> *final(counter) == ticked(observed),
        !decremented ==> *final(counter) == *old(counter),
{
    match decrement_target(observed) {
        Some(target) => compare_and_swap(counter, observed, target),
        None => false,
    }
}

/// One undisturbed tick: read, then swap.
pub fn tick(counter: &mut u8)
    ensures
        *final(counter) == ticked(*old(counter)),
{
    let observed = *counter;
    tick_after_read(counter, observed);
}

/// What the tone generator is asked to do.
#[derive(Clone, Copy, Debug, PartialEq, Eq, Structural)]
pub enum ToneAction {
    /// Start the looping tone.
    Start,
    /// Stop it.
    Stop,
    /// Leave it as it is.
    Keep,
}

/// Gates the tone on the sound timer: it starts when the timer is found
/// positive while the tone is silent, and stops when the timer is found at
/// zero while the tone plays.
pub fn tone_action(playing: bool, sound_counter: u8) -> (action: ToneAction)
    ensures
        action == ToneAction::Start <==> !playing && sound_counter > 0,
        action == ToneAction::Stop <==> playing && sound_counter == 0,
        action == ToneAction::Keep <==> playing == (sound_counter > 0),
{
    if !playing && sound_counter > 0 {
        ToneAction::Start
    } else if playing && sound_counter == 0 {
        ToneAction::Stop
    } else {
        ToneAction::Keep
    }
}

} // verus!
