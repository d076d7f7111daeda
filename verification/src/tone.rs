//! Tone generation with a PWM slice: the counter wraps once per period of
//! the note.

use vstd::prelude::*;

verus! {

/// The microcontroller clock frequency, in hertz.
pub const CLOCK_FREQ: u64 = 150_000_000;

/// The divider between the clock and the PWM counter.
pub const PWM_DIV: u64 = 64;

/// The counter value at which the PWM wraps to sound a note: the clock
/// ticks in one period of the note, rounded down, divided by the divider,
/// rounded down.
pub open spec fn spec_get_note(note_frec: u64) -> u64
    recommends
        note_frec > 0,
{
    ((CLOCK_FREQ as int / note_frec as int) / PWM_DIV as int) as u64
}

/// The counter value at which the PWM wraps to sound a note of `note_frec`
/// hertz.
#[verifier::when_used_as_spec(spec_get_note)]
pub fn get_note(note_frec: u64) -> (top: u64)
    requires
        note_frec > 0,
    ensures
        top == spec_get_note(note_frec),
{
    (CLOCK_FREQ / note_frec) / PWM_DIV
}

/// Rounding down twice loses nothing: the wrap value is the clock frequency
/// divided by the product of divider and note frequency, rounded down once.
/// It is the largest `top` with `top * PWM_DIV * note_frec <= CLOCK_FREQ`.
pub proof fn lemma_get_note_is_floor(note_frec: u64)
    requires
        note_frec > 0,
    ensures
        spec_get_note(note_frec) * PWM_DIV * note_frec <= CLOCK_FREQ,
        CLOCK_FREQ < (spec_get_note(note_frec) + 1) * PWM_DIV * note_frec,
{
    let ticks = CLOCK_FREQ as int / note_frec as int;
    let top = ticks / PWM_DIV as int;
    assert(ticks * note_frec <= CLOCK_FREQ < (ticks + 1) * note_frec) by (nonlinear_arith)
        requires
            note_frec > 0,
            ticks == CLOCK_FREQ as int / note_frec as int,
    ;
    assert(top * 64 <= ticks < (top + 1) * 64);
    assert(top * 64 * note_frec <= ticks * note_frec) by (nonlinear_arith)
        requires
            top * 64 <= ticks,
            note_frec > 0,
    ;
    assert((ticks + 1) * note_frec <= (top + 1) * 64 * note_frec) by (nonlinear_arith)
        requires
            ticks + 1 <= (top + 1) * 64,
            note_frec > 0,
    ;
}

} // verus!
