//! The decisions of the firmware tasks, apart from the pins and timers that
//! carry them out.
use crate::segment::{digit_byte, digit_pattern};
use vstd::prelude::*;

verus! {

/// How often, in polls, a held button is reported.
pub const REPORT_EVERY: u32 = 5;

/// Number of digit positions on the display.
pub const DISPLAY_POSITIONS: usize = 4;

/// What the blink task does after one poll of the button.
#[derive(Debug, Clone, Copy, PartialEq, Eq, Structural)]
pub struct BlinkStep {
    /// Poll counter for the next poll.
    pub next_count: u32,
    /// Whether to toggle the LED.
    pub toggle_led: bool,
    /// Whether to report the held button on the log.
    pub report_press: bool,
}

/// The counter after `count`, wrapping past the largest `u32` to zero.
pub open spec fn next_poll_count(count: u32) -> u32 {
    if count == u32::MAX {
        0
    } else {
        (count + 1) as u32
    }
}

/// One poll of the blink task: while the button is held the LED toggles, and
/// every fifth poll (by the counter) the press is reported. The counter
/// advances on every poll.
pub fn blink_step(count: u32, pressed: bool) -> (r: BlinkStep)
    ensures
        r.next_count == next_poll_count(count),
        r.toggle_led == pressed,
        r.report_press == (pressed && count % REPORT_EVERY == 0),
{
    BlinkStep {
        next_count: count.wrapping_add(1),
        toggle_led: pressed,
        report_press: pressed && count % REPORT_EVERY == 0,
    }
}

/// The segment bytes shown for a display counter: the first position cycles
/// through the digits 0 to 8 with the counter, the others show 1, 2 and 3.
pub open spec fn frame_spec(counter: nat) -> Seq<u8> {
    seq![digit_pattern((counter % 9) as int), digit_pattern(1), digit_pattern(2), digit_pattern(3)]
}

/// The raw segment bytes written to the display for counter `counter`.
pub fn display_frame(counter: usize) -> (r: Vec<u8>)
    ensures
        r@ == frame_spec(counter as nat),
        r@.len() == DISPLAY_POSITIONS,
{
    let mut frame: Vec<u8> = Vec::new();
    frame.push(digit_byte(counter % 9));
    frame.push(digit_byte(1));
    frame.push(digit_byte(2));
    frame.push(digit_byte(3));
    assert(frame@ =~= frame_spec(counter as nat));
    frame
}

} // verus!
