//! The PC speaker's tones: the pitch a keyboard cue or the startup chime asks
//! for becomes a divisor of the programmable interval timer's input clock.

use vstd::prelude::*;

verus! {

/// Input frequency of the interval timer, in hertz.
pub const PIT_INPUT_HZ: u32 = 1_193_182;
/// Pitch of the cue when a menu selection moves.
pub const CUE_MOVE_HZ: u32 = 660;
/// Pitch of the cue when a page opens.
pub const CUE_ENTER_HZ: u32 = 784;
/// Pitch of the cue when a page closes.
pub const CUE_BACK_HZ: u32 = 523;
/// Pitch of the cue when the boot screen's reading cursor moves.
pub const CUE_REVIEW_MOVE_HZ: u32 = 740;
/// Pitch of the cue confirming the boot goes on.
pub const CUE_CONTINUE_HZ: u32 = 523;
/// Pitch of the cue when the boot screen waits for the user.
pub const CUE_READY_HZ: u32 = 880;
/// The two ascending tones of the startup chime.
pub const CHIME_FIRST_HZ: u32 = 660;
pub const CHIME_SECOND_HZ: u32 = 990;

/// The timer divisor for a tone of `frequency` hertz: the input clock over
/// the pitch, when the pitch is nonzero and the quotient fits the timer's
/// sixteen-bit counter and is not zero.
pub open spec fn spec_tone_divisor(frequency: u32) -> Option<u16> {
    if frequency == 0 {
        None
    } else if PIT_INPUT_HZ / frequency == 0 || PIT_INPUT_HZ / frequency > u16::MAX {
        None
    } else {
        Some((PIT_INPUT_HZ / frequency) as u16)
    }
}

/// The divisor that makes the timer sound `frequency` hertz, if it can.
pub fn tone_divisor(frequency: u32) -> (r: Option<u16>)
    ensures
        r == spec_tone_divisor(frequency),
{
    if frequency == 0 {
        return None;
    }
    let divisor = PIT_INPUT_HZ / frequency;
    if divisor == 0 || divisor > u16::MAX as u32 {
        return None;
    }
    Some(divisor as u16)
}

/// The two bytes the timer's counter is loaded with, low byte first.
pub fn divisor_bytes(divisor: u16) -> (r: (u8, u8))
    ensures
        r.0 == divisor % 256,
        r.1 == divisor / 256,
{
    let low = (divisor & 0xff) as u8;
    let high = (divisor >> 8u16) as u8;
    assert(divisor & 0xff == divisor % 256) by (bit_vector);
    assert(divisor >> 8u16 == divisor / 256) by (bit_vector);
    (low, high)
}

} // verus!
