//! Protocol timing: pulse widths, frame period and reset gap in sequencer ticks.
use vstd::prelude::*;

verus! {

/// High time of a 0 bit, in ns.
pub const T0H_NS: u32 = 400;

/// High time of a 1 bit, in ns.
pub const T1H_NS: u32 = 800;

/// Period of one bit, in ns.
pub const FRAME_NS: u32 = 1250;

/// Low time that latches a frame, in µs (at least 250 µs for some parts, plus slack).
pub const RESET_TIME: u32 = 270;

/// Sequencer clock, in ticks per µs.
pub const PWM_CLOCK: u32 = 16;

/// Codes per color: 8 bits for each of green, red and blue.
pub const RGB_SIZE: usize = 24;

/// Marker bit that sets the output polarity of a duty value.
pub const POLARITY: u16 = 0x8000;

/// Duty ticks of a 0 bit.
pub const T0H_TICKS: u32 = (T0H_NS * PWM_CLOCK + 500) / 1000;

/// Duty ticks of a 1 bit.
pub const T1H_TICKS: u32 = (T1H_NS * PWM_CLOCK + 500) / 1000;

/// Sequencer code of a 0 bit.
pub const ZERO_CODE: u16 = T0H_TICKS as u16 | POLARITY;

/// Sequencer code of a 1 bit.
pub const ONE_CODE: u16 = T1H_TICKS as u16 | POLARITY;

/// Period of one bit, in ticks.
pub const PWM_PERIOD: u16 = ((FRAME_NS * PWM_CLOCK + 500) / 1000) as u16;

/// Reset gap, in ticks.
pub const RESET_TICKS: u32 = (RESET_TIME * 1000 * PWM_CLOCK + 500) / 1000;

/// Ticks for a duration of `ns` nanoseconds, rounded half up.
pub open spec fn ticks(ns: int) -> int {
    (ns * PWM_CLOCK + 500) / 1000
}

/// Converts nanoseconds to sequencer ticks, rounding half up.
pub fn to_ticks(ns: u32) -> (r: u32)
    requires
        ns * PWM_CLOCK + 500 <= u32::MAX,
    ensures
        r == ticks(ns as int),
{
    (ns * PWM_CLOCK + 500) / 1000
}

/// The named timing values are the tick conversions of the protocol's durations.
pub proof fn lemma_timing_constants()
    ensures
        T0H_TICKS == ticks(T0H_NS as int),
        T1H_TICKS == ticks(T1H_NS as int),
        PWM_PERIOD == ticks(FRAME_NS as int),
        RESET_TICKS == ticks(RESET_TIME * 1000),
        T0H_TICKS == 6,
        T1H_TICKS == 13,
        PWM_PERIOD == 20,
        RESET_TICKS == 4320,
        ZERO_CODE == 6 | 0x8000u16,
        ONE_CODE == 13 | 0x8000u16,
        ZERO_CODE != ONE_CODE,
{
    assert((6u16 | 0x8000u16) != (13u16 | 0x8000u16)) by (bit_vector);
}

} // verus!
