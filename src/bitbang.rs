//! Bit timing for driving the line from a timer and a plain output pin.
use vstd::prelude::*;

verus! {

/// High time of a 1 bit, in ns.
pub const BANG_T1H_NS: u32 = 700;

/// Low time of a 1 bit, in ns.
pub const BANG_T1L_NS: u32 = 600;

/// High time of a 0 bit, in ns.
pub const BANG_T0H_NS: u32 = 350;

/// Low time of a 0 bit, in ns.
pub const BANG_T0L_NS: u32 = 800;

/// Low time after a frame that latches it, in µs.
pub const LATCH_US: u32 = 60;

/// How long the pin stays high, then low, for one bit.
#[derive(Clone, Copy, Debug, PartialEq, Eq, Structural)]
pub struct BitPulse {
    pub high_ns: u32,
    pub low_ns: u32,
}

/// The pulse that sends `bit`: a long high time for 1, a short one for 0.
pub open spec fn pulse_of(bit: bool) -> BitPulse {
    if bit {
        BitPulse { high_ns: BANG_T1H_NS, low_ns: BANG_T1L_NS }
    } else {
        BitPulse { high_ns: BANG_T0H_NS, low_ns: BANG_T0L_NS }
    }
}

/// The pulse that sends `bit`.
pub fn bit_pulse(bit: bool) -> (p: BitPulse)
    ensures
        p == pulse_of(bit),
{
    if bit {
        BitPulse { high_ns: BANG_T1H_NS, low_ns: BANG_T1L_NS }
    } else {
        BitPulse { high_ns: BANG_T0H_NS, low_ns: BANG_T0L_NS }
    }
}

/// The pulse that sends bit `i` of `data`, most significant bit first.
pub fn byte_pulse(data: u8, i: u32) -> (p: BitPulse)
    requires
        i < 8,
    ensures
        p == pulse_of((data >> ((7 - i) as u8)) & 1u8 == 1u8),
{
    let shift: u8 = 7 - i as u8;
    bit_pulse((data >> shift) & 1u8 == 1u8)
}

} // verus!
