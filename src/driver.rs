//! The driver: it owns the frame buffer and the sequencer handle, and hands
//! both to a transmission for the length of one write.
use vstd::prelude::*;

use embassy_nrf::pwm::Error as PwmError;
use crate::color::Color;
use crate::frame::{DmaBuffer, encoded};
use crate::timing::{FRAME_NS, PWM_PERIOD, RESET_TICKS, RESET_TIME, RGB_SIZE};

verus! {

/// Relies on embassy_nrf::pwm::Error, the reason the sequencer gives for
/// refusing to start: declared opaque, and only carried through to callers.
#[verifier::external_type_specification]
#[verifier::external_body]
pub struct ExPwmError(PwmError);

/// Error during a write.
#[derive(Debug, Clone, Copy, PartialEq, Eq)]
pub enum Error {
    /// The sequencer refused to start; nothing was sent.
    PwmError(PwmError),
}

impl From<PwmError> for Error {
    fn from(value: PwmError) -> (e: Self)
        ensures
            e == Error::PwmError(value),
    {
        Error::PwmError(value)
    }
}

impl vstd::std_specs::convert::FromSpecImpl<PwmError> for Error {
    open spec fn obeys_from_spec() -> bool {
        true
    }

    open spec fn from_spec(v: PwmError) -> Self {
        Error::PwmError(v)
    }
}

/// Settings of one pass of the sequencer over the buffer.
#[derive(Clone, Copy, Debug, PartialEq, Eq, Structural)]
pub struct SequenceTiming {
    /// Extra periods spent on each code.
    pub refresh: u32,
    /// Periods of low output after the last code: the reset gap.
    pub end_delay: u32,
}

/// How the sequencer is set up to send this protocol.
#[derive(Clone, Copy, Debug, PartialEq, Eq, Structural)]
pub struct PwmSetup {
    /// Counter top: the period of one bit, in ticks.
    pub max_duty: u16,
    /// Divider of the sequencer clock.
    pub prescaler_div: u8,
    /// The counter counts up only, not up and down.
    pub count_up: bool,
    /// One code drives all channels.
    pub common_load: bool,
    /// Outputs drive a 0 strongly and a 1 at standard strength.
    pub high_drive_low: bool,
}

/// The setup that makes each code one bit period long at the full clock.
pub fn pwm_setup() -> (c: PwmSetup)
    ensures
        c == (PwmSetup {
            max_duty: PWM_PERIOD,
            prescaler_div: 1,
            count_up: true,
            common_load: true,
            high_drive_low: true,
        }),
{
    PwmSetup { max_duty: PWM_PERIOD, prescaler_div: 1, count_up: true, common_load: true, high_drive_low: true }
}

/// Where a driver stands in a write.
#[derive(Clone, Copy, Debug, PartialEq, Eq, Structural)]
pub enum Phase {
    /// The driver holds the handle and the buffer.
    Idle,
    /// Handle and encoded buffer are out with a transmission whose start is
    /// pending, or was refused.
    Transmitting,
    /// The sequencer started; the transmission runs for the wait returned.
    Waiting,
}

/// Time that a pass over `n` codes takes, reset gap included, in µs.
pub open spec fn delay_us(n: int) -> int {
    n * FRAME_NS / 1000 + RESET_TIME
}

/// The handle and the encoded buffer while a transmission is in flight.
pub struct Transmission<H, const N: usize> {
    pub pwm: H,
    pub buf: DmaBuffer<N>,
}

/// Driver for a chain of WS2812-family devices on one sequencer output.
/// `N` is the number of codes, 24 per device.
pub struct Ws2812<H, const N: usize> {
    num_leds: usize,
    phase: Phase,
    pwm: Option<H>,
    buf: Option<DmaBuffer<N>>,
}

impl<H, const N: usize> Ws2812<H, N> {
    /// The driver's phase.
    pub closed spec fn state(&self) -> Phase {
        self.phase
    }

    /// The handle that the driver holds, if any.
    pub closed spec fn handle(&self) -> Option<H> {
        self.pwm
    }

    /// The codes of the buffer that the driver holds, if any.
    pub closed spec fn frame(&self) -> Option<Seq<u16>> {
        match self.buf {
            Some(b) => Some(b@),
            None => None,
        }
    }

    /// The buffer is a whole number of 24-code chunks, and the driver holds
    /// handle and buffer exactly when it is idle.
    pub closed spec fn wf(&self) -> bool {
        &&& N % 24 == 0
        &&& N <= u32::MAX
        &&& self.num_leds == N / 24
        &&& (self.phase == Phase::Idle) == self.pwm is Some
        &&& (self.phase == Phase::Idle) == self.buf is Some
    }

    /// An idle driver that owns `pwm` and a zeroed buffer. `N` must be a
    /// multiple of 24, and the frame's bit count must fit in 32 bits.
    pub fn new(pwm: H) -> (d: Self)
        requires
            N % 24 == 0,
            N <= u32::MAX,
        ensures
            d.wf(),
            d.state() == Phase::Idle,
            d.handle() == Some(pwm),
            d.frame() == Some(Seq::new(N as nat, |i: int| 0u16)),
    {
        Ws2812 { num_leds: N / RGB_SIZE, phase: Phase::Idle, pwm: Some(pwm), buf: Some(DmaBuffer::new()) }
    }

    /// Number of devices in the chain.
    pub fn num_leds(&self) -> (n: usize)
        requires
            self.wf(),
        ensures
            n == N / 24,
    {
        self.num_leds
    }

    /// The driver's phase.
    pub fn phase(&self) -> (p: Phase)
        ensures
            p == self.state(),
    {
        self.phase
    }

    /// The codes of the buffer, when the driver is idle.
    pub fn codes(&self) -> (c: Option<&[u16]>)
        requires
            self.wf(),
        ensures
            self.state() == Phase::Idle ==> c is Some && c->0@ == self.frame()->0,
            self.state() != Phase::Idle ==> c is None,
    {
        match &self.buf {
            Some(b) => Some(b.as_slice()),
            None => None,
        }
    }

    /// Microseconds that one pass over the buffer takes, reset gap included.
    pub fn delay_micros(&self) -> (us: u64)
        requires
            self.wf(),
        ensures
            us == delay_us(N as int),
            us * 1000 == N * FRAME_NS + RESET_TIME * 1000,
    {
        assert((N as int) % 24 == 0 ==> (N as int) * 1250 % 1000 == 0) by (nonlinear_arith);
        let num_bits: u64 = self.num_leds as u64 * RGB_SIZE as u64;
        let active_time_ns: u64 = num_bits * FRAME_NS as u64;
        let active_time_us: u64 = active_time_ns / 1000;
        active_time_us + RESET_TIME as u64
    }

    /// One pass, no extra periods per code, then the reset gap.
    pub fn sequence_config(&self) -> (c: SequenceTiming)
        ensures
            c.refresh == 0,
            c.end_delay == RESET_TICKS,
    {
        SequenceTiming { refresh: 0, end_delay: RESET_TICKS }
    }

    /// Starts a write: encodes `colors` into the buffer, then hands handle and
    /// buffer to the transmission returned. The driver holds neither until
    /// `finish_write` gives them back, so no second write can start before.
    pub fn begin_write(&mut self, colors: &[Color]) -> (t: Transmission<H, N>)
        requires
            old(self).wf(),
            old(self).state() == Phase::Idle,
        ensures
            final(self).wf(),
            final(self).state() == Phase::Transmitting,
            final(self).handle() is None,
            final(self).frame() is None,
            old(self).handle() == Some(t.pwm),
            t.buf@ == encoded(old(self).frame()->0, colors@),
    {
        let pwm = self.pwm.take().unwrap();
        let mut buf = self.buf.take().unwrap();
        buf.write_colors(colors);
        self.phase = Phase::Transmitting;
        Transmission { pwm, buf }
    }

    /// Takes the sequencer's answer to the start of a transmission. When it
    /// started, the driver waits for the pass, and the result is the wait in
    /// µs; when it was refused, the result is the error.
    pub fn after_trigger(&mut self, started: Result<(), PwmError>) -> (r: Result<u64, Error>)
        requires
            old(self).wf(),
            old(self).state() == Phase::Transmitting,
        ensures
            final(self).wf(),
            final(self).handle() == old(self).handle(),
            final(self).frame() == old(self).frame(),
            match started {
                Ok(()) => r == Ok::<u64, Error>(delay_us(N as int) as u64)
                    && final(self).state() == Phase::Waiting,
                Err(e) => r == Err::<u64, Error>(Error::PwmError(e))
                    && final(self).state() == Phase::Transmitting,
            },
    {
        match started {
            Ok(()) => {
                self.phase = Phase::Waiting;
                Ok(self.delay_micros())
            },
            Err(e) => Err(Error::from(e)),
        }
    }

    /// Ends a write: the driver takes back the handle and the buffer of `t`
    /// and is idle again.
    pub fn finish_write(&mut self, t: Transmission<H, N>)
        requires
            old(self).wf(),
            old(self).state() != Phase::Idle,
        ensures
            final(self).wf(),
            final(self).state() == Phase::Idle,
            final(self).handle() == Some(t.pwm),
            final(self).frame() == Some(t.buf@),
    {
        self.pwm = Some(t.pwm);
        self.buf = Some(t.buf);
        self.phase = Phase::Idle;
    }
}

} // verus!
