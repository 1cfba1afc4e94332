//! WS2812 frame encoding and transmission bookkeeping for a DMA-fed
//! pulse-width sequencer.

pub mod bitbang;
pub mod color;
pub mod driver;
pub mod frame;
pub mod timing;

pub use color::Color;
pub use driver::{pwm_setup, Error, Phase, PwmSetup, SequenceTiming, Transmission, Ws2812};
pub use frame::DmaBuffer;
pub use timing::{to_ticks, ONE_CODE, ZERO_CODE};
