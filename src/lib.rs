//! Real-time audio DSP engine: sample transport, FIR filter planning,
//! delay-line and overlap-add bookkeeping, noise-gate state machine,
//! spectrum framing and the processor's per-block decisions.
//!
//! Sample arithmetic (filter taps, FFTs, envelopes) is done by the host
//! application on top of the verified structures of this crate.

pub mod audio;
pub mod channel;
pub mod delay_line;
pub mod gate;
pub mod overlap;
pub mod processor;
pub mod snapshot;
pub mod spectrum;
pub mod window;
