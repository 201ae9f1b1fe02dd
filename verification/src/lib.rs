//! A small real-time synthesizer core: periodic oscillators, a second-order
//! (biquad) recursive filter, and a registry of named instruments that a
//! render path and a control path share.
//!
//! All signal values are carried in fixed point: an `i64` holds a real number
//! scaled by `fixed::SCALE`, so amplitudes live in `[-SCALE, SCALE]` for
//! `[-1.0, 1.0]`, frequencies are Hz times `SCALE`, and angles are radians
//! times `SCALE`. This keeps the arithmetic exact enough for audio while
//! every step of it is specified and proved.

pub mod fixed;
pub mod trig;
pub mod oscillator;
pub mod filter;
pub mod instrument;
