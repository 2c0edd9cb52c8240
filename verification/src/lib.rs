//! Driver and control logic for a small remote-controlled boat with an
//! on-board load-cell scale.
//!
//! The heart of the crate is [`hx711`], a bit-banged driver for a 24-bit
//! delta-sigma analog-to-digital converter: readiness polling with a bounded
//! timeout, a 24-bit most-significant-bit-first shift-in, trailing clock
//! pulses that select channel and gain for the next conversion, and a small
//! calibration and averaging layer on top.  The driver talks to its two GPIO
//! lines through the [`line::DigitalLine`] trait, whose contracts model a
//! line as a fixed script of levels to be read and a log of levels written;
//! everything the driver does is verified against that model.

pub mod adc;
pub mod buttons;
pub mod config;
pub mod display;
pub mod hx711;
pub mod line;
pub mod messages;
pub mod pzconfig;
pub mod remote_config;
pub mod state;
pub mod timer;
