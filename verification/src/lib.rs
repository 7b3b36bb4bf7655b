//! Blinks the LED on port D, pin 13 of an STM32F107, timing each half period
//! by busy-waiting on timer 2.
//!
//! The crate holds the decisions of the firmware and a model of the registers
//! it touches. Touching the hardware itself is left to the caller: a
//! [`program::Program`] names the next [`action::Action`], the caller carries
//! it out and hands back an [`action::Reply`]. A [`board::Board`] carries the
//! actions out on simulated registers.

pub mod action;
pub mod board;
pub mod delay;
pub mod laws;
pub mod program;
pub mod registers;
pub mod simulate;
