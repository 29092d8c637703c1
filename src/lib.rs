//! A line-oriented calculator: a basic accumulator with one memory slot, and a
//! reverse Polish notation evaluator, driven by a small session state machine.
//!
//! The number type is left to the caller, who supplies how to read a number,
//! whether one is zero, and the four operations on it.

pub mod accumulator;
pub mod command;
pub mod error;
pub mod rpn;
pub mod session;
pub mod text;
