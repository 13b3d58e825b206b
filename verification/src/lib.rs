//! The verified core of a small arithmetic guest component.
//!
//! A host calls the guest's exported operations, `add` and `divide`, and may
//! lend it a logging capability. This crate holds what the guest decides and
//! computes on plain values:
//!
//! * [`integer`]: addition of 32-bit signed integers with wraparound;
//! * [`ieee`]: which IEEE 754 bit patterns are zeros, the one kind of divisor
//!   on which `divide` gives up;
//! * [`decimal`]: the decimal text of an integer operand;
//! * [`record`]: the log records that accompany a call;
//! * [`guest`]: the component itself, built with or without logging.
//!
//! Floating-point arithmetic and the calls to the host are left to the code
//! that embeds this crate: it hands the component bit patterns and rendered
//! operands, and performs what the component answers.
pub mod decimal;
pub mod guest;
pub mod ieee;
pub mod integer;
pub mod record;
