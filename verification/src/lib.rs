//! Virtual stack traces for error values.
//!
//! Each time an error is made or wrapped, a frame records its message and a
//! place in the source. The frames of an error and of its underlying causes,
//! outermost first, are its virtual stack: a light stand-in for a captured
//! call stack, cheap to make and short enough to read.
//!
//! [`collect`] makes the virtual stack of an [`ErrorChain`] and
//! [`render_block`] lays one out as text. A [`Collector`] makes a stack step
//! by step, for a caller that asks an error for its causes itself.

pub mod chain;
pub mod collector;
pub mod decimal;
pub mod frame;
pub mod target;
pub mod theorems;
pub mod trace;

pub use chain::{ErrorChain, ErrorLink};
pub use collector::{Collector, MAX_FRAMES};
pub use frame::{Location, StackFrame};
pub use trace::{collect, render_block, VirtualStackTrace};
