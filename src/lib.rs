//! Ahead-of-time compilation of an IR model to bytecode and one synchronous
//! run of it on a CPU device, with the image preprocessing that feeds it.
//!
//! The compiler and runtime calls themselves are made by the caller: the
//! drivers in `compile` and `execute` say which call comes next, with which
//! arguments, and turn each outcome into the next position or a typed error.
use vstd::prelude::*;

pub mod error;
pub mod shape;
pub mod preprocess;
pub mod steps;
pub mod compile;
pub mod execute;

verus! {

} // verus!
