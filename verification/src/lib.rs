//! Verified core of a rustc coverage wrapper.
//!
//! Installed as `RUSTC_WRAPPER` (or `RUSTC_WORKSPACE_WRAPPER`), the wrapper
//! stands in for the compiler: it decides, from the process environment
//! alone, whether the current compilation unit should receive coverage
//! instrumentation flags, splices those flags in front of the original
//! argument vector when it should, and hands the result to the real
//! compiler, propagating success or failure.
//!
//! This crate holds everything that can be decided without touching the
//! outside world: the instrumentation gate, the flag tokenizer, the
//! argument-vector construction, and the mapping from outcomes to exit
//! codes. Reading the environment, spawning the compiler and printing
//! diagnostics are left to a thin unverified shell, which hands this crate
//! an explicit [`context::WrapperEnv`] snapshot and plain byte strings.

pub mod bytes;
pub mod context;
pub mod errors;
pub mod flags;
pub mod gate;
pub mod invocation;
pub mod outcome;
