//! Bounded-duration supervision of an external process.
//!
//! The heart of the crate is [`supervisor`]: a verified state machine that
//! drives one supervised run of a child process.  The caller (ordinary,
//! unverified code) performs the operating-system work — spawning, reading
//! the output pipe, sleeping on the deadline, killing and reaping — and
//! reports each observation to the machine as an [`supervisor::Event`].
//! The machine decides what to do next and guarantees, by proof, that the
//! deadline always forces a kill, that a kill is issued at most once and
//! never speculatively, and that the captured output is exactly the bytes
//! drained before the run ended.
//!
//! The remaining modules are small verified utilities: builders, byte
//! units, a message cache, a primality test, text checks and line
//! counting.

pub mod arith;
pub mod builder;
pub mod builder_errors;
pub mod byte_units;
pub mod cache;
pub mod documented;
pub mod lines;
pub mod primes;
pub mod rows;
pub mod supervisor;
pub mod text;
