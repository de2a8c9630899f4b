//! Scratch-space allocation on the stack of a traced process.
//!
//! While a traced process is stopped at a system-call entry, its tracer may
//! need room inside the process's own address space to stage data. This
//! library reserves that room by moving a cached copy of the stack pointer;
//! it never touches the process itself. Every function is verified: the
//! address arithmetic cannot wrap, and a refused request leaves the register
//! set exactly as it was.

pub mod errors;
pub mod platform;
pub mod register;
