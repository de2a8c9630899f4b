//! The register state of a traced process, captured at a trap.

use vstd::prelude::*;
use crate::platform::Platform;

pub mod mem;

verus! {

/// An address in the traced process's address space.
pub type Word = usize;

/// Registers as captured from the traced process, with the platform whose
/// layout they follow.
#[derive(Clone, Copy, Debug, PartialEq, Eq, Structural)]
pub struct RawRegisters {
    pub platform: Platform,
    pub stack_pointer: Word,
}

/// The registers of one traced process during one trap.
///
/// The captured registers are kept as a snapshot that nothing changes. The
/// working stack pointer starts out equal to the captured one and moves only
/// through allocation.
#[derive(Clone, Copy, Debug, PartialEq, Eq)]
pub struct Registers {
    pid: i32,
    stack_pointer: Word,
    original_regs: RawRegisters,
}

/// What a register set holds, field by field.
pub struct RegistersView {
    pub pid: i32,
    pub stack_pointer: Word,
    pub original_stack_pointer: Word,
    pub platform: Platform,
}

impl RegistersView {
    /// No allocation has moved the working stack pointer away from the
    /// snapshot.
    pub open spec fn untouched(self) -> bool {
        self.stack_pointer == self.original_stack_pointer
    }
}

impl View for Registers {
    type V = RegistersView;

    closed spec fn view(&self) -> RegistersView {
        RegistersView {
            pid: self.pid,
            stack_pointer: self.stack_pointer,
            original_stack_pointer: self.original_regs.stack_pointer,
            platform: self.original_regs.platform,
        }
    }
}

impl Registers {
    /// The register set of process `pid` at the moment of capture.
    pub fn from(pid: i32, raw_regs: RawRegisters) -> (regs: Registers)
        ensures
            regs@ == (RegistersView {
                pid,
                stack_pointer: raw_regs.stack_pointer,
                original_stack_pointer: raw_regs.stack_pointer,
                platform: raw_regs.platform,
            }),
    {
        Registers { pid, stack_pointer: raw_regs.stack_pointer, original_regs: raw_regs }
    }

    pub fn pid(&self) -> (pid: i32)
        ensures
            pid == self@.pid,
    {
        self.pid
    }

    /// The working stack pointer.
    pub fn stack_pointer(&self) -> (address: Word)
        ensures
            address == self@.stack_pointer,
    {
        self.stack_pointer
    }

    /// The stack pointer as it was captured.
    pub fn original_stack_pointer(&self) -> (address: Word)
        ensures
            address == self@.original_stack_pointer,
    {
        self.original_regs.stack_pointer
    }

    pub fn platform(&self) -> (platform: Platform)
        ensures
            platform == self@.platform,
    {
        self.original_regs.platform
    }
}

} // verus!
