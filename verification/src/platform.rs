//! Platform profiles and the ABI constants that depend on them.

use vstd::prelude::*;

verus! {

/// The operating system a traced process runs on.
#[derive(Clone, Copy, Debug, PartialEq, Eq, Structural)]
pub enum Os {
    Linux,
    Other,
}

/// The processor architecture a traced process runs on.
#[derive(Clone, Copy, Debug, PartialEq, Eq, Structural)]
pub enum Arch {
    X86_64,
    X86,
    Arm,
    Aarch64,
    Other,
}

/// The pair by which ABI constants are looked up.
#[derive(Clone, Copy, Debug, PartialEq, Eq, Structural)]
pub struct Platform {
    pub os: Os,
    pub arch: Arch,
}

/// Bytes below the stack pointer that the ABI reserves for compiled code:
/// 128 on 64-bit x86 Linux, none anywhere else.
pub open spec fn red_zone(platform: Platform) -> int {
    if platform.os == Os::Linux && platform.arch == Arch::X86_64 {
        128
    } else {
        0
    }
}

impl Platform {
    pub fn new(os: Os, arch: Arch) -> (platform: Platform)
        ensures
            platform == (Platform { os, arch }),
    {
        Platform { os, arch }
    }

    /// The red zone of this platform, in bytes.
    pub fn red_zone_size(&self) -> (bytes: isize)
        ensures
            bytes == red_zone(*self),
    {
        match (self.os, self.arch) {
            (Os::Linux, Arch::X86_64) => 128,
            _ => 0,
        }
    }
}

} // verus!
