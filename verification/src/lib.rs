//! Verified core of a small cooperative x86_64 kernel.
//!
//! The crate holds the decision logic of the kernel: PCI configuration-space
//! decoding and the device registry, the RTL8139 transmit/receive ring
//! arithmetic, the PIT tick clock and sleep bookkeeping, the one-shot
//! notification primitives, the cooperative task scheduler, the keyboard
//! byte stream, and the shell line editor and command parser.  Hardware
//! access (port I/O, interrupt handlers, DMA) stays outside: callers read
//! the machine, hand the plain values to these functions, and perform the
//! writes the results call for.
use vstd::prelude::*;

pub mod icmp;
pub mod keyboard;
pub mod net;
pub mod notify;
pub mod executor;
pub mod pci;
pub mod physbuf;
pub mod rtl8139;
pub mod shell;
pub mod time;

verus! {

/// Exit codes reported to the emulator through its debug exit device.
#[derive(Clone, Copy, Debug, PartialEq, Eq, Structural)]
pub enum QemuExitCode {
    Success,
    Failed,
}

impl QemuExitCode {
    /// The value written to the exit port: 0x10 on success, 0x11 on failure.
    pub fn exit_code(&self) -> (r: u32)
        ensures
            *self is Success ==> r == 0x10,
            *self is Failed ==> r == 0x11,
    {
        match self {
            QemuExitCode::Success => 0x10,
            QemuExitCode::Failed => 0x11,
        }
    }
}

} // verus!
