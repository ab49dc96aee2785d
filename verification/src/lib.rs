//! Execution core of a bare-metal hypervisor: vCPU register state, trap
//! classification, guest address translation for debugger access, shadow
//! breakpoints, and the remote-debugging protocol state machine.
//!
//! Hardware interaction (the privileged world switch, ambient control/status
//! registers, the host page allocator) is kept behind explicit, passed-in
//! state: every function here is a total function of its arguments, so the
//! whole core is verified.

use vstd::prelude::*;

pub mod arch;
pub mod breakpoints;
pub mod gdbserver;
pub mod hal;
pub mod mem;

verus! {

/// Error type shared by the fallible operations of the core.
#[derive(Clone, Copy, Debug, PartialEq, Eq, Structural)]
pub enum HyperError {
    /// Internal or otherwise unclassified failure (the debug adapter reports
    /// every memory-access failure this way: the protocol layer only needs
    /// success or failure, not a cause).
    Internal,
    /// The requested object does not exist.
    NotFound,
    /// The hardware or the configuration does not support the request.
    NotSupported,
}

/// Result type shared by the fallible operations of the core.
pub type HyperResult<T> = Result<T, HyperError>;

/// A decoded hypercall: a guest-initiated call requesting a hypervisor
/// service, recognized from the call-convention registers.
#[derive(Clone, Copy, Debug, PartialEq, Eq, Structural)]
pub enum HyperCallMsg {
    /// Arm the one-shot timer to fire at the given time value.
    SetTimer(u64),
    /// Write one character to the host console.
    PutChar(u64),
    /// Read one character from the host console.
    GetChar,
    /// Shut the guest down.
    Shutdown,
}

/// Why the guest exited back to the hypervisor, as produced by the trap
/// classifier and consumed by the run loop's dispatcher.
#[derive(Clone, Copy, Debug, PartialEq, Eq, Structural)]
pub enum VmExitInfo {
    /// The guest executed an explicit call instruction. The payload is the
    /// decoded hypercall, or `None` when the registers held no recognizable
    /// message (the exit is still a call either way).
    Ecall(Option<HyperCallMsg>),
    /// A host timer interrupt arrived while the guest was running; it has
    /// been redirected to the guest's virtual timer line and must be
    /// emulated rather than re-delivered by the host.
    InterruptEmulation,
    /// An unhandled trap: fatal for the whole VM. All captured fault
    /// registers are surfaced for diagnostics; the run loop must crash-stop.
    UnhandledTrap {
        /// Raw trap cause register.
        scause: u64,
        /// Faulting value register.
        stval: u64,
        /// Second-stage faulting value register.
        htval: u64,
        /// Faulting instruction register.
        htinst: u64,
        /// Guest program counter at the trap.
        sepc: u64,
    },
}

} // verus!
