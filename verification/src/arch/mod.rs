//! Architecture-specific halves of the core: one module per supported
//! instruction-set architecture, converging on shared translation and
//! breakpoint contracts.

use vstd::prelude::*;

pub mod riscv;
pub mod x86_64;

verus! {

/// Access flags of a resolved mapping.
#[derive(Clone, Copy, Debug, PartialEq, Eq, Structural)]
pub struct MappingFlags {
    pub read: bool,
    pub write: bool,
    pub execute: bool,
    pub user: bool,
}

/// A successful translation: the resolved guest-physical address, the
/// mapping's access flags, and the size of the page that contains it. The
/// page size bounds how many contiguous bytes may be accessed before
/// re-translating.
#[derive(Clone, Copy, Debug, PartialEq, Eq, Structural)]
pub struct TranslateResult {
    pub paddr: u64,
    pub flags: MappingFlags,
    pub size: u64,
}

/// Why a translation failed.
#[derive(Clone, Copy, Debug, PartialEq, Eq, Structural)]
pub enum TranslateError {
    /// No mapping covers the address at any level (also when a table entry
    /// points outside guest-physical memory or a superpage is misaligned).
    Unmapped,
    /// The translation root is zero: translation is disabled, the address
    /// is already physical, and the caller must special-case this.
    Misconfigured,
}

} // verus!
