//! RISC-V half of the core: H-extension vCPU state, trap classification,
//! Sv39 guest address translation, and the debug target adapter.

pub mod regs;
pub mod sbi;
pub mod translate;
pub mod vm;
pub mod vcpu;
