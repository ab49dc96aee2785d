//! x86 half of the core: VMX vCPU state, four-level guest address
//! translation, and the debug target adapter.

use vstd::prelude::*;

pub mod gdb;
pub mod regs;
pub mod translate;
pub mod vcpu;

use crate::{HyperError, HyperResult};

verus! {

/// Initializes the hypervisor runtime. The hardware-virtualization probe
/// is ambient machine state, so its result is passed in explicitly;
/// without hardware support the runtime refuses to come up.
pub fn init_hv_runtime(hardware_support: bool) -> (r: HyperResult<()>)
    ensures
        r is Ok <==> hardware_support,
{
    if hardware_support {
        Ok(())
    } else {
        Err(HyperError::NotSupported)
    }
}

} // verus!
