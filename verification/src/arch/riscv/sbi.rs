//! Decoding of guest hypercalls from the call-convention registers.
//!
//! A guest requests hypervisor services with an environment call whose
//! extension number is in a7 and whose argument is in a0. The legacy
//! extension numbers recognized here: 0 arms the one-shot timer, 1 writes a
//! console character, 2 reads one, and 8 shuts the guest down.

use vstd::prelude::*;

use crate::HyperCallMsg;
use crate::arch::riscv::regs::{GeneralPurposeRegisters, GprIndex};

verus! {

/// The hypercall encoded by extension number `a7` and argument `a0`, or
/// `None` when the extension number is not recognized.
pub open spec fn decode_sbi_spec(a0: u64, a7: u64) -> Option<HyperCallMsg> {
    if a7 == 0 {
        Some(HyperCallMsg::SetTimer(a0))
    } else if a7 == 1 {
        Some(HyperCallMsg::PutChar(a0))
    } else if a7 == 2 {
        Some(HyperCallMsg::GetChar)
    } else if a7 == 8 {
        Some(HyperCallMsg::Shutdown)
    } else {
        None
    }
}

impl HyperCallMsg {
    /// Decodes the hypercall a guest placed in its argument registers.
    pub fn from_regs(gprs: &GeneralPurposeRegisters) -> (r: Option<HyperCallMsg>)
        requires
            gprs.wf(),
        ensures
            r == decode_sbi_spec(
                gprs@[GprIndex::A0.as_index()],
                gprs@[GprIndex::A7.as_index()],
            ),
    {
        let a0 = gprs.reg(GprIndex::A0);
        let a7 = gprs.reg(GprIndex::A7);
        if a7 == 0 {
            Some(HyperCallMsg::SetTimer(a0))
        } else if a7 == 1 {
            Some(HyperCallMsg::PutChar(a0))
        } else if a7 == 2 {
            Some(HyperCallMsg::GetChar)
        } else if a7 == 8 {
            Some(HyperCallMsg::Shutdown)
        } else {
            None
        }
    }
}

} // verus!
