//! Per-vCPU state of the VMX half: the guest registers the world switch
//! saves and restores, the control registers the debug adapter consults,
//! and the vCPU-owned debugging collaborators.

use vstd::prelude::*;

use crate::arch::x86_64::regs::GeneralPurposeRegisters;
use crate::breakpoints::BreakpointShadow;
use crate::gdbserver::DebugSession;
use crate::mem::GuestPageTable;

verus! {

/// A virtual CPU within a guest. On this architecture the vCPU itself is
/// the debug target: it owns the extended page table collaborator, the
/// shadow breakpoints, and the debug session.
pub struct VCpu {
    pub vcpu_id: u64,
    /// Guest general-purpose registers saved on every exit.
    pub gprs: GeneralPurposeRegisters,
    /// Guest instruction pointer (from the hardware-managed guest area).
    pub rip: u64,
    /// Guest stack pointer (from the hardware-managed guest area).
    pub rsp: u64,
    /// Guest CR0; its paging bit decides whether debug accesses translate.
    pub cr0: u64,
    /// Guest CR3: root of the guest's own page table.
    pub cr3: u64,
    /// Hardware trap-after-one-instruction flag, armed by a single step.
    pub monitor_trap_flag: bool,
    /// The extended page table collaborator and guest-physical memory.
    pub ept: GuestPageTable,
    /// Shadowed software breakpoints.
    pub breakpoints: BreakpointShadow,
    /// The debug session, present while this vCPU is being debugged.
    pub gdbstub: Option<DebugSession>,
    /// Diagnostic count of translator invocations (saturating).
    pub translations: u64,
}

impl VCpu {
    /// The collaborators are well-formed.
    pub open spec fn wf(&self) -> bool {
        self.ept.mem.wf() && self.breakpoints.wf()
    }

    /// Creates a vCPU that will enter the guest at `entry` with the given
    /// control registers, owning the extended page table `ept`.
    pub fn new(vcpu_id: u64, entry: u64, cr0: u64, cr3: u64, ept: GuestPageTable) -> (r: VCpu)
        requires
            ept.mem.wf(),
        ensures
            r.wf(),
            r.vcpu_id == vcpu_id,
            r.rip == entry,
            r.rsp == 0,
            r.cr0 == cr0,
            r.cr3 == cr3,
            r.ept == ept,
            !r.monitor_trap_flag,
            r.gdbstub is None,
            r.translations == 0,
            r.gprs == (GeneralPurposeRegisters {
                rax: 0, rbx: 0, rcx: 0, rdx: 0, rsi: 0, rdi: 0, rbp: 0,
                r8: 0, r9: 0, r10: 0, r11: 0, r12: 0, r13: 0, r14: 0, r15: 0,
            }),
            forall|a: u64| !r.breakpoints.contains_addr(a),
    {
        VCpu {
            vcpu_id,
            gprs: GeneralPurposeRegisters::new(),
            rip: entry,
            rsp: 0,
            cr0,
            cr3,
            monitor_trap_flag: false,
            ept,
            breakpoints: BreakpointShadow::new(),
            gdbstub: None,
            translations: 0,
        }
    }

    /// The vCPU's identifier.
    pub fn vcpu_id(&self) -> (r: u64)
        ensures
            r == self.vcpu_id,
    {
        self.vcpu_id
    }

    /// The saved guest general-purpose registers.
    pub fn regs(&self) -> (r: &GeneralPurposeRegisters)
        ensures
            *r == self.gprs,
    {
        &self.gprs
    }

    /// Guest instruction pointer.
    pub fn rip(&self) -> (r: u64)
        ensures
            r == self.rip,
    {
        self.rip
    }

    /// Sets the guest instruction pointer.
    pub fn set_rip(&mut self, rip: u64)
        ensures
            *final(self) == (VCpu { rip, ..*old(self) }),
    {
        self.rip = rip;
    }

    /// Guest stack pointer.
    pub fn stack_pointer(&self) -> (r: u64)
        ensures
            r == self.rsp,
    {
        self.rsp
    }

    /// Sets the guest stack pointer.
    pub fn set_stack_pointer(&mut self, rsp: u64)
        ensures
            *final(self) == (VCpu { rsp, ..*old(self) }),
    {
        self.rsp = rsp;
    }

    /// Guest CR0.
    pub fn cr0(&self) -> (r: u64)
        ensures
            r == self.cr0,
    {
        self.cr0
    }

    /// Guest CR3.
    pub fn cr3(&self) -> (r: u64)
        ensures
            r == self.cr3,
    {
        self.cr3
    }

    /// Arms (or disarms) the hardware trap-after-one-instruction flag; a
    /// single step is performed by the next world switch, not inline.
    pub fn set_monitor_trap_flag(&mut self, enable: bool) -> (r: crate::HyperResult<()>)
        ensures
            r is Ok,
            *final(self) == (VCpu { monitor_trap_flag: enable, ..*old(self) }),
    {
        self.monitor_trap_flag = enable;
        Ok(())
    }
}

} // verus!
