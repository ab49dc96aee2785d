//! Per-vCPU register state and the trap classifier.
//!
//! Every control/status register the hardware reads ambiently is explicit
//! state here: the classifier is a pure function of the captured trap
//! registers and the hart's interrupt CSRs, so its redirection side effects
//! are stated exactly.

use vstd::prelude::*;

use crate::{HyperCallMsg, VmExitInfo};
use crate::arch::riscv::regs::{GeneralPurposeRegisters, GprIndex};
use crate::arch::riscv::sbi::decode_sbi_spec;

verus! {

/// hstatus.SPV: the virtualization mode the hart returns to on sret.
pub const HSTATUS_SPV: u64 = 0x80;

/// sstatus.SPP: the privilege level the hart returns to on sret.
pub const SSTATUS_SPP: u64 = 0x100;

/// hvip bit asserting the guest's virtual supervisor timer interrupt line.
pub const HVIP_VSTIP: u64 = 0x40;

/// sie bit enabling the host supervisor timer interrupt.
pub const SIE_STIE: u64 = 0x20;

/// scause value of an environment call from a virtualized supervisor.
pub const SCAUSE_VS_ECALL: u64 = 10;

/// scause value of a host supervisor timer interrupt: the interrupt bit
/// (the top bit) together with the supervisor-timer code.
pub const SCAUSE_S_TIMER: u64 = 0x8000_0000_0000_0005;

/// Hypervisor GPR and CSR state that must be saved or restored when
/// entering or exiting virtualization.
pub struct HypervisorCpuState {
    pub gprs: GeneralPurposeRegisters,
    pub sstatus: u64,
    pub hstatus: u64,
    pub scounteren: u64,
    pub stvec: u64,
    pub sscratch: u64,
}

/// Guest GPR and CSR state that must be saved or restored when exiting or
/// entering virtualization.
pub struct GuestCpuState {
    pub gprs: GeneralPurposeRegisters,
    pub sstatus: u64,
    pub hstatus: u64,
    pub scounteren: u64,
    pub sepc: u64,
}

/// The CSRs that are only in effect when virtualization is enabled and must
/// be saved and restored whenever the hart switches between VMs.
#[derive(Clone, Copy, Debug, PartialEq, Eq, Structural)]
pub struct GuestVsCsrs {
    pub htimedelta: u64,
    pub vsstatus: u64,
    pub vsie: u64,
    pub vstvec: u64,
    pub vsscratch: u64,
    pub vsepc: u64,
    pub vscause: u64,
    pub vstval: u64,
    pub vsatp: u64,
    pub vstimecmp: u64,
}

/// Virtualized HS-level CSRs used to emulate (part of) the hypervisor
/// extension for the guest.
#[derive(Clone, Copy, Debug, PartialEq, Eq, Structural)]
pub struct GuestVirtualHsCsrs {
    pub hie: u64,
    pub hgeie: u64,
    pub hgatp: u64,
}

/// CSRs latched on an exit from virtualization, used to determine the cause
/// of the trap. Read-only after capture; consumed once by the classifier
/// before the next world switch overwrites them.
#[derive(Clone, Copy, Debug, PartialEq, Eq, Structural)]
pub struct VmCpuTrapState {
    pub scause: u64,
    pub stval: u64,
    pub htval: u64,
    pub htinst: u64,
}

/// Ambient per-hart interrupt CSRs the classifier manipulates when it
/// redirects a timer interrupt: the guest interrupt-pending lines (hvip)
/// and the host interrupt-enable lines (sie).
#[derive(Clone, Copy, Debug, PartialEq, Eq, Structural)]
pub struct CsrState {
    pub hvip: u64,
    pub sie: u64,
}

/// vCPU register state that must be saved or restored when entering or
/// exiting a VM or switching between VMs.
pub struct VmCpuRegisters {
    /// CPU state shared between the hypervisor's and the guest's execution
    /// environment, switched on every world switch.
    pub hyp_regs: HypervisorCpuState,
    /// Guest CPU state, switched on every world switch.
    pub guest_regs: GuestCpuState,
    /// CPU state that only applies when virtualization is enabled, switched
    /// on activation of the vCPU.
    pub vs_csrs: GuestVsCsrs,
    /// Virtualized HS-level CPU state.
    pub virtual_hs_csrs: GuestVirtualHsCsrs,
    /// Read on VM exit.
    pub trap_csrs: VmCpuTrapState,
}

/// Scheduling state of a vCPU.
#[derive(Clone, Copy, Debug, PartialEq, Eq, Structural)]
pub enum VmCpuStatus {
    /// The vCPU is not powered on.
    PoweredOff,
    /// The vCPU is available to be run.
    Runnable,
    /// The vCPU has been claimed exclusively for running on a physical CPU.
    Running,
}

/// A virtual CPU within a guest.
pub struct VCpu {
    pub vcpu_id: u64,
    pub regs: VmCpuRegisters,
}

/// The exit the classifier produces for the captured trap state `trap`,
/// given the guest's argument registers and program counter. An
/// environment call from the guest is a hypercall exit (decoded, or `None`
/// when unrecognizable); a host timer interrupt is redirected for
/// emulation; everything else is fatal, with all fault registers surfaced.
pub open spec fn classify_spec(trap: VmCpuTrapState, a0: u64, a7: u64, sepc: u64) -> VmExitInfo {
    if trap.scause == SCAUSE_VS_ECALL {
        VmExitInfo::Ecall(decode_sbi_spec(a0, a7))
    } else if trap.scause == SCAUSE_S_TIMER {
        VmExitInfo::InterruptEmulation
    } else {
        VmExitInfo::UnhandledTrap {
            scause: trap.scause,
            stval: trap.stval,
            htval: trap.htval,
            htinst: trap.htinst,
            sepc,
        }
    }
}

/// Whether `post` differs from `pre` at most in its second-stage
/// translation root (everything else of the vCPU is intact).
pub open spec fn same_but_hgatp(pre: VCpu, post: VCpu) -> bool {
    post.vcpu_id == pre.vcpu_id && post.regs.guest_regs == pre.regs.guest_regs
        && post.regs.hyp_regs == pre.regs.hyp_regs && post.regs.vs_csrs == pre.regs.vs_csrs
        && post.regs.trap_csrs == pre.regs.trap_csrs && post.regs.virtual_hs_csrs.hie
        == pre.regs.virtual_hs_csrs.hie && post.regs.virtual_hs_csrs.hgeie
        == pre.regs.virtual_hs_csrs.hgeie
}

impl VCpu {
    /// Both register files hold their 32 registers and x0 reads zero.
    pub open spec fn wf(&self) -> bool {
        self.regs.guest_regs.gprs.wf() && self.regs.hyp_regs.gprs.wf()
    }

    /// Guest program counter (the sepc the world switch returns to).
    pub open spec fn pc(&self) -> u64 {
        self.regs.guest_regs.sepc
    }

    /// Creates a vCPU that will enter the guest at `entry` under the
    /// second-stage translation root `hgatp`. The hart's current hstatus
    /// and sstatus are passed in explicitly; the vCPU enters the guest in
    /// virtualized supervisor mode, so SPV and SPP are forced on.
    pub fn new(vcpu_id: u64, entry: u64, hgatp: u64, hstatus: u64, sstatus: u64) -> (r: VCpu)
        ensures
            r.wf(),
            r.vcpu_id == vcpu_id,
            r.regs.guest_regs.sepc == entry,
            r.regs.guest_regs.hstatus == hstatus | HSTATUS_SPV,
            r.regs.guest_regs.sstatus == sstatus | SSTATUS_SPP,
            r.regs.virtual_hs_csrs.hgatp == hgatp,
            forall|i: int| 0 <= i < 32 ==> r.regs.guest_regs.gprs@[i] == 0,
            r.regs.trap_csrs == (VmCpuTrapState { scause: 0, stval: 0, htval: 0, htinst: 0 }),
    {
        let regs = VmCpuRegisters {
            hyp_regs: HypervisorCpuState {
                gprs: GeneralPurposeRegisters::new(),
                sstatus: 0,
                hstatus: 0,
                scounteren: 0,
                stvec: 0,
                sscratch: 0,
            },
            guest_regs: GuestCpuState {
                gprs: GeneralPurposeRegisters::new(),
                sstatus: sstatus | SSTATUS_SPP,
                hstatus: hstatus | HSTATUS_SPV,
                scounteren: 0,
                sepc: entry,
            },
            vs_csrs: GuestVsCsrs {
                htimedelta: 0,
                vsstatus: 0,
                vsie: 0,
                vstvec: 0,
                vsscratch: 0,
                vsepc: 0,
                vscause: 0,
                vstval: 0,
                vsatp: 0,
                vstimecmp: 0,
            },
            virtual_hs_csrs: GuestVirtualHsCsrs { hie: 0, hgeie: 0, hgatp },
            trap_csrs: VmCpuTrapState { scause: 0, stval: 0, htval: 0, htinst: 0 },
        };
        VCpu { vcpu_id, regs }
    }

    /// Installs the second-stage translation root this vCPU runs under.
    pub fn init_page_map(&mut self, hgatp: u64)
        requires
            old(self).wf(),
        ensures
            final(self).wf(),
            final(self).regs.virtual_hs_csrs.hgatp == hgatp,
            final(self).vcpu_id == old(self).vcpu_id,
            final(self).regs.guest_regs == old(self).regs.guest_regs,
            final(self).regs.hyp_regs == old(self).regs.hyp_regs,
            final(self).regs.vs_csrs == old(self).regs.vs_csrs,
            final(self).regs.trap_csrs == old(self).regs.trap_csrs,
            final(self).regs.virtual_hs_csrs.hie == old(self).regs.virtual_hs_csrs.hie,
            final(self).regs.virtual_hs_csrs.hgeie == old(self).regs.virtual_hs_csrs.hgeie,
    {
        self.regs.virtual_hs_csrs.hgatp = hgatp;
    }

    /// Classifies the trap state captured after a world switch and performs
    /// the timer-redirection side effect.
    ///
    /// The captured registers are latched into this vCPU's trap state. A
    /// host timer interrupt is redirected to the guest: the guest's virtual
    /// timer line (hvip.VSTIP) is asserted and the host timer line
    /// (sie.STIE) is disabled, so the host does not re-deliver it. Every
    /// other cause leaves the hart CSRs untouched.
    pub fn handle_trap(&mut self, trap: VmCpuTrapState, csr: &mut CsrState) -> (r: VmExitInfo)
        requires
            old(self).wf(),
        ensures
            final(self).wf(),
            r == classify_spec(
                trap,
                old(self).regs.guest_regs.gprs@[GprIndex::A0.as_index()],
                old(self).regs.guest_regs.gprs@[GprIndex::A7.as_index()],
                old(self).pc(),
            ),
            final(self).regs.trap_csrs == trap,
            final(self).vcpu_id == old(self).vcpu_id,
            final(self).regs.guest_regs == old(self).regs.guest_regs,
            final(self).regs.hyp_regs == old(self).regs.hyp_regs,
            final(self).regs.vs_csrs == old(self).regs.vs_csrs,
            final(self).regs.virtual_hs_csrs == old(self).regs.virtual_hs_csrs,
            trap.scause == SCAUSE_S_TIMER ==> (
                final(csr).hvip == old(csr).hvip | HVIP_VSTIP
                && final(csr).sie == old(csr).sie & !SIE_STIE
            ),
            trap.scause != SCAUSE_S_TIMER ==> *final(csr) == *old(csr),
    {
        self.regs.trap_csrs = trap;
        if trap.scause == SCAUSE_VS_ECALL {
            let msg = HyperCallMsg::from_regs(&self.regs.guest_regs.gprs);
            VmExitInfo::Ecall(msg)
        } else if trap.scause == SCAUSE_S_TIMER {
            // Assert the guest's virtual timer line.
            csr.hvip = csr.hvip | HVIP_VSTIP;
            // Mask the host timer so it is not delivered twice.
            csr.sie = csr.sie & !SIE_STIE;
            VmExitInfo::InterruptEmulation
        } else {
            VmExitInfo::UnhandledTrap {
                scause: trap.scause,
                stval: trap.stval,
                htval: trap.htval,
                htinst: trap.htinst,
                sepc: self.regs.guest_regs.sepc,
            }
        }
    }

    /// Reflects the latched trap into the guest: the guest's trap registers
    /// take the faulting pc and cause, and execution resumes at the guest's
    /// own trap vector.
    pub fn inject_exception(&mut self)
        requires
            old(self).wf(),
        ensures
            final(self).wf(),
            final(self).regs.vs_csrs.vsepc == old(self).regs.guest_regs.sepc,
            final(self).regs.vs_csrs.vscause == old(self).regs.trap_csrs.scause,
            final(self).regs.guest_regs.sepc == old(self).regs.vs_csrs.vstvec,
            final(self).regs.guest_regs.gprs@ == old(self).regs.guest_regs.gprs@,
            final(self).regs.guest_regs.sstatus == old(self).regs.guest_regs.sstatus,
            final(self).regs.guest_regs.hstatus == old(self).regs.guest_regs.hstatus,
            final(self).regs.guest_regs.scounteren == old(self).regs.guest_regs.scounteren,
            final(self).regs.hyp_regs == old(self).regs.hyp_regs,
            final(self).regs.vs_csrs.htimedelta == old(self).regs.vs_csrs.htimedelta,
            final(self).regs.vs_csrs.vsstatus == old(self).regs.vs_csrs.vsstatus,
            final(self).regs.vs_csrs.vsie == old(self).regs.vs_csrs.vsie,
            final(self).regs.vs_csrs.vstvec == old(self).regs.vs_csrs.vstvec,
            final(self).regs.vs_csrs.vsscratch == old(self).regs.vs_csrs.vsscratch,
            final(self).regs.vs_csrs.vstval == old(self).regs.vs_csrs.vstval,
            final(self).regs.vs_csrs.vsatp == old(self).regs.vs_csrs.vsatp,
            final(self).regs.vs_csrs.vstimecmp == old(self).regs.vs_csrs.vstimecmp,
            final(self).regs.virtual_hs_csrs == old(self).regs.virtual_hs_csrs,
            final(self).regs.trap_csrs == old(self).regs.trap_csrs,
            final(self).vcpu_id == old(self).vcpu_id,
    {
        self.regs.vs_csrs.vsepc = self.regs.guest_regs.sepc;
        self.regs.vs_csrs.vscause = self.regs.trap_csrs.scause;
        self.regs.guest_regs.sepc = self.regs.vs_csrs.vstvec;
    }

    /// Reads one of the vCPU's guest general-purpose registers.
    pub fn get_gpr(&self, index: GprIndex) -> (r: u64)
        requires
            self.wf(),
        ensures
            r == self.regs.guest_regs.gprs@[index.as_index()],
    {
        self.regs.guest_regs.gprs.reg(index)
    }

    /// Sets one of the vCPU's guest general-purpose registers.
    pub fn set_gpr(&mut self, index: GprIndex, val: u64)
        requires
            old(self).wf(),
        ensures
            final(self).wf(),
            index is Zero ==> final(self).regs.guest_regs.gprs@
                == old(self).regs.guest_regs.gprs@,
            !(index is Zero) ==> final(self).regs.guest_regs.gprs@
                == old(self).regs.guest_regs.gprs@.update(index.as_index(), val),
            final(self).regs.guest_regs.sepc == old(self).regs.guest_regs.sepc,
            final(self).regs.guest_regs.sstatus == old(self).regs.guest_regs.sstatus,
            final(self).regs.guest_regs.hstatus == old(self).regs.guest_regs.hstatus,
            final(self).regs.guest_regs.scounteren == old(self).regs.guest_regs.scounteren,
            final(self).regs.hyp_regs == old(self).regs.hyp_regs,
            final(self).vcpu_id == old(self).vcpu_id,
            final(self).regs.virtual_hs_csrs == old(self).regs.virtual_hs_csrs,
            final(self).regs.vs_csrs == old(self).regs.vs_csrs,
            final(self).regs.trap_csrs == old(self).regs.trap_csrs,
    {
        self.regs.guest_regs.gprs.set_reg(index, val);
    }

    /// Advances the guest program counter by `instr_len` bytes, to step
    /// over the instruction that caused an exit.
    pub fn advance_pc(&mut self, instr_len: u64)
        requires
            old(self).wf(),
            old(self).pc() + instr_len <= u64::MAX,
        ensures
            final(self).wf(),
            final(self).pc() == old(self).pc() + instr_len,
            final(self).regs.guest_regs.gprs@ == old(self).regs.guest_regs.gprs@,
            final(self).regs.guest_regs.sstatus == old(self).regs.guest_regs.sstatus,
            final(self).regs.guest_regs.hstatus == old(self).regs.guest_regs.hstatus,
            final(self).regs.guest_regs.scounteren == old(self).regs.guest_regs.scounteren,
            final(self).regs.hyp_regs == old(self).regs.hyp_regs,
            final(self).regs.vs_csrs == old(self).regs.vs_csrs,
            final(self).regs.virtual_hs_csrs == old(self).regs.virtual_hs_csrs,
            final(self).regs.trap_csrs == old(self).regs.trap_csrs,
            final(self).vcpu_id == old(self).vcpu_id,
    {
        self.regs.guest_regs.sepc = self.regs.guest_regs.sepc + instr_len;
    }

    /// The vCPU's identifier.
    pub fn vcpu_id(&self) -> (r: u64)
        ensures
            r == self.vcpu_id,
    {
        self.vcpu_id
    }

    /// Guest program counter.
    pub fn get_pc(&self) -> (r: u64)
        ensures
            r == self.pc(),
    {
        self.regs.guest_regs.sepc
    }

    /// Sets the guest program counter.
    pub fn set_pc(&mut self, pc: u64)
        requires
            old(self).wf(),
        ensures
            final(self).wf(),
            final(self).pc() == pc,
            final(self).regs.guest_regs.gprs@ == old(self).regs.guest_regs.gprs@,
            final(self).regs.guest_regs.sstatus == old(self).regs.guest_regs.sstatus,
            final(self).regs.guest_regs.hstatus == old(self).regs.guest_regs.hstatus,
            final(self).regs.guest_regs.scounteren == old(self).regs.guest_regs.scounteren,
            final(self).regs.hyp_regs == old(self).regs.hyp_regs,
            final(self).vcpu_id == old(self).vcpu_id,
            final(self).regs.virtual_hs_csrs == old(self).regs.virtual_hs_csrs,
            final(self).regs.vs_csrs == old(self).regs.vs_csrs,
            final(self).regs.trap_csrs == old(self).regs.trap_csrs,
    {
        self.regs.guest_regs.sepc = pc;
    }

    /// Root guest-physical address of the guest's own first-stage page
    /// table, taken from the page-table-base field of vsatp; zero when the
    /// guest runs with translation disabled.
    pub open spec fn page_table_root_spec(&self) -> u64 {
        ((self.regs.vs_csrs.vsatp & 0xFFF_FFFF_FFFF) * 0x1000) as u64
    }

    /// Root guest-physical address of the guest's own first-stage page
    /// table; zero when the guest runs with translation disabled.
    pub fn get_page_table_root(&self) -> (r: u64)
        ensures
            r == self.page_table_root_spec(),
    {
        let ppn = self.regs.vs_csrs.vsatp & 0xFFF_FFFF_FFFF;
        proof {
            let v = self.regs.vs_csrs.vsatp;
            assert(v & 0xFFF_FFFF_FFFF <= 0xFFF_FFFF_FFFF) by (bit_vector);
        }
        assert(ppn * 0x1000 <= 0xFFF_FFFF_FFFF_F000) by (nonlinear_arith)
            requires ppn <= 0xFFF_FFFF_FFFF;
        ppn * 0x1000
    }
}

} // verus!
