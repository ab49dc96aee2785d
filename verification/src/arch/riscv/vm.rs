//! A VM that is being run, and its debug target adapter.
//!
//! The VM owns its vCPUs, the guest's two-stage page table collaborator,
//! the hart's interrupt CSRs, the shadow breakpoints, and the debug
//! session. The world switch itself is the hardware's opaque step: the run
//! loop around it feeds each captured trap to `handle_vcpu_trap`,
//! dispatches the classified exit, and calls `rearm_timer` before the next
//! switch. The debug target operations resolve guest virtual addresses
//! through the Sv39 translator and read or write guest-physical memory.

use vstd::prelude::*;

use crate::{HyperCallMsg, HyperError, HyperResult, VmExitInfo};
use crate::arch::riscv::regs::{GprIndex, RiscvCoreRegs};
use crate::arch::riscv::translate::{translate, translate_spec};
use crate::arch::{TranslateError, TranslateResult};
use crate::arch::riscv::vcpu::{classify_spec, same_but_hgatp, CsrState, VCpu, VmCpuTrapState};
use crate::arch::riscv::vcpu::{HVIP_VSTIP, SIE_STIE};
use crate::breakpoints::BreakpointShadow;
use crate::gdbserver::{packet_spec, step_output, step_state, stop_reply_payload, DebugSession, SessionState, SessionView};
use crate::mem::{splice, GuestPageTable};

verus! {

/// Most vCPUs a single VM can hold.
pub const VM_CPUS_MAX: usize = 8;

/// The vCPUs of one VM.
pub struct VmCpus {
    pub vcpus: Vec<VCpu>,
}

impl VmCpus {
    /// An empty set of vCPUs.
    pub fn new() -> (r: Self)
        ensures
            r.vcpus@.len() == 0,
    {
        VmCpus { vcpus: Vec::new() }
    }

    /// Adds a vCPU; fails when the VM already holds `VM_CPUS_MAX`.
    pub fn add_vcpu(&mut self, vcpu: VCpu) -> (r: HyperResult<()>)
        ensures
            old(self).vcpus@.len() < VM_CPUS_MAX ==> r is Ok
                && final(self).vcpus@ == old(self).vcpus@.push(vcpu),
            old(self).vcpus@.len() >= VM_CPUS_MAX ==> r is Err && *final(self) == *old(self),
    {
        if self.vcpus.len() < VM_CPUS_MAX {
            self.vcpus.push(vcpu);
            Ok(())
        } else {
            Err(HyperError::NotSupported)
        }
    }

    /// Number of vCPUs.
    pub fn len(&self) -> (r: usize)
        ensures
            r == self.vcpus@.len(),
    {
        self.vcpus.len()
    }

    /// The vCPU with the given identifier.
    pub fn get_vcpu(&self, vcpu_id: usize) -> (r: HyperResult<&VCpu>)
        ensures
            vcpu_id < self.vcpus@.len() ==> (r matches Ok(v) && *v == self.vcpus@[
                vcpu_id as int
            ]),
            vcpu_id >= self.vcpus@.len() ==> r is Err,
    {
        if vcpu_id < self.vcpus.len() {
            Ok(&self.vcpus[vcpu_id])
        } else {
            Err(HyperError::NotFound)
        }
    }
}

/// A VM that is being run.
pub struct VM {
    /// The vCPUs, owned exclusively.
    pub vcpus: VmCpus,
    /// The guest's two-stage page table collaborator and guest-physical
    /// memory accessor.
    pub gpt: GuestPageTable,
    /// The hart's ambient interrupt CSRs, as explicit state.
    pub csr: CsrState,
    /// Shadowed software breakpoints.
    pub breakpoints: BreakpointShadow,
    /// The debug session, present while the VM opts into remote debugging.
    pub gdbstub: Option<DebugSession>,
    /// The vCPU the debug adapter addresses (single-thread semantics).
    pub current_vcpu: usize,
    /// Diagnostic count of translator invocations (saturating).
    pub translations: u64,
}

impl VM {
    /// Every vCPU is well-formed, one of them is current, and the
    /// collaborators are well-formed.
    pub open spec fn wf(&self) -> bool {
        self.vcpus.vcpus@.len() >= 1 && self.current_vcpu < self.vcpus.vcpus@.len() && (forall|
            i: int,
        | 0 <= i < self.vcpus.vcpus@.len() ==> self.vcpus.vcpus@[i].wf()) && self.gpt.mem.wf()
            && self.breakpoints.wf()
    }

    /// The second-stage translation root of every vCPU matches the page
    /// table the VM owns. Established by `init_vcpus` and preserved by
    /// every operation.
    pub open spec fn roots_installed(&self) -> bool {
        forall|i: int| 0 <= i < self.vcpus.vcpus@.len()
            ==> self.vcpus.vcpus@[i].regs.virtual_hs_csrs.hgatp == self.gpt.root
    }

    /// The vCPU the debug adapter addresses.
    pub open spec fn current(&self) -> VCpu {
        self.vcpus.vcpus@[self.current_vcpu as int]
    }

    /// Creates a VM owning `vcpus` and the page table collaborator.
    pub fn new(vcpus: VmCpus, gpt: GuestPageTable) -> (r: HyperResult<VM>)
        ensures
            r matches Ok(vm) && vm.vcpus == vcpus && vm.gpt == gpt && vm.csr == (CsrState {
                hvip: 0,
                sie: 0,
            }) && vm.gdbstub is None && vm.current_vcpu == 0 && vm.translations == 0
                && vm.breakpoints.wf() && (forall|a: u64| !vm.breakpoints.contains_addr(a)),
    {
        Ok(VM {
            vcpus,
            gpt,
            csr: CsrState { hvip: 0, sie: 0 },
            breakpoints: BreakpointShadow::new(),
            gdbstub: None,
            current_vcpu: 0,
            translations: 0,
        })
    }

    /// Installs the VM's page-table token as every vCPU's second-stage
    /// translation root. Written once, before the VM first runs.
    pub fn init_vcpus(&mut self)
        requires
            old(self).wf(),
        ensures
            final(self).wf(),
            final(self).roots_installed(),
            final(self).vcpus.vcpus@.len() == old(self).vcpus.vcpus@.len(),
            forall|i: int| 0 <= i < old(self).vcpus.vcpus@.len() ==> same_but_hgatp(
                old(self).vcpus.vcpus@[i],
                #[trigger] final(self).vcpus.vcpus@[i],
            ),
            final(self).gpt == old(self).gpt,
            final(self).csr == old(self).csr,
            final(self).breakpoints == old(self).breakpoints,
            final(self).gdbstub == old(self).gdbstub,
            final(self).current_vcpu == old(self).current_vcpu,
            final(self).translations == old(self).translations,
    {
        let token = self.gpt.token();
        let n = self.vcpus.vcpus.len();
        let mut i: usize = 0;
        while i < n
            invariant
                i <= n,
                n == self.vcpus.vcpus@.len(),
                n == old(self).vcpus.vcpus@.len(),
                self.current_vcpu == old(self).current_vcpu,
                self.gpt == old(self).gpt,
                self.csr == old(self).csr,
                self.breakpoints == old(self).breakpoints,
                self.gdbstub == old(self).gdbstub,
                self.translations == old(self).translations,
                token == self.gpt.root,
                old(self).wf(),
                forall|j: int| 0 <= j < n ==> self.vcpus.vcpus@[j].wf(),
                forall|j: int| 0 <= j < i
                    ==> self.vcpus.vcpus@[j].regs.virtual_hs_csrs.hgatp == token,
                forall|j: int| 0 <= j < n ==> same_but_hgatp(
                    old(self).vcpus.vcpus@[j],
                    #[trigger] self.vcpus.vcpus@[j],
                ),
            decreases n - i,
        {
            let vcpu = &mut self.vcpus.vcpus[i];
            vcpu.init_page_map(token);
            i += 1;
        }
    }

    /// Classifies a trap captured after a world switch of the given vCPU
    /// and performs the timer-redirection side effect on the hart CSRs.
    /// The run loop dispatches the returned exit to the host environment
    /// and then calls `rearm_timer` before the next switch.
    pub fn handle_vcpu_trap(&mut self, vcpu_id: usize, trap: VmCpuTrapState) -> (r: VmExitInfo)
        requires
            old(self).wf(),
            vcpu_id < old(self).vcpus.vcpus@.len(),
        ensures
            final(self).wf(),
            r == classify_spec(
                trap,
                old(self).vcpus.vcpus@[vcpu_id as int].regs.guest_regs.gprs@[
                    GprIndex::A0.as_index()
                ],
                old(self).vcpus.vcpus@[vcpu_id as int].regs.guest_regs.gprs@[
                    GprIndex::A7.as_index()
                ],
                old(self).vcpus.vcpus@[vcpu_id as int].pc(),
            ),
            final(self).vcpus.vcpus@.len() == old(self).vcpus.vcpus@.len(),
            final(self).vcpus.vcpus@[vcpu_id as int].regs.trap_csrs == trap,
            final(self).vcpus.vcpus@[vcpu_id as int].regs.guest_regs == old(self).vcpus.vcpus@[vcpu_id as int].regs.guest_regs,
            final(self).vcpus.vcpus@[vcpu_id as int].regs.vs_csrs == old(self).vcpus.vcpus@[vcpu_id as int].regs.vs_csrs,
            final(self).vcpus.vcpus@[vcpu_id as int].regs.virtual_hs_csrs == old(self).vcpus.vcpus@[vcpu_id as int].regs.virtual_hs_csrs,
            forall|j: int| 0 <= j < old(self).vcpus.vcpus@.len() && j != vcpu_id
                ==> final(self).vcpus.vcpus@[j] == old(self).vcpus.vcpus@[j],
            trap.scause == crate::arch::riscv::vcpu::SCAUSE_S_TIMER ==> (
                final(self).csr.hvip == old(self).csr.hvip | HVIP_VSTIP
                && final(self).csr.sie == old(self).csr.sie & !SIE_STIE
            ),
            trap.scause != crate::arch::riscv::vcpu::SCAUSE_S_TIMER ==> final(self).csr == old(self).csr,
            final(self).gpt == old(self).gpt,
            final(self).breakpoints == old(self).breakpoints,
            final(self).gdbstub == old(self).gdbstub,
            final(self).current_vcpu == old(self).current_vcpu,
            final(self).translations == old(self).translations,
    {
        let vcpu = &mut self.vcpus.vcpus[vcpu_id];
        vcpu.handle_trap(trap, &mut self.csr)
    }

    /// The complementary half of timer redirection, run after the host
    /// environment has dispatched a hypercall exit. When the dispatched
    /// hypercall armed the one-shot timer, the guest's virtual timer line
    /// is deasserted and the host timer interrupt is re-enabled; this must
    /// happen before the vCPU is run again.
    pub fn rearm_timer(&mut self, exit: &VmExitInfo)
        requires
            old(self).wf(),
        ensures
            final(self).wf(),
            exit matches VmExitInfo::Ecall(Some(HyperCallMsg::SetTimer(_))) ==> (
                final(self).csr.hvip == old(self).csr.hvip & !HVIP_VSTIP
                && final(self).csr.sie == old(self).csr.sie | SIE_STIE
            ),
            !(exit matches VmExitInfo::Ecall(Some(HyperCallMsg::SetTimer(_))))
                ==> final(self).csr == old(self).csr,
            final(self).vcpus == old(self).vcpus,
            final(self).gpt == old(self).gpt,
            final(self).breakpoints == old(self).breakpoints,
            final(self).gdbstub == old(self).gdbstub,
            final(self).current_vcpu == old(self).current_vcpu,
            final(self).translations == old(self).translations,
    {
        if let VmExitInfo::Ecall(Some(HyperCallMsg::SetTimer(_))) = exit {
            // Clear the guest's virtual timer line.
            self.csr.hvip = self.csr.hvip & !HVIP_VSTIP;
            // Re-enable the host timer interrupt.
            self.csr.sie = self.csr.sie | SIE_STIE;
        }
    }

    /// Resolves a guest virtual address through the current vCPU's
    /// first-stage page table, counting the invocation.
    pub fn get_page(&mut self, addr: u64) -> (r: Result<TranslateResult, TranslateError>)
        requires
            old(self).wf(),
        ensures
            final(self).wf(),
            r == translate_spec(
                old(self).gpt.mem,
                old(self).current().page_table_root_spec(),
                addr,
            ),
            final(self).translations == if old(self).translations < u64::MAX {
                old(self).translations as int + 1
            } else {
                old(self).translations as int
            },
            final(self).vcpus == old(self).vcpus,
            final(self).gpt == old(self).gpt,
            final(self).csr == old(self).csr,
            final(self).breakpoints == old(self).breakpoints,
            final(self).gdbstub == old(self).gdbstub,
            final(self).current_vcpu == old(self).current_vcpu,
    {
        let root = self.vcpus.vcpus[self.current_vcpu].get_page_table_root();
        if self.translations < u64::MAX {
            self.translations = self.translations + 1;
        }
        translate(&self.gpt.mem, root, addr)
    }
}


impl VM {
    /// The debug session's view (meaningful only while a session exists).
    pub open spec fn session_view(self) -> SessionView {
        match self.gdbstub {
            Some(s) => s@,
            None => arbitrary(),
        }
    }

    /// Bytes of the trap instruction a software breakpoint plants: the
    /// compressed breakpoint instruction, little-endian.
    pub open spec fn ebreak_bytes() -> Seq<u8> {
        seq![0x02u8, 0x90u8]
    }

    /// Resolved target of a debug memory access: the physical address and
    /// the length clamped to the containing page. With translation
    /// disabled the supplied address is already physical and the length is
    /// not clamped; with translation enabled a failed walk resolves to
    /// nothing.
    pub open spec fn debug_resolve_spec(self, addr: u64, len: usize) -> Option<(u64, usize)> {
        let root = self.current().page_table_root_spec();
        if root == 0 {
            Some((addr, len))
        } else {
            match translate_spec(self.gpt.mem, root, addr) {
                Ok(t) => Some(
                    (t.paddr, if len <= t.size { len as usize } else { t.size as usize }),
                ),
                Err(_) => None,
            }
        }
    }

    /// Resolved physical address of a breakpoint at `addr`, by the same
    /// rule as memory access.
    pub open spec fn bp_resolve_spec(self, addr: u64) -> Option<u64> {
        let root = self.current().page_table_root_spec();
        if root == 0 {
            Some(addr)
        } else {
            match translate_spec(self.gpt.mem, root, addr) {
                Ok(t) => Some(t.paddr),
                Err(_) => None,
            }
        }
    }

    /// Copies the current vCPU's guest registers into the wire layout:
    /// x0..x31 in order, then the program counter.
    pub fn read_registers(&mut self, regs: &mut RiscvCoreRegs) -> (r: HyperResult<()>)
        requires
            old(self).wf(),
        ensures
            *final(self) == *old(self),
            r is Ok,
            final(regs).wf(),
            final(regs).x@ == old(self).current().regs.guest_regs.gprs@,
            final(regs).pc == old(self).current().pc(),
    {
        let cur = self.current_vcpu;
        let vcpu = &self.vcpus.vcpus[cur];
        regs.x = vcpu.regs.guest_regs.gprs.to_vec();
        regs.pc = vcpu.regs.guest_regs.sepc;
        Ok(())
    }

    /// Writes the wire layout into the current vCPU's guest registers.
    /// Every architecturally writable field is taken from `regs`; the
    /// hard-wired zero register stays zero.
    pub fn write_registers(&mut self, regs: &RiscvCoreRegs) -> (r: HyperResult<()>)
        requires
            old(self).wf(),
            regs.wf(),
        ensures
            final(self).wf(),
            r is Ok,
            final(self).current().regs.guest_regs.gprs@ == regs.x@.update(0, 0u64),
            final(self).current().pc() == regs.pc,
            final(self).current().regs.guest_regs.sstatus == old(self).current().regs.guest_regs.sstatus,
            final(self).current().regs.guest_regs.hstatus == old(self).current().regs.guest_regs.hstatus,
            final(self).current().regs.guest_regs.scounteren == old(self).current().regs.guest_regs.scounteren,
            final(self).current().regs.hyp_regs == old(self).current().regs.hyp_regs,
            final(self).current().regs.vs_csrs == old(self).current().regs.vs_csrs,
            final(self).current().regs.virtual_hs_csrs == old(self).current().regs.virtual_hs_csrs,
            final(self).current().regs.trap_csrs == old(self).current().regs.trap_csrs,
            final(self).current().vcpu_id == old(self).current().vcpu_id,
            final(self).vcpus.vcpus@.len() == old(self).vcpus.vcpus@.len(),
            forall|j: int| 0 <= j < old(self).vcpus.vcpus@.len() && j != old(self).current_vcpu
                ==> final(self).vcpus.vcpus@[j] == old(self).vcpus.vcpus@[j],
            final(self).gpt == old(self).gpt,
            final(self).csr == old(self).csr,
            final(self).breakpoints == old(self).breakpoints,
            final(self).gdbstub == old(self).gdbstub,
            final(self).current_vcpu == old(self).current_vcpu,
            final(self).translations == old(self).translations,
    {
        let cur = self.current_vcpu;
        let vcpu = &mut self.vcpus.vcpus[cur];
        vcpu.regs.guest_regs.gprs.set_all(&regs.x);
        vcpu.regs.guest_regs.sepc = regs.pc;
        Ok(())
    }

    /// Reads guest memory for the debugger. The address is resolved
    /// through the current vCPU's page table when translation is enabled,
    /// and used as already physical otherwise; the length is clamped to
    /// the page. Every failure is the one generic error.
    pub fn read_addrs(&mut self, start_addr: u64, len: usize) -> (r: HyperResult<Vec<u8>>)
        requires
            old(self).wf(),
        ensures
            final(self).wf(),
            final(self).vcpus == old(self).vcpus,
            final(self).gpt == old(self).gpt,
            final(self).csr == old(self).csr,
            final(self).breakpoints == old(self).breakpoints,
            final(self).gdbstub == old(self).gdbstub,
            final(self).current_vcpu == old(self).current_vcpu,
            old(self).current().page_table_root_spec() == 0 ==> final(self).translations == old(self).translations,
            match old(self).debug_resolve_spec(start_addr, len) {
                Some((p, c)) => {
                    &&& old(self).gpt.mem.contains_range(p, c as nat) ==> (r matches Ok(v)
                        && v@ == old(self).gpt.mem.bytes().subrange(
                        p - old(self).gpt.mem.base_addr(),
                        p - old(self).gpt.mem.base_addr() + c,
                    ))
                    &&& !old(self).gpt.mem.contains_range(p, c as nat) ==> r is Err
                },
                None => r is Err,
            },
    {
        let root = self.vcpus.vcpus[self.current_vcpu].get_page_table_root();
        let mut addr = start_addr;
        let mut count = len;
        if root != 0 {
            match self.get_page(start_addr) {
                Ok(t) => {
                    addr = t.paddr;
                    if (count as u64) > t.size {
                        count = t.size as usize;
                    }
                },
                Err(_) => {
                    return Err(HyperError::Internal);
                },
            }
        }
        self.gpt.mem.read_guest_phys_addrs(addr, count)
    }

    /// Writes guest memory for the debugger, resolving the address as
    /// `read_addrs` does; only the prefix that fits the containing page is
    /// written. Every failure is the one generic error, and a failed write
    /// changes nothing.
    pub fn write_addrs(&mut self, start_addr: u64, data: &Vec<u8>) -> (r: HyperResult<()>)
        requires
            old(self).wf(),
        ensures
            final(self).wf(),
            final(self).vcpus == old(self).vcpus,
            final(self).gpt.root == old(self).gpt.root,
            final(self).gpt.mem.base_addr() == old(self).gpt.mem.base_addr(),
            final(self).gpt.mem.bytes().len() == old(self).gpt.mem.bytes().len(),
            final(self).csr == old(self).csr,
            final(self).breakpoints == old(self).breakpoints,
            final(self).gdbstub == old(self).gdbstub,
            final(self).current_vcpu == old(self).current_vcpu,
            old(self).current().page_table_root_spec() == 0 ==> final(self).translations == old(self).translations,
            match old(self).debug_resolve_spec(start_addr, data@.len() as usize) {
                Some((p, c)) => {
                    &&& old(self).gpt.mem.contains_range(p, c as nat) ==> (r is Ok && final(self).gpt.mem.bytes() == splice(
                        old(self).gpt.mem.bytes(),
                        p - old(self).gpt.mem.base_addr(),
                        data@.subrange(0, c as int),
                    ))
                    &&& !old(self).gpt.mem.contains_range(p, c as nat) ==> (r is Err && final(self).gpt.mem.bytes() == old(self).gpt.mem.bytes())
                },
                None => r is Err && final(self).gpt.mem.bytes() == old(self).gpt.mem.bytes(),
            },
    {
        let root = self.vcpus.vcpus[self.current_vcpu].get_page_table_root();
        let mut addr = start_addr;
        let mut count = data.len();
        if root != 0 {
            match self.get_page(start_addr) {
                Ok(t) => {
                    addr = t.paddr;
                    if (count as u64) > t.size {
                        count = t.size as usize;
                    }
                },
                Err(_) => {
                    return Err(HyperError::Internal);
                },
            }
        }
        let mut chunk: Vec<u8> = Vec::new();
        let mut i: usize = 0;
        while i < count
            invariant
                i <= count,
                count <= data@.len(),
                chunk@.len() == i,
                forall|j: int| 0 <= j < i ==> chunk@[j] == data@[j],
            decreases count - i,
        {
            chunk.push(data[i]);
            i += 1;
        }
        proof {
            assert(chunk@ =~= data@.subrange(0, count as int));
        }
        self.gpt.mem.write_guest_phys_addrs(addr, &chunk)
    }

    /// Plants a software breakpoint at guest address `bp_addr`: resolves
    /// the address as memory access does, saves the two instruction bytes
    /// there into the shadow store, and overwrites them with the trap
    /// instruction. Returns `Ok(false)` (not an error) when resolution or
    /// the byte transfer fails, so the protocol layer can answer "could
    /// not set" without aborting the session.
    pub fn add_sw_breakpoint(&mut self, bp_addr: u64, _kind: usize) -> (r: HyperResult<bool>)
        requires
            old(self).wf(),
        ensures
            final(self).wf(),
            r is Ok,
            final(self).vcpus == old(self).vcpus,
            final(self).gpt.root == old(self).gpt.root,
            final(self).gpt.mem.base_addr() == old(self).gpt.mem.base_addr(),
            final(self).gpt.mem.bytes().len() == old(self).gpt.mem.bytes().len(),
            final(self).csr == old(self).csr,
            final(self).gdbstub == old(self).gdbstub,
            final(self).current_vcpu == old(self).current_vcpu,
            old(self).current().page_table_root_spec() == 0 ==> final(self).translations == old(self).translations,
            match old(self).bp_resolve_spec(bp_addr) {
                Some(p) => {
                    &&& old(self).gpt.mem.contains_range(p, 2) ==> {
                        &&& r == Ok::<bool, HyperError>(true)
                        &&& final(self).gpt.mem.bytes() == splice(
                            old(self).gpt.mem.bytes(),
                            p - old(self).gpt.mem.base_addr(),
                            Self::ebreak_bytes(),
                        )
                        &&& final(self).breakpoints.contains_addr(bp_addr)
                        &&& final(self).breakpoints.lookup(bp_addr) == (
                            p,
                            old(self).gpt.mem.bytes().subrange(
                                p - old(self).gpt.mem.base_addr(),
                                p - old(self).gpt.mem.base_addr() + 2,
                            ),
                        )
                        &&& forall|b: u64| b != bp_addr
                            ==> final(self).breakpoints.contains_addr(b) == old(self).breakpoints.contains_addr(b)
                        &&& forall|b: u64| b != bp_addr && old(self).breakpoints.contains_addr(b)
                            ==> final(self).breakpoints.lookup(b) == old(self).breakpoints.lookup(b)
                    }
                    &&& !old(self).gpt.mem.contains_range(p, 2) ==> (r == Ok::<
                        bool,
                        HyperError,
                    >(false) && final(self).gpt == old(self).gpt && final(self).breakpoints == old(self).breakpoints)
                },
                None => r == Ok::<bool, HyperError>(false) && final(self).gpt == old(self).gpt
                    && final(self).breakpoints == old(self).breakpoints,
            },
    {
        let root = self.vcpus.vcpus[self.current_vcpu].get_page_table_root();
        let mut addr = bp_addr;
        if root != 0 {
            match self.get_page(bp_addr) {
                Ok(t) => {
                    addr = t.paddr;
                },
                Err(_) => {
                    return Ok(false);
                },
            }
        }
        let inst = match self.gpt.mem.read_guest_phys_addrs(addr, 2) {
            Ok(v) => v,
            Err(_) => {
                return Ok(false);
            },
        };
        let mut ebreak: Vec<u8> = Vec::new();
        ebreak.push(0x02);
        ebreak.push(0x90);
        proof {
            assert(ebreak@ =~= Self::ebreak_bytes());
        }
        match self.gpt.mem.write_guest_phys_addrs(addr, &ebreak) {
            Ok(_) => {},
            Err(_) => {
                return Ok(false);
            },
        }
        self.breakpoints.insert(bp_addr, addr, inst);
        Ok(true)
    }

    /// Removes the software breakpoint at guest address `bp_addr`: writes
    /// the displaced bytes back to the previously resolved physical
    /// address, and only then drops the shadow entry. When the restoring
    /// write fails, the entry is kept — the displaced bytes must never be
    /// lost while guest memory still holds the trap instruction. Removing
    /// an address that was never a breakpoint is a benign no-op reported
    /// as `Ok(false)`, with no side effect on guest memory.
    pub fn remove_sw_breakpoint(&mut self, bp_addr: u64, _kind: usize) -> (r: HyperResult<bool>)
        requires
            old(self).wf(),
        ensures
            final(self).wf(),
            final(self).vcpus == old(self).vcpus,
            final(self).gpt.root == old(self).gpt.root,
            final(self).gpt.mem.base_addr() == old(self).gpt.mem.base_addr(),
            final(self).gpt.mem.bytes().len() == old(self).gpt.mem.bytes().len(),
            final(self).csr == old(self).csr,
            final(self).gdbstub == old(self).gdbstub,
            final(self).current_vcpu == old(self).current_vcpu,
            final(self).translations == old(self).translations,
            !old(self).breakpoints.contains_addr(bp_addr) ==> r == Ok::<bool, HyperError>(false)
                && *final(self) == *old(self),
            old(self).breakpoints.contains_addr(bp_addr) ==> {
                &&& forall|b: u64| b != bp_addr
                    ==> final(self).breakpoints.contains_addr(b) == old(self).breakpoints.contains_addr(b)
                &&& forall|b: u64| b != bp_addr && old(self).breakpoints.contains_addr(b)
                    ==> final(self).breakpoints.lookup(b) == old(self).breakpoints.lookup(b)
                &&& old(self).gpt.mem.contains_range(
                    old(self).breakpoints.lookup(bp_addr).0,
                    old(self).breakpoints.lookup(bp_addr).1.len(),
                ) ==> (r == Ok::<bool, HyperError>(true)
                    && !final(self).breakpoints.contains_addr(bp_addr)
                    && final(self).gpt.mem.bytes() == splice(
                    old(self).gpt.mem.bytes(),
                    old(self).breakpoints.lookup(bp_addr).0 - old(self).gpt.mem.base_addr(),
                    old(self).breakpoints.lookup(bp_addr).1,
                ))
                &&& !old(self).gpt.mem.contains_range(
                    old(self).breakpoints.lookup(bp_addr).0,
                    old(self).breakpoints.lookup(bp_addr).1.len(),
                ) ==> (r is Err && final(self).gpt.mem.bytes() == old(self).gpt.mem.bytes()
                    && final(self).breakpoints.contains_addr(bp_addr)
                    && final(self).breakpoints.lookup(bp_addr) == old(self).breakpoints.lookup(
                    bp_addr,
                ))
            },
    {
        match self.breakpoints.remove(bp_addr) {
            Some((addr, inst)) => {
                match self.gpt.mem.write_guest_phys_addrs(addr, &inst) {
                    Ok(_) => Ok(true),
                    Err(_) => {
                        // The original bytes were not restored: keep them
                        // shadowed rather than drop them.
                        self.breakpoints.insert(bp_addr, addr, inst);
                        Err(HyperError::Internal)
                    },
                }
            },
            None => Ok(false),
        }
    }

    /// Acknowledges a resume request. The actual continuation happens when
    /// the run loop resumes driving the vCPU; nothing changes here.
    pub fn resume(&mut self) -> (r: HyperResult<()>)
        requires
            old(self).wf(),
        ensures
            *final(self) == *old(self),
            r is Ok,
    {
        Ok(())
    }

    /// Opens the debug session for this VM: a fresh idle protocol state
    /// machine, replacing any previous session.
    pub fn gdbserver_init(&mut self)
        requires
            old(self).wf(),
        ensures
            final(self).wf(),
            final(self).gdbstub is Some,
            final(self).session_view().state is Idle,
            final(self).session_view().phase is Ready,
            final(self).vcpus == old(self).vcpus,
            final(self).gpt == old(self).gpt,
            final(self).csr == old(self).csr,
            final(self).breakpoints == old(self).breakpoints,
            final(self).current_vcpu == old(self).current_vcpu,
            final(self).translations == old(self).translations,
    {
        self.gdbstub = Some(DebugSession::new());
    }

    /// Feeds one byte read from the debug connection to the session and
    /// returns the bytes to write back. The session must be idle: that is
    /// the only state in which the pump reads bytes.
    pub fn gdbserver_pump_byte(&mut self, b: u8) -> (out: Vec<u8>)
        requires
            old(self).wf(),
            old(self).gdbstub is Some,
            old(self).session_view().state is Idle,
        ensures
            final(self).wf(),
            final(self).gdbstub is Some,
            final(self).session_view() == step_state(old(self).session_view(), b),
            out@ == step_output(old(self).session_view(), b),
            final(self).vcpus == old(self).vcpus,
            final(self).gpt == old(self).gpt,
            final(self).csr == old(self).csr,
            final(self).breakpoints == old(self).breakpoints,
            final(self).current_vcpu == old(self).current_vcpu,
            final(self).translations == old(self).translations,
    {
        match &mut self.gdbstub {
            Some(s) => s.pump_byte(b),
            None => {
                proof {
                    assert(false);
                }
                Vec::new()
            },
        }
    }

    /// Reports a stop to the debugger after a guest exit of interest. Only
    /// a session whose saved state is `Running` reports: it becomes idle
    /// and the returned stop-reason packet must be written to the
    /// connection; in any other state nothing happens.
    pub fn gdbserver_report(&mut self) -> (r: Option<Vec<u8>>)
        requires
            old(self).wf(),
            old(self).gdbstub is Some,
        ensures
            final(self).wf(),
            final(self).gdbstub is Some,
            final(self).vcpus == old(self).vcpus,
            final(self).gpt == old(self).gpt,
            final(self).csr == old(self).csr,
            final(self).breakpoints == old(self).breakpoints,
            final(self).current_vcpu == old(self).current_vcpu,
            final(self).translations == old(self).translations,
            old(self).session_view().state is Running ==> (r matches Some(pkt) && pkt@
                == packet_spec(stop_reply_payload()) && final(self).session_view() == (SessionView {
                state: SessionState::Idle,
                ..old(self).session_view()
            })),
            !(old(self).session_view().state is Running) ==> r is None && *final(self) == *old(self),
    {
        match &mut self.gdbstub {
            Some(s) => s.report_stop(),
            None => {
                proof {
                    assert(false);
                }
                None
            },
        }
    }
}



/// Register round-trip law: writing a register layout into the vCPU and
/// reading it back yields the same layout on every architecturally
/// writable field. The one reserved field is the hard-wired zero
/// register, which reads back zero whatever was supplied.
/// `vm` is the VM after `write_registers(regs)`, and `out` is what
/// `read_registers` then returns.
pub proof fn lemma_register_round_trip(vm: VM, regs: RiscvCoreRegs, out: RiscvCoreRegs)
    requires
        regs.wf(),
        vm.current().regs.guest_regs.gprs@ == regs.x@.update(0, 0u64),
        vm.current().pc() == regs.pc,
        out.x@ == vm.current().regs.guest_regs.gprs@,
        out.pc == vm.current().pc(),
    ensures
        out.wf(),
        out.x@[0] == 0,
        forall|i: int| 1 <= i < 32 ==> out.x@[i] == regs.x@[i],
        out.pc == regs.pc,
{
}

/// Breakpoint shadowing law: after a successful `add_sw_breakpoint` at
/// `a` resolved to physical address `p`, a debug read at `a` resolves to
/// `p` again and finds the trap instruction, not the original bytes.
/// The hypothesis that `a` still resolves to `p` rules out the one
/// degenerate case: a breakpoint planted inside the page tables that map
/// its own address.
pub proof fn lemma_breakpoint_trap_visible(pre: VM, post: VM, a: u64, p: u64, k: usize)
    requires
        pre.wf(),
        post.wf(),
        post.current().page_table_root_spec() == pre.current().page_table_root_spec(),
        pre.bp_resolve_spec(a) == Some(p),
        post.bp_resolve_spec(a) == Some(p),
        pre.gpt.mem.contains_range(p, 2),
        post.gpt.mem.base_addr() == pre.gpt.mem.base_addr(),
        post.gpt.mem.bytes() == splice(
            pre.gpt.mem.bytes(),
            p - pre.gpt.mem.base_addr(),
            VM::ebreak_bytes(),
        ),
        1 <= k <= 2,
    ensures
        match post.debug_resolve_spec(a, k) {
            Some((pp, c)) => pp == p && c == k && post.gpt.mem.bytes().subrange(
                p - post.gpt.mem.base_addr(),
                p - post.gpt.mem.base_addr() + k,
            ) == VM::ebreak_bytes().subrange(0, k as int),
            None => false,
        },
{
    let root = post.current().page_table_root_spec();
    if root != 0 {
        crate::arch::riscv::translate::lemma_walk_size(post.gpt.mem, root, a, 2);
    }
    let base = post.gpt.mem.base_addr();
    assert(post.gpt.mem.bytes().subrange(p - base, p - base + k) =~= VM::ebreak_bytes().subrange(
        0,
        k as int,
    ));
}

/// Breakpoint round-trip law: planting the trap instruction over two
/// bytes of guest memory and then writing the displaced bytes back (what
/// `add_sw_breakpoint` followed by `remove_sw_breakpoint` does) restores
/// guest memory exactly.
pub proof fn lemma_breakpoint_round_trip(m0: Seq<u8>, at: int)
    requires
        0 <= at,
        at + 2 <= m0.len(),
    ensures
        splice(splice(m0, at, VM::ebreak_bytes()), at, m0.subrange(at, at + 2)) == m0,
{
    crate::mem::lemma_splice_restore(m0, at, VM::ebreak_bytes());
}


} // verus!
