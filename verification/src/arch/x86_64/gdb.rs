//! Debug target adapter of the x86 half: register access, memory access,
//! software breakpoints, single step, and the debug session, all per
//! vCPU. Whether a debug access translates is decided by the guest's
//! CR0 paging bit; translation walks the guest's own four-level table.

use vstd::prelude::*;

use crate::{HyperError, HyperResult};
use crate::arch::x86_64::regs::{wire_layout, X64CoreRegs};
use crate::arch::x86_64::translate::{translate, translate_spec, PTE_ADDR_MASK};
use crate::arch::x86_64::vcpu::VCpu;
use crate::arch::{TranslateError, TranslateResult};
use crate::gdbserver::{
    packet_spec, step_output, step_state, stop_reply_payload, DebugSession, SessionState,
    SessionView,
};
use crate::mem::splice;

verus! {

/// CR0 bit that enables paging.
pub const CR0_PAGING: u64 = 0x8000_0000;

/// Whether the guest runs with paging enabled: only then do debug
/// accesses translate.
pub open spec fn paging_enabled(cr0: u64) -> bool {
    cr0 & CR0_PAGING != 0
}

/// Relies on the x86_64 crate's CR0 flag set: `Cr0Flags::PAGING` is
/// defined as bit 31, `from_bits_truncate` keeps only defined flag bits,
/// and `contains` tests that the flag's bit is set. So the call returns
/// exactly whether bit 31 of `cr0` is set.
#[verifier::external_body]
fn cr0_paging_enabled(cr0: u64) -> (r: bool)
    ensures
        r == paging_enabled(cr0),
{
    ::x86_64::registers::control::Cr0Flags::from_bits_truncate(cr0).contains(
        ::x86_64::registers::control::Cr0Flags::PAGING,
    )
}

impl VCpu {
    /// The debug session's view (meaningful only while a session exists).
    pub open spec fn session_view(self) -> SessionView {
        match self.gdbstub {
            Some(s) => s@,
            None => arbitrary(),
        }
    }

    /// Byte of the trap instruction a software breakpoint plants: the
    /// one-byte breakpoint instruction.
    pub open spec fn int3_bytes() -> Seq<u8> {
        seq![0xCCu8]
    }

    /// Root guest-physical address of the guest's own page table, taken
    /// from the table-base field of CR3.
    pub open spec fn page_table_root_spec(&self) -> u64 {
        self.cr3 & PTE_ADDR_MASK
    }

    /// Resolved target of a debug memory access: the physical address and
    /// the length clamped to the containing page. With paging disabled
    /// the supplied address is already physical and the length is not
    /// clamped; with paging enabled a failed walk resolves to nothing.
    pub open spec fn debug_resolve_spec(self, addr: u64, len: usize) -> Option<(u64, usize)> {
        if !paging_enabled(self.cr0) {
            Some((addr, len))
        } else {
            match translate_spec(self.ept.mem, self.page_table_root_spec(), addr) {
                Ok(t) => Some(
                    (t.paddr, if len <= t.size { len as usize } else { t.size as usize }),
                ),
                Err(_) => None,
            }
        }
    }

    /// Resolved physical address of a breakpoint at `addr`, by the same
    /// rule as memory access.
    pub open spec fn bp_resolve_spec(self, addr: u64) -> Option<u64> {
        if !paging_enabled(self.cr0) {
            Some(addr)
        } else {
            match translate_spec(self.ept.mem, self.page_table_root_spec(), addr) {
                Ok(t) => Some(t.paddr),
                Err(_) => None,
            }
        }
    }

    /// Resolves a guest virtual address through the guest's page table,
    /// counting the invocation.
    pub fn get_page(&mut self, addr: u64) -> (r: Result<TranslateResult, TranslateError>)
        requires
            old(self).wf(),
        ensures
            final(self).wf(),
            r == translate_spec(
                old(self).ept.mem,
                old(self).page_table_root_spec(),
                addr,
            ),
            final(self).translations == if old(self).translations < u64::MAX {
                old(self).translations as int + 1
            } else {
                old(self).translations as int
            },
            *final(self) == (VCpu { translations: final(self).translations, ..*old(self) }),
    {
        proof {
            let c = self.cr3;
            assert(c & 0x000F_FFFF_FFFF_F000u64 <= 0x000F_FFFF_FFFF_F000u64) by (bit_vector);
        }
        let root = self.cr3 & PTE_ADDR_MASK;
        if self.translations < u64::MAX {
            self.translations = self.translations + 1;
        }
        translate(&self.ept.mem, root, addr)
    }

    /// Copies the guest registers into the wire layout: the 16 integer
    /// registers in wire order, then the instruction pointer.
    pub fn read_registers(&mut self, regs: &mut X64CoreRegs) -> (r: HyperResult<()>)
        requires
            old(self).wf(),
        ensures
            *final(self) == *old(self),
            r is Ok,
            final(regs).wf(),
            final(regs).regs@ == wire_layout(old(self).gprs, old(self).rsp),
            final(regs).rip == old(self).rip,
    {
        let mut x: Vec<u64> = Vec::new();
        x.push(self.gprs.rax);
        x.push(self.gprs.rbx);
        x.push(self.gprs.rcx);
        x.push(self.gprs.rdx);
        x.push(self.gprs.rsi);
        x.push(self.gprs.rdi);
        x.push(self.gprs.rbp);
        x.push(self.rsp);
        x.push(self.gprs.r8);
        x.push(self.gprs.r9);
        x.push(self.gprs.r10);
        x.push(self.gprs.r11);
        x.push(self.gprs.r12);
        x.push(self.gprs.r13);
        x.push(self.gprs.r14);
        x.push(self.gprs.r15);
        proof {
            assert(x@ =~= wire_layout(self.gprs, self.rsp));
        }
        regs.regs = x;
        regs.rip = self.rip;
        Ok(())
    }

    /// Writes the wire layout into the guest registers. Every register of
    /// the layout is architecturally writable here, so the read-back is
    /// exactly what was written.
    pub fn write_registers(&mut self, regs: &X64CoreRegs) -> (r: HyperResult<()>)
        requires
            old(self).wf(),
            regs.wf(),
        ensures
            final(self).wf(),
            r is Ok,
            wire_layout(final(self).gprs, final(self).rsp) == regs.regs@,
            final(self).rip == regs.rip,
            *final(self) == (VCpu {
                gprs: final(self).gprs,
                rsp: final(self).rsp,
                rip: regs.rip,
                ..*old(self)
            }),
    {
        self.gprs.rax = regs.regs[0];
        self.gprs.rbx = regs.regs[1];
        self.gprs.rcx = regs.regs[2];
        self.gprs.rdx = regs.regs[3];
        self.gprs.rsi = regs.regs[4];
        self.gprs.rdi = regs.regs[5];
        self.gprs.rbp = regs.regs[6];
        self.gprs.r8 = regs.regs[8];
        self.gprs.r9 = regs.regs[9];
        self.gprs.r10 = regs.regs[10];
        self.gprs.r11 = regs.regs[11];
        self.gprs.r12 = regs.regs[12];
        self.gprs.r13 = regs.regs[13];
        self.gprs.r14 = regs.regs[14];
        self.gprs.r15 = regs.regs[15];
        self.rsp = regs.regs[7];
        self.rip = regs.rip;
        proof {
            assert(wire_layout(self.gprs, self.rsp) =~= regs.regs@);
        }
        Ok(())
    }

    /// Reads guest memory for the debugger. The address is resolved
    /// through the guest's page table when paging is enabled, and used as
    /// already physical otherwise; the length is clamped to the page.
    /// Every failure is the one generic error.
    pub fn read_addrs(&mut self, start_addr: u64, len: usize) -> (r: HyperResult<Vec<u8>>)
        requires
            old(self).wf(),
        ensures
            final(self).wf(),
            *final(self) == (VCpu { translations: final(self).translations, ..*old(self) }),
            !paging_enabled(old(self).cr0) ==> final(self).translations == old(self).translations,
            match old(self).debug_resolve_spec(start_addr, len) {
                Some((p, c)) => {
                    &&& old(self).ept.mem.contains_range(p, c as nat) ==> (r matches Ok(v)
                        && v@ == old(self).ept.mem.bytes().subrange(
                        p - old(self).ept.mem.base_addr(),
                        p - old(self).ept.mem.base_addr() + c,
                    ))
                    &&& !old(self).ept.mem.contains_range(p, c as nat) ==> r is Err
                },
                None => r is Err,
            },
    {
        let mut addr = start_addr;
        let mut count = len;
        if cr0_paging_enabled(self.cr0) {
            match self.get_page(start_addr) {
                Ok(t) => {
                    addr = t.paddr;
                    if (count as u64) > t.size {
                        count = t.size as usize;
                    }
                },
                Err(_) => {
                    return Err(HyperError::Internal);
                },
            }
        }
        self.ept.mem.read_guest_phys_addrs(addr, count)
    }

    /// Writes guest memory for the debugger, resolving the address as
    /// `read_addrs` does; only the prefix that fits the containing page
    /// is written. Every failure is the one generic error, and a failed
    /// write changes nothing.
    pub fn write_addrs(&mut self, start_addr: u64, data: &Vec<u8>) -> (r: HyperResult<()>)
        requires
            old(self).wf(),
        ensures
            final(self).wf(),
            *final(self) == (VCpu {
                translations: final(self).translations,
                ept: final(self).ept,
                ..*old(self)
            }),
            final(self).ept.root == old(self).ept.root,
            final(self).ept.mem.base_addr() == old(self).ept.mem.base_addr(),
            final(self).ept.mem.bytes().len() == old(self).ept.mem.bytes().len(),
            !paging_enabled(old(self).cr0) ==> final(self).translations == old(self).translations,
            match old(self).debug_resolve_spec(start_addr, data@.len() as usize) {
                Some((p, c)) => {
                    &&& old(self).ept.mem.contains_range(p, c as nat) ==> (r is Ok && final(self).ept.mem.bytes() == splice(
                        old(self).ept.mem.bytes(),
                        p - old(self).ept.mem.base_addr(),
                        data@.subrange(0, c as int),
                    ))
                    &&& !old(self).ept.mem.contains_range(p, c as nat) ==> (r is Err && final(self).ept.mem.bytes() == old(self).ept.mem.bytes())
                },
                None => r is Err && final(self).ept.mem.bytes() == old(self).ept.mem.bytes(),
            },
    {
        let mut addr = start_addr;
        let mut count = data.len();
        if cr0_paging_enabled(self.cr0) {
            match self.get_page(start_addr) {
                Ok(t) => {
                    addr = t.paddr;
                    if (count as u64) > t.size {
                        count = t.size as usize;
                    }
                },
                Err(_) => {
                    return Err(HyperError::Internal);
                },
            }
        }
        let mut chunk: Vec<u8> = Vec::new();
        let mut i: usize = 0;
        while i < count
            invariant
                i <= count,
                count <= data@.len(),
                chunk@.len() == i,
                forall|j: int| 0 <= j < i ==> chunk@[j] == data@[j],
            decreases count - i,
        {
            chunk.push(data[i]);
            i += 1;
        }
        proof {
            assert(chunk@ =~= data@.subrange(0, count as int));
        }
        match self.ept.mem.write_guest_phys_addrs(addr, &chunk) {
            Ok(_) => Ok(()),
            Err(e) => Err(e),
        }
    }

    /// Plants a software breakpoint at guest address `bp_addr`: resolves
    /// the address as memory access does, saves the instruction byte
    /// there into the shadow store, and overwrites it with the trap
    /// instruction. Returns `Ok(false)` (not an error) when resolution or
    /// the byte transfer fails.
    pub fn add_sw_breakpoint(&mut self, bp_addr: u64, _kind: usize) -> (r: HyperResult<bool>)
        requires
            old(self).wf(),
        ensures
            final(self).wf(),
            r is Ok,
            *final(self) == (VCpu {
                translations: final(self).translations,
                ept: final(self).ept,
                breakpoints: final(self).breakpoints,
                ..*old(self)
            }),
            final(self).ept.root == old(self).ept.root,
            final(self).ept.mem.base_addr() == old(self).ept.mem.base_addr(),
            final(self).ept.mem.bytes().len() == old(self).ept.mem.bytes().len(),
            !paging_enabled(old(self).cr0) ==> final(self).translations == old(self).translations,
            match old(self).bp_resolve_spec(bp_addr) {
                Some(p) => {
                    &&& old(self).ept.mem.contains_range(p, 1) ==> {
                        &&& r == Ok::<bool, HyperError>(true)
                        &&& final(self).ept.mem.bytes() == splice(
                            old(self).ept.mem.bytes(),
                            p - old(self).ept.mem.base_addr(),
                            Self::int3_bytes(),
                        )
                        &&& final(self).breakpoints.contains_addr(bp_addr)
                        &&& final(self).breakpoints.lookup(bp_addr) == (
                            p,
                            old(self).ept.mem.bytes().subrange(
                                p - old(self).ept.mem.base_addr(),
                                p - old(self).ept.mem.base_addr() + 1,
                            ),
                        )
                        &&& forall|b: u64| b != bp_addr
                            ==> final(self).breakpoints.contains_addr(b) == old(self).breakpoints.contains_addr(b)
                        &&& forall|b: u64| b != bp_addr && old(self).breakpoints.contains_addr(b)
                            ==> final(self).breakpoints.lookup(b) == old(self).breakpoints.lookup(b)
                    }
                    &&& !old(self).ept.mem.contains_range(p, 1) ==> (r == Ok::<
                        bool,
                        HyperError,
                    >(false) && final(self).ept == old(self).ept && final(self).breakpoints
                        == old(self).breakpoints)
                },
                None => r == Ok::<bool, HyperError>(false) && final(self).ept == old(self).ept
                    && final(self).breakpoints == old(self).breakpoints,
            },
    {
        let mut addr = bp_addr;
        if cr0_paging_enabled(self.cr0) {
            match self.get_page(bp_addr) {
                Ok(t) => {
                    addr = t.paddr;
                },
                Err(_) => {
                    return Ok(false);
                },
            }
        }
        let inst = match self.ept.mem.read_guest_phys_addrs(addr, 1) {
            Ok(v) => v,
            Err(_) => {
                return Ok(false);
            },
        };
        let mut int3: Vec<u8> = Vec::new();
        int3.push(0xCC);
        proof {
            assert(int3@ =~= Self::int3_bytes());
        }
        match self.ept.mem.write_guest_phys_addrs(addr, &int3) {
            Ok(_) => {},
            Err(_) => {
                return Ok(false);
            },
        }
        self.breakpoints.insert(bp_addr, addr, inst);
        Ok(true)
    }

    /// Removes the software breakpoint at guest address `bp_addr`: writes
    /// the displaced byte back to the previously resolved physical
    /// address, and only then drops the shadow entry. When the restoring
    /// write fails, the entry is kept — the displaced byte must never be
    /// lost while guest memory still holds the trap instruction. Removing
    /// an address that was never a breakpoint is a benign no-op reported
    /// as `Ok(false)`, with no side effect on guest memory.
    pub fn remove_sw_breakpoint(&mut self, bp_addr: u64, _kind: usize) -> (r: HyperResult<bool>)
        requires
            old(self).wf(),
        ensures
            final(self).wf(),
            *final(self) == (VCpu {
                ept: final(self).ept,
                breakpoints: final(self).breakpoints,
                ..*old(self)
            }),
            final(self).ept.root == old(self).ept.root,
            final(self).ept.mem.base_addr() == old(self).ept.mem.base_addr(),
            final(self).ept.mem.bytes().len() == old(self).ept.mem.bytes().len(),
            final(self).translations == old(self).translations,
            !old(self).breakpoints.contains_addr(bp_addr) ==> r == Ok::<bool, HyperError>(false)
                && *final(self) == *old(self),
            old(self).breakpoints.contains_addr(bp_addr) ==> {
                &&& forall|b: u64| b != bp_addr
                    ==> final(self).breakpoints.contains_addr(b) == old(self).breakpoints.contains_addr(b)
                &&& forall|b: u64| b != bp_addr && old(self).breakpoints.contains_addr(b)
                    ==> final(self).breakpoints.lookup(b) == old(self).breakpoints.lookup(b)
                &&& old(self).ept.mem.contains_range(
                    old(self).breakpoints.lookup(bp_addr).0,
                    old(self).breakpoints.lookup(bp_addr).1.len(),
                ) ==> (r == Ok::<bool, HyperError>(true)
                    && !final(self).breakpoints.contains_addr(bp_addr)
                    && final(self).ept.mem.bytes() == splice(
                    old(self).ept.mem.bytes(),
                    old(self).breakpoints.lookup(bp_addr).0 - old(self).ept.mem.base_addr(),
                    old(self).breakpoints.lookup(bp_addr).1,
                ))
                &&& !old(self).ept.mem.contains_range(
                    old(self).breakpoints.lookup(bp_addr).0,
                    old(self).breakpoints.lookup(bp_addr).1.len(),
                ) ==> (r is Err && final(self).ept.mem.bytes() == old(self).ept.mem.bytes()
                    && final(self).breakpoints.contains_addr(bp_addr)
                    && final(self).breakpoints.lookup(bp_addr) == old(self).breakpoints.lookup(
                    bp_addr,
                ))
            },
    {
        match self.breakpoints.remove(bp_addr) {
            Some((addr, inst)) => {
                match self.ept.mem.write_guest_phys_addrs(addr, &inst) {
                    Ok(_) => Ok(true),
                    Err(_) => {
                        // The original byte was not restored: keep it
                        // shadowed rather than drop it.
                        self.breakpoints.insert(bp_addr, addr, inst);
                        Err(HyperError::Internal)
                    },
                }
            },
            None => Ok(false),
        }
    }

    /// Acknowledges a resume request. The actual continuation happens when
    /// the run loop resumes driving the vCPU; nothing changes here.
    pub fn resume(&mut self) -> (r: HyperResult<()>)
        requires
            old(self).wf(),
        ensures
            *final(self) == *old(self),
            r is Ok,
    {
        Ok(())
    }

    /// Performs a single step by arming the hardware
    /// trap-after-one-instruction flag; the step itself happens on the
    /// next world switch.
    pub fn step(&mut self) -> (r: HyperResult<()>)
        requires
            old(self).wf(),
        ensures
            final(self).wf(),
            r is Ok,
            *final(self) == (VCpu { monitor_trap_flag: true, ..*old(self) }),
    {
        self.set_monitor_trap_flag(true)
    }

    /// Opens the debug session for this vCPU: a fresh idle protocol state
    /// machine, replacing any previous session.
    pub fn gdbserver_init(&mut self)
        requires
            old(self).wf(),
        ensures
            final(self).wf(),
            final(self).gdbstub is Some,
            final(self).session_view().state is Idle,
            final(self).session_view().phase is Ready,
            *final(self) == (VCpu { gdbstub: final(self).gdbstub, ..*old(self) }),
    {
        self.gdbstub = Some(DebugSession::new());
    }

    /// Feeds one byte read from the debug connection to the session and
    /// returns the bytes to write back. The session must be idle: that is
    /// the only state in which the pump reads bytes.
    pub fn gdbserver_pump_byte(&mut self, b: u8) -> (out: Vec<u8>)
        requires
            old(self).wf(),
            old(self).gdbstub is Some,
            old(self).session_view().state is Idle,
        ensures
            final(self).wf(),
            final(self).gdbstub is Some,
            final(self).session_view() == step_state(old(self).session_view(), b),
            out@ == step_output(old(self).session_view(), b),
            *final(self) == (VCpu { gdbstub: final(self).gdbstub, ..*old(self) }),
    {
        match &mut self.gdbstub {
            Some(s) => s.pump_byte(b),
            None => {
                proof {
                    assert(false);
                }
                Vec::new()
            },
        }
    }

    /// Reports a stop to the debugger after a guest exit of interest.
    /// Only a session whose saved state is `Running` reports: it becomes
    /// idle and the returned stop-reason packet must be written to the
    /// connection; in any other state nothing happens.
    pub fn gdbserver_report(&mut self) -> (r: Option<Vec<u8>>)
        requires
            old(self).wf(),
            old(self).gdbstub is Some,
        ensures
            final(self).wf(),
            final(self).gdbstub is Some,
            *final(self) == (VCpu { gdbstub: final(self).gdbstub, ..*old(self) }),
            old(self).session_view().state is Running ==> (r matches Some(pkt) && pkt@
                == packet_spec(stop_reply_payload()) && final(self).session_view() == (SessionView {
                state: SessionState::Idle,
                ..old(self).session_view()
            })),
            !(old(self).session_view().state is Running) ==> r is None && *final(self) == *old(self),
    {
        match &mut self.gdbstub {
            Some(s) => s.report_stop(),
            None => {
                proof {
                    assert(false);
                }
                None
            },
        }
    }
}


/// Register round-trip law: writing a register layout into the vCPU and
/// reading it back yields the same layout; on this architecture every
/// field of the layout is writable. `v` is the vCPU after
/// `write_registers(regs)`, and `out` is what `read_registers` then
/// returns.
pub proof fn lemma_register_round_trip(v: VCpu, regs: X64CoreRegs, out: X64CoreRegs)
    requires
        regs.wf(),
        wire_layout(v.gprs, v.rsp) == regs.regs@,
        v.rip == regs.rip,
        out.regs@ == wire_layout(v.gprs, v.rsp),
        out.rip == v.rip,
    ensures
        out.regs@ == regs.regs@,
        out.rip == regs.rip,
{
}

/// Breakpoint shadowing law: after a successful `add_sw_breakpoint` at
/// `a` resolved to physical address `p`, a debug read at `a` resolves to
/// `p` again and finds the trap instruction, not the original byte. The
/// hypothesis that `a` still resolves to `p` rules out the one
/// degenerate case: a breakpoint planted inside the page tables that map
/// its own address.
pub proof fn lemma_breakpoint_trap_visible(pre: VCpu, post: VCpu, a: u64, p: u64)
    requires
        pre.wf(),
        post.wf(),
        post.cr0 == pre.cr0,
        post.page_table_root_spec() == pre.page_table_root_spec(),
        pre.bp_resolve_spec(a) == Some(p),
        post.bp_resolve_spec(a) == Some(p),
        pre.ept.mem.contains_range(p, 1),
        post.ept.mem.base_addr() == pre.ept.mem.base_addr(),
        post.ept.mem.bytes() == splice(
            pre.ept.mem.bytes(),
            p - pre.ept.mem.base_addr(),
            VCpu::int3_bytes(),
        ),
    ensures
        match post.debug_resolve_spec(a, 1) {
            Some((pp, c)) => pp == p && c == 1 && post.ept.mem.bytes().subrange(
                p - post.ept.mem.base_addr(),
                p - post.ept.mem.base_addr() + 1,
            ) == VCpu::int3_bytes(),
            None => false,
        },
{
    if paging_enabled(post.cr0) {
        crate::arch::x86_64::translate::lemma_walk_size(
            post.ept.mem,
            post.page_table_root_spec(),
            a,
            3,
        );
    }
    let base = post.ept.mem.base_addr();
    assert(post.ept.mem.bytes().subrange(p - base, p - base + 1) =~= VCpu::int3_bytes());
}

/// Breakpoint round-trip law: planting the trap instruction over one
/// byte of guest memory and then writing the displaced byte back (what
/// `add_sw_breakpoint` followed by `remove_sw_breakpoint` does) restores
/// guest memory exactly.
pub proof fn lemma_breakpoint_round_trip(m0: Seq<u8>, at: int)
    requires
        0 <= at,
        at + 1 <= m0.len(),
    ensures
        splice(splice(m0, at, VCpu::int3_bytes()), at, m0.subrange(at, at + 1)) == m0,
{
    crate::mem::lemma_splice_restore(m0, at, VCpu::int3_bytes());
}


} // verus!
