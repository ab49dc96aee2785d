//! x86 general-purpose register file and the debug wire layout.

use vstd::prelude::*;

verus! {

/// The general-purpose registers of one x86 virtual CPU that are saved
/// and restored on every world switch. The stack pointer lives in the
/// hardware-managed guest area instead, and is carried separately.
#[derive(Clone, Copy, Debug, PartialEq, Eq, Structural)]
pub struct GeneralPurposeRegisters {
    pub rax: u64,
    pub rbx: u64,
    pub rcx: u64,
    pub rdx: u64,
    pub rsi: u64,
    pub rdi: u64,
    pub rbp: u64,
    pub r8: u64,
    pub r9: u64,
    pub r10: u64,
    pub r11: u64,
    pub r12: u64,
    pub r13: u64,
    pub r14: u64,
    pub r15: u64,
}

impl GeneralPurposeRegisters {
    /// A register file with every register zero.
    pub fn new() -> (r: Self)
        ensures
            r == (GeneralPurposeRegisters {
                rax: 0, rbx: 0, rcx: 0, rdx: 0, rsi: 0, rdi: 0, rbp: 0,
                r8: 0, r9: 0, r10: 0, r11: 0, r12: 0, r13: 0, r14: 0, r15: 0,
            }),
    {
        GeneralPurposeRegisters {
            rax: 0, rbx: 0, rcx: 0, rdx: 0, rsi: 0, rdi: 0, rbp: 0,
            r8: 0, r9: 0, r10: 0, r11: 0, r12: 0, r13: 0, r14: 0, r15: 0,
        }
    }
}

/// The canonical debug register order of this architecture, as it crosses
/// the wire: rax, rbx, rcx, rdx, rsi, rdi, rbp, rsp, then r8..r15. This
/// ordering is fixed by the published debug convention and must not
/// change.
pub open spec fn wire_layout(g: GeneralPurposeRegisters, rsp: u64) -> Seq<u64> {
    seq![
        g.rax, g.rbx, g.rcx, g.rdx, g.rsi, g.rdi, g.rbp, rsp,
        g.r8, g.r9, g.r10, g.r11, g.r12, g.r13, g.r14, g.r15,
    ]
}

/// The canonical debug register layout of this architecture: the 16
/// integer registers in wire order, followed by the instruction pointer,
/// each 64 bits wide.
pub struct X64CoreRegs {
    /// rax, rbx, rcx, rdx, rsi, rdi, rbp, rsp, r8..r15.
    pub regs: Vec<u64>,
    /// Instruction pointer.
    pub rip: u64,
}

impl X64CoreRegs {
    /// The layout holds its 16 integer registers.
    pub open spec fn wf(&self) -> bool {
        self.regs@.len() == 16
    }

    /// A layout with every field zero.
    pub fn new() -> (r: Self)
        ensures
            r.wf(),
            r.rip == 0,
            forall|i: int| 0 <= i < 16 ==> r.regs@[i] == 0,
    {
        let mut regs: Vec<u64> = Vec::new();
        let mut i: usize = 0;
        while i < 16
            invariant
                i <= 16,
                regs@.len() == i,
                forall|j: int| 0 <= j < i ==> regs@[j] == 0,
            decreases 16 - i,
        {
            regs.push(0);
            i += 1;
        }
        X64CoreRegs { regs, rip: 0 }
    }
}

} // verus!
