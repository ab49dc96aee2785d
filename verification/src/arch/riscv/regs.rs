//! RISC-V general-purpose register file and register indices.

use vstd::prelude::*;

verus! {

/// Index of a RISC-V general-purpose register, in the architectural
/// numbering x0..x31 (x0 is the hard-wired zero register).
#[derive(Clone, Copy, Debug, PartialEq, Eq, Structural)]
pub enum GprIndex {
    Zero,
    RA,
    SP,
    GP,
    TP,
    T0,
    T1,
    T2,
    S0,
    S1,
    A0,
    A1,
    A2,
    A3,
    A4,
    A5,
    A6,
    A7,
    S2,
    S3,
    S4,
    S5,
    S6,
    S7,
    S8,
    S9,
    S10,
    S11,
    T3,
    T4,
    T5,
    T6,
}

impl GprIndex {
    /// The architectural register number of this index.
    pub open spec fn as_index(self) -> int {
        match self {
            GprIndex::Zero => 0,
            GprIndex::RA => 1,
            GprIndex::SP => 2,
            GprIndex::GP => 3,
            GprIndex::TP => 4,
            GprIndex::T0 => 5,
            GprIndex::T1 => 6,
            GprIndex::T2 => 7,
            GprIndex::S0 => 8,
            GprIndex::S1 => 9,
            GprIndex::A0 => 10,
            GprIndex::A1 => 11,
            GprIndex::A2 => 12,
            GprIndex::A3 => 13,
            GprIndex::A4 => 14,
            GprIndex::A5 => 15,
            GprIndex::A6 => 16,
            GprIndex::A7 => 17,
            GprIndex::S2 => 18,
            GprIndex::S3 => 19,
            GprIndex::S4 => 20,
            GprIndex::S5 => 21,
            GprIndex::S6 => 22,
            GprIndex::S7 => 23,
            GprIndex::S8 => 24,
            GprIndex::S9 => 25,
            GprIndex::S10 => 26,
            GprIndex::S11 => 27,
            GprIndex::T3 => 28,
            GprIndex::T4 => 29,
            GprIndex::T5 => 30,
            GprIndex::T6 => 31,
        }
    }

    /// The architectural register number of this index.
    pub fn raw_index(self) -> (r: usize)
        ensures
            r == self.as_index(),
    {
        match self {
            GprIndex::Zero => 0,
            GprIndex::RA => 1,
            GprIndex::SP => 2,
            GprIndex::GP => 3,
            GprIndex::TP => 4,
            GprIndex::T0 => 5,
            GprIndex::T1 => 6,
            GprIndex::T2 => 7,
            GprIndex::S0 => 8,
            GprIndex::S1 => 9,
            GprIndex::A0 => 10,
            GprIndex::A1 => 11,
            GprIndex::A2 => 12,
            GprIndex::A3 => 13,
            GprIndex::A4 => 14,
            GprIndex::A5 => 15,
            GprIndex::A6 => 16,
            GprIndex::A7 => 17,
            GprIndex::S2 => 18,
            GprIndex::S3 => 19,
            GprIndex::S4 => 20,
            GprIndex::S5 => 21,
            GprIndex::S6 => 22,
            GprIndex::S7 => 23,
            GprIndex::S8 => 24,
            GprIndex::S9 => 25,
            GprIndex::S10 => 26,
            GprIndex::S11 => 27,
            GprIndex::T3 => 28,
            GprIndex::T4 => 29,
            GprIndex::T5 => 30,
            GprIndex::T6 => 31,
        }
    }

    /// The index whose architectural register number is `raw`, for
    /// `raw < 32`; `None` otherwise.
    pub fn from_raw(raw: u32) -> (r: Option<GprIndex>)
        ensures
            raw < 32 ==> (r matches Some(g) && g.as_index() == raw),
            raw >= 32 ==> r is None,
    {
        match raw {
            0 => Some(GprIndex::Zero),
            1 => Some(GprIndex::RA),
            2 => Some(GprIndex::SP),
            3 => Some(GprIndex::GP),
            4 => Some(GprIndex::TP),
            5 => Some(GprIndex::T0),
            6 => Some(GprIndex::T1),
            7 => Some(GprIndex::T2),
            8 => Some(GprIndex::S0),
            9 => Some(GprIndex::S1),
            10 => Some(GprIndex::A0),
            11 => Some(GprIndex::A1),
            12 => Some(GprIndex::A2),
            13 => Some(GprIndex::A3),
            14 => Some(GprIndex::A4),
            15 => Some(GprIndex::A5),
            16 => Some(GprIndex::A6),
            17 => Some(GprIndex::A7),
            18 => Some(GprIndex::S2),
            19 => Some(GprIndex::S3),
            20 => Some(GprIndex::S4),
            21 => Some(GprIndex::S5),
            22 => Some(GprIndex::S6),
            23 => Some(GprIndex::S7),
            24 => Some(GprIndex::S8),
            25 => Some(GprIndex::S9),
            26 => Some(GprIndex::S10),
            27 => Some(GprIndex::S11),
            28 => Some(GprIndex::T3),
            29 => Some(GprIndex::T4),
            30 => Some(GprIndex::T5),
            31 => Some(GprIndex::T6),
            _ => None,
        }
    }
}

/// The 32 general-purpose registers of one RISC-V hart. The view is the
/// sequence x0..x31; x0 always reads zero and ignores writes.
pub struct GeneralPurposeRegisters {
    regs: Vec<u64>,
}

impl View for GeneralPurposeRegisters {
    type V = Seq<u64>;

    closed spec fn view(&self) -> Seq<u64> {
        self.regs@
    }
}

impl GeneralPurposeRegisters {
    /// 32 registers, and x0 holds zero.
    pub open spec fn wf(&self) -> bool {
        self@.len() == 32 && self@[0] == 0
    }

    /// A register file with every register zero.
    pub fn new() -> (r: Self)
        ensures
            r.wf(),
            forall|i: int| 0 <= i < 32 ==> r@[i] == 0,
    {
        let mut regs: Vec<u64> = Vec::new();
        let mut i: usize = 0;
        while i < 32
            invariant
                i <= 32,
                regs@.len() == i,
                forall|j: int| 0 <= j < i ==> regs@[j] == 0,
            decreases 32 - i,
        {
            regs.push(0);
            i += 1;
        }
        GeneralPurposeRegisters { regs }
    }

    /// Reads the register numbered `index`.
    pub fn reg(&self, index: GprIndex) -> (r: u64)
        requires
            self.wf(),
        ensures
            r == self@[index.as_index()],
    {
        let i = index.raw_index();
        self.regs[i]
    }

    /// Copies all 32 registers out, in architectural order.
    pub fn to_vec(&self) -> (r: Vec<u64>)
        requires
            self.wf(),
        ensures
            r@ == self@,
    {
        let mut r: Vec<u64> = Vec::new();
        let mut i: usize = 0;
        while i < 32
            invariant
                i <= 32,
                self@.len() == 32,
                r@.len() == i,
                forall|j: int| 0 <= j < i ==> r@[j] == self@[j],
            decreases 32 - i,
        {
            r.push(self.regs[i]);
            i += 1;
        }
        assert(r@ =~= self@);
        r
    }

    /// Overwrites registers x1..x31 from `vals`, in architectural order;
    /// x0 stays zero whatever `vals[0]` holds.
    pub fn set_all(&mut self, vals: &Vec<u64>)
        requires
            old(self).wf(),
            vals@.len() == 32,
        ensures
            final(self).wf(),
            final(self)@ == vals@.update(0, 0u64),
    {
        let mut i: usize = 1;
        while i < 32
            invariant
                1 <= i <= 32,
                self@.len() == 32,
                self@[0] == 0,
                forall|j: int| 1 <= j < i ==> self@[j] == vals@[j],
                vals@.len() == 32,
            decreases 32 - i,
        {
            self.regs.set(i, vals[i]);
            i += 1;
        }
        assert(self@ =~= vals@.update(0, 0u64));
    }

    /// Writes the register numbered `index`; a write to x0 is ignored.
    pub fn set_reg(&mut self, index: GprIndex, val: u64)
        requires
            old(self).wf(),
        ensures
            final(self).wf(),
            index is Zero ==> final(self)@ == old(self)@,
            !(index is Zero) ==> final(self)@ == old(self)@.update(index.as_index(), val),
    {
        if let GprIndex::Zero = index {
            return;
        }
        let i = index.raw_index();
        self.regs.set(i, val);
    }
}

/// The canonical debug register layout of this architecture, as it crosses
/// the wire: the 32 integer registers x0..x31 in architectural order,
/// followed by the program counter, each 64 bits wide. This ordering is
/// fixed by the published debug convention and must not change.
pub struct RiscvCoreRegs {
    /// x0..x31.
    pub x: Vec<u64>,
    /// Program counter.
    pub pc: u64,
}

impl RiscvCoreRegs {
    /// The layout holds its 32 integer registers.
    pub open spec fn wf(&self) -> bool {
        self.x@.len() == 32
    }

    /// A layout with every field zero.
    pub fn new() -> (r: Self)
        ensures
            r.wf(),
            r.pc == 0,
            forall|i: int| 0 <= i < 32 ==> r.x@[i] == 0,
    {
        let mut x: Vec<u64> = Vec::new();
        let mut i: usize = 0;
        while i < 32
            invariant
                i <= 32,
                x@.len() == i,
                forall|j: int| 0 <= j < i ==> x@[j] == 0,
            decreases 32 - i,
        {
            x.push(0);
            i += 1;
        }
        RiscvCoreRegs { x, pc: 0 }
    }
}

} // verus!
