//! Shadow store for software breakpoints.
//!
//! Each entry maps the guest virtual address a debugger set a breakpoint at
//! to the resolved guest-physical address and the original instruction
//! bytes displaced by the trap instruction. Entries are created only by a
//! successful add and destroyed only by a matching remove; while an entry
//! exists, guest memory at the resolved address holds the trap instruction,
//! and removal writes the saved bytes back.

use vstd::prelude::*;

verus! {

/// One shadowed breakpoint.
pub struct BreakpointEntry {
    /// Guest virtual address the breakpoint was requested at (the lookup
    /// key: removal goes by the original, un-translated address).
    pub guest_addr: u64,
    /// Guest-physical address the trap instruction was written to.
    pub phys_addr: u64,
    /// Instruction bytes displaced by the trap instruction.
    pub original: Vec<u8>,
}

/// The set of shadowed breakpoints, keyed by guest virtual address.
pub struct BreakpointShadow {
    entries: Vec<BreakpointEntry>,
}

impl View for BreakpointShadow {
    type V = Seq<BreakpointEntry>;

    closed spec fn view(&self) -> Seq<BreakpointEntry> {
        self.entries@
    }
}

impl BreakpointShadow {
    /// Each guest address occurs at most once.
    pub open spec fn wf(&self) -> bool {
        forall|i: int, j: int|
            0 <= i < j < self@.len() ==> self@[i].guest_addr != self@[j].guest_addr
    }

    /// Whether a breakpoint is shadowed at guest address `a`.
    pub open spec fn contains_addr(&self, a: u64) -> bool {
        exists|i: int| 0 <= i < self@.len() && self@[i].guest_addr == a
    }

    /// The resolved physical address and displaced bytes shadowed for `a`
    /// (meaningful only when `contains_addr(a)`).
    pub open spec fn lookup(&self, a: u64) -> (u64, Seq<u8>) {
        let i = choose|i: int| 0 <= i < self@.len() && self@[i].guest_addr == a;
        (self@[i].phys_addr, self@[i].original@)
    }

    /// An empty shadow store.
    pub fn new() -> (r: Self)
        ensures
            r.wf(),
            r@.len() == 0,
            forall|a: u64| !r.contains_addr(a),
    {
        BreakpointShadow { entries: Vec::new() }
    }

    /// Index of the entry for `a`, if one exists.
    fn find(&self, a: u64) -> (r: Option<usize>)
        ensures
            r matches Some(i) ==> i < self@.len() && self@[i as int].guest_addr == a,
            r is None ==> !self.contains_addr(a),
    {
        let mut i: usize = 0;
        let n = self.entries.len();
        while i < n
            invariant
                i <= n,
                n == self@.len(),
                forall|j: int| 0 <= j < i ==> self@[j].guest_addr != a,
            decreases n - i,
        {
            if self.entries[i].guest_addr == a {
                return Some(i);
            }
            i += 1;
        }
        None
    }

    /// Whether a breakpoint is shadowed at guest address `a`.
    pub fn contains(&self, a: u64) -> (r: bool)
        ensures
            r == self.contains_addr(a),
    {
        match self.find(a) {
            Some(_) => true,
            None => false,
        }
    }

    /// Records the shadow for a newly set breakpoint at `guest_addr`,
    /// replacing any previous entry for the same address.
    pub fn insert(&mut self, guest_addr: u64, phys_addr: u64, original: Vec<u8>)
        requires
            old(self).wf(),
        ensures
            final(self).wf(),
            final(self).contains_addr(guest_addr),
            final(self).lookup(guest_addr) == (phys_addr, original@),
            forall|b: u64| b != guest_addr
                ==> final(self).contains_addr(b) == old(self).contains_addr(b),
            forall|b: u64| b != guest_addr && old(self).contains_addr(b)
                ==> final(self).lookup(b) == old(self).lookup(b),
    {
        let entry = BreakpointEntry { guest_addr, phys_addr, original };
        let ghost pre = *self;
        match self.find(guest_addr) {
            Some(i) => {
                self.entries.set(i, entry);
                proof {
                    assert(self@[i as int].guest_addr == guest_addr);
                    assert(final(self).lookup(guest_addr) == (phys_addr, original@)) by {
                        let k = choose|k: int|
                            0 <= k < self@.len() && self@[k].guest_addr == guest_addr;
                        if k != i as int {
                            assert(pre@[k].guest_addr == guest_addr);
                            assert(pre@[i as int].guest_addr == guest_addr);
                        }
                    }
                    assert forall|b: u64| b != guest_addr implies final(self).contains_addr(b)
                        == pre.contains_addr(b) by {
                        if pre.contains_addr(b) {
                            let j = choose|j: int|
                                0 <= j < pre@.len() && pre@[j].guest_addr == b;
                            assert(self@[j].guest_addr == b);
                        }
                        if self.contains_addr(b) {
                            let j = choose|j: int|
                                0 <= j < self@.len() && self@[j].guest_addr == b;
                            assert(pre@[j].guest_addr == b);
                        }
                    }
                    assert forall|b: u64| b != guest_addr && pre.contains_addr(b) implies final(self).lookup(b) == pre.lookup(b) by {
                        let j = choose|j: int|
                            0 <= j < self@.len() && self@[j].guest_addr == b;
                        let k = choose|k: int| 0 <= k < pre@.len() && pre@[k].guest_addr == b;
                        assert(pre@[j].guest_addr == b);
                        assert(self@[k].guest_addr == b);
                        assert(j == k);
                    }
                }
            },
            None => {
                self.entries.push(entry);
                proof {
                    assert(self@[self@.len() - 1].guest_addr == guest_addr);
                    assert(final(self).lookup(guest_addr) == (phys_addr, original@)) by {
                        let k = choose|k: int|
                            0 <= k < self@.len() && self@[k].guest_addr == guest_addr;
                        if k < self@.len() - 1 {
                            assert(pre@[k].guest_addr == guest_addr);
                        }
                    }
                    assert forall|b: u64| b != guest_addr implies final(self).contains_addr(b)
                        == pre.contains_addr(b) by {
                        if pre.contains_addr(b) {
                            let j = choose|j: int|
                                0 <= j < pre@.len() && pre@[j].guest_addr == b;
                            assert(self@[j].guest_addr == b);
                        }
                        if self.contains_addr(b) {
                            let j = choose|j: int|
                                0 <= j < self@.len() && self@[j].guest_addr == b;
                            assert(j < self@.len() - 1);
                            assert(pre@[j].guest_addr == b);
                        }
                    }
                    assert forall|b: u64| b != guest_addr && pre.contains_addr(b) implies final(self).lookup(b) == pre.lookup(b) by {
                        let j = choose|j: int|
                            0 <= j < self@.len() && self@[j].guest_addr == b;
                        let k = choose|k: int| 0 <= k < pre@.len() && pre@[k].guest_addr == b;
                        assert(self@[k].guest_addr == b);
                        assert(j < self@.len() - 1);
                        assert(pre@[j].guest_addr == b);
                        assert(j == k);
                    }
                }
            },
        }
    }

    /// Drops the entry for `a`, handing back its resolved physical address
    /// and the displaced bytes; `None` (and no change) when `a` was never
    /// a breakpoint.
    pub fn remove(&mut self, a: u64) -> (r: Option<(u64, Vec<u8>)>)
        requires
            old(self).wf(),
        ensures
            final(self).wf(),
            r is Some <==> old(self).contains_addr(a),
            r is None ==> *final(self) == *old(self),
            r matches Some((p, o)) ==> (p, o@) == old(self).lookup(a),
            !final(self).contains_addr(a),
            forall|b: u64| b != a
                ==> final(self).contains_addr(b) == old(self).contains_addr(b),
            forall|b: u64| b != a && old(self).contains_addr(b)
                ==> final(self).lookup(b) == old(self).lookup(b),
    {
        let ghost pre = *self;
        match self.find(a) {
            Some(i) => {
                let entry = self.entries.remove(i);
                proof {
                    assert forall|b: u64| final(self).contains_addr(b) implies b != a
                        && pre.contains_addr(b) by {
                        let j = choose|j: int|
                            0 <= j < self@.len() && self@[j].guest_addr == b;
                        if j < i {
                            assert(pre@[j].guest_addr == b);
                        } else {
                            assert(pre@[j + 1].guest_addr == b);
                        }
                    }
                    assert forall|b: u64| b != a && pre.contains_addr(b) implies final(self).contains_addr(b) by {
                        let j = choose|j: int| 0 <= j < pre@.len() && pre@[j].guest_addr == b;
                        if j < i {
                            assert(self@[j].guest_addr == b);
                        } else {
                            assert(j != i);
                            assert(self@[j - 1].guest_addr == b);
                        }
                    }
                    assert forall|b: u64| b != a && pre.contains_addr(b) implies final(self).lookup(b) == pre.lookup(b) by {
                        let j = choose|j: int|
                            0 <= j < self@.len() && self@[j].guest_addr == b;
                        let k = choose|k: int| 0 <= k < pre@.len() && pre@[k].guest_addr == b;
                        if j < i {
                            assert(pre@[j].guest_addr == b);
                            assert(j == k);
                        } else {
                            assert(pre@[j + 1].guest_addr == b);
                            assert(j + 1 == k);
                        }
                    }
                    assert((entry.phys_addr, entry.original@) == pre.lookup(a)) by {
                        let k = choose|k: int| 0 <= k < pre@.len() && pre@[k].guest_addr == a;
                        assert(pre@[i as int].guest_addr == a);
                        assert(k == i as int);
                    }
                }
                Some((entry.phys_addr, entry.original))
            },
            None => None,
        }
    }
}

} // verus!
