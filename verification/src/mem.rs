//! Model of the guest-physical address space.
//!
//! The host environment gives the hypervisor a guest physical-memory
//! accessor (`read_guest_phys_addrs` / `write_guest_phys_addrs`). Here that
//! address space is explicit data: a contiguous range of bytes starting at a
//! base guest-physical address. The translators walk page tables stored in
//! it, and the debug adapter reads and writes guest memory through it.

use vstd::prelude::*;

use crate::{HyperError, HyperResult};

verus! {

/// Replaces `s[at .. at + b.len()]` with `b`, leaving the rest unchanged.
pub open spec fn splice(s: Seq<u8>, at: int, b: Seq<u8>) -> Seq<u8> {
    s.subrange(0, at) + b + s.subrange(at + b.len(), s.len() as int)
}

/// Little-endian interpretation of the 8 bytes of `s` starting at `at`.
pub open spec fn le_u64(s: Seq<u8>, at: int) -> int {
    (s[at] as int) + (s[at + 1] as int) * 0x100 + (s[at + 2] as int) * 0x1_0000
        + (s[at + 3] as int) * 0x100_0000 + (s[at + 4] as int) * 0x1_0000_0000
        + (s[at + 5] as int) * 0x100_0000_0000 + (s[at + 6] as int) * 0x1_0000_0000_0000
        + (s[at + 7] as int) * 0x100_0000_0000_0000
}

/// A contiguous window of guest-physical memory: `data[i]` is the byte at
/// guest-physical address `base + i`. Accesses outside the window fail.
pub struct GuestPhysMemory {
    base: u64,
    data: Vec<u8>,
}

impl GuestPhysMemory {
    /// First guest-physical address of the window.
    pub closed spec fn base_addr(&self) -> u64 {
        self.base
    }

    /// The bytes of the window, lowest address first.
    pub closed spec fn bytes(&self) -> Seq<u8> {
        self.data@
    }

    /// The window's addresses stay within the 64-bit address space.
    pub open spec fn wf(&self) -> bool {
        self.base_addr() + self.bytes().len() <= u64::MAX
    }

    /// Whether `[addr, addr + len)` lies wholly inside the window.
    pub open spec fn contains_range(&self, addr: u64, len: nat) -> bool {
        self.base_addr() <= addr && addr + len <= self.base_addr() + self.bytes().len()
    }

    pub fn new(base: u64, data: Vec<u8>) -> (r: Self)
        requires
            base + data@.len() <= u64::MAX,
        ensures
            r.wf(),
            r.base_addr() == base,
            r.bytes() == data@,
    {
        GuestPhysMemory { base, data }
    }

    /// Reads `len` bytes starting at guest-physical address `addr`.
    /// Succeeds exactly when the whole range lies inside the window.
    pub fn read_guest_phys_addrs(&self, addr: u64, len: usize) -> (r: HyperResult<Vec<u8>>)
        requires
            self.wf(),
        ensures
            r matches Ok(v) ==> self.contains_range(addr, len as nat)
                && v@ == self.bytes().subrange(
                    addr - self.base_addr(),
                    addr - self.base_addr() + len,
                ),
            r is Err ==> !self.contains_range(addr, len as nat),
    {
        let n = self.data.len();
        if addr < self.base {
            return Err(HyperError::Internal);
        }
        let off = addr - self.base;
        if off as u128 + len as u128 > n as u128 {
            return Err(HyperError::Internal);
        }
        let off: usize = off as usize;
        let mut out: Vec<u8> = Vec::new();
        let mut i: usize = 0;
        while i < len
            invariant
                i <= len,
                off + len <= self.data@.len(),
                self.data@.len() <= usize::MAX,
                out@.len() == i,
                forall|j: int| 0 <= j < i ==> out@[j] == self.data@[off + j],
            decreases len - i,
        {
            out.push(self.data[off + i]);
            i += 1;
        }
        assert(out@ =~= self.bytes().subrange(
            addr - self.base_addr(),
            addr - self.base_addr() + len,
        ));
        Ok(out)
    }

    /// Writes `data` starting at guest-physical address `addr`.
    /// Succeeds exactly when the whole range lies inside the window; on
    /// failure nothing is changed.
    pub fn write_guest_phys_addrs(&mut self, addr: u64, data: &Vec<u8>) -> (r: HyperResult<()>)
        requires
            old(self).wf(),
        ensures
            final(self).wf(),
            final(self).base_addr() == old(self).base_addr(),
            final(self).bytes().len() == old(self).bytes().len(),
            r is Ok <==> old(self).contains_range(addr, data@.len()),
            r is Ok ==> final(self).bytes() == splice(
                old(self).bytes(),
                addr - old(self).base_addr(),
                data@,
            ),
            r is Err ==> final(self).bytes() == old(self).bytes(),
    {
        let n = self.data.len();
        let len = data.len();
        if addr < self.base {
            return Err(HyperError::Internal);
        }
        let off = addr - self.base;
        if off as u128 + len as u128 > n as u128 {
            return Err(HyperError::Internal);
        }
        let off: usize = off as usize;
        let mut i: usize = 0;
        while i < len
            invariant
                i <= len,
                len == data@.len(),
                off + len <= self.data@.len(),
                self.data@.len() <= usize::MAX,
                self.base == old(self).base,
                self.data@.len() == old(self).data@.len(),
                forall|j: int| off <= j < off + i ==> self.data@[j] == data@[j - off],
                forall|j: int| 0 <= j < self.data@.len() && !(off <= j < off + i)
                    ==> self.data@[j] == old(self).data@[j],
            decreases len - i,
        {
            self.data.set(off + i, data[i]);
            i += 1;
        }
        assert(self.bytes() =~= splice(old(self).bytes(), addr - old(self).base_addr(), data@));
        Ok(())
    }

    /// Reads the little-endian 64-bit value at guest-physical address
    /// `addr`, or `None` when the 8 bytes are not all inside the window.
    pub fn read_u64_le(&self, addr: u64) -> (r: Option<u64>)
        requires
            self.wf(),
        ensures
            r is Some <==> self.contains_range(addr, 8),
            r matches Some(v) ==> v == le_u64(self.bytes(), addr - self.base_addr()),
    {
        let n = self.data.len();
        if addr < self.base {
            return None;
        }
        let off = addr - self.base;
        if off as u128 + 8 > n as u128 {
            return None;
        }
        let off: usize = off as usize;
        let v: u64 = (self.data[off] as u64)
            + (self.data[off + 1] as u64) * 0x100
            + (self.data[off + 2] as u64) * 0x1_0000
            + (self.data[off + 3] as u64) * 0x100_0000
            + (self.data[off + 4] as u64) * 0x1_0000_0000
            + (self.data[off + 5] as u64) * 0x100_0000_0000
            + (self.data[off + 6] as u64) * 0x1_0000_0000_0000
            + (self.data[off + 7] as u64) * 0x100_0000_0000_0000;
        Some(v)
    }
}

/// The guest's two-stage page table collaborator: the token installed in
/// each vCPU's second-stage translation root, together with the
/// guest-physical memory it maps. The walk of the guest's own first-stage
/// table and all debug memory accesses go through `mem`.
pub struct GuestPageTable {
    /// Value installed as each owning vCPU's second-stage translation root.
    pub root: u64,
    /// The guest-physical address space.
    pub mem: GuestPhysMemory,
}

impl GuestPageTable {
    pub fn new(root: u64, mem: GuestPhysMemory) -> (r: Self)
        ensures
            r.root == root,
            r.mem == mem,
    {
        GuestPageTable { root, mem }
    }

    /// The token a vCPU installs as its second-stage translation root.
    pub fn token(&self) -> (r: u64)
        ensures
            r == self.root,
    {
        self.root
    }
}

/// Overwriting a range and then writing the displaced bytes back restores
/// the original contents exactly. This is the heart of the shadow-breakpoint
/// contract: inserting a trap instruction and later restoring the saved
/// original bytes leaves guest memory as it was.
pub proof fn lemma_splice_restore(s: Seq<u8>, at: int, b: Seq<u8>)
    requires
        0 <= at,
        at + b.len() <= s.len(),
    ensures
        splice(splice(s, at, b), at, s.subrange(at, at + b.len())) == s,
{
    assert(splice(splice(s, at, b), at, s.subrange(at, at + b.len())) =~= s);
}

} // verus!
