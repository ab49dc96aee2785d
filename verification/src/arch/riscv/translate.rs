//! Sv39 guest address translation for debugger access.
//!
//! Walks the guest's own three-level page table, stored in guest-physical
//! memory, to resolve a guest virtual address into the guest-physical
//! address the debug adapter may access, together with the mapping's
//! access flags and page size. The returned page size bounds how many
//! contiguous bytes may be touched before re-translating.

use vstd::prelude::*;

use crate::arch::{MappingFlags, TranslateError, TranslateResult};
use crate::mem::{GuestPhysMemory, le_u64};

verus! {

/// Bytes mapped by one entry at the given level of the walk: 1 GiB, 2 MiB
/// or 4 KiB.
pub open spec fn page_size_at(level: int) -> u64 {
    if level == 2 {
        0x4000_0000
    } else if level == 1 {
        0x20_0000
    } else {
        0x1000
    }
}

/// Index of the entry for `va` in the table at the given level.
pub open spec fn vpn(va: u64, level: int) -> u64 {
    (va >> ((12 + 9 * level) as u64)) & 0x1FF
}

/// An entry with its valid bit set.
pub open spec fn pte_valid(pte: u64) -> bool {
    pte & 1 != 0
}

/// A leaf entry: at least one of the read/write/execute bits is set.
pub open spec fn pte_leaf(pte: u64) -> bool {
    pte & 0xE != 0
}

/// Guest-physical address held in an entry's page-number field.
pub open spec fn pte_ppn_addr(pte: u64) -> u64 {
    (((pte >> 10) & 0xFFF_FFFF_FFFF) * 0x1000) as u64
}

/// Access flags of a leaf entry.
pub open spec fn pte_flags(pte: u64) -> MappingFlags {
    MappingFlags {
        read: pte & 2 != 0,
        write: pte & 4 != 0,
        execute: pte & 8 != 0,
        user: pte & 0x10 != 0,
    }
}

/// One walk of the table rooted at guest-physical address `root`, starting
/// at the given level. `None` when the walk ends in an invalid entry, a
/// misaligned superpage, a table entry at the last level, or a table
/// outside guest-physical memory.
pub open spec fn walk_spec(
    mem: GuestPhysMemory,
    root: u64,
    va: u64,
    level: int,
) -> Option<TranslateResult>
    decreases level,
{
    if level < 0 {
        None
    } else {
        let pa = root + vpn(va, level) * 8;
        if !(mem.base_addr() <= pa && pa + 8 <= mem.base_addr() + mem.bytes().len()) {
            None
        } else {
            let pte = le_u64(mem.bytes(), pa - mem.base_addr()) as u64;
            if !pte_valid(pte) {
                None
            } else if pte_leaf(pte) {
                if pte_ppn_addr(pte) % page_size_at(level) != 0 {
                    None
                } else {
                    Some(TranslateResult {
                        paddr: (pte_ppn_addr(pte) + (va & ((page_size_at(level) - 1) as u64))) as u64,
                        flags: pte_flags(pte),
                        size: page_size_at(level),
                    })
                }
            } else {
                if level == 0 {
                    None
                } else {
                    walk_spec(mem, pte_ppn_addr(pte), va, level - 1)
                }
            }
        }
    }
}

/// What translating `va` under `root` returns: disabled translation is
/// `Misconfigured` (the caller must treat `va` as already physical), a
/// failed walk is `Unmapped`, and a successful walk gives the resolved
/// address, flags and page size.
pub open spec fn translate_spec(
    mem: GuestPhysMemory,
    root: u64,
    va: u64,
) -> Result<TranslateResult, TranslateError> {
    if root == 0 {
        Err(TranslateError::Misconfigured)
    } else {
        match walk_spec(mem, root, va, 2) {
            Some(t) => Ok(t),
            None => Err(TranslateError::Unmapped),
        }
    }
}

/// Every mapping the walk yields is one of the three architectural page
/// sizes.
pub proof fn lemma_walk_size(mem: GuestPhysMemory, root: u64, va: u64, level: int)
    ensures
        match walk_spec(mem, root, va, level) {
            Some(t) => t.size == 0x1000 || t.size == 0x20_0000 || t.size == 0x4000_0000,
            None => true,
        },
    decreases level,
{
    if level >= 0 {
        let pa = root + vpn(va, level) * 8;
        if mem.base_addr() <= pa && pa + 8 <= mem.base_addr() + mem.bytes().len() {
            let pte = le_u64(mem.bytes(), pa - mem.base_addr()) as u64;
            if pte_valid(pte) && !pte_leaf(pte) && level != 0 {
                lemma_walk_size(mem, pte_ppn_addr(pte), va, level - 1);
            }
        }
    }
}

/// Bytes mapped by one entry at the given level of the walk.
fn page_size_at_level(level: u64) -> (r: u64)
    requires
        level <= 2,
    ensures
        r == page_size_at(level as int),
{
    if level == 2 {
        0x4000_0000
    } else if level == 1 {
        0x20_0000
    } else {
        0x1000
    }
}

/// One level of the Sv39 walk over guest-physical memory.
fn walk(mem: &GuestPhysMemory, root: u64, va: u64, level: u64) -> (r: Option<TranslateResult>)
    requires
        mem.wf(),
        level <= 2,
    ensures
        r == walk_spec(*mem, root, va, level as int),
    decreases level,
{
    let shift: u64 = 12 + 9 * level;
    let idx: u64 = (va >> shift) & 0x1FF;
    assert(idx == vpn(va, level as int));
    proof {
        assert(va >> shift & 0x1FF <= 0x1FF) by (bit_vector);
    }
    let pte_pa = match root.checked_add(idx * 8) {
        Some(pa) => pa,
        None => {
            return None;
        },
    };
    let pte = match mem.read_u64_le(pte_pa) {
        Some(p) => p,
        None => {
            return None;
        },
    };
    if pte & 1 == 0 {
        return None;
    }
    proof {
        assert((pte >> 10) & 0xFFF_FFFF_FFFF <= 0xFFF_FFFF_FFFF) by (bit_vector);
    }
    let ppn = (pte >> 10) & 0xFFF_FFFF_FFFF;
    assert(ppn * 0x1000 <= 0xFFF_FFFF_FFFF_F000) by (nonlinear_arith)
        requires
            ppn <= 0xFFF_FFFF_FFFF,
    ;
    let ppn_addr: u64 = ppn * 0x1000;
    if pte & 0xE != 0 {
        let size = page_size_at_level(level);
        if ppn_addr % size != 0 {
            return None;
        }
        let offset = va & (size - 1);
        proof {
            let s = size;
            assert(va & ((s - 1) as u64) <= (s - 1) as u64) by (bit_vector)
                requires
                    s >= 1,
            ;
        }
        Some(TranslateResult {
            paddr: ppn_addr + offset,
            flags: MappingFlags {
                read: pte & 2 != 0,
                write: pte & 4 != 0,
                execute: pte & 8 != 0,
                user: pte & 0x10 != 0,
            },
            size,
        })
    } else {
        if level == 0 {
            None
        } else {
            walk(mem, ppn_addr, va, level - 1)
        }
    }
}

/// Resolves guest virtual address `va` against the guest's first-stage
/// page table rooted at `root` in guest-physical memory.
pub fn translate(mem: &GuestPhysMemory, root: u64, va: u64) -> (r: Result<
    TranslateResult,
    TranslateError,
>)
    requires
        mem.wf(),
    ensures
        r == translate_spec(*mem, root, va),
{
    if root == 0 {
        return Err(TranslateError::Misconfigured);
    }
    match walk(mem, root, va, 2) {
        Some(t) => Ok(t),
        None => Err(TranslateError::Unmapped),
    }
}

} // verus!
