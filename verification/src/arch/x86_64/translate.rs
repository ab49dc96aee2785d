//! Four-level guest address translation for debugger access.
//!
//! Walks the guest's own four-level page table, stored in guest-physical
//! memory, to resolve a guest virtual address into the guest-physical
//! address the debug adapter may access, with the mapping's access flags
//! and page size. Large pages are recognized at the second and third
//! level; the address masks make a misaligned large page impossible.

use vstd::prelude::*;

use crate::arch::{MappingFlags, TranslateError, TranslateResult};
use crate::mem::{GuestPhysMemory, le_u64};

verus! {

/// Mask of the next-table or 4K-page address bits of an entry.
pub const PTE_ADDR_MASK: u64 = 0x000F_FFFF_FFFF_F000;

/// Mask of the page address bits of a 2M-page entry.
pub const PTE_ADDR_MASK_2M: u64 = 0x000F_FFFF_FFE0_0000;

/// Mask of the page address bits of a 1G-page entry.
pub const PTE_ADDR_MASK_1G: u64 = 0x000F_FFFF_C000_0000;

/// Bytes mapped by one leaf entry at the given level of the walk: 1 GiB,
/// 2 MiB or 4 KiB.
pub open spec fn page_size_at(level: int) -> u64 {
    if level == 2 {
        0x4000_0000
    } else if level == 1 {
        0x20_0000
    } else {
        0x1000
    }
}

/// Index of the entry for `va` in the table at the given level.
pub open spec fn vpn(va: u64, level: int) -> u64 {
    (va >> ((12 + 9 * level) as u64)) & 0x1FF
}

/// An entry with its present bit set.
pub open spec fn pte_present(pte: u64) -> bool {
    pte & 1 != 0
}

/// An entry with its page-size bit set: a leaf above the last level.
pub open spec fn pte_huge(pte: u64) -> bool {
    pte & 0x80 != 0
}

/// Access flags of a leaf entry: present means readable, the write and
/// user bits pass through, and execution is allowed unless the top
/// (no-execute) bit is set.
pub open spec fn pte_flags(pte: u64) -> MappingFlags {
    MappingFlags {
        read: true,
        write: pte & 2 != 0,
        execute: pte & 0x8000_0000_0000_0000 == 0,
        user: pte & 4 != 0,
    }
}

/// One walk of the table rooted at guest-physical address `table`,
/// starting at the given level. `None` when the walk meets a non-present
/// entry, a page-size bit at the top level, or a table outside
/// guest-physical memory.
pub open spec fn walk_spec(
    mem: GuestPhysMemory,
    table: u64,
    va: u64,
    level: int,
) -> Option<TranslateResult>
    decreases level,
{
    if level < 0 {
        None
    } else {
        let pa = table + vpn(va, level) * 8;
        if !(mem.base_addr() <= pa && pa + 8 <= mem.base_addr() + mem.bytes().len()) {
            None
        } else {
            let pte = le_u64(mem.bytes(), pa - mem.base_addr()) as u64;
            if !pte_present(pte) {
                None
            } else if level == 0 {
                Some(TranslateResult {
                    paddr: ((pte & PTE_ADDR_MASK) + (va & 0xFFF)) as u64,
                    flags: pte_flags(pte),
                    size: 0x1000,
                })
            } else if pte_huge(pte) {
                if level == 3 {
                    None
                } else if level == 2 {
                    Some(TranslateResult {
                        paddr: ((pte & PTE_ADDR_MASK_1G) + (va & 0x3FFF_FFFF)) as u64,
                        flags: pte_flags(pte),
                        size: 0x4000_0000,
                    })
                } else {
                    Some(TranslateResult {
                        paddr: ((pte & PTE_ADDR_MASK_2M) + (va & 0x1F_FFFF)) as u64,
                        flags: pte_flags(pte),
                        size: 0x20_0000,
                    })
                }
            } else {
                walk_spec(mem, pte & PTE_ADDR_MASK, va, level - 1)
            }
        }
    }
}

/// What translating `va` under the table root `root` returns: a zero root
/// is `Misconfigured` (translation disabled; the caller must treat `va`
/// as already physical), a failed walk is `Unmapped`, and a successful
/// walk gives the resolved address, flags and page size.
pub open spec fn translate_spec(
    mem: GuestPhysMemory,
    root: u64,
    va: u64,
) -> Result<TranslateResult, TranslateError> {
    if root == 0 {
        Err(TranslateError::Misconfigured)
    } else {
        match walk_spec(mem, root, va, 3) {
            Some(t) => Ok(t),
            None => Err(TranslateError::Unmapped),
        }
    }
}

/// Every mapping the walk yields is one of the three architectural page
/// sizes.
pub proof fn lemma_walk_size(mem: GuestPhysMemory, table: u64, va: u64, level: int)
    ensures
        match walk_spec(mem, table, va, level) {
            Some(t) => t.size == 0x1000 || t.size == 0x20_0000 || t.size == 0x4000_0000,
            None => true,
        },
    decreases level,
{
    if level >= 0 {
        let pa = table + vpn(va, level) * 8;
        if mem.base_addr() <= pa && pa + 8 <= mem.base_addr() + mem.bytes().len() {
            let pte = le_u64(mem.bytes(), pa - mem.base_addr()) as u64;
            if pte_present(pte) && level != 0 && !pte_huge(pte) {
                lemma_walk_size(mem, pte & PTE_ADDR_MASK, va, level - 1);
            }
        }
    }
}

/// One level of the four-level walk over guest-physical memory.
fn walk(mem: &GuestPhysMemory, table: u64, va: u64, level: u64) -> (r: Option<TranslateResult>)
    requires
        mem.wf(),
        level <= 3,
    ensures
        r == walk_spec(*mem, table, va, level as int),
    decreases level,
{
    let shift: u64 = 12 + 9 * level;
    let idx: u64 = (va >> shift) & 0x1FF;
    assert(idx == vpn(va, level as int));
    proof {
        assert(va >> shift & 0x1FF <= 0x1FF) by (bit_vector);
    }
    let pte_pa = match table.checked_add(idx * 8) {
        Some(pa) => pa,
        None => {
            return None;
        },
    };
    let pte = match mem.read_u64_le(pte_pa) {
        Some(p) => p,
        None => {
            return None;
        },
    };
    if pte & 1 == 0 {
        return None;
    }
    proof {
        assert(pte & 0x000F_FFFF_FFFF_F000u64 <= 0x000F_FFFF_FFFF_F000u64) by (bit_vector);
        assert(pte & 0x000F_FFFF_FFE0_0000u64 <= 0x000F_FFFF_FFE0_0000u64) by (bit_vector);
        assert(pte & 0x000F_FFFF_C000_0000u64 <= 0x000F_FFFF_C000_0000u64) by (bit_vector);
        assert(va & 0xFFFu64 <= 0xFFFu64) by (bit_vector);
        assert(va & 0x3FFF_FFFFu64 <= 0x3FFF_FFFFu64) by (bit_vector);
        assert(va & 0x1F_FFFFu64 <= 0x1F_FFFFu64) by (bit_vector);
    }
    let flags = MappingFlags {
        read: true,
        write: pte & 2 != 0,
        execute: pte & 0x8000_0000_0000_0000 == 0,
        user: pte & 4 != 0,
    };
    if level == 0 {
        Some(TranslateResult {
            paddr: (pte & PTE_ADDR_MASK) + (va & 0xFFF),
            flags,
            size: 0x1000,
        })
    } else if pte & 0x80 != 0 {
        if level == 3 {
            None
        } else if level == 2 {
            Some(TranslateResult {
                paddr: (pte & PTE_ADDR_MASK_1G) + (va & 0x3FFF_FFFF),
                flags,
                size: 0x4000_0000,
            })
        } else {
            Some(TranslateResult {
                paddr: (pte & PTE_ADDR_MASK_2M) + (va & 0x1F_FFFF),
                flags,
                size: 0x20_0000,
            })
        }
    } else {
        walk(mem, pte & PTE_ADDR_MASK, va, level - 1)
    }
}

/// Resolves guest virtual address `va` against the guest's four-level
/// page table rooted at `root` in guest-physical memory.
pub fn translate(mem: &GuestPhysMemory, root: u64, va: u64) -> (r: Result<
    TranslateResult,
    TranslateError,
>)
    requires
        mem.wf(),
    ensures
        r == translate_spec(*mem, root, va),
{
    if root == 0 {
        return Err(TranslateError::Misconfigured);
    }
    match walk(mem, root, va, 3) {
        Some(t) => Ok(t),
        None => Err(TranslateError::Unmapped),
    }
}

} // verus!
