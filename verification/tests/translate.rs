//! Guest address translation: the Sv39 and four-level walks.

use hypercraft::arch::riscv::translate as sv39;
use hypercraft::arch::x86_64::translate as x64;
use hypercraft::arch::TranslateError;
use hypercraft::mem::GuestPhysMemory;

const BASE: u64 = 0x8000_0000;

fn put_u64(mem: &mut Vec<u8>, off: usize, val: u64) {
    let bytes = val.to_le_bytes();
    for i in 0..8 {
        mem[off + i] = bytes[i];
    }
}

/// Sv39 page-table entry: physical page number shifted into place, plus
/// the given flag bits.
fn sv39_pte(pa: u64, flags: u64) -> u64 {
    ((pa >> 12) << 10) | flags
}

#[test]
fn sv39_unmapped_in_empty_table() {
    // An all-zero root table maps nothing.
    let mem = GuestPhysMemory::new(BASE, vec![0u8; 0x1000]);
    assert_eq!(sv39::translate(&mem, BASE, 0xFFFF_FFFF), Err(TranslateError::Unmapped));
}

#[test]
fn sv39_zero_root_is_misconfigured() {
    let mem = GuestPhysMemory::new(BASE, vec![0u8; 0x1000]);
    assert_eq!(sv39::translate(&mem, 0, 0x1234), Err(TranslateError::Misconfigured));
}

#[test]
fn sv39_three_level_walk_resolves() {
    // root at BASE, second table at BASE+0x1000, third at BASE+0x2000,
    // mapping virtual page 0 to physical page BASE+0x3000, readable and
    // executable but not writable.
    let mut raw = vec![0u8; 0x4000];
    put_u64(&mut raw, 0, sv39_pte(BASE + 0x1000, 0x1));
    put_u64(&mut raw, 0x1000, sv39_pte(BASE + 0x2000, 0x1));
    put_u64(&mut raw, 0x2000, sv39_pte(BASE + 0x3000, 0b1011));
    let mem = GuestPhysMemory::new(BASE, raw);
    let t = sv39::translate(&mem, BASE, 0x123).unwrap();
    assert_eq!(t.paddr, BASE + 0x3000 + 0x123);
    assert_eq!(t.size, 0x1000);
    assert!(t.flags.read && t.flags.execute);
    assert!(!t.flags.write && !t.flags.user);
}

#[test]
fn sv39_gigapage_resolves() {
    // A leaf at the top level maps a 1 GiB page.
    let mut raw = vec![0u8; 0x1000];
    put_u64(&mut raw, 0, sv39_pte(0x4000_0000, 0xF));
    let mem = GuestPhysMemory::new(BASE, raw);
    let t = sv39::translate(&mem, BASE, 0x123_4567).unwrap();
    assert_eq!(t.paddr, 0x4000_0000 + 0x123_4567);
    assert_eq!(t.size, 0x4000_0000);
}

#[test]
fn sv39_misaligned_gigapage_is_unmapped() {
    // A top-level leaf whose address is not 1 GiB-aligned is rejected.
    let mut raw = vec![0u8; 0x1000];
    put_u64(&mut raw, 0, sv39_pte(0x1000, 0xF));
    let mem = GuestPhysMemory::new(BASE, raw);
    assert_eq!(sv39::translate(&mem, BASE, 0x42), Err(TranslateError::Unmapped));
}

#[test]
fn sv39_table_outside_memory_is_unmapped() {
    // The root entry points at a table beyond the memory window.
    let mut raw = vec![0u8; 0x1000];
    put_u64(&mut raw, 0, sv39_pte(BASE + 0x10_0000, 0x1));
    let mem = GuestPhysMemory::new(BASE, raw);
    assert_eq!(sv39::translate(&mem, BASE, 0x42), Err(TranslateError::Unmapped));
}

/// Four-level page-table entry: address bits plus the given flag bits.
fn x64_pte(pa: u64, flags: u64) -> u64 {
    pa | flags
}

#[test]
fn x64_four_level_walk_resolves() {
    let mut raw = vec![0u8; 0x5000];
    put_u64(&mut raw, 0, x64_pte(BASE + 0x1000, 0x1));
    put_u64(&mut raw, 0x1000, x64_pte(BASE + 0x2000, 0x1));
    put_u64(&mut raw, 0x2000, x64_pte(BASE + 0x3000, 0x1));
    put_u64(&mut raw, 0x3000, x64_pte(BASE + 0x4000, 0x3));
    let mem = GuestPhysMemory::new(BASE, raw);
    let t = x64::translate(&mem, BASE, 0x7F).unwrap();
    assert_eq!(t.paddr, BASE + 0x4000 + 0x7F);
    assert_eq!(t.size, 0x1000);
    assert!(t.flags.read && t.flags.write && t.flags.execute);
}

#[test]
fn x64_no_execute_bit_clears_execute() {
    let mut raw = vec![0u8; 0x5000];
    put_u64(&mut raw, 0, x64_pte(BASE + 0x1000, 0x1));
    put_u64(&mut raw, 0x1000, x64_pte(BASE + 0x2000, 0x1));
    put_u64(&mut raw, 0x2000, x64_pte(BASE + 0x3000, 0x1));
    put_u64(&mut raw, 0x3000, x64_pte(BASE + 0x4000, 0x1) | (1u64 << 63));
    let mem = GuestPhysMemory::new(BASE, raw);
    let t = x64::translate(&mem, BASE, 0).unwrap();
    assert!(!t.flags.execute);
}

#[test]
fn x64_huge_2m_page_resolves() {
    let mut raw = vec![0u8; 0x3000];
    put_u64(&mut raw, 0, x64_pte(BASE + 0x1000, 0x1));
    put_u64(&mut raw, 0x1000, x64_pte(BASE + 0x2000, 0x1));
    put_u64(&mut raw, 0x2000, x64_pte(0x20_0000, 0x81));
    let mem = GuestPhysMemory::new(BASE, raw);
    let t = x64::translate(&mem, BASE, 0x1_2345).unwrap();
    assert_eq!(t.paddr, 0x20_0000 + 0x1_2345);
    assert_eq!(t.size, 0x20_0000);
}

#[test]
fn x64_unmapped_in_empty_table() {
    let mem = GuestPhysMemory::new(BASE, vec![0u8; 0x1000]);
    assert_eq!(x64::translate(&mem, BASE, 0xFFFF_FFFF), Err(TranslateError::Unmapped));
}
