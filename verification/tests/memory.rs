//! Debug memory access: pass-through mode, translation, clamping.

use hypercraft::arch::riscv::vcpu::VCpu;
use hypercraft::arch::riscv::vm::{VmCpus, VM};
use hypercraft::mem::{GuestPageTable, GuestPhysMemory};
use hypercraft::HyperError;

const BASE: u64 = 0x8000_0000;

fn put_u64(mem: &mut Vec<u8>, off: usize, val: u64) {
    let bytes = val.to_le_bytes();
    for i in 0..8 {
        mem[off + i] = bytes[i];
    }
}

fn sv39_pte(pa: u64, flags: u64) -> u64 {
    ((pa >> 12) << 10) | flags
}

/// A VM whose guest runs with translation disabled (vsatp zero).
fn vm_no_translation(raw: Vec<u8>) -> VM {
    let vcpu = VCpu::new(0, 0, 0x77, 0, 0);
    let mut vcpus = VmCpus::new();
    vcpus.add_vcpu(vcpu).unwrap();
    let gpt = GuestPageTable::new(0x77, GuestPhysMemory::new(BASE, raw));
    VM::new(vcpus, gpt).unwrap()
}

/// A VM whose guest maps virtual page 0 to BASE+0x3000 through a
/// three-level table at BASE.
fn vm_with_table() -> VM {
    let mut raw = vec![0u8; 0x4000];
    put_u64(&mut raw, 0, sv39_pte(BASE + 0x1000, 0x1));
    put_u64(&mut raw, 0x1000, sv39_pte(BASE + 0x2000, 0x1));
    put_u64(&mut raw, 0x2000, sv39_pte(BASE + 0x3000, 0xF));
    for i in 0..0x1000 {
        raw[0x3000 + i] = (i % 251) as u8;
    }
    let vcpu = VCpu::new(0, 0, 0x77, 0, 0);
    let mut vcpus = VmCpus::new();
    vcpus.add_vcpu(vcpu).unwrap();
    let gpt = GuestPageTable::new(0x77, GuestPhysMemory::new(BASE, raw));
    let mut vm = VM::new(vcpus, gpt).unwrap();
    // The guest's first-stage root: vsatp holds the table's page number.
    vm.vcpus.vcpus[0].regs.vs_csrs.vsatp = BASE >> 12;
    vm
}

#[test]
fn disabled_translation_passes_address_through() {
    // With vsatp zero the supplied address is already physical, and the
    // translator is never invoked (the call counter stays at zero).
    let mut raw = vec![0u8; 0x100];
    for i in 0..0x100 {
        raw[i] = i as u8;
    }
    let mut vm = vm_no_translation(raw);
    let got = vm.read_addrs(BASE + 0x10, 4).unwrap();
    assert_eq!(got, vec![0x10, 0x11, 0x12, 0x13]);
    assert_eq!(vm.translations, 0);
    vm.write_addrs(BASE + 0x20, &vec![0xAA, 0xBB]).unwrap();
    assert_eq!(vm.translations, 0);
    assert_eq!(vm.read_addrs(BASE + 0x20, 2).unwrap(), vec![0xAA, 0xBB]);
    assert_eq!(vm.translations, 0);
}

#[test]
fn enabled_translation_invokes_translator() {
    let mut vm = vm_with_table();
    assert_eq!(vm.translations, 0);
    let got = vm.read_addrs(0x10, 3).unwrap();
    assert_eq!(got, vec![0x10 % 251, 0x11 % 251, 0x12 % 251]);
    assert_eq!(vm.translations, 1);
}

#[test]
fn read_through_translation_clamps_to_page() {
    let mut vm = vm_with_table();
    let got = vm.read_addrs(0, 0x2000).unwrap();
    assert_eq!(got.len(), 0x1000);
    assert_eq!(got[5], 5 % 251);
}

#[test]
fn write_through_translation_lands_in_guest_memory() {
    let mut vm = vm_with_table();
    vm.write_addrs(0x40, &vec![1, 2, 3]).unwrap();
    assert_eq!(vm.read_addrs(0x40, 3).unwrap(), vec![1, 2, 3]);
    // The write landed at the resolved physical address.
    assert_eq!(vm.read_addrs(0x43, 1).unwrap(), vec![0x43 % 251]);
}

#[test]
fn unmapped_read_is_a_generic_failure() {
    // Reading an address no mapping covers fails; nothing is read from
    // anywhere else.
    let mut vm = vm_with_table();
    assert!(vm.read_addrs(0xFFFF_FFFF, 4).is_err());
    assert!(vm.write_addrs(0xFFFF_FFFF, &vec![1]).is_err());
}

#[test]
fn read_outside_window_fails() {
    let mut vm = vm_no_translation(vec![0u8; 0x100]);
    assert_eq!(vm.read_addrs(BASE + 0xF0, 0x20), Err(HyperError::Internal));
    assert!(vm.read_addrs(0, 1).is_err());
}

#[test]
fn read_u64_little_endian() {
    let mut raw = vec![0u8; 16];
    put_u64(&mut raw, 8, 0x0102_0304_0506_0708);
    let mem = GuestPhysMemory::new(BASE, raw);
    assert_eq!(mem.read_u64_le(BASE + 8), Some(0x0102_0304_0506_0708));
    assert_eq!(mem.read_u64_le(BASE + 9), None);
}
