//! Shadow breakpoints: planting, reading back, removal.

use hypercraft::arch::riscv::vcpu::VCpu;
use hypercraft::arch::riscv::vm::{VmCpus, VM};
use hypercraft::arch::x86_64::vcpu::VCpu as X64VCpu;
use hypercraft::mem::{GuestPageTable, GuestPhysMemory};
use hypercraft::HyperError;

const BASE: u64 = 0x8000_0000;

fn put_u64(mem: &mut Vec<u8>, off: usize, val: u64) {
    let bytes = val.to_le_bytes();
    for i in 0..8 {
        mem[off + i] = bytes[i];
    }
}

fn vm_no_translation() -> VM {
    let mut raw = vec![0u8; 0x100];
    for i in 0..0x100 {
        raw[i] = (0x30 + i) as u8;
    }
    let vcpu = VCpu::new(0, 0, 0x77, 0, 0);
    let mut vcpus = VmCpus::new();
    vcpus.add_vcpu(vcpu).unwrap();
    let gpt = GuestPageTable::new(0x77, GuestPhysMemory::new(BASE, raw));
    VM::new(vcpus, gpt).unwrap()
}

#[test]
fn breakpoint_plants_trap_instruction() {
    // After a successful add, reading the breakpoint address yields the
    // trap-instruction encoding, not the original bytes.
    let mut vm = vm_no_translation();
    let before = vm.read_addrs(BASE + 0x10, 2).unwrap();
    assert_eq!(before, vec![0x40, 0x41]);
    assert_eq!(vm.add_sw_breakpoint(BASE + 0x10, 2).unwrap(), true);
    assert_eq!(vm.read_addrs(BASE + 0x10, 2).unwrap(), vec![0x02, 0x90]);
}

#[test]
fn breakpoint_removal_restores_original_bytes() {
    let mut vm = vm_no_translation();
    let before = vm.read_addrs(BASE, 0x100).unwrap();
    vm.add_sw_breakpoint(BASE + 0x10, 2).unwrap();
    assert_eq!(vm.remove_sw_breakpoint(BASE + 0x10, 2).unwrap(), true);
    assert_eq!(vm.read_addrs(BASE + 0x10, 2).unwrap(), vec![0x40, 0x41]);
    // The whole window is exactly as before the add.
    assert_eq!(vm.read_addrs(BASE, 0x100).unwrap(), before);
}

#[test]
fn removing_never_inserted_breakpoint_is_a_noop() {
    // "Not removed", and no side effect on guest memory.
    let mut vm = vm_no_translation();
    let before = vm.read_addrs(BASE, 0x100).unwrap();
    assert_eq!(vm.remove_sw_breakpoint(BASE + 0x30, 2).unwrap(), false);
    assert_eq!(vm.read_addrs(BASE, 0x100).unwrap(), before);
}

#[test]
fn breakpoint_at_unresolvable_address_reports_not_set() {
    let mut vm = vm_no_translation();
    // Point vsatp at an all-zero table: every lookup is unmapped.
    vm.vcpus.vcpus[0].regs.vs_csrs.vsatp = BASE >> 12;
    assert_eq!(vm.add_sw_breakpoint(0xFFFF_0000, 2).unwrap(), false);
    assert_eq!(vm.remove_sw_breakpoint(0xFFFF_0000, 2).unwrap(), false);
}

#[test]
fn two_breakpoints_are_independent() {
    let mut vm = vm_no_translation();
    vm.add_sw_breakpoint(BASE + 0x10, 2).unwrap();
    vm.add_sw_breakpoint(BASE + 0x20, 2).unwrap();
    assert_eq!(vm.remove_sw_breakpoint(BASE + 0x10, 2).unwrap(), true);
    // The second breakpoint still stands.
    assert_eq!(vm.read_addrs(BASE + 0x20, 2).unwrap(), vec![0x02, 0x90]);
    assert_eq!(vm.remove_sw_breakpoint(BASE + 0x20, 2).unwrap(), true);
    assert_eq!(vm.read_addrs(BASE + 0x20, 2).unwrap(), vec![0x50, 0x51]);
}

fn x64_vcpu(cr0: u64) -> X64VCpu {
    let mut raw = vec![0u8; 0x100];
    for i in 0..0x100 {
        raw[i] = (0x60 + i) as u8;
    }
    let ept = GuestPageTable::new(0x99, GuestPhysMemory::new(BASE, raw));
    X64VCpu::new(0, 0, cr0, 0, ept)
}

#[test]
fn x64_breakpoint_plants_one_byte_trap() {
    let mut v = x64_vcpu(0);
    assert_eq!(v.add_sw_breakpoint(BASE + 8, 1).unwrap(), true);
    assert_eq!(v.read_addrs(BASE + 8, 1).unwrap(), vec![0xCC]);
    assert_eq!(v.remove_sw_breakpoint(BASE + 8, 1).unwrap(), true);
    assert_eq!(v.read_addrs(BASE + 8, 1).unwrap(), vec![0x68]);
}

#[test]
fn x64_remove_never_inserted_is_a_noop() {
    let mut v = x64_vcpu(0);
    let before = v.read_addrs(BASE, 0x100).unwrap();
    assert_eq!(v.remove_sw_breakpoint(BASE + 4, 1).unwrap(), false);
    assert_eq!(v.read_addrs(BASE, 0x100).unwrap(), before);
}

#[test]
fn x64_paging_bit_decides_translation() {
    // With CR0.PG clear the address passes through and the access
    // succeeds; with it set the (empty) page table rejects the same
    // address. This observably distinguishes the two CR0 readings.
    let mut v = x64_vcpu(0);
    assert!(v.read_addrs(BASE + 8, 1).is_ok());
    assert_eq!(v.translations, 0);
    let mut v = x64_vcpu(0x8000_0000);
    v.cr3 = BASE;
    assert!(v.read_addrs(BASE + 8, 1).is_err());
    assert_eq!(v.translations, 1);
}

#[test]
fn failed_restore_keeps_the_shadow_entry() {
    // A removal whose restoring write fails must not drop the entry: the
    // displaced bytes stay shadowed and guest memory is untouched.
    let mut vm = vm_no_translation();
    let before = vm.read_addrs(BASE, 0x100).unwrap();
    // A shadow entry whose resolved address lies outside guest-physical
    // memory, so the restoring write cannot succeed.
    vm.breakpoints.insert(0x4000, BASE + 0x10_0000, vec![7, 8]);
    assert_eq!(vm.remove_sw_breakpoint(0x4000, 2), Err(HyperError::Internal));
    assert_eq!(vm.read_addrs(BASE, 0x100).unwrap(), before);
    assert!(vm.breakpoints.contains(0x4000));
    // A second attempt still finds the entry.
    assert_eq!(vm.remove_sw_breakpoint(0x4000, 2), Err(HyperError::Internal));
    assert!(vm.breakpoints.contains(0x4000));
}

#[test]
fn x64_failed_restore_keeps_the_shadow_entry() {
    let mut v = x64_vcpu(0);
    let before = v.read_addrs(BASE, 0x100).unwrap();
    v.breakpoints.insert(0x4000, BASE + 0x10_0000, vec![7]);
    assert_eq!(v.remove_sw_breakpoint(0x4000, 1), Err(HyperError::Internal));
    assert_eq!(v.read_addrs(BASE, 0x100).unwrap(), before);
    assert!(v.breakpoints.contains(0x4000));
}

#[test]
fn breakpoint_through_translation_round_trip() {
    // With translation enabled, the breakpoint address is resolved through
    // the guest's table: the trap instruction is visible at the virtual
    // address, and removal restores the original bytes.
    let mut raw = vec![0u8; 0x4000];
    put_u64(&mut raw, 0, ((BASE + 0x1000) >> 12) << 10 | 0x1);
    put_u64(&mut raw, 0x1000, ((BASE + 0x2000) >> 12) << 10 | 0x1);
    put_u64(&mut raw, 0x2000, ((BASE + 0x3000) >> 12) << 10 | 0xF);
    for i in 0..0x1000 {
        raw[0x3000 + i] = (i % 251) as u8;
    }
    let vcpu = VCpu::new(0, 0, 0x77, 0, 0);
    let mut vcpus = VmCpus::new();
    vcpus.add_vcpu(vcpu).unwrap();
    let gpt = GuestPageTable::new(0x77, GuestPhysMemory::new(BASE, raw));
    let mut vm = VM::new(vcpus, gpt).unwrap();
    vm.vcpus.vcpus[0].regs.vs_csrs.vsatp = BASE >> 12;
    let before = vm.read_addrs(0x10, 2).unwrap();
    assert_eq!(before, vec![0x10, 0x11]);
    assert_eq!(vm.add_sw_breakpoint(0x10, 2).unwrap(), true);
    assert_eq!(vm.read_addrs(0x10, 2).unwrap(), vec![0x02, 0x90]);
    assert_eq!(vm.remove_sw_breakpoint(0x10, 2).unwrap(), true);
    assert_eq!(vm.read_addrs(0x10, 2).unwrap(), vec![0x10, 0x11]);
}

#[test]
fn x64_breakpoint_through_translation_round_trip() {
    // The same cycle with paging enabled and a four-level table.
    let mut raw = vec![0u8; 0x5000];
    put_u64(&mut raw, 0, (BASE + 0x1000) | 0x1);
    put_u64(&mut raw, 0x1000, (BASE + 0x2000) | 0x1);
    put_u64(&mut raw, 0x2000, (BASE + 0x3000) | 0x1);
    put_u64(&mut raw, 0x3000, (BASE + 0x4000) | 0x3);
    for i in 0..0x1000 {
        raw[0x4000 + i] = (i % 251) as u8;
    }
    let ept = GuestPageTable::new(0x99, GuestPhysMemory::new(BASE, raw));
    let mut v = X64VCpu::new(0, 0, 0x8000_0000, BASE, ept);
    assert_eq!(v.read_addrs(0x20, 1).unwrap(), vec![0x20]);
    assert_eq!(v.add_sw_breakpoint(0x20, 1).unwrap(), true);
    assert_eq!(v.read_addrs(0x20, 1).unwrap(), vec![0xCC]);
    assert_eq!(v.remove_sw_breakpoint(0x20, 1).unwrap(), true);
    assert_eq!(v.read_addrs(0x20, 1).unwrap(), vec![0x20]);
}
