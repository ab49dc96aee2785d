//! Register access through the canonical debug layouts.

use hypercraft::arch::riscv::regs::{GeneralPurposeRegisters, GprIndex, RiscvCoreRegs};
use hypercraft::arch::riscv::vcpu::VCpu;
use hypercraft::arch::riscv::vm::{VmCpus, VM};
use hypercraft::arch::x86_64::regs::X64CoreRegs;
use hypercraft::arch::x86_64::vcpu::VCpu as X64VCpu;
use hypercraft::mem::{GuestPageTable, GuestPhysMemory};

fn mk_vm() -> VM {
    let vcpu = VCpu::new(0, 0x8020_0000, 0x77, 0, 0);
    let mut vcpus = VmCpus::new();
    vcpus.add_vcpu(vcpu).unwrap();
    let gpt = GuestPageTable::new(0x77, GuestPhysMemory::new(0x1000, vec![0u8; 16]));
    VM::new(vcpus, gpt).unwrap()
}

#[test]
fn register_round_trip() {
    // write_registers then read_registers returns the layout unchanged on
    // every architecturally writable field; x0 reads back zero.
    let mut vm = mk_vm();
    let mut regs = RiscvCoreRegs::new();
    for i in 0..32 {
        regs.x[i] = 3 * (i as u64) + 5;
    }
    regs.pc = 0xABCD_0000;
    vm.write_registers(&regs).unwrap();
    let mut out = RiscvCoreRegs::new();
    vm.read_registers(&mut out).unwrap();
    assert_eq!(out.x[0], 0);
    for i in 1..32 {
        assert_eq!(out.x[i], regs.x[i]);
    }
    assert_eq!(out.pc, 0xABCD_0000);
}

#[test]
fn zero_register_ignores_writes() {
    let mut gprs = GeneralPurposeRegisters::new();
    gprs.set_reg(GprIndex::Zero, 0x1234);
    assert_eq!(gprs.reg(GprIndex::Zero), 0);
    gprs.set_reg(GprIndex::A0, 7);
    assert_eq!(gprs.reg(GprIndex::A0), 7);
}

#[test]
fn gpr_index_round_trip() {
    for raw in 0..32u32 {
        let idx = GprIndex::from_raw(raw).unwrap();
        assert_eq!(idx.raw_index(), raw as usize);
    }
    assert!(GprIndex::from_raw(32).is_none());
}

#[test]
fn vcpu_gpr_accessors() {
    let mut vm = mk_vm();
    vm.vcpus.vcpus[0].set_gpr(GprIndex::A3, 0x99);
    assert_eq!(vm.vcpus.vcpus[0].get_gpr(GprIndex::A3), 0x99);
    assert_eq!(vm.vcpus.vcpus[0].vcpu_id(), 0);
}

#[test]
fn x64_register_round_trip() {
    // Every field of the x86 layout is writable, so the read-back is
    // exactly what was written, stack pointer and instruction pointer
    // included.
    let ept = GuestPageTable::new(0x99, GuestPhysMemory::new(0x1000, vec![0u8; 16]));
    let mut v = X64VCpu::new(0, 0, 0, 0, ept);
    let mut regs = X64CoreRegs::new();
    for i in 0..16 {
        regs.regs[i] = 100 + i as u64;
    }
    regs.rip = 0x55AA;
    v.write_registers(&regs).unwrap();
    let mut out = X64CoreRegs::new();
    v.read_registers(&mut out).unwrap();
    assert_eq!(out.regs, regs.regs);
    assert_eq!(out.rip, 0x55AA);
    assert_eq!(v.stack_pointer(), 107);
}

#[test]
fn x64_wire_order_is_fixed() {
    let ept = GuestPageTable::new(0x99, GuestPhysMemory::new(0x1000, vec![0u8; 16]));
    let mut v = X64VCpu::new(0, 0, 0, 0, ept);
    v.gprs.rax = 1;
    v.gprs.rbx = 2;
    v.gprs.rcx = 3;
    v.gprs.rdx = 4;
    v.gprs.rsi = 5;
    v.gprs.rdi = 6;
    v.gprs.rbp = 7;
    v.set_stack_pointer(8);
    v.gprs.r8 = 9;
    v.gprs.r15 = 16;
    v.set_rip(17);
    let mut out = X64CoreRegs::new();
    v.read_registers(&mut out).unwrap();
    assert_eq!(&out.regs[0..9], &[1, 2, 3, 4, 5, 6, 7, 8, 9]);
    assert_eq!(out.regs[15], 16);
    assert_eq!(out.rip, 17);
    assert_eq!(v.rip(), 17);
    assert_eq!(v.cr0(), 0);
    assert_eq!(v.cr3(), 0);
    assert_eq!(v.regs().rax, 1);
}
