//! Runtime initialization, the host-environment interface, and vCPU sets.

use hypercraft::arch::riscv::vcpu::{VCpu, HSTATUS_SPV, SSTATUS_SPP};
use hypercraft::arch::riscv::vm::{VmCpus, VM, VM_CPUS_MAX};
use hypercraft::arch::x86_64::init_hv_runtime;
use hypercraft::hal::HyperCraftHal;
use hypercraft::mem::{GuestPageTable, GuestPhysMemory};
use hypercraft::HyperError;

#[test]
fn init_hv_runtime_needs_hardware_support() {
    assert!(init_hv_runtime(true).is_ok());
    assert_eq!(init_hv_runtime(false), Err(HyperError::NotSupported));
}

struct TestHal;

impl HyperCraftHal for TestHal {
    fn alloc_pages(num_pages: usize) -> Option<usize> {
        Some(0x1000 * num_pages)
    }
    fn dealloc_pages(_va: usize, _num_pages: usize) {}
    fn phys_to_virt(pa: usize) -> usize {
        pa + 0xFFFF_0000_0000_0000
    }
    fn virt_to_phys(va: usize) -> usize {
        va - 0xFFFF_0000_0000_0000
    }
}

#[test]
fn hal_default_helpers_delegate() {
    assert_eq!(TestHal::alloc_page(), Some(0x1000));
    assert_eq!(TestHal::alloc_16_page(), Some(0x4000));
    TestHal::dealloc_page(0x1000);
    TestHal::dealloc_16_page(0x4000);
    assert_eq!(TestHal::phys_to_virt(4), 0xFFFF_0000_0000_0004);
    assert_eq!(TestHal::virt_to_phys(0xFFFF_0000_0000_0004), 4);
}

#[test]
fn vcpu_new_forces_guest_mode_bits() {
    let vcpu = VCpu::new(3, 0x8020_0000, 0xABC, 0x40, 0x2);
    assert_eq!(vcpu.vcpu_id(), 3);
    assert_eq!(vcpu.get_pc(), 0x8020_0000);
    assert_eq!(vcpu.regs.guest_regs.hstatus, 0x40 | HSTATUS_SPV);
    assert_eq!(vcpu.regs.guest_regs.sstatus, 0x2 | SSTATUS_SPP);
    assert_eq!(vcpu.regs.virtual_hs_csrs.hgatp, 0xABC);
}

#[test]
fn vmcpus_capacity_is_bounded() {
    let mut vcpus = VmCpus::new();
    for id in 0..VM_CPUS_MAX {
        assert!(vcpus.add_vcpu(VCpu::new(id as u64, 0, 0, 0, 0)).is_ok());
    }
    assert!(vcpus.add_vcpu(VCpu::new(99, 0, 0, 0, 0)).is_err());
    assert_eq!(vcpus.len(), VM_CPUS_MAX);
    assert!(vcpus.get_vcpu(0).is_ok());
    assert!(matches!(vcpus.get_vcpu(VM_CPUS_MAX), Err(HyperError::NotFound)));
}

#[test]
fn init_vcpus_installs_the_shared_root() {
    let mut vcpus = VmCpus::new();
    vcpus.add_vcpu(VCpu::new(0, 0, 0, 0, 0)).unwrap();
    vcpus.add_vcpu(VCpu::new(1, 0, 0, 0, 0)).unwrap();
    let gpt = GuestPageTable::new(0x5150, GuestPhysMemory::new(0x1000, vec![0u8; 16]));
    let mut vm = VM::new(vcpus, gpt).unwrap();
    vm.init_vcpus();
    assert_eq!(vm.vcpus.vcpus[0].regs.virtual_hs_csrs.hgatp, 0x5150);
    assert_eq!(vm.vcpus.vcpus[1].regs.virtual_hs_csrs.hgatp, 0x5150);
}

#[test]
fn vcpu_page_table_root_comes_from_vsatp() {
    let mut vcpu = VCpu::new(0, 0, 0, 0, 0);
    assert_eq!(vcpu.get_page_table_root(), 0);
    vcpu.regs.vs_csrs.vsatp = 0x8000_0000u64 >> 12;
    assert_eq!(vcpu.get_page_table_root(), 0x8000_0000);
}

#[test]
fn resume_and_step_acknowledge() {
    let mut vcpus = VmCpus::new();
    vcpus.add_vcpu(VCpu::new(0, 0, 0, 0, 0)).unwrap();
    let gpt = GuestPageTable::new(0, GuestPhysMemory::new(0x1000, vec![0u8; 16]));
    let mut vm = VM::new(vcpus, gpt).unwrap();
    assert!(vm.resume().is_ok());
    let ept = GuestPageTable::new(0, GuestPhysMemory::new(0x1000, vec![0u8; 16]));
    let mut x = hypercraft::arch::x86_64::vcpu::VCpu::new(0, 0, 0, 0, ept);
    assert!(x.resume().is_ok());
    assert!(!x.monitor_trap_flag);
    assert!(x.step().is_ok());
    assert!(x.monitor_trap_flag);
}
