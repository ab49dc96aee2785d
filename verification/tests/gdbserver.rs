//! The protocol state machine pump.

use hypercraft::arch::riscv::vcpu::VCpu;
use hypercraft::arch::riscv::vm::{VmCpus, VM};
use hypercraft::gdbserver::{DebugSession, SessionState};
use hypercraft::mem::{GuestPageTable, GuestPhysMemory};

fn mk_vm() -> VM {
    let vcpu = VCpu::new(0, 0, 0x77, 0, 0);
    let mut vcpus = VmCpus::new();
    vcpus.add_vcpu(vcpu).unwrap();
    let gpt = GuestPageTable::new(0x77, GuestPhysMemory::new(0x1000, vec![0u8; 16]));
    let mut vm = VM::new(vcpus, gpt).unwrap();
    vm.gdbserver_init();
    vm
}

fn state(vm: &VM) -> SessionState {
    vm.gdbstub.as_ref().unwrap().state()
}

fn pump_all(vm: &mut VM, bytes: &[u8]) -> Vec<u8> {
    let mut out = Vec::new();
    for &b in bytes {
        out.extend(vm.gdbserver_pump_byte(b));
    }
    out
}

#[test]
fn session_starts_idle() {
    let vm = mk_vm();
    assert_eq!(state(&vm), SessionState::Idle);
}

#[test]
fn continue_command_transitions_to_running() {
    // Feeding the encoded bytes of a "continue" command takes the session
    // from Idle to Running; the frame is acknowledged and resume commands
    // get no immediate reply.
    let mut vm = mk_vm();
    let out = pump_all(&mut vm, b"$c#63");
    assert_eq!(state(&vm), SessionState::Running);
    assert_eq!(out, b"+");
}

#[test]
fn step_command_transitions_to_running() {
    let mut vm = mk_vm();
    pump_all(&mut vm, b"$s#73");
    assert_eq!(state(&vm), SessionState::Running);
}

#[test]
fn report_stop_while_running_returns_to_idle() {
    // After a guest exit of interest, report_stop feeds a stop reason into
    // the protocol: the session is idle again and the stop-reason packet
    // goes out on the connection.
    let mut vm = mk_vm();
    pump_all(&mut vm, b"$c#63");
    assert_eq!(state(&vm), SessionState::Running);
    let pkt = vm.gdbserver_report().unwrap();
    assert_eq!(pkt, b"$S05#b8");
    assert_eq!(state(&vm), SessionState::Idle);
}

#[test]
fn report_stop_when_not_running_does_nothing() {
    let mut vm = mk_vm();
    assert!(vm.gdbserver_report().is_none());
    assert_eq!(state(&vm), SessionState::Idle);
}

#[test]
fn bad_checksum_is_rejected() {
    let mut vm = mk_vm();
    let out = pump_all(&mut vm, b"$c#00");
    assert_eq!(out, b"-");
    assert_eq!(state(&vm), SessionState::Idle);
}

#[test]
fn interrupt_byte_requests_break_in() {
    let mut vm = mk_vm();
    let out = pump_all(&mut vm, &[0x03]);
    assert!(out.is_empty());
    assert_eq!(state(&vm), SessionState::InterruptRequested);
}

#[test]
fn kill_command_disconnects() {
    let mut vm = mk_vm();
    pump_all(&mut vm, b"$k#6b");
    assert_eq!(state(&vm), SessionState::Disconnected);
}

#[test]
fn detach_command_disconnects_with_ok() {
    let mut vm = mk_vm();
    let out = pump_all(&mut vm, b"$D#44");
    assert_eq!(out, b"+$OK#9a");
    assert_eq!(state(&vm), SessionState::Disconnected);
}

#[test]
fn halt_reason_query_reports_stop() {
    let mut vm = mk_vm();
    let out = pump_all(&mut vm, b"$?#3f");
    assert_eq!(out, b"+$S05#b8");
    assert_eq!(state(&vm), SessionState::Idle);
}

#[test]
fn unknown_command_gets_empty_reply() {
    let mut vm = mk_vm();
    let out = pump_all(&mut vm, b"$g#67");
    assert_eq!(out, b"+$#00");
    assert_eq!(state(&vm), SessionState::Idle);
}

#[test]
fn acks_are_ignored_outside_packets() {
    let mut vm = mk_vm();
    let out = pump_all(&mut vm, b"+-");
    assert!(out.is_empty());
    assert_eq!(state(&vm), SessionState::Idle);
}

#[test]
fn full_continue_stop_continue_cycle() {
    let mut session = DebugSession::new();
    for &b in b"$c#63" {
        session.pump_byte(b);
    }
    assert_eq!(session.state(), SessionState::Running);
    let pkt = session.report_stop().unwrap();
    assert_eq!(pkt, b"$S05#b8");
    assert_eq!(session.state(), SessionState::Idle);
    for &b in b"$c#63" {
        session.pump_byte(b);
    }
    assert_eq!(session.state(), SessionState::Running);
}

#[test]
fn init_replaces_previous_session() {
    let mut vm = mk_vm();
    pump_all(&mut vm, b"$c#63");
    assert_eq!(state(&vm), SessionState::Running);
    vm.gdbserver_init();
    assert_eq!(state(&vm), SessionState::Idle);
}
