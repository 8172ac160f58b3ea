use std::sync::atomic::AtomicU32;
use std::sync::mpsc::channel;
use std::sync::mpsc::Receiver;
use std::sync::mpsc::Sender;
use std::sync::Arc;

use softcpu::cpu::Cpu;
use softcpu::csrs::standard_csrs;
use softcpu::debug_display::DebugDisplayMessage;
use softcpu::display::DisplayEvent;
use softcpu::fault::Fault;
use softcpu::heap::Heap;
use softcpu::heap::HeapCsr;
use softcpu::keyboard::KeyEvent;

fn machine() -> (Cpu, Receiver<DisplayEvent>, Receiver<DebugDisplayMessage>, Sender<KeyEvent>, Heap)
{
    let (display_send, display_recv) = channel();
    let (debug_send, debug_recv) = channel();
    let (key_send, key_recv) = channel();
    let word = Arc::new(AtomicU32::new(0));
    let heap = Heap::new(Arc::clone(&word));
    let heap_csr = HeapCsr::new(word);
    let printer_send = display_send.clone();
    let csrs = standard_csrs(display_send, printer_send, debug_send, key_recv, heap_csr);
    let cpu = Cpu::new(csrs);
    (cpu, display_recv, debug_recv, key_send, heap)
}

fn flash_words(cpu: &mut Cpu, words: &[u32]) {
    let mut bytes = Vec::new();
    for w in words {
        bytes.extend_from_slice(&w.to_le_bytes());
    }
    cpu.flash(&bytes);
}

#[test]
fn lui_loads_upper_immediate() {
    let (mut cpu, _d, _g, _k, _h) = machine();
    flash_words(&mut cpu, &[0x123450b7]); // LUI x1, 0x12345
    cpu.tick().unwrap();
    assert_eq!(cpu.read_register(1), 0x12345000);
    assert_eq!(cpu.pc, 4);
    assert_eq!(cpu.insn_count, 1);
}

#[test]
fn addi_then_add() {
    let (mut cpu, _d, _g, _k, _h) = machine();
    // ADDI x1,x0,5; ADDI x2,x0,7; ADD x3,x1,x2
    flash_words(&mut cpu, &[0x00500093, 0x00700113, 0x002081b3]);
    for _ in 0..3 {
        cpu.tick().unwrap();
    }
    assert_eq!(cpu.read_register(1), 5);
    assert_eq!(cpu.read_register(2), 7);
    assert_eq!(cpu.read_register(3), 12);
    assert_eq!(cpu.pc, 12);
    assert_eq!(cpu.insn_count, 3);
}

#[test]
fn set_less_than_signed_and_unsigned() {
    let (mut cpu, _d, _g, _k, _h) = machine();
    // ADDI x1,x0,-1; SLTIU x2,x1,1; SLTI x3,x1,1
    flash_words(&mut cpu, &[0xfff00093, 0x0010b113, 0x0010a193]);
    for _ in 0..3 {
        cpu.tick().unwrap();
    }
    assert_eq!(cpu.read_register(1), 0xffffffff);
    assert_eq!(cpu.read_register(2), 0); // unsigned -1 is not < 1
    assert_eq!(cpu.read_register(3), 1); // signed -1 is < 1
}

#[test]
fn branch_taken_loop_falls_through() {
    let (mut cpu, _d, _g, _k, _h) = machine();
    // ADDI x1,x0,3; ADDI x1,x1,-1; BNE x1,x0,-4
    flash_words(&mut cpu, &[0x00300093, 0xfff08093, 0xfe009ee3]);
    for _ in 0..7 {
        cpu.tick().unwrap();
    }
    assert_eq!(cpu.read_register(1), 0);
    assert_eq!(cpu.pc, 12);
    assert_eq!(cpu.insn_count, 7);
}

#[test]
fn store_then_load_sign_extends() {
    let (mut cpu, _d, _g, _k, _h) = machine();
    // ADDI x2,x0,0x100; ADDI x1,x0,0x7F; SB x1,0(x2); LB x3,0(x2); LBU x4,0(x2)
    flash_words(&mut cpu, &[0x10000113, 0x07f00093, 0x00110023, 0x00010183, 0x00014203]);
    for _ in 0..5 {
        cpu.tick().unwrap();
    }
    assert_eq!(cpu.read_register(3), 0x0000007f);
    assert_eq!(cpu.read_register(4), 0x0000007f);
}

#[test]
fn store_then_load_sign_extends_high_byte() {
    let (mut cpu, _d, _g, _k, _h) = machine();
    // ADDI x2,x0,0x100; ADDI x1,x0,0xFF; SB x1,0(x2); LB x3,0(x2); LBU x4,0(x2)
    flash_words(&mut cpu, &[0x10000113, 0x0ff00093, 0x00110023, 0x00010183, 0x00014203]);
    for _ in 0..5 {
        cpu.tick().unwrap();
    }
    assert_eq!(cpu.read_register(3), 0xffffffff); // sign-extended
    assert_eq!(cpu.read_register(4), 0x000000ff);
}

#[test]
fn heap_gauge_visible_to_dashboard() {
    let (mut cpu, _d, _g, _k, heap) = machine();
    // LUI x1,0x1 (x1 = 4096); CSRRW x0,1112,x1
    flash_words(&mut cpu, &[0x000010b7, 0x45809073]);
    cpu.tick().unwrap();
    cpu.tick().unwrap();
    assert_eq!(heap.read(), 4096);
}

#[test]
fn jump_to_self_loops_in_place() {
    let (mut cpu, _d, _g, _k, _h) = machine();
    flash_words(&mut cpu, &[0x0000006f]); // JAL x0, 0
    cpu.tick().unwrap();
    assert_eq!(cpu.pc, 0);
    cpu.tick().unwrap();
    assert_eq!(cpu.pc, 0);
    assert_eq!(cpu.insn_count, 2);
}

#[test]
fn branch_signed_takes_unsigned_does_not() {
    let (mut cpu, _d, _g, _k, _h) = machine();
    // LUI x1,0x80000; LUI x2,0x80000; ADDI x2,x2,-1; BLT x1,x2,8
    flash_words(&mut cpu, &[0x800000b7, 0x80000137, 0xfff10113, 0x0020c463]);
    for _ in 0..4 {
        cpu.tick().unwrap();
    }
    assert_eq!(cpu.read_register(1), 0x80000000);
    assert_eq!(cpu.read_register(2), 0x7fffffff);
    assert_eq!(cpu.pc, 12 + 8); // branch taken

    let (mut cpu, _d, _g, _k, _h) = machine();
    // same operands, BLTU x1,x2,8
    flash_words(&mut cpu, &[0x800000b7, 0x80000137, 0xfff10113, 0x0020e463]);
    for _ in 0..4 {
        cpu.tick().unwrap();
    }
    assert_eq!(cpu.pc, 12 + 4); // branch not taken
}

#[test]
fn arithmetic_vs_logical_right_shift() {
    let (mut cpu, _d, _g, _k, _h) = machine();
    // LUI x1,0x80000; SRAI x2,x1,1; SRLI x3,x1,1
    flash_words(&mut cpu, &[0x800000b7, 0x4010d113, 0x0010d193]);
    for _ in 0..3 {
        cpu.tick().unwrap();
    }
    assert_eq!(cpu.read_register(2), 0xc0000000);
    assert_eq!(cpu.read_register(3), 0x40000000);
}

#[test]
fn writes_to_register_zero_are_discarded() {
    let (mut cpu, _d, _g, _k, _h) = machine();
    flash_words(&mut cpu, &[0x00500013]); // ADDI x0,x0,5
    cpu.tick().unwrap();
    assert_eq!(cpu.read_register(0), 0);
    assert_eq!(cpu.pc, 4);
}

#[test]
fn illegal_opcode_faults_and_leaves_state() {
    let (mut cpu, _d, _g, _k, _h) = machine();
    // memory is zeroed: opcode 0 is illegal
    let r = cpu.tick();
    assert_eq!(r, Err(Fault::IllegalOpcode(0)));
    assert_eq!(cpu.pc, 0);
    assert_eq!(cpu.insn_count, 0);
}

#[test]
fn illegal_branch_selector_faults() {
    let (mut cpu, _d, _g, _k, _h) = machine();
    flash_words(&mut cpu, &[0x00002063]); // branch with selector 0b010
    let r = cpu.tick();
    assert_eq!(r, Err(Fault::IllegalFunction(2, 0)));
    assert_eq!(cpu.pc, 0);
}

#[test]
fn illegal_shift_flag_faults() {
    let (mut cpu, _d, _g, _k, _h) = machine();
    flash_words(&mut cpu, &[0x0210d093]); // right shift with flag bits 1
    let r = cpu.tick();
    assert_eq!(r, Err(Fault::IllegalFunction(5, 1)));
}

#[test]
fn fetch_past_end_of_memory_faults() {
    let (mut cpu, _d, _g, _k, _h) = machine();
    cpu.pc = 0xffff_fff0;
    let r = cpu.tick();
    assert_eq!(r, Err(Fault::OutOfRangeAccess(0xffff_fff0)));
}

#[test]
fn unknown_csr_faults() {
    let (mut cpu, _d, _g, _k, _h) = machine();
    flash_words(&mut cpu, &[0x3e7010f3]); // CSRRW x1,999,x0
    let r = cpu.tick();
    assert_eq!(r, Err(Fault::UnknownCsr(999)));
}

#[test]
fn csr_read_from_write_only_device_faults() {
    let (mut cpu, _d, _g, _k, _h) = machine();
    flash_words(&mut cpu, &[0x458010f3]); // CSRRW x1,1112,x0 reads the heap gauge
    let r = cpu.tick();
    assert_eq!(r, Err(Fault::CsrReadDenied(1112)));
}

#[test]
fn reserved_copy_trigger_faults() {
    let (mut cpu, _d, _g, _k, _h) = machine();
    flash_words(&mut cpu, &[0x42201073]); // CSRRW x0,1058,x0
    let r = cpu.tick();
    assert_eq!(r, Err(Fault::UnimplementedOp(1058)));
}

#[test]
fn keyboard_csr_reads_queued_key_and_ignores_writes() {
    let (mut cpu, _d, _g, key_send, _h) = machine();
    // CSRRW x1,1035,x0 (read one key); CSRRW x0,1035,x1 (write is ignored)
    flash_words(&mut cpu, &[0x40b010f3, 0x40b09073]);
    key_send.send(KeyEvent { code: 0x41, pressed: true }).unwrap();
    cpu.tick().unwrap();
    assert_eq!(cpu.read_register(1), 0xc1);
    cpu.tick().unwrap();
    assert_eq!(cpu.pc, 8);
}

#[test]
fn keyboard_csr_reads_zero_when_queue_empty() {
    let (mut cpu, _d, _g, _k, _h) = machine();
    flash_words(&mut cpu, &[0x40b010f3]); // CSRRW x1,1035,x0
    cpu.tick().unwrap();
    assert_eq!(cpu.read_register(1), 0);
}

#[test]
fn rectangle_trigger_emits_composed_event() {
    let (mut cpu, display_recv, _g, _k, _h) = machine();
    // x1 = color 0x12345000 is unhandy; use ADDI x1,x0,0x7F as color,
    // x2 = target (x=5, y=3), x3 = size (x=2, y=1)
    // target word = 3 << 16 | 5; build with LUI+ADDI is long, use small values:
    // ADDI x2,x0,5 (target x=5, y=0); ADDI x3,x0,2 (size x=2, y=0)
    flash_words(
        &mut cpu,
        &[
            0x07f00093, // ADDI x1,x0,0x7F
            0x00500113, // ADDI x2,x0,5
            0x00200193, // ADDI x3,x0,2
            0x41f09073, // CSRRW x0,1055,x1  color
            0x41c11073, // CSRRW x0,1052,x2  target
            0x41e19073, // CSRRW x0,1054,x3  size
            0x42301073, // CSRRW x0,1059,x0  trigger rectangle
        ],
    );
    for _ in 0..7 {
        cpu.tick().unwrap();
    }
    let ev = display_recv.try_recv().unwrap();
    assert_eq!(
        ev,
        DisplayEvent::Rectangle { target_x: 5, target_y: 0, size_x: 2, size_y: 0, color: 0x7f }
    );
    assert!(display_recv.try_recv().is_err());
}

#[test]
fn meter_updates_after_a_full_period() {
    let (mut cpu, _d, _g, _k, _h) = machine();
    flash_words(&mut cpu, &[0x0000006f]); // JAL x0,0: loop in place
    for _ in 0..512 {
        cpu.tick().unwrap();
    }
    assert_eq!(cpu.insn_count, 512);
    assert!(cpu.fps >= 512);
}
