use std::sync::mpsc::channel;

use softcpu::cpu_state::make_state;
use softcpu::cpu_state::CpuState;
use softcpu::display::draw_event;
use softcpu::display::pixel;
use softcpu::display::set_color;
use softcpu::display::update_frame;
use softcpu::display::DisplayEvent;
use softcpu::display::FRAME_BYTES;
use softcpu::fault::Fault;
use softcpu::instruction_formats::BType;
use softcpu::instruction_formats::IType;
use softcpu::instruction_formats::JType;
use softcpu::instruction_formats::RType;
use softcpu::instruction_formats::SType;
use softcpu::instruction_formats::UType;
use softcpu::memory::MemAccessSize;
use softcpu::memory::Memory;

#[test]
fn loads_succeed_at_both_ends_and_fault_past_the_end() {
    let mem = Memory::new(64);
    for (size, w) in [
        (MemAccessSize::Byte, 1u32),
        (MemAccessSize::HalfWord, 2),
        (MemAccessSize::Word, 4),
    ] {
        assert!(mem.read(0, size).is_ok());
        assert!(mem.read(64 - w, size).is_ok());
        assert_eq!(mem.read(64 - w + 1, size), Err(Fault::OutOfRangeAccess(64 - w + 1)));
    }
}

#[test]
fn store_then_load_returns_value_modulo_width() {
    let mut mem = Memory::new(64);
    mem.write(8, MemAccessSize::HalfWord, 0xabcd1234).unwrap();
    assert_eq!(mem.read(8, MemAccessSize::HalfWord), Ok(0x1234));
    mem.write(16, MemAccessSize::Byte, 0xabcd1234).unwrap();
    assert_eq!(mem.read(16, MemAccessSize::Byte), Ok(0x34));
    mem.write(20, MemAccessSize::Word, 0xabcd1234).unwrap();
    assert_eq!(mem.read(20, MemAccessSize::Word), Ok(0xabcd1234));
}

#[test]
fn stores_are_little_endian() {
    let mut mem = Memory::new(64);
    mem.write(0, MemAccessSize::Word, 0x11223344).unwrap();
    assert_eq!(mem.read(0, MemAccessSize::Byte), Ok(0x44));
    assert_eq!(mem.read(1, MemAccessSize::Byte), Ok(0x33));
    assert_eq!(mem.read(2, MemAccessSize::Byte), Ok(0x22));
    assert_eq!(mem.read(3, MemAccessSize::Byte), Ok(0x11));
}

#[test]
fn misaligned_store_faults_and_changes_nothing() {
    let mut mem = Memory::new(64);
    assert_eq!(mem.write(1, MemAccessSize::HalfWord, 0xffff), Err(Fault::MisalignedStore(1)));
    assert_eq!(mem.read(0, MemAccessSize::Word), Ok(0));
    assert_eq!(mem.write(62, MemAccessSize::Word, 1), Err(Fault::MisalignedStore(62)));
    assert_eq!(mem.write(64, MemAccessSize::Word, 1), Err(Fault::OutOfRangeAccess(64)));
}

#[test]
fn unaligned_loads_are_allowed() {
    let mut mem = Memory::new(64);
    mem.write(0, MemAccessSize::Word, 0x11223344).unwrap();
    mem.write(4, MemAccessSize::Word, 0x55667788).unwrap();
    assert_eq!(mem.read(1, MemAccessSize::Word), Ok(0x88112233));
    assert_eq!(mem.read(3, MemAccessSize::HalfWord), Ok(0x8811));
}

#[test]
fn flash_fills_the_prefix_and_keeps_the_rest() {
    let mut mem = Memory::new(16);
    mem.write(8, MemAccessSize::Word, 0xdeadbeef).unwrap();
    mem.flash(&[1, 2, 3]);
    assert_eq!(mem.read(0, MemAccessSize::Byte), Ok(1));
    assert_eq!(mem.read(1, MemAccessSize::Byte), Ok(2));
    assert_eq!(mem.read(2, MemAccessSize::Byte), Ok(3));
    assert_eq!(mem.read(3, MemAccessSize::Byte), Ok(0));
    assert_eq!(mem.read(8, MemAccessSize::Word), Ok(0xdeadbeef));
}

#[test]
fn decoded_immediates_are_sign_extended() {
    // ADDI x1,x0,-1
    let i = IType::from(0xfff00093u32);
    assert_eq!(i.imm, -1);
    assert_eq!(i.rs1, 0);
    assert_eq!(i.funct3, 0);
    assert_eq!(i.rd, 1);
    // BNE x1,x0,-4
    let b = BType::from(0xfe009ee3u32);
    assert_eq!(b.imm, -4);
    assert_eq!(b.rs1, 1);
    assert_eq!(b.rs2, 0);
    assert_eq!(b.funct3, 1);
    // JAL x0,-4
    let j = JType::from(0xffdff06fu32);
    assert_eq!(j.imm, -4);
    assert_eq!(j.rd, 0);
    // SB x1,-8(x2): imm[11:5]=0x7f<<25 pattern
    let s = SType::from(0xfe110c23u32);
    assert_eq!(s.imm, -8);
    assert_eq!(s.rs1, 2);
    assert_eq!(s.rs2, 1);
    // LUI x1,0x12345
    let u = UType::from(0x123450b7u32);
    assert_eq!(u.imm, 0x12345000);
    assert_eq!(u.rd, 1);
    // ADD x3,x1,x2
    let r = RType::from(0x002081b3u32);
    assert_eq!(r.funct7, 0);
    assert_eq!(r.rs2, 2);
    assert_eq!(r.rs1, 1);
    assert_eq!(r.funct3, 0);
    assert_eq!(r.rd, 3);
}

#[test]
fn pixel_indexing_is_row_major() {
    assert_eq!(pixel(0, 0), 0);
    assert_eq!(pixel(1, 0), 4);
    assert_eq!(pixel(0, 1), 640 * 4);
    assert_eq!(pixel(639, 479), (479 * 640 + 639) * 4);
}

#[test]
fn set_color_writes_rgb_and_full_alpha() {
    let mut frame: Vec<u8> = vec![0; 16];
    set_color(&mut frame, 4, 0x0011_2233);
    assert_eq!(&frame[4..8], &[0x11, 0x22, 0x33, 255]);
    assert_eq!(&frame[0..4], &[0, 0, 0, 0]);
    assert_eq!(&frame[8..12], &[0, 0, 0, 0]);
}

#[test]
fn rectangle_paints_exactly_its_pixels() {
    let mut frame: Vec<u8> = vec![0; FRAME_BYTES];
    draw_event(
        &mut frame,
        DisplayEvent::Rectangle { target_x: 1, target_y: 1, size_x: 2, size_y: 2, color: 0x112233 },
    );
    for (x, y, painted) in
        [(0, 0, false), (1, 1, true), (2, 2, true), (3, 1, false), (1, 3, false)]
    {
        let idx = pixel(x, y);
        let expect: [u8; 4] = if painted { [0x11, 0x22, 0x33, 255] } else { [0, 0, 0, 0] };
        assert_eq!(&frame[idx..idx + 4], &expect, "pixel ({}, {})", x, y);
    }
}

#[test]
fn floodfill_paints_every_pixel() {
    let mut frame: Vec<u8> = vec![0; FRAME_BYTES];
    draw_event(&mut frame, DisplayEvent::Floodfill { color: 0xff0080 });
    let first = pixel(0, 0);
    let last = pixel(639, 479);
    assert_eq!(&frame[first..first + 4], &[0xff, 0x00, 0x80, 255]);
    assert_eq!(&frame[last..last + 4], &[0xff, 0x00, 0x80, 255]);
}

#[test]
fn matrix_blit_sets_masked_pixels_lsb_first() {
    let mut frame: Vec<u8> = vec![0; FRAME_BYTES];
    // bit 0 -> (0,0), bit 9 -> (1,1)
    draw_event(
        &mut frame,
        DisplayEvent::Matrix { matrix: (1 << 0) | (1 << 9), target_x: 10, target_y: 20, color: 0xffffff },
    );
    let on0 = pixel(10, 20);
    let on1 = pixel(11, 21);
    let off = pixel(11, 20);
    assert_eq!(&frame[on0..on0 + 4], &[255, 255, 255, 255]);
    assert_eq!(&frame[on1..on1 + 4], &[255, 255, 255, 255]);
    assert_eq!(&frame[off..off + 4], &[0, 0, 0, 0]);
}

#[test]
fn update_frame_drains_the_queue_and_skips_offscreen_commands() {
    let (send, recv) = channel();
    let mut frame: Vec<u8> = vec![0; FRAME_BYTES];
    send.send(DisplayEvent::Rectangle {
        target_x: 0,
        target_y: 0,
        size_x: 1,
        size_y: 1,
        color: 0x010203,
    })
    .unwrap();
    send.send(DisplayEvent::Rectangle {
        target_x: 639,
        target_y: 0,
        size_x: 2,
        size_y: 1,
        color: 0xffffff,
    })
    .unwrap();
    update_frame(&mut frame, &recv);
    let idx = pixel(0, 0);
    assert_eq!(&frame[idx..idx + 4], &[1, 2, 3, 255]);
    let edge = pixel(639, 0);
    assert_eq!(&frame[edge..edge + 4], &[0, 0, 0, 0]); // offscreen command skipped
    assert!(recv.try_recv().is_err()); // queue fully drained
}

#[test]
fn snapshots_copy_the_observable_state() {
    let fresh = CpuState::new();
    assert_eq!(fresh.registers, [0u32; 32]);
    assert_eq!(fresh.pc, 0);
    assert_eq!(fresh.insn_count, 0);
    assert_eq!(fresh.fps, 0);

    let (display_send, _display_recv) = channel();
    let (debug_send, _debug_recv) = channel();
    let (_key_send, key_recv) = channel();
    let heap_csr = softcpu::heap::HeapCsr::new(std::sync::Arc::new(
        std::sync::atomic::AtomicU32::new(0),
    ));
    let printer_send = display_send.clone();
    let csrs =
        softcpu::csrs::standard_csrs(display_send, printer_send, debug_send, key_recv, heap_csr);
    let mut cpu = softcpu::cpu::Cpu::new(csrs);
    cpu.flash(&0x00500093u32.to_le_bytes()); // ADDI x1,x0,5
    cpu.tick().unwrap();
    let snap = make_state(&cpu);
    assert_eq!(snap.registers[1], 5);
    assert_eq!(snap.pc, 4);
    assert_eq!(snap.insn_count, 1);
}
