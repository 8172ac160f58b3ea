use std::sync::atomic::AtomicU32;
use std::sync::mpsc::channel;
use std::sync::Arc;

use softcpu::csrs::standard_csrs;
use softcpu::csrs::Csr;
use softcpu::csrs::Csrs;
use softcpu::csrs::Device;
use softcpu::debug_display::DebugDisplay;
use softcpu::debug_display::DebugDisplayCsr;
use softcpu::debug_display::DebugDisplayMessage;
use softcpu::display::DisplayEvent;
use softcpu::fault::Fault;
use softcpu::heap::Heap;
use softcpu::heap::HeapCsr;
use softcpu::keyboard::encode_key;
use softcpu::keyboard::KeyEvent;
use softcpu::keyboard::KeyboardCsr;

fn heap_device() -> Device {
    Device::HeapGauge(HeapCsr::new(Arc::new(AtomicU32::new(0))))
}

#[test]
fn installing_a_claimed_identifier_is_rejected() {
    let mut csrs = Csrs::new();
    assert!(csrs.insert_csr(&[5, 6], heap_device()));
    assert!(!csrs.insert_csr(&[6], heap_device()));
    assert!(!csrs.insert_csr(&[7, 7], heap_device()));
    assert!(csrs.insert_csr(&[7], heap_device()));
}

#[test]
fn resolution_routes_to_the_installed_device() {
    let mut csrs = Csrs::new();
    assert!(csrs.insert_csr(&[10], heap_device()));
    assert!(csrs.insert_csr(&[20, 21], heap_device()));
    assert_eq!(csrs.get_csr(10), Ok(0));
    assert_eq!(csrs.get_csr(20), Ok(1));
    assert_eq!(csrs.get_csr(21), Ok(1));
    assert_eq!(csrs.get_csr(11), Err(Fault::UnknownCsr(11)));
}

#[test]
fn standard_bus_owns_the_fixed_identifiers() {
    let (display_send, _display_recv) = channel();
    let (debug_send, _debug_recv) = channel();
    let (_key_send, key_recv) = channel();
    let printer_send = display_send.clone();
    let heap_csr = HeapCsr::new(Arc::new(AtomicU32::new(0)));
    let csrs = standard_csrs(display_send, printer_send, debug_send, key_recv, heap_csr);
    assert_eq!(csrs.get_csr(1100), Ok(0));
    assert_eq!(csrs.get_csr(1112), Ok(1));
    assert_eq!(csrs.get_csr(1050), Ok(2));
    assert_eq!(csrs.get_csr(1059), Ok(2));
    assert_eq!(csrs.get_csr(1024), Ok(3));
    assert_eq!(csrs.get_csr(1037), Ok(3));
    assert_eq!(csrs.get_csr(1035), Ok(4));
    assert_eq!(csrs.get_csr(1000), Err(Fault::UnknownCsr(1000)));
}

#[test]
fn bus_write_reaches_the_heap_gauge() {
    let word = Arc::new(AtomicU32::new(0));
    let heap = Heap::new(Arc::clone(&word));
    let mut csrs = Csrs::new();
    assert!(csrs.insert_csr(&[1112], Device::HeapGauge(HeapCsr::new(word))));
    let mut ram: Vec<u8> = vec![0; 16];
    assert_eq!(csrs.write(1112, &mut ram, 4096), Ok(()));
    assert_eq!(heap.read(), 4096);
    assert_eq!(csrs.read(1112, &mut ram), Err(Fault::CsrReadDenied(1112)));
    assert_eq!(csrs.write(2000, &mut ram, 1), Err(Fault::UnknownCsr(2000)));
}

#[test]
fn printer_trigger_emits_white_glyph_blit() {
    let (display_send, display_recv) = channel();
    let (debug_send, _debug_recv) = channel();
    let (_key_send, key_recv) = channel();
    let printer_send = display_send.clone();
    let heap_csr = HeapCsr::new(Arc::new(AtomicU32::new(0)));
    let mut csrs = standard_csrs(display_send, printer_send, debug_send, key_recv, heap_csr);
    let mut ram: Vec<u8> = vec![0; 16];
    csrs.write(1024, &mut ram, 0xf0f0f0f0).unwrap(); // glyph low word
    csrs.write(1025, &mut ram, 0x0f0f0f0f).unwrap(); // glyph high word
    csrs.write(1026, &mut ram, (7 << 16) | 9).unwrap(); // target x=9, y=7
    csrs.write(1037, &mut ram, 0).unwrap(); // trigger
    let ev = display_recv.try_recv().unwrap();
    assert_eq!(
        ev,
        DisplayEvent::Matrix {
            matrix: 0x0f0f0f0f_f0f0f0f0,
            target_x: 9,
            target_y: 7,
            color: 0x00ff_ffff,
        }
    );
}

#[test]
fn framebuffer_scratch_composes_matrix_event() {
    let (display_send, display_recv) = channel();
    let mut ddi = Device::Ddi(softcpu::ddi::DdiCsr::new(display_send));
    let mut ram: Vec<u8> = vec![0; 16];
    ddi.write(1050, &mut ram, 0xaaaaaaaa).unwrap();
    ddi.write(1051, &mut ram, 0x55555555).unwrap();
    ddi.write(1052, &mut ram, (3 << 16) | 5).unwrap();
    ddi.write(1055, &mut ram, 0x123456).unwrap();
    ddi.write(1056, &mut ram, 0).unwrap();
    ddi.write(1057, &mut ram, 0).unwrap();
    assert_eq!(
        display_recv.try_recv().unwrap(),
        DisplayEvent::Matrix {
            matrix: 0x55555555_aaaaaaaa,
            target_x: 5,
            target_y: 3,
            color: 0x123456,
        }
    );
    assert_eq!(display_recv.try_recv().unwrap(), DisplayEvent::Floodfill { color: 0x123456 });
}

#[test]
fn debug_log_prints_bytes_from_ram() {
    let (send, recv) = channel();
    let mut dev = DebugDisplayCsr::new(send);
    let mut ram: Vec<u8> = vec![0; 16];
    ram[4] = b'h';
    ram[5] = b'i';
    dev.write(1102, &mut ram, 2).unwrap(); // latch length 2
    dev.write(1100, &mut ram, 4).unwrap(); // print from address 4
    dev.write(1101, &mut ram, 0).unwrap(); // newline
    dev.write(1103, &mut ram, 0).unwrap(); // clear
    match recv.try_recv().unwrap() {
        DebugDisplayMessage::S(s) => assert_eq!(s, "hi"),
        DebugDisplayMessage::Clear => panic!("expected text"),
    }
    match recv.try_recv().unwrap() {
        DebugDisplayMessage::S(s) => assert_eq!(s, "\n"),
        DebugDisplayMessage::Clear => panic!("expected newline"),
    }
    assert!(matches!(recv.try_recv().unwrap(), DebugDisplayMessage::Clear));
}

#[test]
fn debug_log_print_past_end_of_ram_faults() {
    let (send, _recv) = channel();
    let mut dev = DebugDisplayCsr::new(send);
    let mut ram: Vec<u8> = vec![0; 16];
    dev.write(1102, &mut ram, 8).unwrap();
    assert_eq!(dev.write(1100, &mut ram, 12), Err(Fault::OutOfRangeAccess(12)));
}

#[test]
fn debug_log_read_is_denied() {
    let (send, _recv) = channel();
    let mut dev = DebugDisplayCsr::new(send);
    let mut ram: Vec<u8> = vec![0; 4];
    assert_eq!(dev.read(1100, &mut ram), Err(Fault::CsrReadDenied(1100)));
}

#[test]
fn scrollback_collects_lines_in_order() {
    let (send, recv) = channel();
    let mut display = DebugDisplay::new(recv);
    send.send(DebugDisplayMessage::S("one".to_owned())).unwrap();
    send.send(DebugDisplayMessage::S("\ntwo\nthree".to_owned())).unwrap();
    display.update();
    let lines: Vec<&str> = display.lines.iter().map(|s| s.as_str()).collect();
    assert_eq!(lines, vec!["one", "two", "three"]);
    send.send(DebugDisplayMessage::Clear).unwrap();
    display.update();
    let lines: Vec<&str> = display.lines.iter().map(|s| s.as_str()).collect();
    assert_eq!(lines, vec![""]);
}

#[test]
fn scrollback_keeps_only_the_last_hundred_lines() {
    let (send, recv) = channel();
    let mut display = DebugDisplay::new(recv);
    let mut text = String::new();
    for i in 0..150 {
        text.push_str(&format!("line{}\n", i));
    }
    send.send(DebugDisplayMessage::S(text)).unwrap();
    display.update();
    assert_eq!(display.lines.len(), 100);
    assert_eq!(display.lines[0], "line51");
    assert_eq!(display.lines[98], "line149");
    assert_eq!(display.lines[99], "");
}

#[test]
fn key_events_encode_press_and_release() {
    assert_eq!(encode_key(None), 0);
    assert_eq!(encode_key(Some(KeyEvent { code: 0, pressed: true })), 0);
    assert_eq!(encode_key(Some(KeyEvent { code: 0x41, pressed: true })), 0xc1);
    assert_eq!(encode_key(Some(KeyEvent { code: 0x41, pressed: false })), 0x41);
}

#[test]
fn keyboard_pulls_one_event_per_read() {
    let (send, recv) = channel();
    let keyboard = KeyboardCsr::new(recv);
    send.send(KeyEvent { code: 0x20, pressed: true }).unwrap();
    send.send(KeyEvent { code: 0x20, pressed: false }).unwrap();
    assert_eq!(keyboard.read_key(), 0xa0);
    assert_eq!(keyboard.read_key(), 0x20);
    assert_eq!(keyboard.read_key(), 0);
}
