//! The character printer: a second producer of blit commands that shares the
//! framebuffer event queue. The guest supplies the 8 by 8 glyph bitmap in two
//! scratch words and a target position; the trigger emits the blit in white.

use std::sync::mpsc::Sender;

use vstd::prelude::*;

use crate::channel::channel_send;
use crate::csrs::Csr;
use crate::display::DisplayEvent;
use crate::fault::Fault;

verus! {

/// The color every printed glyph is blitted in.
pub const GLYPH_COLOR: u32 = 0x00ff_ffff;

/// The device behind the four character-printer CSR identifiers.
pub struct CharacterPrinterCsr {
    pub send: Sender<DisplayEvent>,
    pub matrix_1: u32,
    pub matrix_2: u32,
    pub target: u32,
    pub events: Ghost<Seq<DisplayEvent>>,
}

/// The glyph blit composed from the printer's scratch values.
pub open spec fn spec_glyph_event(d: CharacterPrinterCsr) -> DisplayEvent {
    DisplayEvent::Matrix {
        matrix: ((d.matrix_2 as u64) << 32) | (d.matrix_1 as u64),
        target_x: (d.target & 0xffff) as u16,
        target_y: (d.target >> 16) as u16,
        color: GLYPH_COLOR,
    }
}

/// What one CSR write does to the printer: the three scratch identifiers
/// latch the operand, the trigger appends the glyph blit to the emitted
/// stream, and a foreign identifier is refused.
pub open spec fn spec_printer_write(
    pre: CharacterPrinterCsr,
    post: CharacterPrinterCsr,
    csr: u32,
    data: u32,
    r: Result<(), Fault>,
) -> bool {
    if csr == 1024 {
        r == Result::<(), Fault>::Ok(()) && post == (CharacterPrinterCsr { matrix_1: data, ..pre })
    } else if csr == 1025 {
        r == Result::<(), Fault>::Ok(()) && post == (CharacterPrinterCsr { matrix_2: data, ..pre })
    } else if csr == 1026 {
        r == Result::<(), Fault>::Ok(()) && post == (CharacterPrinterCsr { target: data, ..pre })
    } else if csr == 1037 {
        r == Result::<(), Fault>::Ok(()) && post.events@ == pre.events@.push(spec_glyph_event(pre))
            && (CharacterPrinterCsr { events: post.events, ..post }) == (CharacterPrinterCsr {
            events: post.events,
            ..pre
        })
    } else {
        r == Result::<(), Fault>::Err(Fault::UnknownCsr(csr)) && post == pre
    }
}

impl CharacterPrinterCsr {
    /// A printer with zeroed scratch that emits into the given queue.
    pub fn new(send: Sender<DisplayEvent>) -> (d: CharacterPrinterCsr)
        ensures
            d.send == send,
            d.matrix_1 == 0 && d.matrix_2 == 0 && d.target == 0,
            d.events@ =~= Seq::<DisplayEvent>::empty(),
    {
        CharacterPrinterCsr { send, matrix_1: 0, matrix_2: 0, target: 0, events: Ghost(Seq::empty()) }
    }
}

impl Csr for CharacterPrinterCsr {
    /// The printer refuses to be read.
    fn read(&mut self, csr: u32, ram: &mut Vec<u8>) -> (r: Result<u32, Fault>)
        ensures
            final(ram)@ == old(ram)@,
            *final(self) == *old(self),
            r == Result::<u32, Fault>::Err(Fault::CsrReadDenied(csr)),
    {
        Err(Fault::CsrReadDenied(csr))
    }

    /// Latch scratch or emit the glyph blit.
    fn write(&mut self, csr: u32, ram: &mut Vec<u8>, data: u32) -> (r: Result<(), Fault>)
        ensures
            final(ram)@ == old(ram)@,
            spec_printer_write(*old(self), *final(self), csr, data, r),
    {
        if csr == 1024 {
            self.matrix_1 = data;
        } else if csr == 1025 {
            self.matrix_2 = data;
        } else if csr == 1026 {
            self.target = data;
        } else if csr == 1037 {
            let ev = DisplayEvent::Matrix {
                matrix: ((self.matrix_2 as u64) << 32) | (self.matrix_1 as u64),
                target_x: (self.target & 0xffff) as u16,
                target_y: (self.target >> 16) as u16,
                color: GLYPH_COLOR,
            };
            self.events = Ghost(self.events@.push(ev));
            channel_send(&self.send, ev);
        } else {
            return Err(Fault::UnknownCsr(csr));
        }
        Ok(())
    }
}

} // verus!
