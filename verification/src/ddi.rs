//! The framebuffer device: six scratch registers accumulate drawing
//! parameters, and trigger identifiers emit the composed command into the
//! display queue. A ghost log keeps every emitted command, in order, so that
//! contracts can speak of the whole stream.

use std::sync::mpsc::Sender;

use vstd::prelude::*;

use crate::channel::channel_send;
use crate::csrs::Csr;
use crate::display::DisplayEvent;
use crate::fault::Fault;

verus! {

/// The device behind the ten framebuffer CSR identifiers.
pub struct DdiCsr {
    pub send: Sender<DisplayEvent>,
    pub matrix_1: u32,
    pub matrix_2: u32,
    pub target: u32,
    pub source: u32,
    pub size: u32,
    pub color: u32,
    pub events: Ghost<Seq<DisplayEvent>>,
}

/// The 8 by 8 blit composed from the current scratch values: the two matrix
/// words joined to one 64-bit mask, the target split into x and y halves.
pub open spec fn spec_matrix_event(d: DdiCsr) -> DisplayEvent {
    DisplayEvent::Matrix {
        matrix: ((d.matrix_2 as u64) << 32) | (d.matrix_1 as u64),
        target_x: (d.target & 0xffff) as u16,
        target_y: (d.target >> 16) as u16,
        color: d.color,
    }
}

/// The rectangle composed from the current scratch values.
pub open spec fn spec_rectangle_event(d: DdiCsr) -> DisplayEvent {
    DisplayEvent::Rectangle {
        target_x: (d.target & 0xffff) as u16,
        target_y: (d.target >> 16) as u16,
        size_x: (d.size & 0xffff) as u16,
        size_y: (d.size >> 16) as u16,
        color: d.color,
    }
}

/// What one CSR write does to the framebuffer device: scratch identifiers
/// latch the operand, trigger identifiers append the composed command to the
/// emitted stream, the reserved copy trigger faults, and a foreign identifier
/// is refused.
pub open spec fn spec_ddi_write(
    pre: DdiCsr,
    post: DdiCsr,
    csr: u32,
    data: u32,
    r: Result<(), Fault>,
) -> bool {
    if csr == 1050 {
        r == Result::<(), Fault>::Ok(()) && post == (DdiCsr { matrix_1: data, ..pre })
    } else if csr == 1051 {
        r == Result::<(), Fault>::Ok(()) && post == (DdiCsr { matrix_2: data, ..pre })
    } else if csr == 1052 {
        r == Result::<(), Fault>::Ok(()) && post == (DdiCsr { target: data, ..pre })
    } else if csr == 1053 {
        r == Result::<(), Fault>::Ok(()) && post == (DdiCsr { source: data, ..pre })
    } else if csr == 1054 {
        r == Result::<(), Fault>::Ok(()) && post == (DdiCsr { size: data, ..pre })
    } else if csr == 1055 {
        r == Result::<(), Fault>::Ok(()) && post == (DdiCsr { color: data, ..pre })
    } else if csr == 1056 {
        r == Result::<(), Fault>::Ok(()) && post.events@ == pre.events@.push(spec_matrix_event(pre))
            && (DdiCsr { events: post.events, ..post }) == (DdiCsr { events: post.events, ..pre })
    } else if csr == 1057 {
        r == Result::<(), Fault>::Ok(()) && post.events@ == pre.events@.push(
            DisplayEvent::Floodfill { color: pre.color },
        ) && (DdiCsr { events: post.events, ..post }) == (DdiCsr { events: post.events, ..pre })
    } else if csr == 1058 {
        r == Result::<(), Fault>::Err(Fault::UnimplementedOp(csr)) && post == pre
    } else if csr == 1059 {
        r == Result::<(), Fault>::Ok(()) && post.events@ == pre.events@.push(
            spec_rectangle_event(pre),
        ) && (DdiCsr { events: post.events, ..post }) == (DdiCsr { events: post.events, ..pre })
    } else {
        r == Result::<(), Fault>::Err(Fault::UnknownCsr(csr)) && post == pre
    }
}

impl DdiCsr {
    /// A framebuffer device with zeroed scratch that emits into the given
    /// queue.
    pub fn new(send: Sender<DisplayEvent>) -> (d: DdiCsr)
        ensures
            d.send == send,
            d.matrix_1 == 0 && d.matrix_2 == 0 && d.target == 0 && d.source == 0 && d.size == 0
                && d.color == 0,
            d.events@ =~= Seq::<DisplayEvent>::empty(),
    {
        DdiCsr {
            send,
            matrix_1: 0,
            matrix_2: 0,
            target: 0,
            source: 0,
            size: 0,
            color: 0,
            events: Ghost(Seq::empty()),
        }
    }
}

impl Csr for DdiCsr {
    /// The framebuffer refuses to be read.
    fn read(&mut self, csr: u32, ram: &mut Vec<u8>) -> (r: Result<u32, Fault>)
        ensures
            final(ram)@ == old(ram)@,
            *final(self) == *old(self),
            r == Result::<u32, Fault>::Err(Fault::CsrReadDenied(csr)),
    {
        Err(Fault::CsrReadDenied(csr))
    }

    /// Latch scratch or emit the triggered command.
    fn write(&mut self, csr: u32, ram: &mut Vec<u8>, data: u32) -> (r: Result<(), Fault>)
        ensures
            final(ram)@ == old(ram)@,
            spec_ddi_write(*old(self), *final(self), csr, data, r),
    {
        if csr == 1050 {
            self.matrix_1 = data;
        } else if csr == 1051 {
            self.matrix_2 = data;
        } else if csr == 1052 {
            self.target = data;
        } else if csr == 1053 {
            self.source = data;
        } else if csr == 1054 {
            self.size = data;
        } else if csr == 1055 {
            self.color = data;
        } else if csr == 1056 {
            let ev = DisplayEvent::Matrix {
                matrix: ((self.matrix_2 as u64) << 32) | (self.matrix_1 as u64),
                target_x: (self.target & 0xffff) as u16,
                target_y: (self.target >> 16) as u16,
                color: self.color,
            };
            self.events = Ghost(self.events@.push(ev));
            channel_send(&self.send, ev);
        } else if csr == 1057 {
            let ev = DisplayEvent::Floodfill { color: self.color };
            self.events = Ghost(self.events@.push(ev));
            channel_send(&self.send, ev);
        } else if csr == 1058 {
            return Err(Fault::UnimplementedOp(csr));
        } else if csr == 1059 {
            let ev = DisplayEvent::Rectangle {
                target_x: (self.target & 0xffff) as u16,
                target_y: (self.target >> 16) as u16,
                size_x: (self.size & 0xffff) as u16,
                size_y: (self.size >> 16) as u16,
                color: self.color,
            };
            self.events = Ghost(self.events@.push(ev));
            channel_send(&self.send, ev);
        } else {
            return Err(Fault::UnknownCsr(csr));
        }
        Ok(())
    }
}

} // verus!
