//! The keyboard peripheral: a single read-only CSR that pulls one key event
//! per read from the queue filled by the window thread, and encodes it as a
//! byte. The mapping from physical key codes to the emulated key-code
//! namespace is the host's business; events arrive here already carrying the
//! emulated code.

use std::sync::mpsc::Receiver;

use vstd::prelude::*;

use crate::channel::channel_try_recv;
use crate::csrs::Csr;
use crate::fault::Fault;

verus! {

/// One key transition: the emulated key code and whether the key went down.
/// A code of zero stands for "no key".
#[derive(Debug, PartialEq, Eq, Structural, Clone, Copy)]
pub struct KeyEvent {
    pub code: u8,
    pub pressed: bool,
}

/// The byte a keyboard CSR read yields for one pulled event: zero when the
/// queue was empty or the event carried no key, otherwise the low seven bits
/// are the key code and the top bit is set exactly for a press.
pub open spec fn spec_encode_key(ev: Option<KeyEvent>) -> u8 {
    match ev {
        Option::None => 0,
        Option::Some(k) => if k.code == 0 {
            0
        } else if k.pressed {
            k.code | 0x80
        } else {
            k.code
        },
    }
}

/// Encode one pulled key event as the byte the guest reads.
pub fn encode_key(ev: Option<KeyEvent>) -> (b: u8)
    ensures
        b == spec_encode_key(ev),
{
    match ev {
        Option::None => 0,
        Option::Some(k) => {
            if k.code == 0 {
                0
            } else if k.pressed {
                k.code | 0x80
            } else {
                k.code
            }
        },
    }
}

/// The device behind the keyboard CSR identifier.
pub struct KeyboardCsr {
    pub recv: Receiver<KeyEvent>,
}

impl KeyboardCsr {
    /// A keyboard fed from the given event queue.
    pub fn new(recv: Receiver<KeyEvent>) -> (k: KeyboardCsr)
        ensures
            k.recv == recv,
    {
        KeyboardCsr { recv }
    }

    /// Pull at most one event from the queue and encode it; zero means no
    /// key was available.
    pub fn read_key(&self) -> (b: u8)
        ensures
            exists|ev: Option<KeyEvent>| b == spec_encode_key(ev),
    {
        let ev = channel_try_recv(&self.recv);
        let b = encode_key(ev);
        proof {
            assert(b == spec_encode_key(ev));
        }
        b
    }
}

impl Csr for KeyboardCsr {
    /// Pull and encode one key event; zero means no key was available.
    fn read(&mut self, csr: u32, ram: &mut Vec<u8>) -> (r: Result<u32, Fault>)
        ensures
            final(ram)@ == old(ram)@,
            *final(self) == *old(self),
            exists|ev: Option<KeyEvent>| r == Result::<u32, Fault>::Ok(
                #[trigger] spec_encode_key(ev) as u32,
            ),
    {
        let b = self.read_key();
        proof {
            let ev = choose|ev: Option<KeyEvent>| b == spec_encode_key(ev);
            assert(Result::<u32, Fault>::Ok(b as u32) == Result::<u32, Fault>::Ok(
                spec_encode_key(ev) as u32,
            ));
        }
        Ok(b as u32)
    }

    /// Writes to the keyboard are silently ignored.
    fn write(&mut self, csr: u32, ram: &mut Vec<u8>, data: u32) -> (r: Result<(), Fault>)
        ensures
            final(ram)@ == old(ram)@,
            *final(self) == *old(self),
            r == Result::<(), Fault>::Ok(()),
    {
        Ok(())
    }
}

} // verus!
