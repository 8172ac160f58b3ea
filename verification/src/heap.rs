//! The heap gauge: a write-only CSR that stores the guest-reported
//! heap-bytes-used value into a shared atomic word, and the dashboard-side
//! reader of that word.

use core::sync::atomic::AtomicU32;
use core::sync::atomic::Ordering;
use std::sync::Arc;

use vstd::prelude::*;

use crate::csrs::Csr;
use crate::fault::Fault;

verus! {

/// The dashboard's view of the heap gauge.
pub struct Heap {
    pub value: Arc<AtomicU32>,
}

impl Heap {
    /// A reader over the shared word.
    pub fn new(value: Arc<AtomicU32>) -> Heap {
        Heap { value }
    }

    /// The latest heap-bytes-used value the guest reported. The word is
    /// written by another thread, so nothing is stated of the value.
    pub fn read(&self) -> u32 {
        self.value.load(Ordering::SeqCst)
    }
}

/// The device behind the heap-gauge CSR identifier.
pub struct HeapCsr {
    pub value: Arc<AtomicU32>,
}

impl HeapCsr {
    /// A writer over the shared word.
    pub fn new(value: Arc<AtomicU32>) -> HeapCsr {
        HeapCsr { value }
    }

    /// Store the guest-reported value into the shared word.
    pub fn store(&self, data: u32) {
        self.value.store(data, Ordering::SeqCst);
    }
}

impl Csr for HeapCsr {
    /// The heap gauge refuses to be read.
    fn read(&mut self, csr: u32, ram: &mut Vec<u8>) -> (r: Result<u32, Fault>)
        ensures
            final(ram)@ == old(ram)@,
            *final(self) == *old(self),
            r == Result::<u32, Fault>::Err(Fault::CsrReadDenied(csr)),
    {
        Err(Fault::CsrReadDenied(csr))
    }

    /// Store the operand into the shared word.
    fn write(&mut self, csr: u32, ram: &mut Vec<u8>, data: u32) -> (r: Result<(), Fault>)
        ensures
            final(ram)@ == old(ram)@,
            *final(self) == *old(self),
            r == Result::<(), Fault>::Ok(()),
    {
        self.store(data);
        Ok(())
    }
}

} // verus!
