//! The CSR bus: a sparse mapping from 12-bit control/status register
//! identifiers to devices. Devices live in an ordered sequence and the map
//! stores indices into it, so one device may be registered under several
//! identifiers and share state between them. Reads and writes are routed to
//! the device installed for the identifier; an unknown identifier faults.

use std::collections::HashMap;
use std::sync::mpsc::Receiver;
use std::sync::mpsc::Sender;

use vstd::prelude::*;

use crate::character_printer::spec_printer_write;
use crate::character_printer::CharacterPrinterCsr;
use crate::ddi::spec_ddi_write;
use crate::ddi::DdiCsr;
use crate::debug_display::spec_debug_write;
use crate::debug_display::DebugDisplayMessage;
use crate::debug_display::DebugDisplayCsr;
use crate::fault::Fault;
use crate::heap::HeapCsr;
use crate::display::DisplayEvent;
use crate::keyboard::spec_encode_key;
use crate::keyboard::KeyEvent;
use crate::keyboard::KeyboardCsr;

verus! {

broadcast use vstd::std_specs::hash::group_hash_axioms;

/// The call shape every device answers to: a read hook and a write hook, each
/// given the specific identifier the access named and mutable access to RAM.
pub trait Csr {
    /// Answer a CSR read routed to this device.
    fn read(&mut self, csr: u32, ram: &mut Vec<u8>) -> Result<u32, Fault>;

    /// Answer a CSR write routed to this device.
    fn write(&mut self, csr: u32, ram: &mut Vec<u8>, data: u32) -> Result<(), Fault>;
}

/// One installed peripheral, tagged by kind.
pub enum Device {
    /// The framebuffer command set.
    Ddi(DdiCsr),
    /// The character printer.
    Printer(CharacterPrinterCsr),
    /// The debug log.
    DebugLog(DebugDisplayCsr),
    /// The heap gauge.
    HeapGauge(HeapCsr),
    /// The keyboard.
    Keyboard(KeyboardCsr),
}

/// What one routed read does: the framebuffer, printer, debug log and heap
/// gauge refuse to be read; the keyboard yields one encoded key event and is
/// otherwise unchanged. No device changes on a read.
pub open spec fn spec_device_read(pre: Device, post: Device, csr: u32, r: Result<u32, Fault>) -> bool {
    &&& post == pre
    &&& match pre {
        Device::Keyboard(_) => exists|ev: Option<KeyEvent>| r == Result::<u32, Fault>::Ok(
            spec_encode_key(ev) as u32,
        ),
        _ => r == Result::<u32, Fault>::Err(Fault::CsrReadDenied(csr)),
    }
}

/// What one routed write does, per device kind. The heap gauge stores the
/// operand into its shared word and the keyboard ignores writes; neither
/// changes its modeled state. RAM is never changed by a write.
pub open spec fn spec_device_write(
    pre: Device,
    post: Device,
    csr: u32,
    ram: Seq<u8>,
    data: u32,
    r: Result<(), Fault>,
) -> bool {
    match (pre, post) {
        (Device::Ddi(a), Device::Ddi(b)) => spec_ddi_write(a, b, csr, data, r),
        (Device::Printer(a), Device::Printer(b)) => spec_printer_write(a, b, csr, data, r),
        (Device::DebugLog(a), Device::DebugLog(b)) => spec_debug_write(a, b, csr, ram, data, r),
        (Device::HeapGauge(a), Device::HeapGauge(b)) => a == b && r == Result::<(), Fault>::Ok(()),
        (Device::Keyboard(a), Device::Keyboard(b)) => a == b && r == Result::<(), Fault>::Ok(()),
        _ => false,
    }
}

/// The fault, if any, that a write routed to this device raises: determined
/// by the device's state and the arguments alone. The framebuffer's reserved
/// copy trigger is unimplemented, a debug print past the end of memory is
/// out of range, and an identifier outside the device's set is unknown.
pub open spec fn spec_device_write_fault(d: Device, csr: u32, ram: Seq<u8>, data: u32) -> Option<
    Fault,
> {
    match d {
        Device::Ddi(_) => if csr == 1058 {
            Some(Fault::UnimplementedOp(csr))
        } else if 1050 <= csr && csr <= 1059 {
            None
        } else {
            Some(Fault::UnknownCsr(csr))
        },
        Device::Printer(_) => if csr == 1024 || csr == 1025 || csr == 1026 || csr == 1037 {
            None
        } else {
            Some(Fault::UnknownCsr(csr))
        },
        Device::DebugLog(a) => if csr == 1100 {
            if data + a.length <= ram.len() {
                None
            } else {
                Some(Fault::OutOfRangeAccess(data))
            }
        } else if csr == 1101 || csr == 1102 || csr == 1103 {
            None
        } else {
            Some(Fault::UnknownCsr(csr))
        },
        Device::HeapGauge(_) => None,
        Device::Keyboard(_) => None,
    }
}

impl Csr for Device {
    /// Route a read to the installed device.
    fn read(&mut self, csr: u32, ram: &mut Vec<u8>) -> (r: Result<u32, Fault>)
        ensures
            final(ram)@ == old(ram)@,
            spec_device_read(*old(self), *final(self), csr, r),
    {
        match self {
            Device::Ddi(d) => d.read(csr, ram),
            Device::Printer(d) => d.read(csr, ram),
            Device::DebugLog(d) => d.read(csr, ram),
            Device::HeapGauge(d) => d.read(csr, ram),
            Device::Keyboard(d) => d.read(csr, ram),
        }
    }

    /// Route a write to the installed device.
    fn write(&mut self, csr: u32, ram: &mut Vec<u8>, data: u32) -> (r: Result<(), Fault>)
        ensures
            final(ram)@ == old(ram)@,
            spec_device_write(*old(self), *final(self), csr, old(ram)@, data, r),
    {
        match self {
            Device::Ddi(d) => d.write(csr, ram, data),
            Device::Printer(d) => d.write(csr, ram, data),
            Device::DebugLog(d) => d.write(csr, ram, data),
            Device::HeapGauge(d) => d.write(csr, ram, data),
            Device::Keyboard(d) => d.write(csr, ram, data),
        }
    }
}

/// All identifiers a sequence of them holds are absent from the map and
/// pairwise distinct, so installing them cannot collide.
pub open spec fn spec_ids_fresh(m: Map<u32, usize>, ids: Seq<u32>) -> bool {
    &&& forall|i: int| 0 <= i < ids.len() ==> !m.contains_key(#[trigger] ids[i])
    &&& forall|i: int, j: int| 0 <= i < j < ids.len() ==> ids[i] != ids[j]
}

/// The identifier-to-device registry.
pub struct Csrs {
    pub map: HashMap<u32, usize>,
    pub csrs: Vec<Device>,
}

impl Csrs {
    /// Every mapped identifier names an existing device.
    pub open spec fn wf(&self) -> bool {
        forall|id: u32| #[trigger] self.map@.contains_key(id) ==> self.map@[id] < self.csrs@.len()
    }

    /// An empty registry.
    pub fn new() -> (c: Csrs)
        ensures
            c.wf(),
            c.map@ =~= Map::<u32, usize>::empty(),
            c.csrs@ =~= Seq::<Device>::empty(),
    {
        Csrs { map: HashMap::new(), csrs: Vec::new() }
    }

    /// Register one device under each of the given identifiers. Registration
    /// is one-shot: when any identifier is already claimed, or the same
    /// identifier is given twice, nothing is installed and the call reports
    /// the rejection.
    pub fn insert_csr(&mut self, csr_ids: &[u32], csr: Device) -> (r: bool)
        requires
            old(self).wf(),
        ensures
            final(self).wf(),
            r == spec_ids_fresh(old(self).map@, csr_ids@),
            !r ==> *final(self) == *old(self),
            r ==> {
                &&& final(self).csrs@ == old(self).csrs@.push(csr)
                &&& forall|id: u32| #[trigger] final(self).map@.contains_key(id) <==> (old(
                    self,
                ).map@.contains_key(id) || csr_ids@.contains(id))
                &&& forall|id: u32| old(self).map@.contains_key(id) ==> final(self).map@[id] == old(
                    self,
                ).map@[id]
                &&& forall|i: int| 0 <= i < csr_ids@.len() ==> final(self).map@[#[trigger] csr_ids@[i]]
                    == old(self).csrs@.len()
            },
    {
        let n = csr_ids.len();
        let mut i: usize = 0;
        while i < n
            invariant
                n == csr_ids@.len(),
                i <= n,
                spec_ids_fresh(self.map@, csr_ids@.take(i as int)),
                self == old(self),
                self.wf(),
            decreases n - i,
        {
            let id = csr_ids[i];
            if self.map.contains_key(&id) {
                proof {
                    assert(csr_ids@.take(i as int + 1)[i as int] == id);
                }
                return false;
            }
            let mut j: usize = 0;
            while j < i
                invariant
                    j <= i < n == csr_ids@.len(),
                    forall|k: int| 0 <= k < j ==> csr_ids@[k] != csr_ids@[i as int],
                    id == csr_ids@[i as int],
                    spec_ids_fresh(self.map@, csr_ids@.take(i as int)),
                    self == old(self),
                    self.wf(),
                decreases i - j,
            {
                if csr_ids[j] == id {
                    proof {
                        assert(csr_ids@.take(i as int + 1)[j as int] == csr_ids@[j as int]);
                        assert(csr_ids@.take(i as int + 1)[i as int] == id);
                    }
                    return false;
                }
                j = j + 1;
            }
            proof {
                assert forall|a: int, b: int| 0 <= a < b < i + 1 implies #[trigger] csr_ids@.take(
                    i as int + 1,
                )[a] != #[trigger] csr_ids@.take(i as int + 1)[b] by {
                    if b < i {
                        assert(csr_ids@.take(i as int)[a] != csr_ids@.take(i as int)[b]);
                    }
                }
                assert forall|a: int| 0 <= a < i + 1 implies !self.map@.contains_key(
                    #[trigger] csr_ids@.take(i as int + 1)[a],
                ) by {
                    if a < i {
                        assert(!self.map@.contains_key(csr_ids@.take(i as int)[a]));
                    }
                }
            }
            i = i + 1;
        }
        proof {
            assert(csr_ids@.take(n as int) =~= csr_ids@);
        }
        let idx = self.csrs.len();
        self.csrs.push(csr);
        let ghost mid = self.map@;
        let mut k: usize = 0;
        while k < n
            invariant
                n == csr_ids@.len(),
                k <= n,
                spec_ids_fresh(mid, csr_ids@),
                mid == old(self).map@,
                idx == old(self).csrs@.len(),
                self.csrs@ == old(self).csrs@.push(csr),
                forall|id: u32| #[trigger] self.map@.contains_key(id) <==> (mid.contains_key(id)
                    || csr_ids@.take(k as int).contains(id)),
                forall|id: u32| mid.contains_key(id) ==> self.map@[id] == mid[id],
                forall|a: int| 0 <= a < k ==> self.map@[#[trigger] csr_ids@[a]] == idx,
            decreases n - k,
        {
            let id = csr_ids[k];
            self.map.insert(id, idx);
            proof {
                assert forall|x: u32| #[trigger] self.map@.contains_key(x) implies (mid.contains_key(
                    x,
                ) || csr_ids@.take(k as int + 1).contains(x)) by {
                    if x == id {
                        assert(csr_ids@.take(k as int + 1)[k as int] == id);
                    } else {
                        if csr_ids@.take(k as int).contains(x) {
                            let w = choose|w: int| 0 <= w < k && #[trigger] csr_ids@.take(k as int)[w] == x;
                            assert(csr_ids@.take(k as int + 1)[w] == x);
                        }
                    }
                }
                assert forall|x: u32| (mid.contains_key(x) || csr_ids@.take(k as int + 1).contains(
                    x,
                )) implies #[trigger] self.map@.contains_key(x) by {
                    if csr_ids@.take(k as int + 1).contains(x) && x != id {
                        let w = choose|w: int|
                            0 <= w < k + 1 && #[trigger] csr_ids@.take(k as int + 1)[w] == x;
                        assert(csr_ids@.take(k as int)[w] == x);
                    }
                }
            }
            k = k + 1;
        }
        proof {
            assert(csr_ids@.take(n as int) =~= csr_ids@);
        }
        true
    }

    /// Resolve an identifier to the index of its device; an unknown
    /// identifier faults.
    pub fn get_csr(&self, csr: u32) -> (r: Result<usize, Fault>)
        requires
            self.wf(),
        ensures
            match r {
                Ok(idx) => self.map@.contains_key(csr) && idx == self.map@[csr] && idx
                    < self.csrs@.len(),
                Err(f) => f == Fault::UnknownCsr(csr) && !self.map@.contains_key(csr),
            },
    {
        match self.map.get(&csr) {
            Option::Some(idx) => Ok(*idx),
            Option::None => Err(Fault::UnknownCsr(csr)),
        }
    }

    /// Route a read to the device installed for the identifier.
    pub fn read(&mut self, csr: u32, ram: &mut Vec<u8>) -> (r: Result<u32, Fault>)
        requires
            old(self).wf(),
        ensures
            final(self).wf(),
            final(ram)@ == old(ram)@,
            final(self).map@ == old(self).map@,
            final(self).csrs@.len() == old(self).csrs@.len(),
            if old(self).map@.contains_key(csr) {
                let idx = old(self).map@[csr] as int;
                &&& spec_device_read(old(self).csrs@[idx], final(self).csrs@[idx], csr, r)
                &&& forall|j: int| 0 <= j < old(self).csrs@.len() && j != idx
                    ==> final(self).csrs@[j] == old(self).csrs@[j]
            } else {
                &&& r == Result::<u32, Fault>::Err(Fault::UnknownCsr(csr))
                &&& *final(self) == *old(self)
            },
    {
        let idx = match self.get_csr(csr) {
            Ok(idx) => idx,
            Err(f) => {
                return Err(f);
            },
        };
        let device = &mut self.csrs[idx];
        device.read(csr, ram)
    }

    /// Route a write to the device installed for the identifier.
    pub fn write(&mut self, csr: u32, ram: &mut Vec<u8>, data: u32) -> (r: Result<(), Fault>)
        requires
            old(self).wf(),
        ensures
            final(self).wf(),
            final(ram)@ == old(ram)@,
            final(self).map@ == old(self).map@,
            final(self).csrs@.len() == old(self).csrs@.len(),
            if old(self).map@.contains_key(csr) {
                let idx = old(self).map@[csr] as int;
                &&& spec_device_write(
                    old(self).csrs@[idx],
                    final(self).csrs@[idx],
                    csr,
                    old(ram)@,
                    data,
                    r,
                )
                &&& forall|j: int| 0 <= j < old(self).csrs@.len() && j != idx
                    ==> final(self).csrs@[j] == old(self).csrs@[j]
            } else {
                &&& r == Result::<(), Fault>::Err(Fault::UnknownCsr(csr))
                &&& *final(self) == *old(self)
            },
    {
        let idx = match self.get_csr(csr) {
            Ok(idx) => idx,
            Err(f) => {
                return Err(f);
            },
        };
        let device = &mut self.csrs[idx];
        device.write(csr, ram, data)
    }
}

/// CSR routing: a successful installation leaves every one of its
/// identifiers resolving to the device it was installed with, so a later
/// read or write of that identifier reaches exactly that device.
pub proof fn lemma_installed_identifier_resolves(
    pre: Csrs,
    post: Csrs,
    ids: Seq<u32>,
    d: Device,
    i: int,
)
    requires
        0 <= i < ids.len(),
        post.csrs@ == pre.csrs@.push(d),
        post.map@.contains_key(ids[i]),
        post.map@[ids[i]] == pre.csrs@.len(),
    ensures
        post.csrs@[post.map@[ids[i]] as int] == d,
{
}

/// The identifiers of the fixed standard map: character printer, keyboard,
/// framebuffer, debug log and heap gauge. Any other identifier faults on
/// access.
pub open spec fn spec_standard_id(id: u32) -> bool {
    ||| 1024 <= id <= 1026
    ||| id == 1037
    ||| id == 1035
    ||| 1050 <= id <= 1059
    ||| 1100 <= id <= 1103
    ||| id == 1112
}

/// The standard bus: the debug log under 1100 to 1103, the heap gauge under
/// 1112, the framebuffer under 1050 to 1059, the character printer under
/// 1024 to 1026 and 1037, and the keyboard under 1035, wired to the given
/// queue endpoints and shared word.
pub fn standard_csrs(
    display_send: Sender<DisplayEvent>,
    printer_send: Sender<DisplayEvent>,
    debug_send: Sender<DebugDisplayMessage>,
    key_recv: Receiver<crate::keyboard::KeyEvent>,
    heap: HeapCsr,
) -> (c: Csrs)
    ensures
        c.wf(),
        c.csrs@.len() == 5,
        forall|id: u32| #[trigger] c.map@.contains_key(id) <==> spec_standard_id(id),
        forall|id: u32| 1100 <= id <= 1103 ==> #[trigger] c.map@[id] == 0,
        c.map@[1112] == 1,
        forall|id: u32| 1050 <= id <= 1059 ==> #[trigger] c.map@[id] == 2,
        forall|id: u32| 1024 <= id <= 1026 || id == 1037 ==> #[trigger] c.map@[id] == 3,
        c.map@[1035] == 4,
        c.csrs@[0] is DebugLog && c.csrs@[0]->DebugLog_0.send == debug_send
            && c.csrs@[0]->DebugLog_0.length == 0 && c.csrs@[0]->DebugLog_0.entries@
            =~= Seq::<crate::debug_display::DebugEntry>::empty(),
        c.csrs@[1] is HeapGauge && c.csrs@[1]->HeapGauge_0 == heap,
        c.csrs@[2] is Ddi && c.csrs@[2]->Ddi_0.send == display_send && c.csrs@[2]->Ddi_0.color == 0
            && c.csrs@[2]->Ddi_0.events@ =~= Seq::<DisplayEvent>::empty(),
        c.csrs@[3] is Printer && c.csrs@[3]->Printer_0.send == printer_send
            && c.csrs@[3]->Printer_0.events@ =~= Seq::<DisplayEvent>::empty(),
        c.csrs@[4] is Keyboard && c.csrs@[4]->Keyboard_0.recv == key_recv,
{
    let mut csrs = Csrs::new();
    let fresh_debug = csrs.insert_csr(
        &[1100, 1101, 1102, 1103],
        Device::DebugLog(DebugDisplayCsr::new(debug_send)),
    );
    assert(fresh_debug);
    let fresh_heap = csrs.insert_csr(&[1112], Device::HeapGauge(heap));
    assert(fresh_heap);
    let fresh_ddi = csrs.insert_csr(
        &[1050, 1051, 1052, 1053, 1054, 1055, 1056, 1057, 1058, 1059],
        Device::Ddi(DdiCsr::new(display_send)),
    );
    assert(fresh_ddi);
    let fresh_printer = csrs.insert_csr(
        &[1024, 1025, 1026, 1037],
        Device::Printer(CharacterPrinterCsr::new(printer_send)),
    );
    assert(fresh_printer);
    let fresh_keyboard = csrs.insert_csr(&[1035], Device::Keyboard(KeyboardCsr::new(key_recv)));
    assert(fresh_keyboard);
    csrs
}

} // verus!
