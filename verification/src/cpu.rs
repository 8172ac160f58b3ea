//! The CPU execution engine: a register file, a program counter, the linear
//! RAM and the CSR bus, driven by one fetch/decode/execute tick at a time.
//!
//! The contract of [`Cpu::tick`] is the step relation [`spec_step`]: it pins,
//! for every opcode of the base integer set, the registers, program counter,
//! memory and device states after the instruction, and the exact fault on
//! every input that faults. A fault leaves the observable state as it was on
//! entry to the tick.

use vstd::prelude::*;

use fps_counter::FPSCounter;

use crate::csrs::spec_device_write;
use crate::csrs::spec_device_write_fault;
use crate::csrs::Csrs;
use crate::csrs::Device;
use crate::fault::Fault;
use crate::fps::fps_counter_new;
use crate::fps::fps_counter_tick;
use crate::instruction_formats::spec_b_type;
use crate::instruction_formats::spec_i_type;
use crate::instruction_formats::spec_j_type;
use crate::instruction_formats::spec_r_type;
use crate::instruction_formats::spec_s_type;
use crate::instruction_formats::spec_u_type;
use crate::instruction_formats::BType;
use crate::instruction_formats::IType;
use crate::instruction_formats::JType;
use crate::instruction_formats::RType;
use crate::instruction_formats::SType;
use crate::instruction_formats::UType;
use crate::keyboard::spec_encode_key;
use crate::keyboard::KeyEvent;
use crate::memory::spec_load;
use crate::memory::spec_store;
use crate::memory::MemAccessSize;
use crate::memory::Memory;

verus! {

/// Default memory size in bytes.
pub const DEFAULT_MEM_SIZE: usize = 16 * 1024 * 1024;

/// How many instructions pass between two updates of the
/// instruction-per-second meter.
pub const METER_PERIOD: u64 = 512;

/// The observable machine state one instruction transforms: registers,
/// program counter, memory bytes, and the CSR bus as identifier map and
/// device sequence.
pub struct CoreState {
    pub regs: Seq<u32>,
    pub pc: u32,
    pub mem: Seq<u8>,
    pub csr_map: Map<u32, usize>,
    pub devs: Seq<Device>,
}

/// The register file after a write: register 0 ignores writes, every other
/// register takes the value.
pub open spec fn spec_write_reg(regs: Seq<u32>, rd: int, v: u32) -> Seq<u32> {
    if rd == 0 {
        regs
    } else {
        regs.update(rd, v)
    }
}

/// Whether a branch with the given selector is taken on the two operands;
/// nothing for an illegal selector.
pub open spec fn spec_branch_taken(funct3: u32, l: u32, r: u32) -> Option<bool> {
    if funct3 == 0b000 {
        Some(l == r)
    } else if funct3 == 0b001 {
        Some(l != r)
    } else if funct3 == 0b100 {
        Some((l as i32) < (r as i32))
    } else if funct3 == 0b101 {
        Some((l as i32) >= (r as i32))
    } else if funct3 == 0b110 {
        Some(l < r)
    } else if funct3 == 0b111 {
        Some(l >= r)
    } else {
        None
    }
}

/// The access width a load selector names, together with whether the loaded
/// value is sign-extended; nothing for an illegal selector.
pub open spec fn spec_load_size(funct3: u32) -> Option<MemAccessSize> {
    if funct3 == 0b000 || funct3 == 0b100 {
        Some(MemAccessSize::Byte)
    } else if funct3 == 0b001 || funct3 == 0b101 {
        Some(MemAccessSize::HalfWord)
    } else if funct3 == 0b010 {
        Some(MemAccessSize::Word)
    } else {
        None
    }
}

/// The loaded value after sign extension: the signed byte and half variants
/// extend bit 7 or 15 to the full word, all others keep the raw value.
pub open spec fn spec_extend_load(funct3: u32, raw: u32) -> u32 {
    if funct3 == 0b000 {
        raw as i8 as i32 as u32
    } else if funct3 == 0b001 {
        raw as i16 as i32 as u32
    } else {
        raw
    }
}

/// The access width a store selector names; nothing for an illegal selector.
pub open spec fn spec_store_size(funct3: u32) -> Option<MemAccessSize> {
    if funct3 == 0b000 {
        Some(MemAccessSize::Byte)
    } else if funct3 == 0b001 {
        Some(MemAccessSize::HalfWord)
    } else if funct3 == 0b010 {
        Some(MemAccessSize::Word)
    } else {
        None
    }
}

/// The result of an immediate ALU operation; nothing when the shift flag
/// bits are illegal for a shift selector.
pub open spec fn spec_alu_imm_op(funct3: u32, imm: i32, data: u32) -> Option<u32> {
    let sh = (imm as u32) & 0x1f;
    let flags = (imm as u32) >> 5;
    if funct3 == 0b000 {
        Some(data.wrapping_add(imm as u32))
    } else if funct3 == 0b010 {
        Some(if (data as i32) < imm { 1 } else { 0 })
    } else if funct3 == 0b011 {
        Some(if data < imm as u32 { 1 } else { 0 })
    } else if funct3 == 0b100 {
        Some(data ^ (imm as u32))
    } else if funct3 == 0b110 {
        Some(data | (imm as u32))
    } else if funct3 == 0b111 {
        Some(data & (imm as u32))
    } else if funct3 == 0b001 {
        if flags == 0 {
            Some(data << sh)
        } else {
            None
        }
    } else if funct3 == 0b101 {
        if flags == 0 {
            Some(data >> sh)
        } else if flags == 0b100000 {
            Some(((data as i32) >> sh) as u32)
        } else {
            None
        }
    } else {
        None
    }
}

/// The result of a register ALU operation; nothing for an illegal selector
/// combination.
pub open spec fn spec_alu_op(funct3: u32, funct7: u32, l: u32, r: u32) -> Option<u32> {
    if funct3 == 0b000 && funct7 == 0 {
        Some(l.wrapping_add(r))
    } else if funct3 == 0b000 && funct7 == 0b100000 {
        Some(l.wrapping_sub(r))
    } else if funct3 == 0b001 && funct7 == 0 {
        Some(l << (r & 0x1f))
    } else if funct3 == 0b010 && funct7 == 0 {
        Some(if (l as i32) < (r as i32) { 1 } else { 0 })
    } else if funct3 == 0b011 && funct7 == 0 {
        Some(if l < r { 1 } else { 0 })
    } else if funct3 == 0b100 && funct7 == 0 {
        Some(l ^ r)
    } else if funct3 == 0b101 && funct7 == 0 {
        Some(l >> (r & 0x1f))
    } else if funct3 == 0b101 && funct7 == 0b100000 {
        Some(((l as i32) >> (r & 0x1f)) as u32)
    } else if funct3 == 0b110 && funct7 == 0 {
        Some(l | r)
    } else if funct3 == 0b111 && funct7 == 0 {
        Some(l & r)
    } else {
        None
    }
}

/// LUI: the destination takes the upper immediate, the program counter
/// advances by 4.
pub open spec fn spec_lui_rel(pre: CoreState, post: CoreState, d: UType) -> bool {
    post == (CoreState {
        regs: spec_write_reg(pre.regs, d.rd as int, d.imm),
        pc: (pre.pc + 4) as u32,
        ..pre
    })
}

/// AUIPC: the destination takes the program counter plus the upper
/// immediate, wrapping; the program counter advances by 4.
pub open spec fn spec_auipc_rel(pre: CoreState, post: CoreState, d: UType) -> bool {
    post == (CoreState {
        regs: spec_write_reg(pre.regs, d.rd as int, pre.pc.wrapping_add(d.imm)),
        pc: (pre.pc + 4) as u32,
        ..pre
    })
}

/// JAL: the destination takes the return address, the program counter moves
/// by the jump displacement, wrapping.
pub open spec fn spec_jal_rel(pre: CoreState, post: CoreState, d: JType) -> bool {
    post == (CoreState {
        regs: spec_write_reg(pre.regs, d.rd as int, (pre.pc + 4) as u32),
        pc: pre.pc.wrapping_add(d.imm as u32),
        ..pre
    })
}

/// JALR: with selector zero, the destination takes the return address and
/// the program counter becomes the source plus the immediate, wrapping, with
/// the low bit cleared; any other selector faults.
pub open spec fn spec_jalr_rel(pre: CoreState, post: CoreState, d: IType, r: Result<
    (),
    Fault,
>) -> bool {
    if d.funct3 != 0 {
        r == Result::<(), Fault>::Err(Fault::IllegalFunction(d.funct3, 0)) && post == pre
    } else {
        r == Result::<(), Fault>::Ok(()) && post == (CoreState {
            regs: spec_write_reg(pre.regs, d.rd as int, (pre.pc + 4) as u32),
            pc: pre.regs[d.rs1 as int].wrapping_add(d.imm as u32) & !1u32,
            ..pre
        })
    }
}

/// Branch: taken branches move the program counter by the displacement,
/// wrapping; others advance by 4; an illegal selector faults.
pub open spec fn spec_branch_rel(pre: CoreState, post: CoreState, d: BType, r: Result<
    (),
    Fault,
>) -> bool {
    match spec_branch_taken(d.funct3, pre.regs[d.rs1 as int], pre.regs[d.rs2 as int]) {
        Some(taken) => r == Result::<(), Fault>::Ok(()) && post == (CoreState {
            pc: if taken {
                pre.pc.wrapping_add(d.imm as u32)
            } else {
                (pre.pc + 4) as u32
            },
            ..pre
        }),
        None => r == Result::<(), Fault>::Err(Fault::IllegalFunction(d.funct3, 0)) && post == pre,
    }
}

/// Load: the destination takes the value assembled from memory at source
/// plus immediate, sign-extended for the signed narrow variants; an illegal
/// selector or an access past the end of memory faults.
pub open spec fn spec_load_rel(pre: CoreState, post: CoreState, d: IType, r: Result<
    (),
    Fault,
>) -> bool {
    match spec_load_size(d.funct3) {
        None => r == Result::<(), Fault>::Err(Fault::IllegalFunction(d.funct3, 0)) && post == pre,
        Some(size) => {
            let addr = pre.regs[d.rs1 as int].wrapping_add(d.imm as u32);
            if addr + size.spec_width() > pre.mem.len() {
                r == Result::<(), Fault>::Err(Fault::OutOfRangeAccess(addr)) && post == pre
            } else {
                let v = spec_extend_load(d.funct3, spec_load(pre.mem, addr as int, size));
                r == Result::<(), Fault>::Ok(()) && post == (CoreState {
                    regs: spec_write_reg(pre.regs, d.rd as int, v),
                    pc: (pre.pc + 4) as u32,
                    ..pre
                })
            }
        },
    }
}

/// Store: the low bytes of the second source are written at first source
/// plus immediate; an illegal selector, a misaligned address or an access
/// past the end of memory faults.
pub open spec fn spec_store_rel(pre: CoreState, post: CoreState, d: SType, r: Result<
    (),
    Fault,
>) -> bool {
    match spec_store_size(d.funct3) {
        None => r == Result::<(), Fault>::Err(Fault::IllegalFunction(d.funct3, 0)) && post == pre,
        Some(size) => {
            let addr = pre.regs[d.rs1 as int].wrapping_add(d.imm as u32);
            if addr % size.spec_width() as u32 != 0 {
                r == Result::<(), Fault>::Err(Fault::MisalignedStore(addr)) && post == pre
            } else if addr + size.spec_width() > pre.mem.len() {
                r == Result::<(), Fault>::Err(Fault::OutOfRangeAccess(addr)) && post == pre
            } else {
                r == Result::<(), Fault>::Ok(()) && post == (CoreState {
                    mem: spec_store(pre.mem, addr as int, size, pre.regs[d.rs2 as int]),
                    pc: (pre.pc + 4) as u32,
                    ..pre
                })
            }
        },
    }
}

/// Immediate ALU: the destination takes the operation's result and the
/// program counter advances by 4; illegal shift flag bits fault.
pub open spec fn spec_alu_imm_rel(pre: CoreState, post: CoreState, d: IType, r: Result<
    (),
    Fault,
>) -> bool {
    match spec_alu_imm_op(d.funct3, d.imm, pre.regs[d.rs1 as int]) {
        Some(v) => r == Result::<(), Fault>::Ok(()) && post == (CoreState {
            regs: spec_write_reg(pre.regs, d.rd as int, v),
            pc: (pre.pc + 4) as u32,
            ..pre
        }),
        None => r == Result::<(), Fault>::Err(
            Fault::IllegalFunction(d.funct3, (d.imm as u32) >> 5),
        ) && post == pre,
    }
}

/// Register ALU: the destination takes the operation's result and the
/// program counter advances by 4; an illegal selector combination faults.
pub open spec fn spec_alu_rel(pre: CoreState, post: CoreState, d: RType, r: Result<
    (),
    Fault,
>) -> bool {
    match spec_alu_op(d.funct3, d.funct7, pre.regs[d.rs1 as int], pre.regs[d.rs2 as int]) {
        Some(v) => r == Result::<(), Fault>::Ok(()) && post == (CoreState {
            regs: spec_write_reg(pre.regs, d.rd as int, v),
            pc: (pre.pc + 4) as u32,
            ..pre
        }),
        None => r == Result::<(), Fault>::Err(Fault::IllegalFunction(d.funct3, d.funct7)) && post
            == pre,
    }
}

/// CSR read/write-swap: the source register is written to the device
/// installed for the identifier; when the destination is not register 0, the
/// device's old value is read first and lands there, and observable read
/// side effects are suppressed otherwise. Only the swap selector is legal.
/// Unknown identifiers, reads from write-only devices and device-reported
/// write faults leave the state unchanged.
pub open spec fn spec_csr_rel(pre: CoreState, post: CoreState, d: IType, r: Result<
    (),
    Fault,
>) -> bool {
    let csr = (d.imm as u32) & 0xfff;
    if d.funct3 != 0b001 {
        r == Result::<(), Fault>::Err(Fault::IllegalFunction(d.funct3, 0)) && post == pre
    } else if d.rd != 0 && !pre.csr_map.contains_key(csr) {
        r == Result::<(), Fault>::Err(Fault::UnknownCsr(csr)) && post == pre
    } else if d.rd != 0 && !(pre.devs[pre.csr_map[csr] as int] is Keyboard) {
        r == Result::<(), Fault>::Err(Fault::CsrReadDenied(csr)) && post == pre
    } else if !pre.csr_map.contains_key(csr) {
        r == Result::<(), Fault>::Err(Fault::UnknownCsr(csr)) && post == pre
    } else {
        let idx = pre.csr_map[csr] as int;
        let to_write = pre.regs[d.rs1 as int];
        match spec_device_write_fault(pre.devs[idx], csr, pre.mem, to_write) {
            Some(f) => r == Result::<(), Fault>::Err(f) && post == pre,
            None => {
                &&& r == Result::<(), Fault>::Ok(())
                &&& post.pc == pre.pc + 4
                &&& post.mem == pre.mem
                &&& post.csr_map == pre.csr_map
                &&& post.devs.len() == pre.devs.len()
                &&& forall|j: int| 0 <= j < pre.devs.len() && j != idx ==> post.devs[j]
                    == pre.devs[j]
                &&& spec_device_write(pre.devs[idx], post.devs[idx], csr, pre.mem, to_write,
                Result::<(), Fault>::Ok(()))
                &&& exists|old_val: u32|
                    {
                        &&& post.regs == spec_write_reg(pre.regs, d.rd as int, old_val)
                        &&& (d.rd != 0 ==> exists|ev: Option<KeyEvent>| old_val == spec_encode_key(
                            ev,
                        ) as u32)
                        &&& (d.rd == 0 ==> old_val == 0)
                    }
            },
        }
    }
}

/// The step relation of one tick: fetching past the end of memory faults;
/// otherwise the word at the program counter is decoded by its low 7 bits
/// and the matching relation pins the next state or the fault. A fault
/// leaves the state unchanged.
pub open spec fn spec_step(pre: CoreState, post: CoreState, r: Result<(), Fault>) -> bool {
    if pre.pc + 4 > pre.mem.len() {
        r == Result::<(), Fault>::Err(Fault::OutOfRangeAccess(pre.pc)) && post == pre
    } else {
        let insn = spec_load(pre.mem, pre.pc as int, MemAccessSize::Word);
        let opcode = insn & 0x7f;
        if opcode == 0b0110111 {
            r == Result::<(), Fault>::Ok(()) && spec_lui_rel(pre, post, spec_u_type(insn))
        } else if opcode == 0b0010111 {
            r == Result::<(), Fault>::Ok(()) && spec_auipc_rel(pre, post, spec_u_type(insn))
        } else if opcode == 0b1101111 {
            r == Result::<(), Fault>::Ok(()) && spec_jal_rel(pre, post, spec_j_type(insn))
        } else if opcode == 0b1100111 {
            spec_jalr_rel(pre, post, spec_i_type(insn), r)
        } else if opcode == 0b1100011 {
            spec_branch_rel(pre, post, spec_b_type(insn), r)
        } else if opcode == 0b0000011 {
            spec_load_rel(pre, post, spec_i_type(insn), r)
        } else if opcode == 0b0100011 {
            spec_store_rel(pre, post, spec_s_type(insn), r)
        } else if opcode == 0b0010011 {
            spec_alu_imm_rel(pre, post, spec_i_type(insn), r)
        } else if opcode == 0b0110011 {
            spec_alu_rel(pre, post, spec_r_type(insn), r)
        } else if opcode == 0b1110011 {
            spec_csr_rel(pre, post, spec_i_type(insn), r)
        } else {
            r == Result::<(), Fault>::Err(Fault::IllegalOpcode(opcode)) && post == pre
        }
    }
}

/// Register indices decoded from any instruction word are below 32, and the
/// selectors are below their field sizes.
proof fn lemma_decode_bounds(insn: u32)
    by (bit_vector)
    ensures
        (insn >> 7) & 0x1f < 32,
        (insn >> 15) & 0x1f < 32,
        (insn >> 20) & 0x1f < 32,
        (insn >> 12) & 0x7 < 8,
        (insn >> 25) & 0x7f < 128,
        insn & 0x7f < 128,
{
}

/// The CPU: register file, program counter, CSR bus, memory, instruction
/// counter and the instruction-per-second meter.
pub struct Cpu {
    pub registers: [u32; 32],
    pub pc: u32,
    pub csrs: Csrs,
    pub mem: Memory,
    pub insn_count: u64,
    pub fps_counter: FPSCounter,
    pub fps: usize,
}

impl Cpu {
    /// Register 0 reads as zero, the memory and the bus are well formed.
    pub open spec fn wf(&self) -> bool {
        &&& self.registers@[0] == 0
        &&& self.mem.wf()
        &&& self.csrs.wf()
    }

    /// The observable machine state.
    pub open spec fn model(&self) -> CoreState {
        CoreState {
            regs: self.registers@,
            pc: self.pc,
            mem: self.mem.vec@,
            csr_map: self.csrs.map@,
            devs: self.csrs.csrs@,
        }
    }

    /// A CPU over the given bus, with zeroed registers, the program counter
    /// at zero, a zeroed default-sized memory and no instructions retired.
    pub fn new(csrs: Csrs) -> (cpu: Cpu)
        requires
            csrs.wf(),
        ensures
            cpu.wf(),
            cpu.registers@ =~= Seq::new(32, |i: int| 0u32),
            cpu.pc == 0,
            cpu.insn_count == 0,
            cpu.fps == 0,
            cpu.mem.vec@.len() == DEFAULT_MEM_SIZE,
            cpu.mem.vec@ =~= Seq::new(DEFAULT_MEM_SIZE as nat, |i: int| 0u8),
            cpu.csrs == csrs,
    {
        Cpu {
            registers: [0u32; 32],
            pc: 0,
            csrs,
            mem: Memory::new(DEFAULT_MEM_SIZE),
            insn_count: 0,
            fps_counter: fps_counter_new(),
            fps: 0,
        }
    }

    /// Load a firmware image into the low end of memory.
    pub fn flash(&mut self, data: &[u8])
        requires
            data@.len() <= old(self).mem.vec@.len(),
        ensures
            final(self).mem.vec@ =~= data@ + old(self).mem.vec@.skip(data@.len() as int),
            final(self).registers == old(self).registers,
            final(self).pc == old(self).pc,
            final(self).csrs == old(self).csrs,
            final(self).insn_count == old(self).insn_count,
            final(self).fps == old(self).fps,
            old(self).wf() ==> final(self).wf(),
    {
        self.mem.flash(data);
    }

    /// Write a register; register 0 silently discards the value.
    fn write_register(&mut self, reg_index: usize, data: u32)
        requires
            reg_index < 32,
        ensures
            final(self).registers@ == spec_write_reg(old(self).registers@, reg_index as int, data),
            final(self).pc == old(self).pc,
            final(self).csrs == old(self).csrs,
            final(self).mem == old(self).mem,
            final(self).insn_count == old(self).insn_count,
            final(self).fps_counter == old(self).fps_counter,
            final(self).fps == old(self).fps,
            old(self).wf() ==> final(self).wf(),
    {
        if reg_index == 0 {
            return ;
        }
        self.registers[reg_index] = data;
    }

    /// Read a register; register 0 reads as zero.
    pub fn read_register(&self, reg_index: usize) -> (r: u32)
        requires
            reg_index < 32,
            self.wf(),
        ensures
            r == self.registers@[reg_index as int],
    {
        if reg_index == 0 {
            0
        } else {
            self.registers[reg_index]
        }
    }

    /// Route a CSR write through the bus, handing the device the RAM.
    fn write_csr(&mut self, csr_addr: u32, data: u32) -> (r: Result<(), Fault>)
        requires
            old(self).wf(),
        ensures
            final(self).wf(),
            final(self).registers == old(self).registers,
            final(self).pc == old(self).pc,
            final(self).mem.vec@ == old(self).mem.vec@,
            final(self).csrs.map@ == old(self).csrs.map@,
            final(self).csrs.csrs@.len() == old(self).csrs.csrs@.len(),
            final(self).insn_count == old(self).insn_count,
            final(self).fps_counter == old(self).fps_counter,
            final(self).fps == old(self).fps,
            if old(self).csrs.map@.contains_key(csr_addr) {
                let idx = old(self).csrs.map@[csr_addr] as int;
                &&& spec_device_write(
                    old(self).csrs.csrs@[idx],
                    final(self).csrs.csrs@[idx],
                    csr_addr,
                    old(self).mem.vec@,
                    data,
                    r,
                )
                &&& forall|j: int| 0 <= j < old(self).csrs.csrs@.len() && j != idx ==> final(self).csrs.csrs@[j] == old(self).csrs.csrs@[j]
            } else {
                &&& r == Result::<(), Fault>::Err(Fault::UnknownCsr(csr_addr))
                &&& final(self).csrs.csrs@ == old(self).csrs.csrs@
            },
    {
        self.csrs.write(csr_addr, &mut self.mem.vec, data)
    }

    /// Route a CSR read through the bus. The devices do not change on a
    /// read; only the keyboard yields a value.
    fn read_csr(&mut self, csr_addr: u32) -> (r: Result<u32, Fault>)
        requires
            old(self).wf(),
        ensures
            final(self).wf(),
            final(self).model() == old(self).model(),
            final(self).insn_count == old(self).insn_count,
            final(self).fps_counter == old(self).fps_counter,
            final(self).fps == old(self).fps,
            match r {
                Ok(v) => {
                    &&& old(self).csrs.map@.contains_key(csr_addr)
                    &&& old(self).csrs.csrs@[old(self).csrs.map@[csr_addr] as int] is Keyboard
                    &&& exists|ev: Option<KeyEvent>| v == spec_encode_key(ev) as u32
                },
                Err(f) => if old(self).csrs.map@.contains_key(csr_addr) {
                    &&& f == Fault::CsrReadDenied(csr_addr)
                    &&& !(old(self).csrs.csrs@[old(self).csrs.map@[csr_addr] as int] is Keyboard)
                } else {
                    f == Fault::UnknownCsr(csr_addr)
                },
            },
    {
        let r = self.csrs.read(csr_addr, &mut self.mem.vec);
        proof {
            assert(self.csrs.csrs@ =~= old(self).csrs.csrs@);
        }
        r
    }

    /// One fetch/decode/execute step. On success the step relation holds and
    /// the instruction counter advances by one; on a fault the observable
    /// state is exactly as it was on entry.
    pub fn tick(&mut self) -> (r: Result<(), Fault>)
        requires
            old(self).wf(),
            old(self).insn_count < u64::MAX,
        ensures
            final(self).wf(),
            final(self).registers@[0] == 0,
            spec_step(old(self).model(), final(self).model(), r),
            r is Ok ==> final(self).insn_count == old(self).insn_count + 1,
            r is Err ==> {
                &&& final(self).model() == old(self).model()
                &&& final(self).insn_count == old(self).insn_count
                &&& final(self).fps == old(self).fps
                &&& final(self).fps_counter == old(self).fps_counter
            },
    {
        let insn = match self.mem.read(self.pc, MemAccessSize::Word) {
            Ok(v) => v,
            Err(f) => {
                return Err(f);
            },
        };
        proof {
            lemma_decode_bounds(insn);
        }
        let opcode = insn & 0x7F;
        let res: Result<(), Fault> = if opcode == 0b0110111 {
            self.lui(UType::from(insn));
            Ok(())
        } else if opcode == 0b0010111 {
            self.auipc(UType::from(insn));
            Ok(())
        } else if opcode == 0b1101111 {
            self.jal(JType::from(insn));
            Ok(())
        } else if opcode == 0b1100111 {
            self.jalr(IType::from(insn))
        } else if opcode == 0b1100011 {
            self.branch(BType::from(insn))
        } else if opcode == 0b0000011 {
            self.load(IType::from(insn))
        } else if opcode == 0b0100011 {
            self.store(SType::from(insn))
        } else if opcode == 0b0010011 {
            self.alu_imm(IType::from(insn))
        } else if opcode == 0b0110011 {
            self.alu(RType::from(insn))
        } else if opcode == 0b1110011 {
            self.csr(IType::from(insn))
        } else {
            return Err(Fault::IllegalOpcode(opcode));
        };
        match res {
            Ok(()) => {},
            Err(f) => {
                return Err(f);
            },
        }
        self.insn_count = self.insn_count + 1;
        if self.insn_count % METER_PERIOD == 0 {
            let t = fps_counter_tick(&mut self.fps_counter);
            self.fps = if t > usize::MAX / 512 {
                usize::MAX
            } else {
                t * 512
            };
        }
        Ok(())
    }

    /// LUI: load the upper immediate.
    fn lui(&mut self, insn: UType)
        requires
            old(self).wf(),
            insn.rd < 32,
            old(self).pc + 4 <= 0xffff_ffff,
        ensures
            final(self).wf(),
            spec_lui_rel(old(self).model(), final(self).model(), insn),
            final(self).insn_count == old(self).insn_count,
            final(self).fps_counter == old(self).fps_counter,
            final(self).fps == old(self).fps,
    {
        self.write_register(insn.rd, insn.imm);
        self.pc = self.pc + 4;
    }

    /// AUIPC: add the upper immediate to the program counter.
    fn auipc(&mut self, insn: UType)
        requires
            old(self).wf(),
            insn.rd < 32,
            old(self).pc + 4 <= 0xffff_ffff,
        ensures
            final(self).wf(),
            spec_auipc_rel(old(self).model(), final(self).model(), insn),
            final(self).insn_count == old(self).insn_count,
            final(self).fps_counter == old(self).fps_counter,
            final(self).fps == old(self).fps,
    {
        self.write_register(insn.rd, self.pc.wrapping_add(insn.imm));
        self.pc = self.pc + 4;
    }

    /// JAL: jump and link.
    fn jal(&mut self, insn: JType)
        requires
            old(self).wf(),
            insn.rd < 32,
            old(self).pc + 4 <= 0xffff_ffff,
        ensures
            final(self).wf(),
            spec_jal_rel(old(self).model(), final(self).model(), insn),
            final(self).insn_count == old(self).insn_count,
            final(self).fps_counter == old(self).fps_counter,
            final(self).fps == old(self).fps,
    {
        self.write_register(insn.rd, self.pc + 4);
        self.pc = self.pc.wrapping_add(insn.imm as u32);
    }

    /// JALR: jump to register plus immediate and link.
    fn jalr(&mut self, insn: IType) -> (r: Result<(), Fault>)
        requires
            old(self).wf(),
            insn.rd < 32,
            insn.rs1 < 32,
            old(self).pc + 4 <= 0xffff_ffff,
        ensures
            final(self).wf(),
            spec_jalr_rel(old(self).model(), final(self).model(), insn, r),
            final(self).insn_count == old(self).insn_count,
            final(self).fps_counter == old(self).fps_counter,
            final(self).fps == old(self).fps,
            r is Err ==> final(self).model() == old(self).model(),
    {
        if insn.funct3 != 0 {
            return Err(Fault::IllegalFunction(insn.funct3, 0));
        }
        let target = self.read_register(insn.rs1).wrapping_add(insn.imm as u32) & !1u32;
        self.write_register(insn.rd, self.pc + 4);
        self.pc = target;
        Ok(())
    }

    /// Branch: compare and conditionally displace the program counter.
    fn branch(&mut self, insn: BType) -> (r: Result<(), Fault>)
        requires
            old(self).wf(),
            insn.rs1 < 32,
            insn.rs2 < 32,
            old(self).pc + 4 <= 0xffff_ffff,
        ensures
            final(self).wf(),
            spec_branch_rel(old(self).model(), final(self).model(), insn, r),
            final(self).insn_count == old(self).insn_count,
            final(self).fps_counter == old(self).fps_counter,
            final(self).fps == old(self).fps,
            r is Err ==> final(self).model() == old(self).model(),
    {
        let l = self.read_register(insn.rs1);
        let r_val = self.read_register(insn.rs2);
        let do_branch = if insn.funct3 == 0b000 {
            l == r_val
        } else if insn.funct3 == 0b001 {
            l != r_val
        } else if insn.funct3 == 0b100 {
            (l as i32) < (r_val as i32)
        } else if insn.funct3 == 0b101 {
            (l as i32) >= (r_val as i32)
        } else if insn.funct3 == 0b110 {
            l < r_val
        } else if insn.funct3 == 0b111 {
            l >= r_val
        } else {
            return Err(Fault::IllegalFunction(insn.funct3, 0));
        };
        if do_branch {
            self.pc = self.pc.wrapping_add(insn.imm as u32);
        } else {
            self.pc = self.pc + 4;
        }
        Ok(())
    }

    /// Load: read memory into a register, sign-extending narrow signed
    /// variants.
    fn load(&mut self, insn: IType) -> (r: Result<(), Fault>)
        requires
            old(self).wf(),
            insn.rd < 32,
            insn.rs1 < 32,
            old(self).pc + 4 <= 0xffff_ffff,
        ensures
            final(self).wf(),
            spec_load_rel(old(self).model(), final(self).model(), insn, r),
            final(self).insn_count == old(self).insn_count,
            final(self).fps_counter == old(self).fps_counter,
            final(self).fps == old(self).fps,
            r is Err ==> final(self).model() == old(self).model(),
    {
        let size = if insn.funct3 == 0b000 || insn.funct3 == 0b100 {
            MemAccessSize::Byte
        } else if insn.funct3 == 0b001 || insn.funct3 == 0b101 {
            MemAccessSize::HalfWord
        } else if insn.funct3 == 0b010 {
            MemAccessSize::Word
        } else {
            return Err(Fault::IllegalFunction(insn.funct3, 0));
        };
        let addr = self.read_register(insn.rs1).wrapping_add(insn.imm as u32);
        let raw = match self.mem.read(addr, size) {
            Ok(v) => v,
            Err(f) => {
                return Err(f);
            },
        };
        let data = if insn.funct3 == 0b000 {
            raw as i8 as i32 as u32
        } else if insn.funct3 == 0b001 {
            raw as i16 as i32 as u32
        } else {
            raw
        };
        self.write_register(insn.rd, data);
        self.pc = self.pc + 4;
        Ok(())
    }

    /// Store: write the low bytes of a register to memory.
    fn store(&mut self, insn: SType) -> (r: Result<(), Fault>)
        requires
            old(self).wf(),
            insn.rs1 < 32,
            insn.rs2 < 32,
            old(self).pc + 4 <= 0xffff_ffff,
        ensures
            final(self).wf(),
            spec_store_rel(old(self).model(), final(self).model(), insn, r),
            final(self).insn_count == old(self).insn_count,
            final(self).fps_counter == old(self).fps_counter,
            final(self).fps == old(self).fps,
            r is Err ==> final(self).model() == old(self).model(),
    {
        let addr = self.read_register(insn.rs1).wrapping_add(insn.imm as u32);
        let data = self.read_register(insn.rs2);
        let size = if insn.funct3 == 0b000 {
            MemAccessSize::Byte
        } else if insn.funct3 == 0b001 {
            MemAccessSize::HalfWord
        } else if insn.funct3 == 0b010 {
            MemAccessSize::Word
        } else {
            return Err(Fault::IllegalFunction(insn.funct3, 0));
        };
        match self.mem.write(addr, size, data) {
            Ok(()) => {},
            Err(f) => {
                return Err(f);
            },
        }
        self.pc = self.pc + 4;
        Ok(())
    }

    /// Immediate ALU operations, including the immediate shifts.
    fn alu_imm(&mut self, insn: IType) -> (r: Result<(), Fault>)
        requires
            old(self).wf(),
            insn.rd < 32,
            insn.rs1 < 32,
            insn.funct3 < 8,
            old(self).pc + 4 <= 0xffff_ffff,
        ensures
            final(self).wf(),
            spec_alu_imm_rel(old(self).model(), final(self).model(), insn, r),
            final(self).insn_count == old(self).insn_count,
            final(self).fps_counter == old(self).fps_counter,
            final(self).fps == old(self).fps,
            r is Err ==> final(self).model() == old(self).model(),
    {
        let data = self.read_register(insn.rs1);
        let result = if insn.funct3 == 0b000 {
            data.wrapping_add(insn.imm as u32)
        } else if insn.funct3 == 0b010 {
            if (data as i32) < insn.imm {
                1
            } else {
                0
            }
        } else if insn.funct3 == 0b011 {
            if data < insn.imm as u32 {
                1
            } else {
                0
            }
        } else if insn.funct3 == 0b100 {
            data ^ (insn.imm as u32)
        } else if insn.funct3 == 0b110 {
            data | (insn.imm as u32)
        } else if insn.funct3 == 0b111 {
            data & (insn.imm as u32)
        } else if insn.funct3 == 0b001 {
            let (sh, flag) = match shamt(insn) {
                Ok(v) => v,
                Err(f) => {
                    return Err(f);
                },
            };
            if flag {
                return Err(Fault::IllegalFunction(insn.funct3, (insn.imm as u32) >> 5));
            }
            proof {
                let im = insn.imm;
                assert((im as u32) & 0x1f < 32) by (bit_vector);
            }
            data << sh
        } else {
            let (sh, flag) = match shamt(insn) {
                Ok(v) => v,
                Err(f) => {
                    return Err(f);
                },
            };
            proof {
                let im = insn.imm;
                assert((im as u32) & 0x1f < 32) by (bit_vector);
            }
            if !flag {
                data >> sh
            } else {
                ((data as i32) >> sh) as u32
            }
        };
        self.write_register(insn.rd, result);
        self.pc = self.pc + 4;
        Ok(())
    }

    /// Register ALU operations.
    fn alu(&mut self, insn: RType) -> (r: Result<(), Fault>)
        requires
            old(self).wf(),
            insn.rd < 32,
            insn.rs1 < 32,
            insn.rs2 < 32,
            old(self).pc + 4 <= 0xffff_ffff,
        ensures
            final(self).wf(),
            spec_alu_rel(old(self).model(), final(self).model(), insn, r),
            final(self).insn_count == old(self).insn_count,
            final(self).fps_counter == old(self).fps_counter,
            final(self).fps == old(self).fps,
            r is Err ==> final(self).model() == old(self).model(),
    {
        let l = self.read_register(insn.rs1);
        let r_val = self.read_register(insn.rs2);
        proof {
            assert(r_val & 0x1f < 32) by (bit_vector);
        }
        let result = if insn.funct3 == 0b000 && insn.funct7 == 0 {
            l.wrapping_add(r_val)
        } else if insn.funct3 == 0b000 && insn.funct7 == 0b100000 {
            l.wrapping_sub(r_val)
        } else if insn.funct3 == 0b001 && insn.funct7 == 0 {
            l << (r_val & 0x1f)
        } else if insn.funct3 == 0b010 && insn.funct7 == 0 {
            if (l as i32) < (r_val as i32) {
                1
            } else {
                0
            }
        } else if insn.funct3 == 0b011 && insn.funct7 == 0 {
            if l < r_val {
                1
            } else {
                0
            }
        } else if insn.funct3 == 0b100 && insn.funct7 == 0 {
            l ^ r_val
        } else if insn.funct3 == 0b101 && insn.funct7 == 0 {
            l >> (r_val & 0x1f)
        } else if insn.funct3 == 0b101 && insn.funct7 == 0b100000 {
            ((l as i32) >> (r_val & 0x1f)) as u32
        } else if insn.funct3 == 0b110 && insn.funct7 == 0 {
            l | r_val
        } else if insn.funct3 == 0b111 && insn.funct7 == 0 {
            l & r_val
        } else {
            return Err(Fault::IllegalFunction(insn.funct3, insn.funct7));
        };
        self.write_register(insn.rd, result);
        self.pc = self.pc + 4;
        Ok(())
    }

    /// The CSR read/write-swap instruction.
    fn csr(&mut self, insn: IType) -> (r: Result<(), Fault>)
        requires
            old(self).wf(),
            insn.rd < 32,
            insn.rs1 < 32,
            old(self).pc + 4 <= 0xffff_ffff,
        ensures
            final(self).wf(),
            spec_csr_rel(old(self).model(), final(self).model(), insn, r),
            final(self).insn_count == old(self).insn_count,
            final(self).fps_counter == old(self).fps_counter,
            final(self).fps == old(self).fps,
            r is Err ==> final(self).model() == old(self).model(),
    {
        let csr_addr = (insn.imm as u32) & 0xFFF;
        if insn.funct3 != 0b001 {
            return Err(Fault::IllegalFunction(insn.funct3, 0));
        }
        let to_write = self.read_register(insn.rs1);
        let data = if insn.rd != 0 {
            match self.read_csr(csr_addr) {
                Ok(v) => v,
                Err(f) => {
                    return Err(f);
                },
            }
        } else {
            0
        };
        match self.write_csr(csr_addr, to_write) {
            Ok(()) => {},
            Err(f) => {
                proof {
                    if old(self).csrs.map@.contains_key(csr_addr) {
                        lemma_device_write_fault_cases(
                            old(self).csrs.csrs@[old(self).csrs.map@[csr_addr] as int],
                            self.csrs.csrs@[old(self).csrs.map@[csr_addr] as int],
                            csr_addr,
                            old(self).mem.vec@,
                            to_write,
                            Result::<(), Fault>::Err(f),
                        );
                    }
                    assert(self.csrs.csrs@ =~= old(self).csrs.csrs@);
                }
                return Err(f);
            },
        }
        proof {
            if old(self).csrs.map@.contains_key(csr_addr) {
                lemma_device_write_fault_cases(
                    old(self).csrs.csrs@[old(self).csrs.map@[csr_addr] as int],
                    self.csrs.csrs@[old(self).csrs.map@[csr_addr] as int],
                    csr_addr,
                    old(self).mem.vec@,
                    to_write,
                    Result::<(), Fault>::Ok(()),
                );
            }
        }
        self.write_register(insn.rd, data);
        self.pc = self.pc + 4;
        Ok(())
    }
}

/// A device write's result is exactly determined by the fault its state and
/// arguments name: it faults with that fault, leaving the device unchanged,
/// or succeeds.
proof fn lemma_device_write_fault_cases(
    pre: Device,
    post: Device,
    csr: u32,
    ram: Seq<u8>,
    data: u32,
    r: Result<(), Fault>,
)
    requires
        spec_device_write(pre, post, csr, ram, data, r),
    ensures
        match spec_device_write_fault(pre, csr, ram, data) {
            Some(f) => r == Result::<(), Fault>::Err(f) && post == pre,
            None => r == Result::<(), Fault>::Ok(()),
        },
{
    match pre {
        Device::Ddi(_) => {},
        Device::Printer(_) => {},
        Device::DebugLog(_) => {},
        Device::HeapGauge(_) => {},
        Device::Keyboard(_) => {},
    }
}

/// Writes to register 0 do not change its value: the register file is the
/// same sequence afterwards.
pub proof fn lemma_write_to_register_zero_ignored(regs: Seq<u32>, v: u32)
    ensures
        spec_write_reg(regs, 0, v) == regs,
{
}

/// After any successful non-branch, non-jump instruction the program counter
/// advances by exactly 4.
pub proof fn lemma_pc_advances_by_four(pre: CoreState, post: CoreState)
    requires
        pre.mem.len() <= 0xffff_ffff,
        spec_step(pre, post, Result::<(), Fault>::Ok(())),
        ({
            let opcode = spec_load(pre.mem, pre.pc as int, MemAccessSize::Word) & 0x7f;
            opcode != 0b1101111 && opcode != 0b1100111 && opcode != 0b1100011
        }),
    ensures
        post.pc == pre.pc + 4,
{
}

/// Decode the shift amount and the arithmetic-shift flag from an immediate;
/// flag bits other than zero or the arithmetic mark fault.
fn shamt(insn: IType) -> (r: Result<(u32, bool), Fault>)
    ensures
        match r {
            Ok((sh, flag)) => {
                &&& sh == (insn.imm as u32) & 0x1f
                &&& (flag <==> (insn.imm as u32) >> 5 == 0b100000)
                &&& ((insn.imm as u32) >> 5 == 0 || (insn.imm as u32) >> 5 == 0b100000)
            },
            Err(f) => {
                &&& f == Fault::IllegalFunction(insn.funct3, (insn.imm as u32) >> 5)
                &&& (insn.imm as u32) >> 5 != 0
                &&& (insn.imm as u32) >> 5 != 0b100000
            },
        },
{
    let sh = (insn.imm as u32) & 0b11111;
    let flags = (insn.imm as u32) >> 5;
    let flag = if flags == 0 {
        false
    } else if flags == 0b100000 {
        true
    } else {
        return Err(Fault::IllegalFunction(insn.funct3, flags));
    };
    Ok((sh, flag))
}

} // verus!

