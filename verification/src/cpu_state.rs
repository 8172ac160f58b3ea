//! A value-copy of the observable CPU state, published by the worker for
//! external readers: the whole register file, the program counter, the
//! cumulative instruction count and the current instruction-per-second
//! reading.

use vstd::prelude::*;

use crate::cpu::Cpu;

verus! {

/// One published snapshot of CPU state.
#[derive(Debug, Clone, Copy)]
pub struct CpuState {
    pub registers: [u32; 32],
    pub pc: u32,
    pub insn_count: u64,
    pub fps: usize,
}

impl CpuState {
    /// The snapshot of a machine that has not run yet.
    pub fn new() -> (s: CpuState)
        ensures
            s.registers@ =~= Seq::new(32, |i: int| 0u32),
            s.pc == 0,
            s.insn_count == 0,
            s.fps == 0,
    {
        CpuState { registers: [0u32; 32], pc: 0, insn_count: 0, fps: 0 }
    }
}

impl Default for CpuState {
    /// The snapshot of a machine that has not run yet.
    fn default() -> (s: CpuState)
        ensures
            s.registers@ =~= Seq::new(32, |i: int| 0u32),
            s.pc == 0,
            s.insn_count == 0,
            s.fps == 0,
    {
        CpuState::new()
    }
}

/// Capture a snapshot of the given CPU.
pub fn make_state(cpu: &Cpu) -> (s: CpuState)
    ensures
        s.registers@ == cpu.registers@,
        s.pc == cpu.pc,
        s.insn_count == cpu.insn_count,
        s.fps == cpu.fps,
{
    CpuState {
        registers: cpu.registers,
        pc: cpu.pc,
        insn_count: cpu.insn_count,
        fps: cpu.fps,
    }
}

} // verus!
