//! CPU-visible fault kinds. Any fault terminates the current tick and leaves
//! the register file, the program counter and the memory as they were on
//! entry to the tick.

use vstd::prelude::*;

verus! {

/// A fault raised while executing one instruction.
#[derive(Debug, Clone, Copy, PartialEq, Eq, Structural)]
pub enum Fault {
    /// The low 7 bits of the fetched word name no opcode handler.
    IllegalOpcode(u32),
    /// The function selectors (funct3, and funct7 or the shift flag bits) of
    /// the instruction name no operation for its opcode.
    IllegalFunction(u32, u32),
    /// A CSR instruction named an identifier that no device is installed for.
    UnknownCsr(u32),
    /// A CSR read was routed to a device that refuses to be read.
    CsrReadDenied(u32),
    /// A load, store or peripheral RAM access reached past the end of memory.
    /// Carries the base address of the access.
    OutOfRangeAccess(u32),
    /// A store address was not a multiple of the store width.
    MisalignedStore(u32),
    /// A write to a reserved peripheral trigger whose operation is not
    /// implemented. Carries the CSR identifier.
    UnimplementedOp(u32),
}

} // verus!
