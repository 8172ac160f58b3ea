//! The five typed instruction shapes of the base integer set.
//!
//! Each shape is a pure function of the raw 32-bit instruction word: register
//! indices are masked to five bits and the immediate is already sign-extended.
//! No validation of function selectors happens here; illegal combinations
//! surface as faults in the execution engine.

use vstd::prelude::*;

verus! {

/// Register-register shape: two sources, one destination, two selectors.
#[derive(Debug, PartialEq, Eq, Structural, Clone, Copy)]
pub struct RType {
    pub funct7: u32,
    pub rs2: usize,
    pub rs1: usize,
    pub funct3: u32,
    pub rd: usize,
}

/// Immediate shape: one source, one destination, a 12-bit immediate
/// sign-extended to 32 bits.
#[derive(Debug, PartialEq, Eq, Structural, Clone, Copy)]
pub struct IType {
    pub imm: i32,
    pub rs1: usize,
    pub funct3: u32,
    pub rd: usize,
}

/// Store shape: two sources and a 12-bit immediate split across two fields,
/// sign-extended.
#[derive(Debug, PartialEq, Eq, Structural, Clone, Copy)]
pub struct SType {
    pub imm: i32,
    pub rs2: usize,
    pub rs1: usize,
    pub funct3: u32,
}

/// Branch shape: two sources and a 13-bit displacement whose low bit is
/// implicitly zero, sign-extended.
#[derive(Debug, PartialEq, Eq, Structural, Clone, Copy)]
pub struct BType {
    pub imm: i32,
    pub rs2: usize,
    pub rs1: usize,
    pub funct3: u32,
}

/// Upper-immediate shape: the 20-bit immediate occupies the upper bits of a
/// 32-bit value whose low 12 bits are zero.
#[derive(Debug, PartialEq, Eq, Structural, Clone, Copy)]
pub struct UType {
    pub imm: u32,
    pub rd: usize,
}

/// Jump shape: a 21-bit displacement whose low bit is implicitly zero,
/// sign-extended.
#[derive(Debug, PartialEq, Eq, Structural, Clone, Copy)]
pub struct JType {
    pub imm: i32,
    pub rd: usize,
}

/// The signed I-immediate: bits [30:20] reduced by one sign span of 2^11 when
/// bit 31 of the word is set.
pub open spec fn spec_i_imm(insn: u32) -> i32 {
    let uimm = ((insn >> 20) & 0x7ff) as i32;
    if insn & 0x8000_0000 != 0 {
        (uimm - 0x800) as i32
    } else {
        uimm
    }
}

/// The signed S-immediate: bits [30:25] and [11:7], reduced by 2^11 when bit
/// 31 is set.
pub open spec fn spec_s_imm(insn: u32) -> i32 {
    let uimm = (((insn >> 20) & 0x7e0) | ((insn >> 7) & 0x1f)) as i32;
    if insn & 0x8000_0000 != 0 {
        (uimm - 0x800) as i32
    } else {
        uimm
    }
}

/// The signed B-immediate: bits [30:25], [11:8] and [7], low bit implicitly
/// zero, reduced by 2^12 when bit 31 is set.
pub open spec fn spec_b_imm(insn: u32) -> i32 {
    let uimm = (((insn >> 20) & 0x7e0) | ((insn >> 7) & 0x1e) | ((insn & 0x80) << 4)) as i32;
    if insn & 0x8000_0000 != 0 {
        (uimm - 0x1000) as i32
    } else {
        uimm
    }
}

/// The U-immediate: bits [31:12] kept in place, low 12 bits zero.
pub open spec fn spec_u_imm(insn: u32) -> u32 {
    insn & 0xffff_f000
}

/// The signed J-immediate: bits [19:12], [20] and [30:21], low bit implicitly
/// zero, reduced by 2^20 when bit 31 is set.
pub open spec fn spec_j_imm(insn: u32) -> i32 {
    let uimm = ((insn & 0xff000) | ((insn & 0x100000) >> 9) | ((insn >> 20) & 0x7fe)) as i32;
    if insn & 0x8000_0000 != 0 {
        (uimm - 0x100000) as i32
    } else {
        uimm
    }
}

/// The R shape decoded from a word.
pub open spec fn spec_r_type(insn: u32) -> RType {
    RType {
        funct7: (insn >> 25) & 0x7f,
        rs2: ((insn >> 20) & 0x1f) as usize,
        rs1: ((insn >> 15) & 0x1f) as usize,
        funct3: (insn >> 12) & 0x7,
        rd: ((insn >> 7) & 0x1f) as usize,
    }
}

/// The I shape decoded from a word.
pub open spec fn spec_i_type(insn: u32) -> IType {
    IType {
        imm: spec_i_imm(insn),
        rs1: ((insn >> 15) & 0x1f) as usize,
        funct3: (insn >> 12) & 0x7,
        rd: ((insn >> 7) & 0x1f) as usize,
    }
}

/// The S shape decoded from a word.
pub open spec fn spec_s_type(insn: u32) -> SType {
    SType {
        imm: spec_s_imm(insn),
        rs2: ((insn >> 20) & 0x1f) as usize,
        rs1: ((insn >> 15) & 0x1f) as usize,
        funct3: (insn >> 12) & 0x7,
    }
}

/// The B shape decoded from a word.
pub open spec fn spec_b_type(insn: u32) -> BType {
    BType {
        imm: spec_b_imm(insn),
        rs2: ((insn >> 20) & 0x1f) as usize,
        rs1: ((insn >> 15) & 0x1f) as usize,
        funct3: (insn >> 12) & 0x7,
    }
}

/// The U shape decoded from a word.
pub open spec fn spec_u_type(insn: u32) -> UType {
    UType { imm: spec_u_imm(insn), rd: ((insn >> 7) & 0x1f) as usize }
}

/// The J shape decoded from a word.
pub open spec fn spec_j_type(insn: u32) -> JType {
    JType { imm: spec_j_imm(insn), rd: ((insn >> 7) & 0x1f) as usize }
}

impl From<u32> for RType {
    fn from(insn: u32) -> (r: Self) {
        Self {
            funct7: (insn >> 25) & 0x7f,
            rs2: ((insn >> 20) & 0x1f) as usize,
            rs1: ((insn >> 15) & 0x1f) as usize,
            funct3: (insn >> 12) & 0x7,
            rd: ((insn >> 7) & 0x1f) as usize,
        }
    }
}

impl vstd::std_specs::convert::FromSpecImpl<u32> for RType {
    open spec fn obeys_from_spec() -> bool {
        true
    }

    open spec fn from_spec(insn: u32) -> Self {
        spec_r_type(insn)
    }
}

impl From<u32> for IType {
    fn from(insn: u32) -> (r: Self) {
        proof {
            assert((insn >> 20) & 0x7ff <= 0x7ff) by (bit_vector);
        }
        let uimm: i32 = ((insn >> 20) & 0x7ff) as i32;
        let imm: i32 = if (insn & 0x8000_0000) != 0 {
            uimm - 0x800
        } else {
            uimm
        };
        Self {
            imm,
            rs1: ((insn >> 15) & 0x1f) as usize,
            funct3: (insn >> 12) & 0x7,
            rd: ((insn >> 7) & 0x1f) as usize,
        }
    }
}

impl vstd::std_specs::convert::FromSpecImpl<u32> for IType {
    open spec fn obeys_from_spec() -> bool {
        true
    }

    open spec fn from_spec(insn: u32) -> Self {
        spec_i_type(insn)
    }
}

impl From<u32> for SType {
    fn from(insn: u32) -> (r: Self) {
        proof {
            assert(((insn >> 20) & 0x7e0) | ((insn >> 7) & 0x1f) <= 0x7ff) by (bit_vector);
        }
        let uimm: i32 = (((insn >> 20) & 0x7e0) | ((insn >> 7) & 0x1f)) as i32;
        let imm: i32 = if (insn & 0x8000_0000) != 0 {
            uimm - 0x800
        } else {
            uimm
        };
        Self {
            imm,
            rs2: ((insn >> 20) & 0x1f) as usize,
            rs1: ((insn >> 15) & 0x1f) as usize,
            funct3: (insn >> 12) & 0x7,
        }
    }
}

impl vstd::std_specs::convert::FromSpecImpl<u32> for SType {
    open spec fn obeys_from_spec() -> bool {
        true
    }

    open spec fn from_spec(insn: u32) -> Self {
        spec_s_type(insn)
    }
}

impl From<u32> for BType {
    fn from(insn: u32) -> (r: Self) {
        proof {
            assert(((insn >> 20) & 0x7e0) | ((insn >> 7) & 0x1e) | ((insn & 0x80) << 4) <= 0xffe)
                by (bit_vector);
        }
        let uimm: i32 = (((insn >> 20) & 0x7e0) | ((insn >> 7) & 0x1e) | ((insn & 0x80) << 4))
            as i32;
        let imm: i32 = if (insn & 0x8000_0000) != 0 {
            uimm - 0x1000
        } else {
            uimm
        };
        Self {
            imm,
            rs2: ((insn >> 20) & 0x1f) as usize,
            rs1: ((insn >> 15) & 0x1f) as usize,
            funct3: (insn >> 12) & 0x7,
        }
    }
}

impl vstd::std_specs::convert::FromSpecImpl<u32> for BType {
    open spec fn obeys_from_spec() -> bool {
        true
    }

    open spec fn from_spec(insn: u32) -> Self {
        spec_b_type(insn)
    }
}

impl From<u32> for UType {
    fn from(insn: u32) -> (r: Self) {
        UType { imm: insn & 0xffff_f000, rd: ((insn >> 7) & 0x1f) as usize }
    }
}

impl vstd::std_specs::convert::FromSpecImpl<u32> for UType {
    open spec fn obeys_from_spec() -> bool {
        true
    }

    open spec fn from_spec(insn: u32) -> Self {
        spec_u_type(insn)
    }
}

impl From<u32> for JType {
    fn from(insn: u32) -> (r: Self) {
        proof {
            assert((insn & 0xff000) | ((insn & 0x100000) >> 9) | ((insn >> 20) & 0x7fe)
                <= 0xffffe) by (bit_vector);
        }
        let uimm: i32 = ((insn & 0xff000) | ((insn & 0x100000) >> 9) | ((insn >> 20) & 0x7fe))
            as i32;
        let imm: i32 = if (insn & 0x8000_0000) != 0 {
            uimm - 0x100000
        } else {
            uimm
        };
        JType { imm, rd: ((insn >> 7) & 0x1f) as usize }
    }
}

impl vstd::std_specs::convert::FromSpecImpl<u32> for JType {
    open spec fn obeys_from_spec() -> bool {
        true
    }

    open spec fn from_spec(insn: u32) -> Self {
        spec_j_type(insn)
    }
}

/// The I-immediate placed back into its field of an instruction word.
pub open spec fn spec_encode_i_imm(imm: i32) -> u32 {
    ((imm as u32) & 0xfff) << 20
}

/// The S-immediate placed back into its two fields of an instruction word.
pub open spec fn spec_encode_s_imm(imm: i32) -> u32 {
    ((((imm as u32) & 0xfff) & 0xfe0) << 20) | ((((imm as u32) & 0xfff) & 0x1f) << 7)
}

/// The B-immediate placed back into its four fields of an instruction word.
pub open spec fn spec_encode_b_imm(imm: i32) -> u32 {
    (((imm as u32) & 0x1000) << 19) | (((imm as u32) & 0x7e0) << 20) | (((imm as u32) & 0x1e) << 7)
        | (((imm as u32) & 0x800) >> 4)
}

/// The J-immediate placed back into its four fields of an instruction word.
pub open spec fn spec_encode_j_imm(imm: i32) -> u32 {
    (((imm as u32) & 0x100000) << 11) | (((imm as u32) & 0x7fe) << 20)
        | (((imm as u32) & 0x800) << 9) | ((imm as u32) & 0xff000)
}

/// Decoding the I-immediate and placing it back reproduces the immediate
/// field of the original word.
pub proof fn lemma_i_imm_round_trip(insn: u32)
    by (bit_vector)
    ensures
        spec_encode_i_imm(spec_i_imm(insn)) == insn & 0xfff0_0000,
{
}

/// Decoding the S-immediate and placing it back reproduces the two immediate
/// fields of the original word.
pub proof fn lemma_s_imm_round_trip(insn: u32)
    by (bit_vector)
    ensures
        spec_encode_s_imm(spec_s_imm(insn)) == insn & 0xfe00_0f80,
{
}

/// Decoding the B-immediate and placing it back reproduces the four immediate
/// fields of the original word.
pub proof fn lemma_b_imm_round_trip(insn: u32)
    by (bit_vector)
    ensures
        spec_encode_b_imm(spec_b_imm(insn)) == insn & 0xfe00_0f80,
{
}

/// Decoding the J-immediate and placing it back reproduces the four immediate
/// fields of the original word.
pub proof fn lemma_j_imm_round_trip(insn: u32)
    by (bit_vector)
    ensures
        spec_encode_j_imm(spec_j_imm(insn)) == insn & 0xffff_f000,
{
}

/// Decoding the U-immediate keeps exactly the upper immediate field of the
/// original word, so placing it back is the identity.
pub proof fn lemma_u_imm_round_trip(insn: u32)
    by (bit_vector)
    ensures
        spec_u_imm(insn) == insn & 0xffff_f000,
{
}

} // verus!
