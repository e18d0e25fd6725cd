//! x86 instruction decoder: turns the bytes of one x86 instruction into a
//! decoded `Instruction` (opcode, length, prefixes, operands, immediate and
//! displacement), following the layout of the Bochs `cpu/decoder/` tables.
//!
//! Modules:
//! - `fetchdecode32` / `fetchdecode64` — 16/32-bit and 64-bit fetch-decode
//! - `decode_common` — the decoding steps both modes share
//! - `properties32` / `properties64` — what decoding reads and produces:
//!   the extent of an instruction and the ranges of its fields
//! - `opmap` / `opmap_tables` / `opmap_x87` — opcode lookup tables
//! - `instr_generated` — the decoder's instruction record (Bochs layout)
//! - `instruction` — flattened instruction struct with named fields
//! - `opcode` / `opcode_isa` — opcode enumeration and per-opcode attributes
//! - `error` — decoding errors
//! - `bytes` — little-endian byte packing shared by the above

use vstd::prelude::*;

pub mod bytes;
pub mod decode_common;
pub mod error;
pub mod fetchdecode32;
pub mod fetchdecode64;
pub mod instr_generated;
pub mod instruction;
pub mod opcode;
pub mod opcode_isa;
pub mod opcode_tables;
pub mod opmap;
pub mod opmap_tables;
pub mod opmap_x87;
pub mod properties32;
pub mod properties64;

pub use error::{BxDecodeError, DecodeError, DecodeResult};
pub use fetchdecode32::fetch_decode32;
pub use fetchdecode64::fetch_decode64;
pub use opcode::Opcode;

verus! {

pub const BX_ISA_EXTENSIONS_ARRAY_SIZE: usize = 5;

/// Segment register encoding: ES=0, CS=1, SS=2, DS=3, FS=4, GS=5 and the
/// null segment register 7.
#[derive(Debug, Clone, Copy, PartialEq, Eq, Structural, Hash)]
pub enum BxSegregs {
    Es,
    Cs,
    Ss,
    Ds,
    Fs,
    Gs,
    // NULL now has to fit in 3 bits.
    Null,
}

/// The encoding of a segment register.
pub open spec fn segreg_code(s: BxSegregs) -> u8 {
    match s {
        BxSegregs::Es => 0,
        BxSegregs::Cs => 1,
        BxSegregs::Ss => 2,
        BxSegregs::Ds => 3,
        BxSegregs::Fs => 4,
        BxSegregs::Gs => 5,
        BxSegregs::Null => 7,
    }
}

/// The segment register that an encoding names; an encoding that names
/// none (6, or 8 and above) gives DS.
pub open spec fn segreg_from_code(val: u8) -> BxSegregs {
    match val {
        0 => BxSegregs::Es,
        1 => BxSegregs::Cs,
        2 => BxSegregs::Ss,
        3 => BxSegregs::Ds,
        4 => BxSegregs::Fs,
        5 => BxSegregs::Gs,
        7 => BxSegregs::Null,
        _ => BxSegregs::Ds,
    }
}

/// Returns `true` if `seg` encodes the null segment register (value 7).
pub fn is_null_seg_reg(seg: u8) -> (r: bool)
    ensures
        r == (seg == segreg_code(BxSegregs::Null)),
{
    seg == BxSegregs::Null.as_u8()
}

impl BxSegregs {
    /// Convert from raw u8 to BxSegregs; values that name no segment
    /// register give `Ds`.
    pub fn from_u8(val: u8) -> (r: Self)
        ensures
            r == segreg_from_code(val),
    {
        match val {
            0 => BxSegregs::Es,
            1 => BxSegregs::Cs,
            2 => BxSegregs::Ss,
            3 => BxSegregs::Ds,
            4 => BxSegregs::Fs,
            5 => BxSegregs::Gs,
            7 => BxSegregs::Null,
            _ => BxSegregs::Ds,
        }
    }

    /// The encoding of this segment register.
    pub fn as_u8(self) -> (r: u8)
        ensures
            r == segreg_code(self),
    {
        match self {
            BxSegregs::Es => 0,
            BxSegregs::Cs => 1,
            BxSegregs::Ss => 2,
            BxSegregs::Ds => 3,
            BxSegregs::Fs => 4,
            BxSegregs::Gs => 5,
            BxSegregs::Null => 7,
        }
    }
}

impl From<u8> for BxSegregs {
    fn from(val: u8) -> (r: Self) {
        BxSegregs::from_u8(val)
    }
}

impl vstd::std_specs::convert::FromSpecImpl<u8> for BxSegregs {
    open spec fn obeys_from_spec() -> bool {
        true
    }

    open spec fn from_spec(v: u8) -> Self {
        segreg_from_code(v)
    }
}

/// Decoding a segment register's encoding gives that register back.
pub proof fn lemma_segreg_code_roundtrip(s: BxSegregs)
    ensures
        segreg_from_code(segreg_code(s)) == s,
{
}

/// Each of the codes 0..=5 and 7 names the register whose code it is.
pub proof fn lemma_segreg_from_code_roundtrip(val: u8)
    requires
        val <= 5 || val == 7,
    ensures
        segreg_code(segreg_from_code(val)) == val,
{
}

pub const BX_GENERAL_REGISTERS: usize = 16;

pub const BX_16BIT_REG_IP: usize = BX_GENERAL_REGISTERS;

pub const BX_32BIT_REG_EIP: usize = BX_GENERAL_REGISTERS;

pub const BX_64BIT_REG_RIP: usize = BX_GENERAL_REGISTERS;

pub const BX_32BIT_REG_SSP: usize = BX_GENERAL_REGISTERS + 1;

pub const BX_64BIT_REG_SSP: usize = BX_GENERAL_REGISTERS + 1;

pub const BX_TMP_REGISTER: usize = BX_GENERAL_REGISTERS + 2;

pub const BX_NIL_REGISTER: usize = BX_GENERAL_REGISTERS + 3;

pub const BX_XMM_REGISTERS: usize = 32;

} // verus!
