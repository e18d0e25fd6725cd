//! Decoded x86 instruction representation.
//!
//! This module contains a flattened `Instruction` struct with named fields,
//! along with typed enums for register indices, operand sizes, and
//! addressing modes.
//!
//! # x86 Instruction Encoding
//!
//! An x86 instruction is a variable-length byte sequence (1-15 bytes):
//!
//! ```text
//!  ┌──────────┬──────────┬────────┬─────┬─────────────┬──────────────┐
//!  │ Prefixes │  Opcode  │ ModR/M │ SIB │Displacement │  Immediate   │
//!  │ 0-4 bytes│ 1-3 bytes│ 0-1 B  │0-1 B│ 0/1/2/4 B   │ 0/1/2/4/8 B  │
//!  └──────────┴──────────┴────────┴─────┴─────────────┴──────────────┘
//! ```

use vstd::prelude::*;

use crate::bytes::{
    lemma_from_le_roundtrip, u32_from_le, u32_from_le_bytes, u32_le_bytes, u32_to_le_bytes,
};
use crate::opcode::Opcode;
use crate::{segreg_code, segreg_from_code, BxSegregs};

verus! {

// ============================================================================
// GprIndex — General-purpose register index enum
// ============================================================================

/// General-purpose register index — used for all register operand fields.
///
/// Values 0-15 map to x86 GPRs (RAX-R15). Values 16-19 are special.
/// The same index works for 8/16/32/64-bit access — the operand size
/// determines which portion of the register is used.
#[derive(Debug, Clone, Copy, PartialEq, Eq, Structural, Hash)]
pub enum GprIndex {
    Rax,
    Rcx,
    Rdx,
    Rbx,
    Rsp,
    Rbp,
    Rsi,
    Rdi,
    R8,
    R9,
    R10,
    R11,
    R12,
    R13,
    R14,
    R15,
    /// Instruction pointer (RIP/EIP/IP) — used for RIP-relative addressing
    Rip,
    /// Shadow stack pointer
    Ssp,
    /// Temporary register (decoder internal)
    Tmp,
    /// Nil register — reads as 0, writes discarded
    Nil,
}

/// The index of a register (0..=19).
pub open spec fn gpr_index_value(g: GprIndex) -> nat {
    match g {
        GprIndex::Rax => 0,
        GprIndex::Rcx => 1,
        GprIndex::Rdx => 2,
        GprIndex::Rbx => 3,
        GprIndex::Rsp => 4,
        GprIndex::Rbp => 5,
        GprIndex::Rsi => 6,
        GprIndex::Rdi => 7,
        GprIndex::R8 => 8,
        GprIndex::R9 => 9,
        GprIndex::R10 => 10,
        GprIndex::R11 => 11,
        GprIndex::R12 => 12,
        GprIndex::R13 => 13,
        GprIndex::R14 => 14,
        GprIndex::R15 => 15,
        GprIndex::Rip => 16,
        GprIndex::Ssp => 17,
        GprIndex::Tmp => 18,
        GprIndex::Nil => 19,
    }
}

/// The register with index `val`; values above 19 give `Nil`.
pub open spec fn gpr_from_value(val: u8) -> GprIndex {
    match val {
        0 => GprIndex::Rax,
        1 => GprIndex::Rcx,
        2 => GprIndex::Rdx,
        3 => GprIndex::Rbx,
        4 => GprIndex::Rsp,
        5 => GprIndex::Rbp,
        6 => GprIndex::Rsi,
        7 => GprIndex::Rdi,
        8 => GprIndex::R8,
        9 => GprIndex::R9,
        10 => GprIndex::R10,
        11 => GprIndex::R11,
        12 => GprIndex::R12,
        13 => GprIndex::R13,
        14 => GprIndex::R14,
        15 => GprIndex::R15,
        16 => GprIndex::Rip,
        17 => GprIndex::Ssp,
        18 => GprIndex::Tmp,
        _ => GprIndex::Nil,
    }
}

impl Default for GprIndex {
    fn default() -> (r: Self)
        ensures
            r == GprIndex::Rax,
    {
        GprIndex::Rax
    }
}

/// Number of architectural general-purpose registers (RAX-R15).
pub const GPR_GENERAL_COUNT: usize = 16;

impl GprIndex {
    /// Convert from raw u8 to GprIndex.
    /// Unknown values map to `Nil`.
    pub fn from_u8(val: u8) -> (r: Self)
        ensures
            r == gpr_from_value(val),
    {
        match val {
            0 => GprIndex::Rax,
            1 => GprIndex::Rcx,
            2 => GprIndex::Rdx,
            3 => GprIndex::Rbx,
            4 => GprIndex::Rsp,
            5 => GprIndex::Rbp,
            6 => GprIndex::Rsi,
            7 => GprIndex::Rdi,
            8 => GprIndex::R8,
            9 => GprIndex::R9,
            10 => GprIndex::R10,
            11 => GprIndex::R11,
            12 => GprIndex::R12,
            13 => GprIndex::R13,
            14 => GprIndex::R14,
            15 => GprIndex::R15,
            16 => GprIndex::Rip,
            17 => GprIndex::Ssp,
            18 => GprIndex::Tmp,
            19 => GprIndex::Nil,
            _ => GprIndex::Nil,
        }
    }

    /// Convert to usize for array indexing.
    pub fn as_usize(self) -> (r: usize)
        ensures
            r == gpr_index_value(self),
    {
        match self {
            GprIndex::Rax => 0,
            GprIndex::Rcx => 1,
            GprIndex::Rdx => 2,
            GprIndex::Rbx => 3,
            GprIndex::Rsp => 4,
            GprIndex::Rbp => 5,
            GprIndex::Rsi => 6,
            GprIndex::Rdi => 7,
            GprIndex::R8 => 8,
            GprIndex::R9 => 9,
            GprIndex::R10 => 10,
            GprIndex::R11 => 11,
            GprIndex::R12 => 12,
            GprIndex::R13 => 13,
            GprIndex::R14 => 14,
            GprIndex::R15 => 15,
            GprIndex::Rip => 16,
            GprIndex::Ssp => 17,
            GprIndex::Tmp => 18,
            GprIndex::Nil => 19,
        }
    }
}

/// `as_usize` undoes `from_u8` on every register index 0..=19.
pub proof fn lemma_gpr_index_roundtrip(val: u8)
    requires
        val <= 19,
    ensures
        gpr_index_value(gpr_from_value(val)) == val,
{
}

/// `from_u8` undoes `as_usize` on every register.
pub proof fn lemma_gpr_value_roundtrip(g: GprIndex)
    ensures
        gpr_from_value(gpr_index_value(g) as u8) == g,
{
}

// ============================================================================
// InstructionFlags — prefix and mode flags
// ============================================================================

/// Address size 32-bit
pub const FLAG_AS32: u8 = 0x01;

/// Address size 64-bit
pub const FLAG_AS64: u8 = 0x02;

/// Operand size 32-bit
pub const FLAG_OS32: u8 = 0x04;

/// Operand size 64-bit
pub const FLAG_OS64: u8 = 0x08;

/// ModRM mod field == 0xC0 (register-to-register, no memory access)
pub const FLAG_MODC0: u8 = 0x10;

/// REX prefix present — enables SPL/BPL/SIL/DIL register mapping
pub const FLAG_EXTEND8BIT: u8 = 0x20;

/// Prefix and mode flags for a decoded instruction.
///
/// # Bit Layout
///
/// ```text
///   7   6   5   4   3   2   1   0
///  ┌───┬───┬───┬───┬───┬───┬───┬───┐
///  │lock/rep│ext│mod│os │os │as │as │
///  │ (2b)   │8b │c0 │64 │32 │64 │32 │
///  └───┴───┴───┴───┴───┴───┴───┴───┘
/// ```
///
/// Bits 6-7 encode a 2-bit value for lock/rep prefixes:
/// - 0 = none
/// - 1 = LOCK (0xF0)
/// - 2 = REPNE (0xF2)
/// - 3 = REP/REPE (0xF3)
#[derive(Debug, Clone, Copy, PartialEq, Eq, Structural, Hash, Default)]
pub struct InstructionFlags {
    bits: u8,
}

impl View for InstructionFlags {
    type V = u8;

    closed spec fn view(&self) -> u8 {
        self.bits
    }
}

impl InstructionFlags {
    /// No flag set.
    pub fn empty() -> (r: Self)
        ensures
            r@ == 0,
    {
        InstructionFlags { bits: 0 }
    }

    /// The raw bits.
    pub fn bits(&self) -> (r: u8)
        ensures
            r == self@,
    {
        self.bits
    }

    /// Flags with exactly these bits, the lock/rep field included.
    pub fn from_bits_retain(bits: u8) -> (r: Self)
        ensures
            r@ == bits,
    {
        InstructionFlags { bits }
    }

    /// Set the bits of `mask`.
    pub fn insert(&mut self, mask: u8)
        ensures
            final(self)@ == old(self)@ | mask,
    {
        self.bits = self.bits | mask;
    }

    /// Clear the bits of `mask`.
    pub fn remove(&mut self, mask: u8)
        ensures
            final(self)@ == old(self)@ & !mask,
    {
        self.bits = self.bits & !mask;
    }

    /// Set the bits of `mask` when `value` holds, else clear them.
    pub fn set(&mut self, mask: u8, value: bool)
        ensures
            final(self)@ == (if value {
                old(self)@ | mask
            } else {
                old(self)@ & !mask
            }),
    {
        if value {
            self.insert(mask);
        } else {
            self.remove(mask);
        }
    }
}

// ============================================================================
// Operands — named struct replacing meta_data[8]
// ============================================================================

/// Register operands and memory addressing decoded from ModR/M and SIB bytes.
///
/// ```text
///  mod=11: register-to-register (no memory access)
///  mod=00: [r/m] — register indirect (no displacement)
///  mod=01: [r/m + disp8] — 8-bit signed displacement
///  mod=10: [r/m + disp32] — 32-bit displacement
///
///  Effective address = base + (index × 2^scale) + displacement
/// ```
#[derive(Debug, Copy, Clone, Default, PartialEq, Eq, Structural, Hash)]
pub struct Operands {
    /// Destination register index (see `GprIndex`)
    pub dst: u8,
    /// Source register 1 (or opcode extension for Group instructions)
    pub src1: u8,
    /// Source register 2 (VEX.vvv)
    pub src2: u8,
    /// Source register 3 / CET segment override (shared slot)
    pub src3: u8,
    /// Segment register override (see `BxSegregs`)
    pub segment: u8,
    /// Memory base register index (see `GprIndex`; Nil = no base)
    pub base: u8,
    /// Memory index register index (Rsp/4 = no index)
    pub index: u8,
    /// SIB scale factor (0=×1, 1=×2, 2=×4, 3=×8)
    pub scale: u8,
}

// ============================================================================
// Instruction — the flat, decoded instruction struct
// ============================================================================

/// Decoded x86 instruction with named fields.
///
/// ```text
///  ┌────────┬────────┬───────┬──────────┬───────────┬──────────────┐
///  │ opcode │ length │ flags │ operands │ immediate │ displacement │
///  │  (2B)  │  (1B)  │ (1B)  │   (8B)   │   (4B)    │     (4B)     │
///  └────────┴────────┴───────┴──────────┴───────────┴──────────────┘
/// ```
///
/// Bytes 1-3 of `immediate` (least significant first) hold AVX attributes:
/// byte 1 the vector length, byte 2 VEX.W (bit 4), EVEX.b (bit 3), EVEX.z
/// (bit 2) and rounding control (bits 1..0), byte 3 the EVEX opmask register.
#[derive(Debug, Copy, Clone, Default, PartialEq, Eq, Structural, Hash)]
pub struct Instruction {
    /// Decoded opcode identifying the instruction
    pub opcode: Opcode,
    /// Instruction byte length (1-15)
    pub length: u8,
    /// Prefix and mode flags (address/operand size, lock/rep, ModC0, extend8bit)
    pub flags: InstructionFlags,
    /// Register operands and memory addressing components
    pub operands: Operands,
    /// Primary immediate value (also stores AVX attributes in upper bytes)
    pub immediate: u32,
    /// Displacement value (also used as second immediate or upper half of 64-bit immediate)
    pub displacement: u32,
}

/// The lock/rep field value of a LOCK prefix.
pub const BX_LOCK_PREFIX_USED: u8 = 1;

/// `imm` with its byte `k` (least significant first) replaced by `b`.
pub open spec fn with_imm_byte(imm: u32, k: int, b: u8) -> u32 {
    let s = u32_le_bytes(imm).update(k, b);
    u32_from_le(s[0], s[1], s[2], s[3])
}

/// Byte `k` (least significant first) of `imm`.
pub open spec fn imm_byte(imm: u32, k: int) -> u8 {
    u32_le_bytes(imm)[k]
}

/// Register slot `k` of the operands: 0 dst, 1 src1, 2 src2, 3 src3; 0 for
/// any other `k`.
pub open spec fn src_slot(ops: Operands, k: usize) -> u8 {
    match k {
        0 => ops.dst,
        1 => ops.src1,
        2 => ops.src2,
        3 => ops.src3,
        _ => 0,
    }
}

/// The operands with register slot `k` (0..=3) set to `reg`; unchanged for
/// any other `k`.
pub open spec fn with_src_slot(ops: Operands, k: usize, reg: u8) -> Operands {
    match k {
        0 => Operands { dst: reg, ..ops },
        1 => Operands { src1: reg, ..ops },
        2 => Operands { src2: reg, ..ops },
        3 => Operands { src3: reg, ..ops },
        _ => ops,
    }
}

/// The operand size that a flags value names: 2 (64-bit) when the 64-bit
/// flag is set, else 1 (32-bit) when the 32-bit flag is set, else 0 (16-bit).
pub open spec fn osize_of(bits: u8) -> u8 {
    if bits & FLAG_OS64 != 0 {
        2
    } else if bits & FLAG_OS32 != 0 {
        1
    } else {
        0
    }
}

/// The address size that a flags value names: 2 (64-bit) when the 64-bit
/// flag is set, else 1 (32-bit) when the 32-bit flag is set, else 0 (16-bit).
pub open spec fn asize_of(bits: u8) -> u8 {
    if bits & FLAG_AS64 != 0 {
        2
    } else if bits & FLAG_AS32 != 0 {
        1
    } else {
        0
    }
}

/// The two-bit lock/rep field of a flags value.
pub open spec fn lock_rep_of(bits: u8) -> u8 {
    (bits >> 6) & 0x3
}

/// The 64-bit immediate made of `lo` (low half) and `hi` (high half).
pub open spec fn iq_of(lo: u32, hi: u32) -> u64 {
    (lo as u64) | ((hi as u64) << 32)
}

impl Instruction {
    /// The instruction with other flags.
    pub open spec fn with_flags(self, f: InstructionFlags) -> Self {
        Instruction { flags: f, ..self }
    }

    /// The instruction with another immediate field.
    pub open spec fn with_immediate(self, imm: u32) -> Self {
        Instruction { immediate: imm, ..self }
    }

    /// The instruction with other operands.
    pub open spec fn with_operands(self, o: Operands) -> Self {
        Instruction { operands: o, ..self }
    }

    // ============================================================
    // MetaInfo accessors
    // ============================================================
    /// Get instruction length
    pub fn ilen(&self) -> (r: u8)
        ensures
            r == self.length,
    {
        self.length
    }

    /// Set instruction length
    pub fn set_ilen(&mut self, ilen: u8)
        ensures
            *final(self) == (Instruction { length: ilen, ..*old(self) }),
    {
        self.length = ilen;
    }

    /// Get IA-32 opcode
    pub fn get_ia_opcode(&self) -> (r: Opcode)
        ensures
            r == self.opcode,
    {
        self.opcode
    }

    /// Set IA-32 opcode
    pub fn set_ia_opcode(&mut self, op: Opcode)
        ensures
            *final(self) == (Instruction { opcode: op, ..*old(self) }),
    {
        self.opcode = op;
    }

    // ============================================================
    // Operand size flags (os32L, os64L, osize)
    // ============================================================
    /// Initialize operand and address size flags; the lock/rep, ModC0 and
    /// extend8bit flags are cleared.
    pub fn init(&mut self, os32: u8, as32: u8, os64: u8, as64: u8)
        ensures
            final(self).flags@ == (if os32 != 0 { FLAG_OS32 } else { 0 }) | (if os64 != 0 {
                FLAG_OS64
            } else {
                0
            }) | (if as32 != 0 { FLAG_AS32 } else { 0 }) | (if as64 != 0 { FLAG_AS64 } else { 0 }),
            *final(self) == old(self).with_flags(final(self).flags),
    {
        let bits: u8 = (if os32 != 0 { FLAG_OS32 } else { 0 }) | (if os64 != 0 {
            FLAG_OS64
        } else {
            0
        }) | (if as32 != 0 { FLAG_AS32 } else { 0 }) | (if as64 != 0 { FLAG_AS64 } else { 0 });
        self.flags = InstructionFlags::from_bits_retain(bits);
    }

    /// Get os32L (logical value, 0 or non-zero)
    pub fn os32_l(&self) -> (r: u8)
        ensures
            r == self.flags@ & FLAG_OS32,
    {
        self.flags.bits() & FLAG_OS32
    }

    /// Set os32B (boolean)
    pub fn set_os32_b(&mut self, bit: bool)
        ensures
            final(self).flags@ == (if bit {
                old(self).flags@ | FLAG_OS32
            } else {
                old(self).flags@ & !FLAG_OS32
            }),
            *final(self) == old(self).with_flags(final(self).flags),
    {
        self.flags.set(FLAG_OS32, bit);
    }

    /// Assert os32
    pub fn assert_os32(&mut self)
        ensures
            final(self).flags@ == old(self).flags@ | FLAG_OS32,
            *final(self) == old(self).with_flags(final(self).flags),
    {
        self.flags.insert(FLAG_OS32);
    }

    /// Get os64L (logical value, 0 or non-zero)
    pub fn os64_l(&self) -> (r: u8)
        ensures
            r == self.flags@ & FLAG_OS64,
    {
        self.flags.bits() & FLAG_OS64
    }

    /// Assert os64
    pub fn assert_os64(&mut self)
        ensures
            final(self).flags@ == old(self).flags@ | FLAG_OS64,
            *final(self) == old(self).with_flags(final(self).flags),
    {
        self.flags.insert(FLAG_OS64);
    }

    /// Get operand size (0=16-bit, 1=32-bit, 2=64-bit)
    pub fn osize(&self) -> (r: u8)
        ensures
            r == osize_of(self.flags@),
    {
        let bits = self.flags.bits();
        if bits & FLAG_OS64 != 0 {
            2
        } else if bits & FLAG_OS32 != 0 {
            1
        } else {
            0
        }
    }

    // ============================================================
    // Address size flags (as32L, as64L, asize)
    // ============================================================
    /// Get as32L (logical value, 0 or non-zero)
    pub fn as32_l(&self) -> (r: u8)
        ensures
            r == self.flags@ & FLAG_AS32,
    {
        self.flags.bits() & FLAG_AS32
    }

    /// Set as32B (boolean)
    pub fn set_as32_b(&mut self, bit: bool)
        ensures
            final(self).flags@ == (if bit {
                old(self).flags@ | FLAG_AS32
            } else {
                old(self).flags@ & !FLAG_AS32
            }),
            *final(self) == old(self).with_flags(final(self).flags),
    {
        self.flags.set(FLAG_AS32, bit);
    }

    /// Get as64L (logical value, 0 or non-zero)
    pub fn as64_l(&self) -> (r: u8)
        ensures
            r == self.flags@ & FLAG_AS64,
    {
        self.flags.bits() & FLAG_AS64
    }

    /// Clear as64
    pub fn clear_as64(&mut self)
        ensures
            final(self).flags@ == old(self).flags@ & !FLAG_AS64,
            *final(self) == old(self).with_flags(final(self).flags),
    {
        self.flags.remove(FLAG_AS64);
    }

    /// Get address size (0=16-bit, 1=32-bit, 2=64-bit)
    pub fn asize(&self) -> (r: u8)
        ensures
            r == asize_of(self.flags@),
    {
        let bits = self.flags.bits();
        if bits & FLAG_AS64 != 0 {
            2
        } else if bits & FLAG_AS32 != 0 {
            1
        } else {
            0
        }
    }

    /// Get extend8bitL (for 64-bit mode)
    pub fn extend8bit_l(&self) -> (r: u8)
        ensures
            r == self.flags@ & FLAG_EXTEND8BIT,
    {
        self.flags.bits() & FLAG_EXTEND8BIT
    }

    /// Assert extend8bit
    pub fn assert_extend8bit(&mut self)
        ensures
            final(self).flags@ == old(self).flags@ | FLAG_EXTEND8BIT,
            *final(self) == old(self).with_flags(final(self).flags),
    {
        self.flags.insert(FLAG_EXTEND8BIT);
    }

    // ============================================================
    // Lock/Rep prefix flags
    // ============================================================
    /// Get repUsedL (0=none, 1=0xF0, 2=0xF2, 3=0xF3)
    pub fn rep_used_l(&self) -> (r: u8)
        ensures
            r == lock_rep_of(self.flags@),
    {
        (self.flags.bits() >> 6) & 0x3
    }

    /// Get lockRepUsedValue (0=none, 1=0xF0, 2=0xF2, 3=0xF3)
    pub fn lock_rep_used_value(&self) -> (r: u8)
        ensures
            r == lock_rep_of(self.flags@),
    {
        (self.flags.bits() >> 6) & 0x3
    }

    /// Set lockRepUsed: the lock/rep field becomes the low two bits of
    /// `value`; the other flags are kept.
    pub fn set_lock_rep_used(&mut self, value: u8)
        ensures
            final(self).flags@ == (old(self).flags@ & 0x3f) | (value << 6),
            *final(self) == old(self).with_flags(final(self).flags),
    {
        let bits = self.flags.bits();
        let new_bits = (bits & 0x3f) | (value << 6);
        self.flags = InstructionFlags::from_bits_retain(new_bits);
    }

    /// Set lock prefix
    pub fn set_lock(&mut self)
        ensures
            final(self).flags@ == (old(self).flags@ & 0x3f) | (BX_LOCK_PREFIX_USED << 6),
            *final(self) == old(self).with_flags(final(self).flags),
    {
        self.set_lock_rep_used(BX_LOCK_PREFIX_USED);
    }

    /// Get lock prefix
    pub fn get_lock(&self) -> (r: bool)
        ensures
            r == (lock_rep_of(self.flags@) == BX_LOCK_PREFIX_USED),
    {
        self.lock_rep_used_value() == BX_LOCK_PREFIX_USED
    }

    /// Get modC0 (mod==0xC0 in ModRM — register form, no memory access)
    pub fn mod_c0(&self) -> (r: bool)
        ensures
            r == (self.flags@ & FLAG_MODC0 != 0),
    {
        (self.flags.bits() & FLAG_MODC0) != 0
    }

    /// Assert modC0
    pub fn assert_mod_c0(&mut self)
        ensures
            final(self).flags@ == old(self).flags@ | FLAG_MODC0,
            *final(self) == old(self).with_flags(final(self).flags),
    {
        self.flags.insert(FLAG_MODC0);
    }

    // ============================================================
    // Register operand accessors
    // ============================================================
    /// Get destination register index
    pub fn dst(&self) -> (r: u8)
        ensures
            r == self.operands.dst,
    {
        self.operands.dst
    }

    /// Get source register 1
    pub fn src1(&self) -> (r: u8)
        ensures
            r == self.operands.src1,
    {
        self.operands.src1
    }

    /// Get source register 2
    pub fn src2(&self) -> (r: u8)
        ensures
            r == self.operands.src2,
    {
        self.operands.src2
    }

    /// Get source register 3
    pub fn src3(&self) -> (r: u8)
        ensures
            r == self.operands.src3,
    {
        self.operands.src3
    }

    /// Get source register (alias for src1)
    pub fn src(&self) -> (r: u8)
        ensures
            r == self.operands.src1,
    {
        self.src1()
    }

    /// Set source register by index (0=dst, 1=src1, 2=src2, 3=src3); any
    /// other index changes nothing.
    pub fn set_src_reg(&mut self, src: usize, reg: u8)
        ensures
            *final(self) == old(self).with_operands(with_src_slot(old(self).operands, src, reg)),
    {
        match src {
            0 => self.operands.dst = reg,
            1 => self.operands.src1 = reg,
            2 => self.operands.src2 = reg,
            3 => self.operands.src3 = reg,
            _ => {},
        }
    }

    /// Get source register by index (0=dst, 1=src1, 2=src2, 3=src3); any
    /// other index gives 0.
    pub fn get_src_reg(&self, src: usize) -> (r: u8)
        ensures
            r == src_slot(self.operands, src),
    {
        match src {
            0 => self.operands.dst,
            1 => self.operands.src1,
            2 => self.operands.src2,
            3 => self.operands.src3,
            _ => 0,
        }
    }

    // ============================================================
    // Segment register accessors
    // ============================================================
    /// Get segment register
    pub fn seg(&self) -> (r: u8)
        ensures
            r == self.operands.segment,
    {
        self.operands.segment
    }

    /// Set segment register
    pub fn set_seg(&mut self, val: BxSegregs)
        ensures
            *final(self) == old(self).with_operands(
                Operands { segment: segreg_code(val), ..old(self).operands },
            ),
    {
        self.operands.segment = val.as_u8();
    }

    /// Get CET segment override (shares slot with src3)
    pub fn seg_override_cet(&self) -> (r: u8)
        ensures
            r == self.operands.src3,
    {
        self.operands.src3
    }

    /// Set CET segment override (shares slot with src3)
    pub fn set_cet_seg_override(&mut self, val: BxSegregs)
        ensures
            *final(self) == old(self).with_operands(
                Operands { src3: segreg_code(val), ..old(self).operands },
            ),
    {
        self.operands.src3 = val.as_u8();
    }

    // ============================================================
    // SIB (Scale-Index-Base) accessors
    // ============================================================
    /// Set SIB scale
    pub fn set_sib_scale(&mut self, scale: u8)
        ensures
            *final(self) == old(self).with_operands(Operands { scale: scale, ..old(self).operands }),
    {
        self.operands.scale = scale;
    }

    /// Get SIB scale
    pub fn sib_scale(&self) -> (r: u8)
        ensures
            r == self.operands.scale,
    {
        self.operands.scale
    }

    /// Set SIB index
    pub fn set_sib_index(&mut self, index: u8)
        ensures
            *final(self) == old(self).with_operands(Operands { index: index, ..old(self).operands }),
    {
        self.operands.index = index;
    }

    /// Get SIB index
    pub fn sib_index(&self) -> (r: u8)
        ensures
            r == self.operands.index,
    {
        self.operands.index
    }

    /// Set SIB base
    pub fn set_sib_base(&mut self, base: u8)
        ensures
            *final(self) == old(self).with_operands(Operands { base: base, ..old(self).operands }),
    {
        self.operands.base = base;
    }

    /// Get SIB base
    pub fn sib_base(&self) -> (r: u8)
        ensures
            r == self.operands.base,
    {
        self.operands.base
    }

    // ============================================================
    // Immediate value accessors
    // ============================================================
    /// Get 32-bit immediate (Id)
    pub fn id(&self) -> (r: u32)
        ensures
            r == self.immediate,
    {
        self.immediate
    }

    /// Get 16-bit immediate (Iw): the low 16 bits of the immediate
    pub fn iw(&self) -> (r: u16)
        ensures
            r == (self.immediate & 0xFFFF) as u16,
    {
        (self.immediate & 0xFFFF) as u16
    }

    /// Get 8-bit immediate (Ib): the low byte of the immediate
    pub fn ib(&self) -> (r: u8)
        ensures
            r == (self.immediate & 0xFF) as u8,
    {
        (self.immediate & 0xFF) as u8
    }

    /// Get 64-bit immediate (Iq) — x86-64 only.
    ///
    /// Reconstructed from the immediate (low 32 bits) and displacement
    /// (high 32 bits) fields.
    pub fn iq(&self) -> (r: u64)
        ensures
            r == iq_of(self.immediate, self.displacement),
    {
        let lo = self.immediate as u64;
        let hi = self.displacement as u64;
        lo | (hi << 32)
    }

    /// Set 64-bit immediate (Iq) — x86-64 only: the low half goes to the
    /// immediate, the high half to the displacement.
    pub fn set_iq(&mut self, val: u64)
        ensures
            *final(self) == (Instruction {
                immediate: (val & 0xFFFF_FFFF) as u32,
                displacement: (val >> 32) as u32,
                ..*old(self)
            }),
    {
        self.immediate = (val & 0xFFFF_FFFF) as u32;
        self.displacement = (val >> 32) as u32;
    }

    /// Get second 32-bit immediate (Id2)
    pub fn id2(&self) -> (r: u32)
        ensures
            r == self.displacement,
    {
        self.displacement
    }

    /// Get second 16-bit immediate (Iw2)
    pub fn iw2(&self) -> (r: u16)
        ensures
            r == (self.displacement & 0xFFFF) as u16,
    {
        (self.displacement & 0xFFFF) as u16
    }

    /// Get second 8-bit immediate (Ib2)
    pub fn ib2(&self) -> (r: u8)
        ensures
            r == (self.displacement & 0xFF) as u8,
    {
        (self.displacement & 0xFF) as u8
    }

    // ============================================================
    // Displacement accessors
    // ============================================================
    /// Get 32-bit signed displacement
    pub fn displ32s(&self) -> (r: i32)
        ensures
            r == self.displacement as i32,
    {
        self.displacement as i32
    }

    /// Get 16-bit signed displacement
    pub fn displ16s(&self) -> (r: i16)
        ensures
            r == self.displacement as i16,
    {
        self.displacement as i16
    }

    /// Get 32-bit unsigned displacement
    pub fn displ32u(&self) -> (r: u32)
        ensures
            r == self.displacement,
    {
        self.displacement
    }

    /// Get 16-bit unsigned displacement
    pub fn displ16u(&self) -> (r: u16)
        ensures
            r == (self.displacement & 0xFFFF) as u16,
    {
        (self.displacement & 0xFFFF) as u16
    }

    // ============================================================
    // AVX/EVEX attribute accessors
    //
    // These read/write bytes within the `immediate` field (bytes 1-3)
    // which store AVX metadata alongside the 8-bit immediate (byte 0).
    // ============================================================
    /// Get the immediate as a byte array, least significant byte first
    fn imm_bytes(&self) -> (r: [u8; 4])
        ensures
            r@ == u32_le_bytes(self.immediate),
    {
        u32_to_le_bytes(self.immediate)
    }

    /// Set the immediate from a byte array, least significant byte first
    fn set_imm_bytes(&mut self, bytes: [u8; 4])
        ensures
            *final(self) == old(self).with_immediate(
                u32_from_le(bytes@[0], bytes@[1], bytes@[2], bytes@[3]),
            ),
    {
        self.immediate = u32_from_le_bytes(bytes);
    }

    /// Get AVX vector length (VL): byte 1 of the immediate
    pub fn get_vl(&self) -> (r: u8)
        ensures
            r == imm_byte(self.immediate, 1),
    {
        self.imm_bytes()[1]
    }

    /// Set AVX vector length (VL): byte 1 of the immediate becomes `value`
    pub fn set_vl(&mut self, value: u8)
        ensures
            *final(self) == old(self).with_immediate(with_imm_byte(old(self).immediate, 1, value)),
    {
        let mut ib = self.imm_bytes();
        ib[1] = value;
        self.set_imm_bytes(ib);
    }

    /// Get VEX.W bit: bit 4 of byte 2 of the immediate
    pub fn get_vex_w(&self) -> (r: u8)
        ensures
            r == (imm_byte(self.immediate, 2) >> 4) & 1,
    {
        (self.imm_bytes()[2] >> 4) & 1
    }

    /// Set VEX.W bit: bit 4 of byte 2 of the immediate becomes `bit & 1`
    pub fn set_vex_w(&mut self, bit: u8)
        ensures
            *final(self) == old(self).with_immediate(
                with_imm_byte(
                    old(self).immediate,
                    2,
                    (imm_byte(old(self).immediate, 2) & !0x10u8) | ((bit & 1) << 4),
                ),
            ),
    {
        let mut ib = self.imm_bytes();
        ib[2] = (ib[2] & !0x10) | ((bit & 1) << 4);
        self.set_imm_bytes(ib);
    }

    /// Get EVEX opmask register: byte 3 of the immediate
    pub fn opmask(&self) -> (r: u8)
        ensures
            r == imm_byte(self.immediate, 3),
    {
        self.imm_bytes()[3]
    }

    /// Set EVEX opmask register: byte 3 of the immediate becomes `reg`
    pub fn set_opmask(&mut self, reg: u8)
        ensures
            *final(self) == old(self).with_immediate(with_imm_byte(old(self).immediate, 3, reg)),
    {
        let mut ib = self.imm_bytes();
        ib[3] = reg;
        self.set_imm_bytes(ib);
    }

    /// Get EVEX.b bit (broadcast/RC/SAE control): bit 3 of byte 2
    pub fn get_evex_b(&self) -> (r: u8)
        ensures
            r == (imm_byte(self.immediate, 2) >> 3) & 1,
    {
        (self.imm_bytes()[2] >> 3) & 1
    }

    /// Set EVEX.b bit: bit 3 of byte 2 of the immediate becomes `bit & 1`
    pub fn set_evex_b(&mut self, bit: u8)
        ensures
            *final(self) == old(self).with_immediate(
                with_imm_byte(
                    old(self).immediate,
                    2,
                    (imm_byte(old(self).immediate, 2) & !0x8u8) | ((bit & 1) << 3),
                ),
            ),
    {
        let mut ib = self.imm_bytes();
        ib[2] = (ib[2] & !0x8) | ((bit & 1) << 3);
        self.set_imm_bytes(ib);
    }

    /// Get zero masking bit (EVEX.z): bit 2 of byte 2
    pub fn is_zero_masking(&self) -> (r: u8)
        ensures
            r == (imm_byte(self.immediate, 2) >> 2) & 1,
    {
        (self.imm_bytes()[2] >> 2) & 1
    }

    /// Set zero masking bit: bit 2 of byte 2 of the immediate becomes `bit & 1`
    pub fn set_zero_masking(&mut self, bit: u8)
        ensures
            *final(self) == old(self).with_immediate(
                with_imm_byte(
                    old(self).immediate,
                    2,
                    (imm_byte(old(self).immediate, 2) & !0x4u8) | ((bit & 1) << 2),
                ),
            ),
    {
        let mut ib = self.imm_bytes();
        ib[2] = (ib[2] & !0x4) | ((bit & 1) << 2);
        self.set_imm_bytes(ib);
    }

    /// Get rounding control (RC): bits 1..0 of byte 2
    pub fn get_rc(&self) -> (r: u8)
        ensures
            r == imm_byte(self.immediate, 2) & 0x3,
    {
        self.imm_bytes()[2] & 0x3
    }

    /// Set rounding control (RC): bits 1..0 of byte 2 of the immediate
    /// become `rc & 3`
    pub fn set_rc(&mut self, rc: u8)
        ensures
            *final(self) == old(self).with_immediate(
                with_imm_byte(
                    old(self).immediate,
                    2,
                    (imm_byte(old(self).immediate, 2) & !0x3u8) | (rc & 0x3),
                ),
            ),
    {
        let mut ib = self.imm_bytes();
        ib[2] = (ib[2] & !0x3) | (rc & 0x3);
        self.set_imm_bytes(ib);
    }

    // ============================================================
    // Helper methods for instruction handlers
    // ============================================================
    /// Get first byte of opcode (b1) — stored in bits 15:8 of immediate for x87
    pub fn b1(&self) -> (r: u8)
        ensures
            r == ((self.immediate >> 8) & 0xFF) as u8,
    {
        ((self.immediate >> 8) & 0xFF) as u8
    }

    /// Set foo (x87 instruction field) — stored in low 16 bits of immediate;
    /// the upper 16 bits are kept
    pub fn set_foo(&mut self, foo: u16)
        ensures
            *final(self) == old(self).with_immediate(
                (old(self).immediate & 0xFFFF_0000) | (foo as u32),
            ),
    {
        self.immediate = (self.immediate & 0xFFFF_0000) | (foo as u32);
    }

    /// Get foo (x87 instruction field): the low 16 bits of the immediate
    pub fn foo(&self) -> (r: u16)
        ensures
            r == (self.immediate & 0xFFFF) as u16,
    {
        (self.immediate & 0xFFFF) as u16
    }

    // ============================================================
    // Typed getter methods — return enums instead of raw integers
    // ============================================================
    /// Get the operand size as a typed enum.
    pub fn operand_size(&self) -> (r: OperandSize)
        ensures
            r == operand_size_of(osize_of(self.flags@)),
    {
        match self.osize() {
            0 => OperandSize::Size16,
            1 => OperandSize::Size32,
            _ => OperandSize::Size64,
        }
    }

    /// Get the address size as a typed enum.
    pub fn address_size(&self) -> (r: AddressSize)
        ensures
            r == address_size_of(asize_of(self.flags@)),
    {
        match self.asize() {
            0 => AddressSize::Size16,
            1 => AddressSize::Size32,
            _ => AddressSize::Size64,
        }
    }

    /// Get the lock/rep prefix as a typed enum.
    pub fn rep_prefix(&self) -> (r: RepPrefix)
        ensures
            r == rep_prefix_of(lock_rep_of(self.flags@)),
    {
        match self.lock_rep_used_value() {
            1 => RepPrefix::Lock,
            2 => RepPrefix::RepNE,
            3 => RepPrefix::RepE,
            _ => RepPrefix::NoPrefix,
        }
    }

    /// Get the destination register as a typed `GprIndex`.
    pub fn dst_reg(&self) -> (r: GprIndex)
        ensures
            r == gpr_from_value(self.operands.dst),
    {
        GprIndex::from_u8(self.operands.dst)
    }

    /// Get source register 1 as a typed `GprIndex`.
    pub fn src1_reg(&self) -> (r: GprIndex)
        ensures
            r == gpr_from_value(self.operands.src1),
    {
        GprIndex::from_u8(self.operands.src1)
    }

    /// Get the memory base register as a typed `GprIndex`.
    pub fn base_reg(&self) -> (r: GprIndex)
        ensures
            r == gpr_from_value(self.operands.base),
    {
        GprIndex::from_u8(self.operands.base)
    }

    /// Get the memory index register as a typed `GprIndex`.
    pub fn index_reg(&self) -> (r: GprIndex)
        ensures
            r == gpr_from_value(self.operands.index),
    {
        GprIndex::from_u8(self.operands.index)
    }

    /// Get the segment register as a typed `BxSegregs`.
    pub fn segment_reg(&self) -> (r: BxSegregs)
        ensures
            r == segreg_from_code(self.operands.segment),
    {
        BxSegregs::from_u8(self.operands.segment)
    }
}

// ============================================================================
// Typed getter enums
// ============================================================================
/// Operand size for this instruction.
#[derive(Debug, Clone, Copy, PartialEq, Eq, Structural, Hash)]
pub enum OperandSize {
    Size16,
    Size32,
    Size64,
}

/// Address size for this instruction.
#[derive(Debug, Clone, Copy, PartialEq, Eq, Structural, Hash)]
pub enum AddressSize {
    Size16,
    Size32,
    Size64,
}

/// Lock/Rep prefix state.
#[derive(Debug, Clone, Copy, PartialEq, Eq, Structural, Hash)]
pub enum RepPrefix {
    NoPrefix,
    Lock,
    RepNE,
    RepE,
}

/// The operand size that an `osize` value names.
pub open spec fn operand_size_of(osize: u8) -> OperandSize {
    if osize == 0 {
        OperandSize::Size16
    } else if osize == 1 {
        OperandSize::Size32
    } else {
        OperandSize::Size64
    }
}

/// The address size that an `asize` value names.
pub open spec fn address_size_of(asize: u8) -> AddressSize {
    if asize == 0 {
        AddressSize::Size16
    } else if asize == 1 {
        AddressSize::Size32
    } else {
        AddressSize::Size64
    }
}

/// The prefix that a lock/rep field value names.
pub open spec fn rep_prefix_of(v: u8) -> RepPrefix {
    if v == 1 {
        RepPrefix::Lock
    } else if v == 2 {
        RepPrefix::RepNE
    } else if v == 3 {
        RepPrefix::RepE
    } else {
        RepPrefix::NoPrefix
    }
}

// ============================================================================
// What the setters write, the getters read back
// ============================================================================
/// Writing byte `k` of the immediate and reading it back gives the byte
/// written; the other three bytes are kept. So `get_vl` reads what
/// `set_vl` wrote and `opmask` what `set_opmask` wrote, and the attribute
/// setters keep the 8-bit immediate `ib` in byte 0.
pub proof fn lemma_imm_byte_write_read(imm: u32, k: int, b: u8)
    requires
        0 <= k < 4,
    ensures
        imm_byte(with_imm_byte(imm, k, b), k) == b,
        forall|j: int|
            0 <= j < 4 && j != k ==> #[trigger] imm_byte(with_imm_byte(imm, k, b), j) == imm_byte(
                imm,
                j,
            ),
{
    let s = u32_le_bytes(imm).update(k, b);
    lemma_from_le_roundtrip(s[0], s[1], s[2], s[3]);
    assert(u32_le_bytes(with_imm_byte(imm, k, b)) =~= s);
}

/// The attribute bits of byte 2 of the immediate: VEX.W (bit 4), EVEX.b
/// (bit 3) and zero masking (bit 2) read back the low bit of what their
/// setter wrote, rounding control (bits 1..0) the low two bits; each setter
/// keeps the other bits of the byte.
pub proof fn lemma_attribute_bits_write_read(x: u8, v: u8)
    by (bit_vector)
    ensures
        (((x & !0x10u8) | ((v & 1) << 4)) >> 4) & 1 == v & 1,
        ((x & !0x10u8) | ((v & 1) << 4)) & !0x10u8 == x & !0x10u8,
        (((x & !0x8u8) | ((v & 1) << 3)) >> 3) & 1 == v & 1,
        ((x & !0x8u8) | ((v & 1) << 3)) & !0x8u8 == x & !0x8u8,
        (((x & !0x4u8) | ((v & 1) << 2)) >> 2) & 1 == v & 1,
        ((x & !0x4u8) | ((v & 1) << 2)) & !0x4u8 == x & !0x4u8,
        ((x & !0x3u8) | (v & 0x3)) & 0x3 == v & 0x3,
        ((x & !0x3u8) | (v & 0x3)) & !0x3u8 == x & !0x3u8,
{
}

/// `lock_rep_used_value` reads back the low two bits of what
/// `set_lock_rep_used` wrote, and the other flags are kept.
pub proof fn lemma_lock_rep_write_read(bits: u8, value: u8)
    by (bit_vector)
    ensures
        lock_rep_of((bits & 0x3f) | (value << 6)) == value & 0x3,
        ((bits & 0x3f) | (value << 6)) & 0x3f == bits & 0x3f,
{
}

/// `foo` reads back what `set_foo` wrote, and `set_foo` keeps the upper
/// half of the immediate.
pub proof fn lemma_foo_write_read(imm: u32, foo: u16)
    by (bit_vector)
    ensures
        (((imm & 0xFFFF_0000) | (foo as u32)) & 0xFFFF) as u16 == foo,
        ((imm & 0xFFFF_0000) | (foo as u32)) & 0xFFFF_0000 == imm & 0xFFFF_0000,
{
}

/// `iq` reads back the 64-bit immediate that `set_iq` wrote.
pub proof fn lemma_iq_write_read(val: u64)
    by (bit_vector)
    ensures
        iq_of((val & 0xFFFF_FFFF) as u32, (val >> 32) as u32) == val,
{
}

/// `os32_l` and `as32_l` are nonzero exactly when `set_os32_b` and
/// `set_as32_b` last set them, and those setters keep the other flags.
pub proof fn lemma_size_flags_write_read(bits: u8, mask: u8, bit: bool)
    requires
        mask == FLAG_OS32 || mask == FLAG_AS32,
    ensures
        ((if bit {
            bits | mask
        } else {
            bits & !mask
        }) & mask != 0) == bit,
        (if bit {
            bits | mask
        } else {
            bits & !mask
        }) & !mask == bits & !mask,
{
    assert(((bits | FLAG_OS32) & FLAG_OS32 != 0) && ((bits & !FLAG_OS32) & FLAG_OS32 == 0) && ((
    bits | FLAG_OS32) & !FLAG_OS32 == bits & !FLAG_OS32) && ((bits & !FLAG_OS32) & !FLAG_OS32
        == bits & !FLAG_OS32)) by (bit_vector)
        requires
            FLAG_OS32 == 4,
    ;
    assert(((bits | FLAG_AS32) & FLAG_AS32 != 0) && ((bits & !FLAG_AS32) & FLAG_AS32 == 0) && ((
    bits | FLAG_AS32) & !FLAG_AS32 == bits & !FLAG_AS32) && ((bits & !FLAG_AS32) & !FLAG_AS32
        == bits & !FLAG_AS32)) by (bit_vector)
        requires
            FLAG_AS32 == 1,
    ;
}

/// `get_src_reg` reads back what `set_src_reg` wrote to a slot 0..=3, and
/// writing one slot keeps the others.
pub proof fn lemma_src_reg_write_read(ops: Operands, src: usize, reg: u8, other: usize)
    requires
        src < 4,
        other != src,
    ensures
        src_slot(with_src_slot(ops, src, reg), src) == reg,
        src_slot(with_src_slot(ops, src, reg), other) == src_slot(ops, other),
{
}

} // verus!
