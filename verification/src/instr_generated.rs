//! The decoder's instruction record, laid out like the Bochs `bxInstruction_c`:
//! opcode, length and flags, an 8-byte operand metadata array, and the
//! operand (immediate) and displacement words.

use vstd::prelude::*;

use crate::bytes::{
    u32_from_halves, u32_from_le, u32_from_le_bytes, u32_from_le_halves, u32_le_bytes,
    u32_le_halves, u32_to_le_bytes, u32_to_le_halves,
};
use crate::instruction::{
    asize_of, lock_rep_of, osize_of, InstructionFlags, BX_LOCK_PREFIX_USED, FLAG_AS32, FLAG_AS64, FLAG_EXTEND8BIT,
    FLAG_MODC0, FLAG_OS32, FLAG_OS64,
};
use crate::opcode::Opcode;
use crate::{segreg_code, BxSegregs};

verus! {

/// The flags word of an instruction: operand/address size, ModC0,
/// extend8bit and the lock/rep field.
pub type MetaInfoFlags = InstructionFlags;

// Metadata array indices, in the Bochs bxInstruction_c layout
pub const BX_INSTR_METADATA_DST: usize = 0;

pub const BX_INSTR_METADATA_SRC1: usize = 1;

pub const BX_INSTR_METADATA_SRC2: usize = 2;

pub const BX_INSTR_METADATA_SRC3: usize = 3;

/// The CET segment override shares the src3 slot.
pub const BX_INSTR_METADATA_CET_SEGOVERRIDE: usize = 3;

pub const BX_INSTR_METADATA_SEG: usize = 4;

pub const BX_INSTR_METADATA_BASE: usize = 5;

pub const BX_INSTR_METADATA_INDEX: usize = 6;

pub const BX_INSTR_METADATA_SCALE: usize = 7;

/// Instruction record in the layout of the Bochs bxInstruction_c
///
/// This structure holds decoded instruction information including:
/// - Opcode and instruction length
/// - Operand metadata (registers, segments, addressing)
/// - Immediate values and displacements
/// - Prefix information (lock, rep, size overrides)
///
/// The 64-bit immediate (Iq) is the operand word (low half) followed by the
/// displacement word (high half).
#[derive(Debug, Copy, Clone, Default)]
pub struct Instruction {
    pub meta_info: BxInstructionMetaInfo,
    /// dst, src1, src2, src3 (or CET segment override), seg, base, index, scale
    pub meta_data: [u8; 8],
    /// ModRM form - also used as storage for 64-bit immediates (IqForm) in x86-64
    pub modrm_form: ModRmForm,
}

/// Instruction metadata: opcode, length and flags
#[derive(Debug, Copy, Clone, Default)]
pub struct BxInstructionMetaInfo {
    /// IA-32 opcode
    pub ia_opcode: Opcode,
    /// Instruction length (0-15)
    pub ilen: u8,
    /// Meta information flags
    ///  7..6: lockUsed, repUsed (0=none, 1=0xF0, 2=0xF2, 3=0xF3)
    ///  5:    extend8bit
    ///  4:    mod==c0 (modrm)
    ///  3:    os64
    ///  2:    os32
    ///  1:    as64
    ///  0:    as32
    pub metainfo1: MetaInfoFlags,
}

/// ModRM form structure - holds operand and displacement data
#[derive(Debug, Copy, Clone, Default)]
pub struct ModRmForm {
    /// Operand data: Id (u32), Iw (u16[2]), or Ib (u8[4]).
    /// Also used for AVX/EVEX attributes:
    ///   Ib[3]: EVEX mask register
    ///   Ib[2]: AVX attributes (VEX.W, EVEX.b, EVEX.z, Round control)
    ///   Ib[1]: AVX VL
    pub operand_data: OperandData,
    /// Displacement data: displ16u, displ32u, Id2, Iw2, or Ib2
    pub displacement: DisplacementData,
}

/// Operand data: one 32-bit word, also read as two half-words or four
/// bytes, least significant first.
#[derive(Debug, Copy, Clone, Default)]
pub struct OperandData {
    /// As u32 (Id)
    pub id: u32,
}

impl OperandData {
    /// Access as u32 (Id)
    pub fn id(&self) -> (r: u32)
        ensures
            r == self.id,
    {
        self.id
    }

    /// Access as u16[2] (Iw), the low half first
    pub fn iw(&self) -> (r: [u16; 2])
        ensures
            r@ == u32_le_halves(self.id),
    {
        u32_to_le_halves(self.id)
    }

    /// Access as u8[4] (Ib), the least significant byte first
    pub fn ib(&self) -> (r: [u8; 4])
        ensures
            r@ == u32_le_bytes(self.id),
    {
        u32_to_le_bytes(self.id)
    }

    /// Set as u32
    pub fn set_id(&mut self, val: u32)
        ensures
            final(self).id == val,
    {
        self.id = val;
    }

    /// Set as u16[2], the low half first
    pub fn set_iw(&mut self, val: [u16; 2])
        ensures
            final(self).id == u32_from_halves(val@[0], val@[1]),
    {
        self.id = u32_from_le_halves(val);
    }

    /// Set as u8[4], the least significant byte first
    pub fn set_ib(&mut self, val: [u8; 4])
        ensures
            final(self).id == u32_from_le(val@[0], val@[1], val@[2], val@[3]),
    {
        self.id = u32_from_le_bytes(val);
    }
}

/// Displacement data: one 32-bit word, also read as a 16-bit displacement,
/// two half-words or four bytes, least significant first.
#[derive(Debug, Copy, Clone, Default)]
pub struct DisplacementData {
    /// As u32 (displ32u or Id2)
    pub data32: u32,
}

impl DisplacementData {
    /// Access as u16 (displ16u) - the low 16 bits of data32
    pub fn displ16u(&self) -> (r: u16)
        ensures
            r == (self.data32 & 0xFFFF) as u16,
    {
        (self.data32 & 0xFFFF) as u16
    }

    /// Access as u32 (displ32u)
    pub fn displ32u(&self) -> (r: u32)
        ensures
            r == self.data32,
    {
        self.data32
    }

    /// Access as u32 (Id2)
    pub fn id2(&self) -> (r: u32)
        ensures
            r == self.data32,
    {
        self.data32
    }

    /// Access as u16[2] (Iw2), the low half first
    pub fn iw2(&self) -> (r: [u16; 2])
        ensures
            r@ == u32_le_halves(self.data32),
    {
        u32_to_le_halves(self.data32)
    }

    /// Access as u8[4] (Ib2), the least significant byte first
    pub fn ib2(&self) -> (r: [u8; 4])
        ensures
            r@ == u32_le_bytes(self.data32),
    {
        u32_to_le_bytes(self.data32)
    }

    /// Set as u32 (displ32u)
    pub fn set_displ32u(&mut self, val: u32)
        ensures
            final(self).data32 == val,
    {
        self.data32 = val;
    }

    /// Set as u32 (Id2)
    pub fn set_id2(&mut self, val: u32)
        ensures
            final(self).data32 == val,
    {
        self.data32 = val;
    }
}

/// The fields of an instruction that the decoders determine: the operand
/// slots src2 and src3 are always 0 in a freshly decoded instruction.
#[derive(Debug, Copy, Clone, PartialEq, Eq, Structural)]
pub struct DecodedInstr {
    pub opcode: Opcode,
    pub ilen: u8,
    pub flags: u8,
    pub dst: u8,
    pub src1: u8,
    pub seg: u8,
    pub base: u8,
    pub index: u8,
    pub scale: u8,
    /// The operand word (immediate, or the x87 `foo` field)
    pub id: u32,
    /// The displacement word (displacement, or a second immediate)
    pub disp: u32,
}

impl Instruction {
    /// This instruction holds exactly the decoded fields `d`.
    pub open spec fn holds(self, d: DecodedInstr) -> bool {
        &&& self.meta_info.ia_opcode == d.opcode
        &&& self.meta_info.ilen == d.ilen
        &&& self.meta_info.metainfo1@ == d.flags
        &&& self.meta_data@ == seq![d.dst, d.src1, 0u8, 0u8, d.seg, d.base, d.index, d.scale]
        &&& self.modrm_form.operand_data.id == d.id
        &&& self.modrm_form.displacement.data32 == d.disp
    }

    /// Build the instruction that holds the decoded fields `d`.
    pub fn from_decoded(d: DecodedInstr) -> (r: Instruction)
        ensures
            r.holds(d),
    {
        let meta_data: [u8; 8] = [d.dst, d.src1, 0, 0, d.seg, d.base, d.index, d.scale];
        assert(meta_data@ =~= seq![d.dst, d.src1, 0u8, 0u8, d.seg, d.base, d.index, d.scale]);
        Instruction {
            meta_info: BxInstructionMetaInfo {
                ia_opcode: d.opcode,
                ilen: d.ilen,
                metainfo1: InstructionFlags::from_bits_retain(d.flags),
            },
            meta_data,
            modrm_form: ModRmForm {
                operand_data: OperandData { id: d.id },
                displacement: DisplacementData { data32: d.disp },
            },
        }
    }
}

/// A decoding result and its specification agree: both succeed with the
/// same fields, or both fail with the same error.
pub open spec fn result_holds(
    r: Result<Instruction, crate::error::DecodeError>,
    s: Result<DecodedInstr, crate::error::DecodeError>,
) -> bool {
    match s {
        Ok(d) => r is Ok && r->Ok_0.holds(d),
        Err(e) => r is Err && r->Err_0 == e,
    }
}

impl Instruction {
    /// The instruction with another flags word.
    pub open spec fn with_flags(self, f: MetaInfoFlags) -> Self {
        Instruction { meta_info: BxInstructionMetaInfo { metainfo1: f, ..self.meta_info }, ..self }
    }

    /// The instruction with another operand word.
    pub open spec fn with_id(self, id: u32) -> Self {
        Instruction {
            modrm_form: ModRmForm { operand_data: OperandData { id }, ..self.modrm_form },
            ..self
        }
    }

    /// The instruction with slot `k` of the metadata array set to `v`.
    pub open spec fn meta_updated(old: Self, new: Self, k: int, v: u8) -> bool {
        &&& new.meta_data@ == old.meta_data@.update(k, v)
        &&& new.meta_info == old.meta_info
        &&& new.modrm_form == old.modrm_form
    }

    // ============================================================
    // MetaInfo accessors
    // ============================================================
    /// Get instruction length
    pub fn ilen(&self) -> (r: u8)
        ensures
            r == self.meta_info.ilen,
    {
        self.meta_info.ilen
    }

    /// Set instruction length
    pub fn set_ilen(&mut self, ilen: u8)
        ensures
            final(self).meta_info == (BxInstructionMetaInfo { ilen, ..old(self).meta_info }),
            final(self).meta_data == old(self).meta_data,
            final(self).modrm_form == old(self).modrm_form,
    {
        self.meta_info.ilen = ilen;
    }

    /// Get IA-32 opcode
    pub fn get_ia_opcode(&self) -> (r: Opcode)
        ensures
            r == self.meta_info.ia_opcode,
    {
        self.meta_info.ia_opcode
    }

    /// Set IA-32 opcode
    pub fn set_ia_opcode(&mut self, op: Opcode)
        ensures
            final(self).meta_info == (BxInstructionMetaInfo { ia_opcode: op, ..old(self).meta_info }),
            final(self).meta_data == old(self).meta_data,
            final(self).modrm_form == old(self).modrm_form,
    {
        self.meta_info.ia_opcode = op;
    }

    // ============================================================
    // Operand size flags (os32L, os64L, osize)
    // ============================================================
    /// Initialize operand and address size flags; the lock/rep, ModC0 and
    /// extend8bit flags are cleared.
    pub fn init(&mut self, os32: u8, as32: u8, os64: u8, as64: u8)
        ensures
            final(self).meta_info.metainfo1@ == (if os32 != 0 { FLAG_OS32 } else { 0 }) | (if os64
                != 0 {
                FLAG_OS64
            } else {
                0
            }) | (if as32 != 0 { FLAG_AS32 } else { 0 }) | (if as64 != 0 { FLAG_AS64 } else { 0 }),
            *final(self) == old(self).with_flags(final(self).meta_info.metainfo1),
    {
        let bits: u8 = (if os32 != 0 { FLAG_OS32 } else { 0 }) | (if os64 != 0 {
            FLAG_OS64
        } else {
            0
        }) | (if as32 != 0 { FLAG_AS32 } else { 0 }) | (if as64 != 0 { FLAG_AS64 } else { 0 });
        self.meta_info.metainfo1 = InstructionFlags::from_bits_retain(bits);
    }

    /// Get os32L (logical value, 0 or non-zero)
    pub fn os32_l(&self) -> (r: u8)
        ensures
            r == self.meta_info.metainfo1@ & FLAG_OS32,
    {
        self.meta_info.metainfo1.bits() & FLAG_OS32
    }

    /// Set os32B (boolean)
    pub fn set_os32_b(&mut self, bit: bool)
        ensures
            final(self).meta_info.metainfo1@ == (if bit {
                old(self).meta_info.metainfo1@ | FLAG_OS32
            } else {
                old(self).meta_info.metainfo1@ & !FLAG_OS32
            }),
            *final(self) == old(self).with_flags(final(self).meta_info.metainfo1),
    {
        self.meta_info.metainfo1.set(FLAG_OS32, bit);
    }

    /// Assert os32
    pub fn assert_os32(&mut self)
        ensures
            final(self).meta_info.metainfo1@ == old(self).meta_info.metainfo1@ | FLAG_OS32,
            *final(self) == old(self).with_flags(final(self).meta_info.metainfo1),
    {
        self.meta_info.metainfo1.insert(FLAG_OS32);
    }

    /// Get os64L (logical value, 0 or non-zero)
    pub fn os64_l(&self) -> (r: u8)
        ensures
            r == self.meta_info.metainfo1@ & FLAG_OS64,
    {
        self.meta_info.metainfo1.bits() & FLAG_OS64
    }

    /// Assert os64
    pub fn assert_os64(&mut self)
        ensures
            final(self).meta_info.metainfo1@ == old(self).meta_info.metainfo1@ | FLAG_OS64,
            *final(self) == old(self).with_flags(final(self).meta_info.metainfo1),
    {
        self.meta_info.metainfo1.insert(FLAG_OS64);
    }

    /// Get operand size (0=16-bit, 1=32-bit, 2=64-bit)
    pub fn osize(&self) -> (r: u8)
        ensures
            r == osize_of(self.meta_info.metainfo1@),
    {
        let bits = self.meta_info.metainfo1.bits();
        if bits & FLAG_OS64 != 0 {
            2
        } else if bits & FLAG_OS32 != 0 {
            1
        } else {
            0
        }
    }

    // ============================================================
    // Address size flags (as32L, as64L, asize)
    // ============================================================
    /// Get as32L (logical value, 0 or non-zero)
    pub fn as32_l(&self) -> (r: u8)
        ensures
            r == self.meta_info.metainfo1@ & FLAG_AS32,
    {
        self.meta_info.metainfo1.bits() & FLAG_AS32
    }

    /// Set as32B (boolean)
    pub fn set_as32_b(&mut self, bit: bool)
        ensures
            final(self).meta_info.metainfo1@ == (if bit {
                old(self).meta_info.metainfo1@ | FLAG_AS32
            } else {
                old(self).meta_info.metainfo1@ & !FLAG_AS32
            }),
            *final(self) == old(self).with_flags(final(self).meta_info.metainfo1),
    {
        self.meta_info.metainfo1.set(FLAG_AS32, bit);
    }

    /// Get as64L (logical value, 0 or non-zero)
    pub fn as64_l(&self) -> (r: u8)
        ensures
            r == self.meta_info.metainfo1@ & FLAG_AS64,
    {
        self.meta_info.metainfo1.bits() & FLAG_AS64
    }

    /// Clear as64
    pub fn clear_as64(&mut self)
        ensures
            final(self).meta_info.metainfo1@ == old(self).meta_info.metainfo1@ & !FLAG_AS64,
            *final(self) == old(self).with_flags(final(self).meta_info.metainfo1),
    {
        self.meta_info.metainfo1.remove(FLAG_AS64);
    }

    /// Get address size (0=16-bit, 1=32-bit, 2=64-bit)
    pub fn asize(&self) -> (r: u8)
        ensures
            r == asize_of(self.meta_info.metainfo1@),
    {
        let bits = self.meta_info.metainfo1.bits();
        if bits & FLAG_AS64 != 0 {
            2
        } else if bits & FLAG_AS32 != 0 {
            1
        } else {
            0
        }
    }

    /// Get extend8bitL (for 64-bit mode)
    pub fn extend8bit_l(&self) -> (r: u8)
        ensures
            r == self.meta_info.metainfo1@ & FLAG_EXTEND8BIT,
    {
        self.meta_info.metainfo1.bits() & FLAG_EXTEND8BIT
    }

    /// Assert extend8bit
    pub fn assert_extend8bit(&mut self)
        ensures
            final(self).meta_info.metainfo1@ == old(self).meta_info.metainfo1@ | FLAG_EXTEND8BIT,
            *final(self) == old(self).with_flags(final(self).meta_info.metainfo1),
    {
        self.meta_info.metainfo1.insert(FLAG_EXTEND8BIT);
    }

    // ============================================================
    // Lock/Rep prefix flags
    // ============================================================
    /// Get repUsedL (0=none, 1=0xF0, 2=0xF2, 3=0xF3)
    pub fn rep_used_l(&self) -> (r: u8)
        ensures
            r == lock_rep_of(self.meta_info.metainfo1@),
    {
        (self.meta_info.metainfo1.bits() >> 6) & 0x3
    }

    /// Get lockRepUsedValue (0=none, 1=0xF0, 2=0xF2, 3=0xF3)
    pub fn lock_rep_used_value(&self) -> (r: u8)
        ensures
            r == lock_rep_of(self.meta_info.metainfo1@),
    {
        (self.meta_info.metainfo1.bits() >> 6) & 0x3
    }

    /// Set lockRepUsed: the lock/rep field becomes the low two bits of
    /// `value`; the other flags are kept.
    pub fn set_lock_rep_used(&mut self, value: u8)
        ensures
            final(self).meta_info.metainfo1@ == (old(self).meta_info.metainfo1@ & 0x3f) | (value
                << 6),
            *final(self) == old(self).with_flags(final(self).meta_info.metainfo1),
    {
        let bits = self.meta_info.metainfo1.bits();
        let new_bits = (bits & 0x3f) | (value << 6);
        self.meta_info.metainfo1 = InstructionFlags::from_bits_retain(new_bits);
    }

    /// Set lock prefix
    pub fn set_lock(&mut self)
        ensures
            final(self).meta_info.metainfo1@ == (old(self).meta_info.metainfo1@ & 0x3f) | (
            BX_LOCK_PREFIX_USED << 6),
            *final(self) == old(self).with_flags(final(self).meta_info.metainfo1),
    {
        self.set_lock_rep_used(BX_LOCK_PREFIX_USED);
    }

    /// Get lock prefix
    pub fn get_lock(&self) -> (r: bool)
        ensures
            r == (lock_rep_of(self.meta_info.metainfo1@) == BX_LOCK_PREFIX_USED),
    {
        self.lock_rep_used_value() == BX_LOCK_PREFIX_USED
    }

    /// Get modC0 (mod==c0 in ModRM)
    pub fn mod_c0(&self) -> (r: bool)
        ensures
            r == (self.meta_info.metainfo1@ & FLAG_MODC0 != 0),
    {
        (self.meta_info.metainfo1.bits() & FLAG_MODC0) != 0
    }

    /// Assert modC0
    pub fn assert_mod_c0(&mut self)
        ensures
            final(self).meta_info.metainfo1@ == old(self).meta_info.metainfo1@ | FLAG_MODC0,
            *final(self) == old(self).with_flags(final(self).meta_info.metainfo1),
    {
        self.meta_info.metainfo1.insert(FLAG_MODC0);
    }

    // ============================================================
    // Register operand accessors
    // ============================================================
    /// Get destination register
    pub fn dst(&self) -> (r: u8)
        ensures
            r == self.meta_data@[BX_INSTR_METADATA_DST as int],
    {
        self.meta_data[BX_INSTR_METADATA_DST]
    }

    /// Get source register 1
    pub fn src1(&self) -> (r: u8)
        ensures
            r == self.meta_data@[BX_INSTR_METADATA_SRC1 as int],
    {
        self.meta_data[BX_INSTR_METADATA_SRC1]
    }

    /// Get source register 2
    pub fn src2(&self) -> (r: u8)
        ensures
            r == self.meta_data@[BX_INSTR_METADATA_SRC2 as int],
    {
        self.meta_data[BX_INSTR_METADATA_SRC2]
    }

    /// Get source register 3
    pub fn src3(&self) -> (r: u8)
        ensures
            r == self.meta_data@[BX_INSTR_METADATA_SRC3 as int],
    {
        self.meta_data[BX_INSTR_METADATA_SRC3]
    }

    /// Get source register (alias for src1)
    pub fn src(&self) -> (r: u8)
        ensures
            r == self.meta_data@[BX_INSTR_METADATA_SRC1 as int],
    {
        self.src1()
    }

    /// Set source register `src` (0=dst, 1=src1, 2=src2, 3=src3); any
    /// other index changes nothing.
    pub fn set_src_reg(&mut self, src: usize, reg: u8)
        ensures
            src < 4 ==> Self::meta_updated(*old(self), *final(self), src as int, reg),
            src >= 4 ==> *final(self) == *old(self),
    {
        if src < 4 {
            self.meta_data[src] = reg;
        }
    }

    /// Get source register by index (0=dst, 1=src1, 2=src2, 3=src3); any
    /// other index gives 0.
    pub fn get_src_reg(&self, src: usize) -> (r: u8)
        ensures
            r == (if src < 4 {
                self.meta_data@[src as int]
            } else {
                0
            }),
    {
        if src < 4 {
            self.meta_data[src]
        } else {
            0
        }
    }

    // ============================================================
    // Segment register accessors
    // ============================================================
    /// Get segment register
    pub fn seg(&self) -> (r: u8)
        ensures
            r == self.meta_data@[BX_INSTR_METADATA_SEG as int],
    {
        self.meta_data[BX_INSTR_METADATA_SEG]
    }

    /// Set segment register
    pub fn set_seg(&mut self, val: BxSegregs)
        ensures
            Self::meta_updated(*old(self), *final(self), BX_INSTR_METADATA_SEG as int, segreg_code(val)),
    {
        self.meta_data[BX_INSTR_METADATA_SEG] = val.as_u8();
    }

    /// Get CET segment override
    pub fn seg_override_cet(&self) -> (r: u8)
        ensures
            r == self.meta_data@[BX_INSTR_METADATA_CET_SEGOVERRIDE as int],
    {
        self.meta_data[BX_INSTR_METADATA_CET_SEGOVERRIDE]
    }

    /// Set CET segment override
    pub fn set_cet_seg_override(&mut self, val: BxSegregs)
        ensures
            Self::meta_updated(
                *old(self),
                *final(self),
                BX_INSTR_METADATA_CET_SEGOVERRIDE as int,
                segreg_code(val),
            ),
    {
        self.meta_data[BX_INSTR_METADATA_CET_SEGOVERRIDE] = val.as_u8();
    }

    // ============================================================
    // SIB (Scale-Index-Base) accessors
    // ============================================================
    /// Set SIB scale
    pub fn set_sib_scale(&mut self, scale: u8)
        ensures
            Self::meta_updated(*old(self), *final(self), BX_INSTR_METADATA_SCALE as int, scale),
    {
        self.meta_data[BX_INSTR_METADATA_SCALE] = scale;
    }

    /// Get SIB scale
    pub fn sib_scale(&self) -> (r: u8)
        ensures
            r == self.meta_data@[BX_INSTR_METADATA_SCALE as int],
    {
        self.meta_data[BX_INSTR_METADATA_SCALE]
    }

    /// Set SIB index
    pub fn set_sib_index(&mut self, index: u8)
        ensures
            Self::meta_updated(*old(self), *final(self), BX_INSTR_METADATA_INDEX as int, index),
    {
        self.meta_data[BX_INSTR_METADATA_INDEX] = index;
    }

    /// Get SIB index
    pub fn sib_index(&self) -> (r: u8)
        ensures
            r == self.meta_data@[BX_INSTR_METADATA_INDEX as int],
    {
        self.meta_data[BX_INSTR_METADATA_INDEX]
    }

    /// Set SIB base
    pub fn set_sib_base(&mut self, base: u8)
        ensures
            Self::meta_updated(*old(self), *final(self), BX_INSTR_METADATA_BASE as int, base),
    {
        self.meta_data[BX_INSTR_METADATA_BASE] = base;
    }

    /// Get SIB base
    pub fn sib_base(&self) -> (r: u8)
        ensures
            r == self.meta_data@[BX_INSTR_METADATA_BASE as int],
    {
        self.meta_data[BX_INSTR_METADATA_BASE]
    }

    // ============================================================
    // Immediate value accessors
    // ============================================================
    /// Get 32-bit immediate (Id)
    pub fn id(&self) -> (r: u32)
        ensures
            r == self.modrm_form.operand_data.id,
    {
        self.modrm_form.operand_data.id()
    }

    /// Get 16-bit immediate (Iw): the low half of the operand word
    pub fn iw(&self) -> (r: u16)
        ensures
            r == u32_le_halves(self.modrm_form.operand_data.id)[0],
    {
        self.modrm_form.operand_data.iw()[0]
    }

    /// Get 8-bit immediate (Ib): the low byte of the operand word
    pub fn ib(&self) -> (r: u8)
        ensures
            r == u32_le_bytes(self.modrm_form.operand_data.id)[0],
    {
        self.modrm_form.operand_data.ib()[0]
    }

    /// Get 64-bit immediate (Iq) - x86-64 only: the operand word is the low
    /// half, the displacement word the high half
    pub fn iq(&self) -> (r: u64)
        ensures
            r == crate::instruction::iq_of(
                self.modrm_form.operand_data.id,
                self.modrm_form.displacement.data32,
            ),
    {
        let lo = self.modrm_form.operand_data.id as u64;
        let hi = self.modrm_form.displacement.data32 as u64;
        lo | (hi << 32)
    }

    /// Set 64-bit immediate (Iq) - x86-64 only: the low half goes to the
    /// operand word, the high half to the displacement word
    pub fn set_iq(&mut self, val: u64)
        ensures
            final(self).modrm_form.operand_data.id == (val & 0xFFFF_FFFF) as u32,
            final(self).modrm_form.displacement.data32 == (val >> 32) as u32,
            final(self).meta_info == old(self).meta_info,
            final(self).meta_data == old(self).meta_data,
    {
        self.modrm_form.operand_data.id = (val & 0xFFFF_FFFF) as u32;
        self.modrm_form.displacement.data32 = (val >> 32) as u32;
    }

    /// Get second 32-bit immediate (Id2)
    pub fn id2(&self) -> (r: u32)
        ensures
            r == self.modrm_form.displacement.data32,
    {
        self.modrm_form.displacement.id2()
    }

    /// Get second 16-bit immediate (Iw2): the low half of the displacement word
    pub fn iw2(&self) -> (r: u16)
        ensures
            r == u32_le_halves(self.modrm_form.displacement.data32)[0],
    {
        self.modrm_form.displacement.iw2()[0]
    }

    /// Get second 8-bit immediate (Ib2): the low byte of the displacement word
    pub fn ib2(&self) -> (r: u8)
        ensures
            r == u32_le_bytes(self.modrm_form.displacement.data32)[0],
    {
        self.modrm_form.displacement.ib2()[0]
    }

    // ============================================================
    // Displacement accessors
    // ============================================================
    /// Get 32-bit signed displacement
    pub fn displ32s(&self) -> (r: i32)
        ensures
            r == self.modrm_form.displacement.data32 as i32,
    {
        self.modrm_form.displacement.displ32u() as i32
    }

    /// Get 16-bit signed displacement
    pub fn displ16s(&self) -> (r: i16)
        ensures
            r == ((self.modrm_form.displacement.data32 & 0xFFFF) as u16) as i16,
    {
        self.modrm_form.displacement.displ16u() as i16
    }

    /// Get 32-bit unsigned displacement
    pub fn displ32u(&self) -> (r: u32)
        ensures
            r == self.modrm_form.displacement.data32,
    {
        self.modrm_form.displacement.displ32u()
    }

    /// Get 16-bit unsigned displacement
    pub fn displ16u(&self) -> (r: u16)
        ensures
            r == (self.modrm_form.displacement.data32 & 0xFFFF) as u16,
    {
        self.modrm_form.displacement.displ16u()
    }

    // ============================================================
    // AVX/EVEX attribute accessors
    // ============================================================
    /// Get AVX vector length (VL): byte 1 of the operand word
    pub fn get_vl(&self) -> (r: u8)
        ensures
            r == u32_le_bytes(self.modrm_form.operand_data.id)[1],
    {
        self.modrm_form.operand_data.ib()[1]
    }

    /// Set AVX vector length (VL): byte 1 of the operand word becomes `value`
    pub fn set_vl(&mut self, value: u8)
        ensures
            *final(self) == old(self).with_id(
                crate::instruction::with_imm_byte(old(self).modrm_form.operand_data.id, 1, value),
            ),
    {
        let mut ib = self.modrm_form.operand_data.ib();
        ib[1] = value;
        self.modrm_form.operand_data.set_ib(ib);
    }

    /// Get VEX.W bit: bit 4 of byte 2 of the operand word
    pub fn get_vex_w(&self) -> (r: u8)
        ensures
            r == (u32_le_bytes(self.modrm_form.operand_data.id)[2] >> 4) & 1,
    {
        (self.modrm_form.operand_data.ib()[2] >> 4) & 1
    }

    /// Set VEX.W bit: bit 4 of byte 2 of the operand word becomes `bit & 1`
    pub fn set_vex_w(&mut self, bit: u8)
        ensures
            *final(self) == old(self).with_id(
                crate::instruction::with_imm_byte(
                    old(self).modrm_form.operand_data.id,
                    2,
                    (u32_le_bytes(old(self).modrm_form.operand_data.id)[2] & !0x10u8) | ((bit & 1)
                        << 4),
                ),
            ),
    {
        let mut ib = self.modrm_form.operand_data.ib();
        ib[2] = (ib[2] & !0x10) | ((bit & 1) << 4);
        self.modrm_form.operand_data.set_ib(ib);
    }

    /// Get EVEX opmask register: byte 3 of the operand word
    pub fn opmask(&self) -> (r: u8)
        ensures
            r == u32_le_bytes(self.modrm_form.operand_data.id)[3],
    {
        self.modrm_form.operand_data.ib()[3]
    }

    /// Set EVEX opmask register: byte 3 of the operand word becomes `reg`
    pub fn set_opmask(&mut self, reg: u8)
        ensures
            *final(self) == old(self).with_id(
                crate::instruction::with_imm_byte(old(self).modrm_form.operand_data.id, 3, reg),
            ),
    {
        let mut ib = self.modrm_form.operand_data.ib();
        ib[3] = reg;
        self.modrm_form.operand_data.set_ib(ib);
    }

    /// Get EVEX.b bit (broadcast/RC/SAE control): bit 3 of byte 2
    pub fn get_evex_b(&self) -> (r: u8)
        ensures
            r == (u32_le_bytes(self.modrm_form.operand_data.id)[2] >> 3) & 1,
    {
        (self.modrm_form.operand_data.ib()[2] >> 3) & 1
    }

    /// Set EVEX.b bit: bit 3 of byte 2 of the operand word becomes `bit & 1`
    pub fn set_evex_b(&mut self, bit: u8)
        ensures
            *final(self) == old(self).with_id(
                crate::instruction::with_imm_byte(
                    old(self).modrm_form.operand_data.id,
                    2,
                    (u32_le_bytes(old(self).modrm_form.operand_data.id)[2] & !0x8u8) | ((bit & 1)
                        << 3),
                ),
            ),
    {
        let mut ib = self.modrm_form.operand_data.ib();
        ib[2] = (ib[2] & !0x8) | ((bit & 1) << 3);
        self.modrm_form.operand_data.set_ib(ib);
    }

    /// Get zero masking bit (EVEX.z): bit 2 of byte 2
    pub fn is_zero_masking(&self) -> (r: u8)
        ensures
            r == (u32_le_bytes(self.modrm_form.operand_data.id)[2] >> 2) & 1,
    {
        (self.modrm_form.operand_data.ib()[2] >> 2) & 1
    }

    /// Set zero masking bit: bit 2 of byte 2 of the operand word becomes `bit & 1`
    pub fn set_zero_masking(&mut self, bit: u8)
        ensures
            *final(self) == old(self).with_id(
                crate::instruction::with_imm_byte(
                    old(self).modrm_form.operand_data.id,
                    2,
                    (u32_le_bytes(old(self).modrm_form.operand_data.id)[2] & !0x4u8) | ((bit & 1)
                        << 2),
                ),
            ),
    {
        let mut ib = self.modrm_form.operand_data.ib();
        ib[2] = (ib[2] & !0x4) | ((bit & 1) << 2);
        self.modrm_form.operand_data.set_ib(ib);
    }

    /// Get rounding control (RC): bits 1..0 of byte 2
    pub fn get_rc(&self) -> (r: u8)
        ensures
            r == u32_le_bytes(self.modrm_form.operand_data.id)[2] & 0x3,
    {
        self.modrm_form.operand_data.ib()[2] & 0x3
    }

    /// Set rounding control (RC): bits 1..0 of byte 2 of the operand word
    /// become `rc & 3`
    pub fn set_rc(&mut self, rc: u8)
        ensures
            *final(self) == old(self).with_id(
                crate::instruction::with_imm_byte(
                    old(self).modrm_form.operand_data.id,
                    2,
                    (u32_le_bytes(old(self).modrm_form.operand_data.id)[2] & !0x3u8) | (rc & 0x3),
                ),
            ),
    {
        let mut ib = self.modrm_form.operand_data.ib();
        ib[2] = (ib[2] & !0x3) | (rc & 0x3);
        self.modrm_form.operand_data.set_ib(ib);
    }

    // ============================================================
    // Helper methods for instruction handlers
    // ============================================================
    /// Get first byte of opcode (b1) - the high byte of Iw[0] for x87
    pub fn b1(&self) -> (r: u8)
        ensures
            r == (u32_le_halves(self.modrm_form.operand_data.id)[0] >> 8) as u8,
    {
        (self.modrm_form.operand_data.iw()[0] >> 8) as u8
    }

    /// Set foo (x87 instruction field) - stored in Iw[0]; Iw[1] becomes 0
    pub fn set_foo(&mut self, foo: u16)
        ensures
            *final(self) == old(self).with_id(u32_from_halves(foo, 0)),
    {
        self.modrm_form.operand_data.set_iw([foo, 0]);
    }

    /// Get foo (x87 instruction field): Iw[0]
    pub fn foo(&self) -> (r: u16)
        ensures
            r == u32_le_halves(self.modrm_form.operand_data.id)[0],
    {
        self.modrm_form.operand_data.iw()[0]
    }
}

} // verus!
