//! 32-bit/16-bit instruction decoder
//!
//! Decodes one x86 instruction in protected or real mode: legacy prefixes,
//! opcode (one-byte, `0F`, `0F 38`, `0F 3A`, 3DNow!), ModRM with 16- or
//! 32-bit addressing (SIB, displacement), immediate, and the opcode lookup.
//!
//! The decoding is stated as `spec_fetch_decode32`, a composition of one spec
//! function per step; `fetch_decode32` performs the same steps and its
//! contract is that spec.

use vstd::prelude::*;

use crate::bytes::{le16_at, le32_at, read_u16_le, read_u32_le, sign_extend8, sign_extend_byte};
use crate::decode_common::{
    disp_by_mod, dnow_suffix, fetch_escape, lemma_three_bit_fields, spec_disp_by_mod, spec_dnow_suffix, spec_fetch_escape,
    is_group_opcode, is_segment_push_pop, window_len, Immediate, MemOperand, ModRm, OpcodeBytes,
    BX_NIL_REGISTER, BX_NO_INDEX,
};
use crate::error::{BxDecodeError, DecodeError, DecodeResult};
use crate::instr_generated::{result_holds, DecodedInstr, Instruction};
use crate::instruction::{FLAG_AS32, FLAG_MODC0, FLAG_OS32};
use crate::opcode::Opcode;
use crate::opmap::{find_opcode_in_table, spec_find_opcode};
use crate::opmap_tables::{
    get_opcode_table_0f38, get_opcode_table_0f3a, get_opcode_table_0f_32, get_opcode_table_32,
    spec_opcode_table_0f38, spec_opcode_table_0f3a, spec_opcode_table_0f_32, spec_opcode_table_32,
};
use crate::opmap_x87::{dnow_opcode, fpu_opcode, spec_dnow_opcode, spec_fpu_opcode};

verus! {

// Decoding mask bit offsets
pub const OS32_OFFSET: u32 = 22;

pub const AS32_OFFSET: u32 = 20;

pub const SSE_PREFIX_OFFSET: u32 = 18;

pub const MODC0_OFFSET: u32 = 16;

pub const SRC_EQ_DST_OFFSET: u32 = 7;

pub const RRR_OFFSET: u32 = 4;

pub const NNN_OFFSET: u32 = 0;

// ============================================================================
// Phase 1: legacy prefixes
// ============================================================================
/// What the legacy prefixes have set.
#[derive(Clone, Copy, PartialEq, Eq, Structural, Debug)]
pub struct Prefixes32 {
    /// The position of the first byte that is not a prefix.
    pub pos: usize,
    /// Segment override: 0..=5 (ES, CS, SS, DS, FS, GS), 7 for none.
    pub seg_override: u8,
    pub os_32: bool,
    pub as_32: bool,
    /// 0 none, 1 LOCK (F0), 2 REPNE (F2), 3 REP (F3): the last one wins.
    pub lock_rep: u8,
    /// 0 none, 1 (66), 2 (F2), 3 (F3). The opcode tables number their
    /// columns F3 = 2 and F2 = 3, so in this mode F2 and F3 select each
    /// other's column.
    pub sse_prefix: u8,
}

/// The state before any prefix: the mode's operand and address size.
pub open spec fn initial_prefixes32(is_32: bool) -> Prefixes32 {
    Prefixes32 { pos: 0, seg_override: 7, os_32: is_32, as_32: is_32, lock_rep: 0, sse_prefix: 0 }
}

/// The legacy prefix bytes.
pub open spec fn is_legacy_prefix32(b: u8) -> bool {
    b == 0x26 || b == 0x2E || b == 0x36 || b == 0x3E || b == 0x64 || b == 0x65 || b == 0x66 || b
        == 0x67 || b == 0xF0 || b == 0xF2 || b == 0xF3
}

/// The effect of one prefix byte. `66` and `67` select the size that the
/// mode does not default to, however often they occur.
pub open spec fn spec_apply_prefix32(st: Prefixes32, b: u8, is_32: bool) -> Prefixes32 {
    match b {
        0x26 => Prefixes32 { seg_override: 0, ..st },
        0x2E => Prefixes32 { seg_override: 1, ..st },
        0x36 => Prefixes32 { seg_override: 2, ..st },
        0x3E => Prefixes32 { seg_override: 3, ..st },
        0x64 => Prefixes32 { seg_override: 4, ..st },
        0x65 => Prefixes32 { seg_override: 5, ..st },
        0x66 => Prefixes32 {
            os_32: !is_32,
            sse_prefix: if st.sse_prefix == 0 {
                1
            } else {
                st.sse_prefix
            },
            ..st
        },
        0x67 => Prefixes32 { as_32: !is_32, ..st },
        0xF0 => Prefixes32 { lock_rep: 1, ..st },
        0xF2 => Prefixes32 { lock_rep: 2, sse_prefix: 2, ..st },
        0xF3 => Prefixes32 { lock_rep: 3, sse_prefix: 3, ..st },
        _ => st,
    }
}

/// The prefixes read from position `i` on, with `st` what the earlier ones
/// set; the result's `pos` is the first position that holds no prefix.
pub open spec fn spec_scan_prefixes32(w: Seq<u8>, is_32: bool, i: int, st: Prefixes32) -> Prefixes32
    decreases w.len() - i,
{
    if 0 <= i < w.len() && is_legacy_prefix32(w[i]) {
        let next = spec_apply_prefix32(st, w[i], is_32);
        spec_scan_prefixes32(w, is_32, i + 1, Prefixes32 { pos: (i + 1) as usize, ..next })
    } else {
        Prefixes32 { pos: i as usize, ..st }
    }
}

fn apply_prefix32(st: Prefixes32, b: u8, is_32: bool) -> (r: Prefixes32)
    ensures
        r == spec_apply_prefix32(st, b, is_32),
{
    match b {
        // Segment overrides
        0x26 => Prefixes32 { seg_override: 0, ..st },
        0x2E => Prefixes32 { seg_override: 1, ..st },
        0x36 => Prefixes32 { seg_override: 2, ..st },
        0x3E => Prefixes32 { seg_override: 3, ..st },
        0x64 => Prefixes32 { seg_override: 4, ..st },
        0x65 => Prefixes32 { seg_override: 5, ..st },
        // Operand size override
        0x66 => Prefixes32 {
            os_32: !is_32,
            sse_prefix: if st.sse_prefix == 0 {
                1
            } else {
                st.sse_prefix
            },
            ..st
        },
        // Address size override
        0x67 => Prefixes32 { as_32: !is_32, ..st },
        // LOCK prefix
        0xF0 => Prefixes32 { lock_rep: 1, ..st },
        // REPNE/REPNZ
        0xF2 => Prefixes32 { lock_rep: 2, sse_prefix: 2, ..st },
        // REP/REPE/REPZ
        0xF3 => Prefixes32 { lock_rep: 3, sse_prefix: 3, ..st },
        _ => st,
    }
}

fn is_prefix32(b: u8) -> (r: bool)
    ensures
        r == is_legacy_prefix32(b),
{
    b == 0x26 || b == 0x2E || b == 0x36 || b == 0x3E || b == 0x64 || b == 0x65 || b == 0x66 || b
        == 0x67 || b == 0xF0 || b == 0xF2 || b == 0xF3
}

fn scan_prefixes32(bytes: &[u8], max_len: usize, is_32: bool) -> (r: Prefixes32)
    requires
        max_len <= bytes@.len(),
        max_len <= 15,
    ensures
        r == spec_scan_prefixes32(bytes@.take(max_len as int), is_32, 0, initial_prefixes32(is_32)),
        r.pos <= max_len,
{
    let ghost w = bytes@.take(max_len as int);
    let mut st = Prefixes32 {
        pos: 0,
        seg_override: 7,
        os_32: is_32,
        as_32: is_32,
        lock_rep: 0,
        sse_prefix: 0,
    };
    while st.pos < max_len && is_prefix32(bytes[st.pos])
        invariant
            max_len <= bytes@.len(),
            max_len <= 15,
            w == bytes@.take(max_len as int),
            st.pos <= max_len,
            spec_scan_prefixes32(w, is_32, st.pos as int, st) == spec_scan_prefixes32(
                w,
                is_32,
                0,
                initial_prefixes32(is_32),
            ),
        decreases max_len - st.pos,
    {
        let b = bytes[st.pos];
        let next = apply_prefix32(st, b, is_32);
        st = Prefixes32 { pos: st.pos + 1, ..next };
    }
    st
}

// ============================================================================
// Phase 2: opcode
// ============================================================================
/// The opcode at `pos`. A `C4`/`C5` whose next byte has mod == 3 is a VEX
/// prefix and an `8F` whose next byte has map field >= 8 an XOP prefix:
/// neither is decoded.
pub open spec fn spec_fetch_opcode32(w: Seq<u8>, pos: usize) -> Result<OpcodeBytes, DecodeError> {
    let b = w[pos as int];
    let p = (pos + 1) as usize;
    if (b == 0xC4 || b == 0xC5) && p < w.len() && (w[p as int] & 0xC0) == 0xC0 {
        Err(DecodeError::Decoder(BxDecodeError::BxIllegalVexXopOpcodeMap))
    } else if b == 0x8F && p < w.len() && (w[p as int] & 0x1F) >= 8 {
        Err(DecodeError::Decoder(BxDecodeError::BxIllegalVexXopOpcodeMap))
    } else if b == 0x0F {
        spec_fetch_escape(w, p)
    } else {
        Ok(OpcodeBytes { b1: b as u32, map: 0, pos: p })
    }
}

fn fetch_opcode32(bytes: &[u8], max_len: usize, pos: usize) -> (r: Result<OpcodeBytes, DecodeError>)
    requires
        max_len <= bytes@.len(),
        max_len <= 15,
        pos < max_len,
    ensures
        r == spec_fetch_opcode32(bytes@.take(max_len as int), pos),
        r is Ok ==> r->Ok_0.pos <= max_len && r->Ok_0.pos > pos,
{
    let b1 = bytes[pos];
    let p = pos + 1;
    // Check for VEX/XOP prefixes in 32-bit mode
    if b1 == 0xC4 || b1 == 0xC5 {
        // VEX prefix - check if it's actually VEX (mod=11), not LES/LDS
        if p < max_len && (bytes[p] & 0xC0) == 0xC0 {
            return Err(DecodeError::Decoder(BxDecodeError::BxIllegalVexXopOpcodeMap));
        }
    }
    // 0x62 is BOUND in 32/16-bit mode (EVEX is not decoded here).
    if b1 == 0x8F {
        // XOP prefix - check if it's actually XOP
        if p < max_len && (bytes[p] & 0x1F) >= 8 {
            return Err(DecodeError::Decoder(BxDecodeError::BxIllegalVexXopOpcodeMap));
        }
    }
    if b1 == 0x0F {
        return fetch_escape(bytes, max_len, p);
    }
    Ok(OpcodeBytes { b1: b1 as u32, map: 0, pos: p })
}

// ============================================================================
// Phase 3: ModRM, SIB and displacement
// ============================================================================
/// The one-byte and `0F` opcodes that have no ModRM byte.
pub open spec fn spec_opcode_needs_modrm_32(b1: u32, map: u8) -> bool {
    if map == 0 {
        let op = b1 as u8;
        !(op == 0x04 || op == 0x05 || op == 0x0C || op == 0x0D || op == 0x14 || op == 0x15 || op
            == 0x1C || op == 0x1D || op == 0x24 || op == 0x25 || op == 0x2C || op == 0x2D || op
            == 0x34 || op == 0x35 || op == 0x3C || op == 0x3D || op == 0x06 || op == 0x07 || op
            == 0x0E || op == 0x16 || op == 0x17 || op == 0x1E || op == 0x1F || op == 0x27 || op
            == 0x2F || op == 0x37 || op == 0x3F || (0x40 <= op <= 0x5F) || (0x60 <= op <= 0x61)
            || op == 0x68 || op == 0x6A || (0x70 <= op <= 0x7F) || (0x90 <= op <= 0x9F) || (0xA0
            <= op <= 0xAF) || (0xB0 <= op <= 0xBF) || op == 0xC2 || op == 0xC3 || op == 0xC8 || op
            == 0xC9 || op == 0xCA || op == 0xCB || (0xCC <= op <= 0xCF) || (0xD4 <= op <= 0xD7)
            || (0xE0 <= op <= 0xEF) || op == 0xF1 || op == 0xF4 || op == 0xF5 || (0xF8 <= op
            <= 0xFD))
    } else if map == 1 {
        let op = (b1 & 0xFF) as u8;
        !((0x05 <= op <= 0x09) || op == 0x0B || (0x30 <= op <= 0x37) || op == 0x77 || (0x80 <= op
            <= 0x8F) || (0xA0 <= op <= 0xA2) || (0xA8 <= op <= 0xAA) || (0xC8 <= op <= 0xCF))
    } else {
        true
    }
}

/// Check if opcode needs ModRM byte (32-bit mode)
fn opcode_needs_modrm_32(b1: u32, map: u8) -> (r: bool)
    ensures
        r == spec_opcode_needs_modrm_32(b1, map),
{
    if map == 0 {
        let op = b1 as u8;
        !(op == 0x04 || op == 0x05 || op == 0x0C || op == 0x0D || op == 0x14 || op == 0x15 || op
            == 0x1C || op == 0x1D || op == 0x24 || op == 0x25 || op == 0x2C || op == 0x2D || op
            == 0x34 || op == 0x35 || op == 0x3C || op == 0x3D || op == 0x06 || op == 0x07 || op
            == 0x0E || op == 0x16 || op == 0x17 || op == 0x1E || op == 0x1F || op == 0x27 || op
            == 0x2F || op == 0x37 || op == 0x3F || (0x40 <= op && op <= 0x5F) || (0x60 <= op && op
            <= 0x61) || op == 0x68 || op == 0x6A || (0x70 <= op && op <= 0x7F) || (0x90 <= op && op
            <= 0x9F) || (0xA0 <= op && op <= 0xAF) || (0xB0 <= op && op <= 0xBF) || op == 0xC2
            || op == 0xC3 || op == 0xC8 || op == 0xC9 || op == 0xCA || op == 0xCB || (0xCC <= op
            && op <= 0xCF) || (0xD4 <= op && op <= 0xD7) || (0xE0 <= op && op <= 0xEF) || op
            == 0xF1 || op == 0xF4 || op == 0xF5 || (0xF8 <= op && op <= 0xFD))
    } else if map == 1 {
        let op = (b1 & 0xFF) as u8;
        !((0x05 <= op && op <= 0x09) || op == 0x0B || (0x30 <= op && op <= 0x37) || op == 0x77 || (
        0x80 <= op && op <= 0x8F) || (0xA0 <= op && op <= 0xA2) || (0xA8 <= op && op <= 0xAA) || (
        0xC8 <= op && op <= 0xCF))
    } else {
        true
    }
}

/// 16-bit addressing: base register of each rm (BX, BX, BP, BP, SI, DI, BP, BX)
pub open spec fn spec_resolve16_base_reg(rm: u32) -> u8 {
    if rm == 0 || rm == 1 || rm == 7 {
        3
    } else if rm == 2 || rm == 3 || rm == 6 {
        5
    } else if rm == 4 {
        6
    } else {
        7
    }
}

/// 16-bit addressing: index register of each rm (SI, DI, SI, DI, then none)
pub open spec fn spec_resolve16_index_reg(rm: u32) -> u8 {
    if rm == 0 || rm == 2 {
        6
    } else if rm == 1 || rm == 3 {
        7
    } else {
        4
    }
}

fn resolve16_base_reg(rm: u32) -> (r: u8)
    ensures
        r == spec_resolve16_base_reg(rm),
{
    if rm == 0 || rm == 1 || rm == 7 {
        3  // BX
    } else if rm == 2 || rm == 3 || rm == 6 {
        5  // BP
    } else if rm == 4 {
        6  // SI
    } else {
        7  // DI
    }
}

fn resolve16_index_reg(rm: u32) -> (r: u8)
    ensures
        r == spec_resolve16_index_reg(rm),
{
    if rm == 0 || rm == 2 {
        6  // SI
    } else if rm == 1 || rm == 3 {
        7  // DI
    } else {
        4  // none
    }
}

/// The base, index and scale of a ModRM memory operand with 32-bit
/// addressing, with the SIB byte and the 32-bit displacement that replaces
/// a missing base, read from `pos` (just after the ModRM byte).
pub open spec fn spec_modrm_base32(w: Seq<u8>, pos: usize, mod_field: u8, rm: u32) -> Result<
    MemOperand,
    DecodeError,
> {
    if rm == 4 {
        if pos >= w.len() {
            Err(DecodeError::SibBufferUnderflow)
        } else {
            let sib = w[pos as int];
            let scale = (sib >> 6) & 0x3;
            let index = (sib >> 3) & 0x7;
            let base = sib & 0x7;
            let p = (pos + 1) as usize;
            if mod_field == 0 && base == 5 {
                if p + 4 > w.len() {
                    Err(DecodeError::DisplacementBufferUnderflow)
                } else {
                    Ok(
                        MemOperand {
                            base: BX_NIL_REGISTER,
                            index,
                            scale,
                            disp: le32_at(w, p as int),
                            pos: (p + 4) as usize,
                        },
                    )
                }
            } else {
                Ok(MemOperand { base, index, scale, disp: 0, pos: p })
            }
        }
    } else if mod_field == 0 && rm == 5 {
        if pos + 4 > w.len() {
            Err(DecodeError::DisplacementBufferUnderflow)
        } else {
            Ok(
                MemOperand {
                    base: BX_NIL_REGISTER,
                    index: BX_NO_INDEX,
                    scale: 0,
                    disp: le32_at(w, pos as int),
                    pos: (pos + 4) as usize,
                },
            )
        }
    } else {
        Ok(MemOperand { base: rm as u8, index: BX_NO_INDEX, scale: 0, disp: 0, pos })
    }
}

/// The memory operand of a ModRM byte with 32-bit addressing, read from
/// `pos` (just after the ModRM byte): the base part, then the displacement
/// that the `mod` field calls for.
pub open spec fn spec_modrm_mem32(w: Seq<u8>, pos: usize, mod_field: u8, rm: u32) -> Result<
    MemOperand,
    DecodeError,
> {
    match spec_modrm_base32(w, pos, mod_field, rm) {
        Err(e) => Err(e),
        Ok(m) => spec_disp_by_mod(w, m, mod_field, true),
    }
}

/// The memory operand of a ModRM byte with 16-bit addressing, read from
/// `pos` (just after the ModRM byte).
pub open spec fn spec_modrm_mem16(w: Seq<u8>, pos: usize, mod_field: u8, rm: u32) -> Result<
    MemOperand,
    DecodeError,
> {
    let index = spec_resolve16_index_reg(rm);
    let base_part = if mod_field == 0 && rm == 6 {
        if pos + 2 > w.len() {
            Err(DecodeError::DisplacementBufferUnderflow)
        } else {
            Ok(
                MemOperand {
                    base: BX_NIL_REGISTER,
                    index,
                    scale: 0,
                    disp: le16_at(w, pos as int) as u32,
                    pos: (pos + 2) as usize,
                },
            )
        }
    } else {
        Ok(MemOperand { base: spec_resolve16_base_reg(rm), index, scale: 0, disp: 0, pos })
    };
    match base_part {
        Err(e) => Err(e),
        Ok(m) => spec_disp_by_mod(w, m, mod_field, false),
    }
}

/// The ModRM fields of the instruction with opcode `b1` in `map`, read from
/// `pos` on.
pub open spec fn spec_decode_modrm32(w: Seq<u8>, pos: usize, b1: u32, map: u8, as_32: bool) -> Result<
    ModRm,
    DecodeError,
> {
    if !spec_opcode_needs_modrm_32(b1, map) {
        Ok(
            ModRm {
                needs_modrm: false,
                nnn: (b1 >> 3) & 0x7,
                rm: b1 & 0x7,
                modrm_byte: 0,
                mod_field: 3,
                base: 0,
                index: 0,
                scale: 0,
                disp: 0,
                pos,
            },
        )
    } else if pos >= w.len() {
        Err(DecodeError::ModRmBufferUnderflow)
    } else {
        let modrm = w[pos as int];
        let mod_field = (modrm >> 6) & 0x3;
        let nnn = ((modrm >> 3) & 0x7) as u32;
        let rm = (modrm & 0x7) as u32;
        let p = (pos + 1) as usize;
        if mod_field == 3 {
            Ok(
                ModRm {
                    needs_modrm: true,
                    nnn,
                    rm,
                    modrm_byte: modrm,
                    mod_field,
                    base: 0,
                    index: 0,
                    scale: 0,
                    disp: 0,
                    pos: p,
                },
            )
        } else {
            let mem = if as_32 {
                spec_modrm_mem32(w, p, mod_field, rm)
            } else {
                spec_modrm_mem16(w, p, mod_field, rm)
            };
            match mem {
                Err(e) => Err(e),
                Ok(m) => Ok(
                    ModRm {
                        needs_modrm: true,
                        nnn,
                        rm,
                        modrm_byte: modrm,
                        mod_field,
                        base: m.base,
                        index: m.index,
                        scale: m.scale,
                        disp: m.disp,
                        pos: m.pos,
                    },
                ),
            }
        }
    }
}

fn modrm_mem32(bytes: &[u8], max_len: usize, pos: usize, mod_field: u8, rm: u32) -> (r: Result<
    MemOperand,
    DecodeError,
>)
    requires
        max_len <= bytes@.len(),
        max_len <= 15,
        pos <= max_len,
    ensures
        r == spec_modrm_mem32(bytes@.take(max_len as int), pos, mod_field, rm),
        r is Ok ==> pos <= r->Ok_0.pos <= max_len,
{
    let ghost w = bytes@.take(max_len as int);
    let m = if rm == 4 {
        // SIB byte
        if pos >= max_len {
            return Err(DecodeError::SibBufferUnderflow);
        }
        let sib = bytes[pos];
        let p = pos + 1;
        let scale = (sib >> 6) & 0x3;
        let index = (sib >> 3) & 0x7;
        let base = sib & 0x7;
        // Displacement for SIB with base=5 and mod=0
        if mod_field == 0 && base == 5 {
            if p + 4 > max_len {
                return Err(DecodeError::DisplacementBufferUnderflow);
            }
            let disp = read_u32_le(bytes, p);
            assert(disp == le32_at(w, p as int));
            MemOperand { base: BX_NIL_REGISTER, index, scale, disp, pos: p + 4 }
        } else {
            MemOperand { base, index, scale, disp: 0, pos: p }
        }
    } else if mod_field == 0 && rm == 5 {
        // [disp32] when mod=0, rm=5
        if pos + 4 > max_len {
            return Err(DecodeError::DisplacementBufferUnderflow);
        }
        let disp = read_u32_le(bytes, pos);
        assert(disp == le32_at(w, pos as int));
        MemOperand { base: BX_NIL_REGISTER, index: BX_NO_INDEX, scale: 0, disp, pos: pos + 4 }
    } else {
        MemOperand { base: rm as u8, index: BX_NO_INDEX, scale: 0, disp: 0, pos }
    };
    // Handle displacement based on mod field
    disp_by_mod(bytes, max_len, m, mod_field, true)
}

fn modrm_mem16(bytes: &[u8], max_len: usize, pos: usize, mod_field: u8, rm: u32) -> (r: Result<
    MemOperand,
    DecodeError,
>)
    requires
        max_len <= bytes@.len(),
        max_len <= 15,
        pos <= max_len,
    ensures
        r == spec_modrm_mem16(bytes@.take(max_len as int), pos, mod_field, rm),
        r is Ok ==> pos <= r->Ok_0.pos <= max_len,
{
    let ghost w = bytes@.take(max_len as int);
    let index = resolve16_index_reg(rm);
    let m = if mod_field == 0 && rm == 6 {
        // [disp16] when mod=0, rm=6
        if pos + 2 > max_len {
            return Err(DecodeError::DisplacementBufferUnderflow);
        }
        let disp = read_u16_le(bytes, pos) as u32;
        assert(disp == le16_at(w, pos as int));
        MemOperand { base: BX_NIL_REGISTER, index, scale: 0, disp, pos: pos + 2 }
    } else {
        MemOperand { base: resolve16_base_reg(rm), index, scale: 0, disp: 0, pos }
    };
    // Handle displacement based on mod field
    disp_by_mod(bytes, max_len, m, mod_field, false)
}

fn decode_modrm32(bytes: &[u8], max_len: usize, pos: usize, b1: u32, map: u8, as_32: bool) -> (r:
    Result<ModRm, DecodeError>)
    requires
        max_len <= bytes@.len(),
        max_len <= 15,
        pos <= max_len,
    ensures
        r == spec_decode_modrm32(bytes@.take(max_len as int), pos, b1, map, as_32),
        r is Ok ==> pos <= r->Ok_0.pos <= max_len && r->Ok_0.rm < 8 && r->Ok_0.nnn < 8,
{
    proof {
        lemma_three_bit_fields(b1, 0);
    }
    if !opcode_needs_modrm_32(b1, map) {
        // No ModRM - instruction uses register encoded in opcode
        return Ok(
            ModRm {
                needs_modrm: false,
                nnn: (b1 >> 3) & 0x7,
                rm: b1 & 0x7,
                modrm_byte: 0,
                mod_field: 3,
                base: 0,
                index: 0,
                scale: 0,
                disp: 0,
                pos,
            },
        );
    }
    if pos >= max_len {
        return Err(DecodeError::ModRmBufferUnderflow);
    }
    let modrm = bytes[pos];
    proof {
        lemma_three_bit_fields(0, modrm);
    }
    let mod_field = (modrm >> 6) & 0x3;
    let nnn = ((modrm >> 3) & 0x7) as u32;
    let rm = (modrm & 0x7) as u32;
    let p = pos + 1;
    if mod_field == 3 {
        // Register mode
        return Ok(
            ModRm {
                needs_modrm: true,
                nnn,
                rm,
                modrm_byte: modrm,
                mod_field,
                base: 0,
                index: 0,
                scale: 0,
                disp: 0,
                pos: p,
            },
        );
    }
    // Memory mode - depends on address size
    let m = if as_32 {
        modrm_mem32(bytes, max_len, p, mod_field, rm)?
    } else {
        modrm_mem16(bytes, max_len, p, mod_field, rm)?
    };
    Ok(
        ModRm {
            needs_modrm: true,
            nnn,
            rm,
            modrm_byte: modrm,
            mod_field,
            base: m.base,
            index: m.index,
            scale: m.scale,
            disp: m.disp,
            pos: m.pos,
        },
    )
}

// ============================================================================
// Segment and register operands
// ============================================================================
/// Default segment for 16-bit addressing, mod=00: SS for BP+SI and BP+DI,
/// else DS.
pub open spec fn spec_sreg_mod00_rm16(rm: u32) -> u8 {
    if rm == 2 || rm == 3 {
        2
    } else {
        3
    }
}

/// Default segment for 16-bit addressing, mod=01 or mod=10: SS for BP+SI,
/// BP+DI and BP, else DS.
pub open spec fn spec_sreg_mod01or10_rm16(rm: u32) -> u8 {
    if rm == 2 || rm == 3 || rm == 6 {
        2
    } else {
        3
    }
}

/// Default segment for 32-bit addressing, mod=00: SS for an ESP base, else DS.
pub open spec fn spec_sreg_mod0_base32(base: u8) -> u8 {
    if base == 4 {
        2
    } else {
        3
    }
}

/// Default segment for 32-bit addressing, mod=01 or mod=10: SS for an ESP or
/// EBP base, else DS.
pub open spec fn spec_sreg_mod1or2_base32(base: u8) -> u8 {
    if base == 4 || base == 5 {
        2
    } else {
        3
    }
}

/// The segment register of the instruction: the override prefix if any; for
/// a memory operand without one, the default of its addressing mode; DS
/// otherwise.
pub open spec fn spec_segment32(seg_override: u8, as_32: bool, m: ModRm) -> u8 {
    if seg_override < 7 {
        seg_override
    } else if m.mod_field != 3 {
        if !as_32 {
            if m.mod_field == 0 {
                spec_sreg_mod00_rm16(m.rm)
            } else {
                spec_sreg_mod01or10_rm16(m.rm)
            }
        } else {
            let base = if m.rm == 4 {
                m.base
            } else {
                m.rm as u8
            };
            if m.mod_field == 0 {
                spec_sreg_mod0_base32(base & 7)
            } else {
                spec_sreg_mod1or2_base32(base & 7)
            }
        }
    } else {
        3
    }
}

fn segment32(seg_override: u8, as_32: bool, m: ModRm) -> (r: u8)
    requires
        m.rm < 8,
    ensures
        r == spec_segment32(seg_override, as_32, m),
{
    if seg_override < 7 {
        return seg_override;
    }
    if m.mod_field == 3 {
        return 3;  // DS
    }
    if !as_32 {
        // 16-bit addressing mode
        if m.mod_field == 0 {
            if m.rm == 2 || m.rm == 3 {
                2
            } else {
                3
            }
        } else {
            if m.rm == 2 || m.rm == 3 || m.rm == 6 {
                2
            } else {
                3
            }
        }
    } else {
        // 32-bit addressing mode
        let base = if m.rm == 4 {
            m.base
        } else {
            m.rm as u8
        };
        let b = base & 7;
        if m.mod_field == 0 {
            if b == 4 {
                2
            } else {
                3
            }
        } else {
            if b == 4 || b == 5 {
                2
            } else {
                3
            }
        }
    }
}

/// The destination and first source operand slots.
///
/// With ModRM: for group opcodes, `MOV Ew,Sw` and the `Ed,Gd` forms (opcodes
/// ending in 1 or 9), the rm field is the destination and the reg field the
/// source; for `MOV Sw,Ew` and the `Gd,Ed` forms the other way round.
/// Without ModRM: the register in bits 2..0 of the opcode, except for
/// segment push/pop, whose segment register is in bits 5..3.
pub open spec fn spec_operands32(b1: u32, map: u8, m: ModRm) -> (u8, u8) {
    if m.needs_modrm {
        if is_group_opcode(b1) || b1 == 0x8C {
            (m.rm as u8, m.nnn as u8)
        } else if b1 == 0x8E {
            (m.nnn as u8, m.rm as u8)
        } else if (b1 & 0x0F) == 0x01 || (b1 & 0x0F) == 0x09 || b1 == 0x89 {
            (m.rm as u8, m.nnn as u8)
        } else {
            (m.nnn as u8, m.rm as u8)
        }
    } else if is_segment_push_pop(b1, map) {
        (m.nnn as u8, m.rm as u8)
    } else {
        (m.rm as u8, m.nnn as u8)
    }
}

fn operands32(b1: u32, map: u8, m: ModRm) -> (r: (u8, u8))
    ensures
        r == spec_operands32(b1, map, m),
{
    if m.needs_modrm {
        // Group opcodes: 80, 81, 83, C0, C1, D0-D3, F6, F7, FE, FF
        let is_group_opcode = b1 == 0x80 || b1 == 0x81 || b1 == 0x83 || b1 == 0xC0 || b1 == 0xC1
            || b1 == 0xD0 || b1 == 0xD1 || b1 == 0xD2 || b1 == 0xD3 || b1 == 0xF6 || b1 == 0xF7
            || b1 == 0xFE || b1 == 0xFF;
        if is_group_opcode {
            // Group opcodes: operand is in rm, opcode extension in nnn
            (m.rm as u8, m.nnn as u8)
        } else if b1 == 0x8C {
            // MOV Ew,Sw: rm is destination (gpr), nnn is source (segment)
            (m.rm as u8, m.nnn as u8)
        } else if b1 == 0x8E {
            // MOV Sw,Ew: nnn is destination (segment), rm is source (gpr)
            (m.nnn as u8, m.rm as u8)
        } else if (b1 & 0x0F) == 0x01 || (b1 & 0x0F) == 0x09 || b1 == 0x89 {
            // Ed,Gd format: rm (Ed) is destination, nnn (Gd) is source
            (m.rm as u8, m.nnn as u8)
        } else {
            // Gd,Ed format: nnn (Gd) is destination, rm (Ed) is source
            (m.nnn as u8, m.rm as u8)
        }
    } else {
        // 06/07/0E/16/17/1E/1F and 0F A0/A1/A8/A9: segment push/pop
        let is_segment_push_pop = b1 == 0x06 || b1 == 0x07 || b1 == 0x0E || b1 == 0x16 || b1
            == 0x17 || b1 == 0x1E || b1 == 0x1F || (map == 1 && ((b1 & 0xFF) == 0xA0 || (b1
            & 0xFF) == 0xA1 || (b1 & 0xFF) == 0xA8 || (b1 & 0xFF) == 0xA9));
        if is_segment_push_pop {
            (m.nnn as u8, m.rm as u8)
        } else {
            (m.rm as u8, m.nnn as u8)
        }
    }
}

// ============================================================================
// Phase 4: immediate
// ============================================================================
/// The number of immediate bytes (including the moffs address offset of
/// A0..A3) that follow the ModRM part in 32/16-bit mode.
///
/// Far pointers (9A, EA) take an offset and a 16-bit selector: 4 bytes with
/// 16-bit operand size, 6 with 32-bit. ENTER (C8) takes Iw and Ib.
pub open spec fn spec_immediate_size_32(b1: u32, map: u8, os_32: bool, as_32: bool, nnn: u32) -> u8 {
    if map == 0 {
        let op = b1 as u8;
        if op == 0xA0 || op == 0xA1 || op == 0xA2 || op == 0xA3 {
            if as_32 {
                4
            } else {
                2
            }
        } else if op == 0x04 || op == 0x0C || op == 0x14 || op == 0x1C || op == 0x24 || op == 0x2C
            || op == 0x34 || op == 0x3C || op == 0x6A || op == 0x6B || op == 0xA8 || (0xB0 <= op
            <= 0xB7) || op == 0xCD || op == 0xD4 || op == 0xD5 || (0xE0 <= op <= 0xE7) || op
            == 0xEB || (0x70 <= op <= 0x7F) || op == 0x80 || op == 0x82 || op == 0x83 || op == 0xC0
            || op == 0xC1 || op == 0xC6 {
            1
        } else if op == 0xF6 {
            if nnn == 0 || nnn == 1 {
                1
            } else {
                0
            }
        } else if op == 0xF7 {
            if nnn == 0 || nnn == 1 {
                if os_32 {
                    4
                } else {
                    2
                }
            } else {
                0
            }
        } else if op == 0xC2 || op == 0xCA {
            2
        } else if op == 0xC8 {
            3
        } else if op == 0x05 || op == 0x0D || op == 0x15 || op == 0x1D || op == 0x25 || op == 0x2D
            || op == 0x35 || op == 0x3D || op == 0x68 || op == 0x69 || op == 0xA9 || op == 0xE8
            || op == 0xE9 || op == 0x81 || op == 0xC7 || (0xB8 <= op <= 0xBF) {
            if os_32 {
                4
            } else {
                2
            }
        } else if op == 0x9A || op == 0xEA {
            if os_32 {
                6
            } else {
                4
            }
        } else {
            0
        }
    } else if map == 1 {
        let op = (b1 & 0xFF) as u8;
        if 0x80 <= op <= 0x8F {
            if os_32 {
                4
            } else {
                2
            }
        } else if (0x70 <= op <= 0x73) || op == 0xA4 || op == 0xAC || op == 0xBA || op == 0xC2 || (
        0xC4 <= op <= 0xC6) {
            1
        } else {
            0
        }
    } else if map == 3 {
        1
    } else {
        0
    }
}

/// Get immediate size for opcode (32-bit mode)
/// Also handles moffs (direct memory offset) for opcodes A0-A3
fn get_immediate_size_32(b1: u32, map: u8, os_32: bool, as_32: bool, nnn: u32) -> (r: u8)
    ensures
        r == spec_immediate_size_32(b1, map, os_32, as_32, nnn),
{
    if map == 0 {
        let op = b1 as u8;
        if op == 0xA0 || op == 0xA1 || op == 0xA2 || op == 0xA3 {
            // moffs - depends on ADDRESS size, not operand size
            if as_32 {
                4
            } else {
                2
            }
        } else if op == 0x04 || op == 0x0C || op == 0x14 || op == 0x1C || op == 0x24 || op == 0x2C
            || op == 0x34 || op == 0x3C || op == 0x6A || op == 0x6B || op == 0xA8 || (0xB0 <= op
            && op <= 0xB7) || op == 0xCD || op == 0xD4 || op == 0xD5 || (0xE0 <= op && op <= 0xE7)
            || op == 0xEB || (0x70 <= op && op <= 0x7F) || op == 0x80 || op == 0x82 || op == 0x83
            || op == 0xC0 || op == 0xC1 || op == 0xC6 {
            // Ib
            1
        } else if op == 0xF6 {
            // Group 3a: TEST (nnn=0,1) has Ib, others have no immediate
            if nnn == 0 || nnn == 1 {
                1
            } else {
                0
            }
        } else if op == 0xF7 {
            // Group 3b: TEST (nnn=0,1) has Iv, others have no immediate
            if nnn == 0 || nnn == 1 {
                if os_32 {
                    4
                } else {
                    2
                }
            } else {
                0
            }
        } else if op == 0xC2 || op == 0xCA {
            // Iw
            2
        } else if op == 0xC8 {
            // ENTER: Iw + Ib
            3
        } else if op == 0x05 || op == 0x0D || op == 0x15 || op == 0x1D || op == 0x25 || op == 0x2D
            || op == 0x35 || op == 0x3D || op == 0x68 || op == 0x69 || op == 0xA9 || op == 0xE8
            || op == 0xE9 || op == 0x81 || op == 0xC7 || (0xB8 <= op && op <= 0xBF) {
            // Iv (operand-size dependent)
            if os_32 {
                4
            } else {
                2
            }
        } else if op == 0x9A || op == 0xEA {
            // Far pointer (Ap): offset + segment
            if os_32 {
                6
            } else {
                4
            }
        } else {
            0
        }
    } else if map == 1 {
        let op = (b1 & 0xFF) as u8;
        if 0x80 <= op && op <= 0x8F {
            // Jcc rel32/rel16
            if os_32 {
                4
            } else {
                2
            }
        } else if (0x70 <= op && op <= 0x73) || op == 0xA4 || op == 0xAC || op == 0xBA || op
            == 0xC2 || (0xC4 <= op && op <= 0xC6) {
            1
        } else {
            0
        }
    } else if map == 3 {
        // 0F 3A - all have Ib
        1
    } else {
        0
    }
}

/// One-byte opcodes whose byte immediate is sign-extended to 32 bits:
/// the short branches and 83 (Group 1 EdsIb).
pub open spec fn sign_extends_imm8_32(op: u8) -> bool {
    (0x70 <= op <= 0x7F) || (0xE0 <= op <= 0xE3) || op == 0xEB || op == 0x83
}

/// The immediate of `size` bytes at `pos`; `disp` is the displacement word so
/// far, which ENTER and far pointers overwrite with their second part.
pub open spec fn spec_fetch_immediate32(
    w: Seq<u8>,
    pos: usize,
    size: u8,
    b1: u32,
    map: u8,
    disp: u32,
) -> Result<Immediate, DecodeError> {
    if size > 0 && pos + size > w.len() {
        Err(DecodeError::ImmediateBufferUnderflow)
    } else if size == 1 {
        let b = w[pos as int];
        let id = if map == 0 && sign_extends_imm8_32(b1 as u8) {
            sign_extend8(b)
        } else {
            b as u32
        };
        Ok(Immediate { id, disp, pos: (pos + 1) as usize })
    } else if size == 2 {
        Ok(Immediate { id: le16_at(w, pos as int) as u32, disp, pos: (pos + 2) as usize })
    } else if size == 3 {
        Ok(
            Immediate {
                id: le16_at(w, pos as int) as u32,
                disp: w[pos + 2] as u32,
                pos: (pos + 3) as usize,
            },
        )
    } else if size == 4 {
        if b1 == 0x9A || b1 == 0xEA {
            Ok(
                Immediate {
                    id: le16_at(w, pos as int) as u32,
                    disp: le16_at(w, pos + 2) as u32,
                    pos: (pos + 4) as usize,
                },
            )
        } else {
            Ok(Immediate { id: le32_at(w, pos as int), disp, pos: (pos + 4) as usize })
        }
    } else if size == 6 {
        Ok(
            Immediate {
                id: le32_at(w, pos as int),
                disp: le16_at(w, pos + 4) as u32,
                pos: (pos + 6) as usize,
            },
        )
    } else {
        Ok(Immediate { id: 0, disp, pos })
    }
}

fn fetch_immediate32(
    bytes: &[u8],
    max_len: usize,
    pos: usize,
    size: u8,
    b1: u32,
    map: u8,
    disp: u32,
) -> (r: Result<Immediate, DecodeError>)
    requires
        max_len <= bytes@.len(),
        max_len <= 15,
        pos <= max_len,
    ensures
        r == spec_fetch_immediate32(bytes@.take(max_len as int), pos, size, b1, map, disp),
        r is Ok ==> pos <= r->Ok_0.pos <= max_len,
{
    let ghost w = bytes@.take(max_len as int);
    if size > 0 && pos + (size as usize) > max_len {
        return Err(DecodeError::ImmediateBufferUnderflow);
    }
    if size == 1 {
        let byte_val = bytes[pos];
        // Sign-extend byte immediates that are used as 32-bit values via id():
        // - Branch opcodes (0x70-0x7F, 0xE0-0xE3, 0xEB): relative displacements
        // - 0x83 (Group 1 EdsIb): sign-extended imm8 to operand-size
        let op = b1 as u8;
        let needs_sign_ext = map == 0 && ((0x70 <= op && op <= 0x7F) || (0xE0 <= op && op <= 0xE3)
            || op == 0xEB || op == 0x83);
        let id = if needs_sign_ext {
            sign_extend_byte(byte_val)
        } else {
            byte_val as u32
        };
        Ok(Immediate { id, disp, pos: pos + 1 })
    } else if size == 2 {
        let id = read_u16_le(bytes, pos) as u32;
        assert(id == le16_at(w, pos as int));
        Ok(Immediate { id, disp, pos: pos + 2 })
    } else if size == 3 {
        // ENTER: Iw + Ib
        let id = read_u16_le(bytes, pos) as u32;
        assert(id == le16_at(w, pos as int));
        Ok(Immediate { id, disp: bytes[pos + 2] as u32, pos: pos + 3 })
    } else if size == 4 {
        if b1 == 0x9A || b1 == 0xEA {
            // Far pointer in 16-bit mode: Iw (offset) + Iw (segment)
            let id = read_u16_le(bytes, pos) as u32;
            let d = read_u16_le(bytes, pos + 2) as u32;
            assert(id == le16_at(w, pos as int));
            assert(d == le16_at(w, pos + 2));
            Ok(Immediate { id, disp: d, pos: pos + 4 })
        } else {
            // Regular 4-byte immediate
            let id = read_u32_le(bytes, pos);
            assert(id == le32_at(w, pos as int));
            Ok(Immediate { id, disp, pos: pos + 4 })
        }
    } else if size == 6 {
        // Far pointer in 32-bit mode: Id (offset) + Iw (segment)
        let id = read_u32_le(bytes, pos);
        let d = read_u16_le(bytes, pos + 4) as u32;
        assert(id == le32_at(w, pos as int));
        assert(d == le16_at(w, pos + 4));
        Ok(Immediate { id, disp: d, pos: pos + 6 })
    } else {
        Ok(Immediate { id: 0, disp, pos })
    }
}

// ============================================================================
// Opcode lookup
// ============================================================================
/// The opcode that the tables give for `b1` in `map` under `decmask`.
#[verifier::opaque]
pub open spec fn spec_lookup_opcode_32(b1: u32, map: u8, decmask: u32) -> Opcode {
    if map == 0 {
        spec_find_opcode(spec_opcode_table_32(b1 as u8), decmask)
    } else if map == 1 {
        spec_find_opcode(spec_opcode_table_0f_32((b1 & 0xFF) as u8), decmask)
    } else if map == 2 {
        spec_find_opcode(spec_opcode_table_0f38((b1 & 0xFF) as u8), decmask)
    } else if map == 3 {
        spec_find_opcode(spec_opcode_table_0f3a((b1 & 0xFF) as u8), decmask)
    } else {
        Opcode::IaError
    }
}

/// Get opcode table and look up opcode for 32-bit mode
fn lookup_opcode_32(b1: u32, opcode_map: u8, decmask: u32) -> (r: Opcode)
    ensures
        r == spec_lookup_opcode_32(b1, opcode_map, decmask),
{
    reveal(spec_lookup_opcode_32);
    if opcode_map == 0 {
        // One-byte opcodes
        let table = get_opcode_table_32(b1 as u8);
        find_opcode_in_table(table.as_slice(), decmask)
    } else if opcode_map == 1 {
        // Two-byte opcodes (0F xx)
        let table = get_opcode_table_0f_32((b1 & 0xFF) as u8);
        find_opcode_in_table(table.as_slice(), decmask)
    } else if opcode_map == 2 {
        // Three-byte opcodes (0F 38 xx)
        let table = get_opcode_table_0f38((b1 & 0xFF) as u8);
        find_opcode_in_table(table.as_slice(), decmask)
    } else if opcode_map == 3 {
        // Three-byte opcodes (0F 3A xx)
        let table = get_opcode_table_0f3a((b1 & 0xFF) as u8);
        find_opcode_in_table(table.as_slice(), decmask)
    } else {
        Opcode::IaError
    }
}

// ============================================================================
// The decoder
// ============================================================================
/// The flags word: address and operand size, ModC0 and the lock/rep field.
pub open spec fn spec_flags32(p: Prefixes32, mod_c0: bool) -> u8 {
    (if p.as_32 {
        FLAG_AS32
    } else {
        0
    }) | (if p.os_32 {
        FLAG_OS32
    } else {
        0
    }) | (if mod_c0 {
        FLAG_MODC0
    } else {
        0
    }) | (p.lock_rep << 6)
}

/// The decoding mask: operand size, address size, SSE prefix, ModC0, the
/// ModRM rm and reg fields (when there is a ModRM byte), and whether they
/// are equal (in register form).
pub open spec fn spec_decmask32(p: Prefixes32, m: ModRm) -> u32 {
    let mod_c0 = m.mod_field == 3;
    ((if p.os_32 {
        1u32
    } else {
        0u32
    }) << OS32_OFFSET) | ((if p.as_32 {
        1u32
    } else {
        0u32
    }) << AS32_OFFSET) | ((p.sse_prefix as u32) << SSE_PREFIX_OFFSET) | ((if mod_c0 {
        1u32
    } else {
        0u32
    }) << MODC0_OFFSET) | (if m.needs_modrm {
        (m.rm << RRR_OFFSET) | (m.nnn << NNN_OFFSET)
    } else {
        0
    }) | (if mod_c0 && m.nnn == m.rm {
        1u32 << SRC_EQ_DST_OFFSET
    } else {
        0
    })
}

/// The x87 `foo` field: the ModRM byte and the low three bits of the escape
/// opcode, `(modrm | (escape << 8)) & 0x7FF`.
pub open spec fn spec_fpu_foo(modrm: u8, b1: u32) -> u32 {
    (((modrm as u16) | ((b1 as u16) << 8)) & 0x7FF) as u32
}

/// The x87 table index: the reg field for a memory operand, 8 + the low six
/// ModRM bits for a register operand.
pub open spec fn spec_fpu_index(m: ModRm) -> usize {
    if m.mod_field == 3 {
        ((m.modrm_byte & 0x3F) as usize + 8) as usize
    } else {
        m.nnn as usize
    }
}

/// The x87 escape opcodes D8..DF.
pub open spec fn is_fpu_escape(b1: u32, map: u8) -> bool {
    map == 0 && 0xD8 <= b1 <= 0xDF
}

/// The decoded instruction, or `BxIllegalOpcode` when the tables name no
/// opcode for it.
pub open spec fn spec_finish32(
    p: Prefixes32,
    o: OpcodeBytes,
    m: ModRm,
    suffix: u8,
    imm: Immediate,
) -> Result<DecodedInstr, DecodeError> {
    let mod_c0 = m.mod_field == 3;
    let (dst, src1) = spec_operands32(o.b1, o.map, m);
    let (opcode, id) = if is_fpu_escape(o.b1, o.map) {
        (spec_fpu_opcode(o.b1 as u8, spec_fpu_index(m)), spec_fpu_foo(m.modrm_byte, o.b1))
    } else if o.map == 4 {
        (spec_dnow_opcode(suffix), imm.id)
    } else {
        (spec_lookup_opcode_32(o.b1, o.map, spec_decmask32(p, m)), imm.id)
    };
    if opcode == Opcode::IaError {
        Err(DecodeError::Decoder(BxDecodeError::BxIllegalOpcode))
    } else {
        Ok(
            DecodedInstr {
                opcode,
                ilen: imm.pos as u8,
                flags: spec_flags32(p, mod_c0),
                dst,
                src1,
                seg: spec_segment32(p.seg_override, p.as_32, m),
                base: m.base,
                index: m.index,
                scale: m.scale,
                id,
                disp: imm.disp,
            },
        )
    }
}

/// Decoding of the window `w` (the first bytes of the buffer, at most 15),
/// step by step.
pub open spec fn spec_decode32(w: Seq<u8>, is_32: bool) -> Result<DecodedInstr, DecodeError> {
    let p = spec_scan_prefixes32(w, is_32, 0, initial_prefixes32(is_32));
    if p.pos >= w.len() {
        Err(DecodeError::PrefixBufferUnderflow)
    } else {
        match spec_fetch_opcode32(w, p.pos) {
            Err(e) => Err(e),
            Ok(o) => match spec_decode_modrm32(w, o.pos, o.b1, o.map, p.as_32) {
                Err(e) => Err(e),
                Ok(m) => if m.needs_modrm && (o.b1 == 0x8C || o.b1 == 0x8E) && m.nnn > 5 {
                    Err(DecodeError::InvalidSegmentRegister { index: m.nnn as u8, opcode: o.b1 as u8 })
                } else {
                    match spec_dnow_suffix(w, m.pos, o.map) {
                        Err(e) => Err(e),
                        Ok((suffix, pos)) => {
                            let size = spec_immediate_size_32(o.b1, o.map, p.os_32, p.as_32, m.nnn);
                            match spec_fetch_immediate32(w, pos, size, o.b1, o.map, m.disp) {
                                Err(e) => Err(e),
                                Ok(imm) => spec_finish32(p, o, m, suffix, imm),
                            }
                        },
                    }
                },
            },
        }
    }
}

/// The result of decoding `bytes` in 32-bit (`is_32`) or 16-bit mode.
pub open spec fn spec_fetch_decode32(bytes: Seq<u8>, is_32: bool) -> Result<DecodedInstr, DecodeError> {
    if bytes.len() == 0 {
        Err(DecodeError::BufferUnderflow)
    } else {
        spec_decode32(bytes.take(window_len(bytes.len()) as int), is_32)
    }
}

fn finish32(p: Prefixes32, o: OpcodeBytes, m: ModRm, suffix: u8, imm: Immediate) -> (r: Result<
    DecodedInstr,
    DecodeError,
>)
    requires
        m.rm < 8,
        m.nnn < 8,
        p.sse_prefix < 4,
        p.lock_rep < 4,
    ensures
        r == spec_finish32(p, o, m, suffix, imm),
{
    let mod_c0 = m.mod_field == 3;
    let (dst, src1) = operands32(o.b1, o.map, m);
    let opcode;
    let id;
    if o.map == 0 && (o.b1 >= 0xD8 && o.b1 <= 0xDF) {
        // x87 FPU escape opcodes — use dedicated FPU opcode tables
        let fpu_index = if mod_c0 {
            // Register form: index = (modrm & 0x3F) + 8
            ((m.modrm_byte & 0x3F) as usize) + 8
        } else {
            // Memory form: index = nnn (0-7)
            m.nnn as usize
        };
        opcode = fpu_opcode(o.b1 as u8, fpu_index);
        // foo: (modrm | (escape_byte << 8)) & 0x7FF — for x87 FPU handler context
        id = (((m.modrm_byte as u16) | ((o.b1 as u16) << 8)) & 0x7FF) as u32;
    } else if o.map == 4 {
        // 3DNow! instruction: use suffix to look up opcode directly
        opcode = dnow_opcode(suffix);
        id = imm.id;
    } else {
        // Build decmask for opcode lookup
        let os_val: u32 = if p.os_32 {
            1
        } else {
            0
        };
        let as_val: u32 = if p.as_32 {
            1
        } else {
            0
        };
        let modc0_val: u32 = if mod_c0 {
            1
        } else {
            0
        };
        let decmask: u32 = (os_val << OS32_OFFSET) | (as_val << AS32_OFFSET) | ((
        p.sse_prefix as u32) << SSE_PREFIX_OFFSET) | (modc0_val << MODC0_OFFSET) | (
        if m.needs_modrm {
            (m.rm << RRR_OFFSET) | (m.nnn << NNN_OFFSET)
        } else {
            0
        }) | (if mod_c0 && m.nnn == m.rm {
            1u32 << SRC_EQ_DST_OFFSET
        } else {
            0
        });
        opcode = lookup_opcode_32(o.b1, o.map, decmask);
        id = imm.id;
    }
    // Check if opcode lookup failed
    if opcode == Opcode::IaError {
        return Err(DecodeError::Decoder(BxDecodeError::BxIllegalOpcode));
    }
    let flags: u8 = (if p.as_32 {
        FLAG_AS32
    } else {
        0
    }) | (if p.os_32 {
        FLAG_OS32
    } else {
        0
    }) | (if mod_c0 {
        FLAG_MODC0
    } else {
        0
    }) | (p.lock_rep << 6);
    Ok(
        DecodedInstr {
            opcode,
            ilen: imm.pos as u8,
            flags,
            dst,
            src1,
            seg: segment32(p.seg_override, p.as_32, m),
            base: m.base,
            index: m.index,
            scale: m.scale,
            id,
            disp: imm.disp,
        },
    )
}

/// Decode the window: the first `max_len` bytes of the buffer.
fn decode32_window(bytes: &[u8], max_len: usize, is_32: bool) -> (r: Result<
    DecodedInstr,
    DecodeError,
>)
    requires
        max_len <= bytes@.len(),
        max_len <= 15,
    ensures
        r == spec_decode32(bytes@.take(max_len as int), is_32),
{
    // === Phase 1: Parse legacy prefixes ===
    let p = scan_prefixes32(bytes, max_len, is_32);
    proof {
        lemma_prefixes32_bounds(bytes@.take(max_len as int), is_32, 0, initial_prefixes32(is_32));
    }
    if p.pos >= max_len {
        return Err(DecodeError::PrefixBufferUnderflow);
    }
    // === Phase 2: Parse opcode ===
    let o = fetch_opcode32(bytes, max_len, p.pos)?;
    // === Phase 3: Parse ModRM if needed ===
    let m = decode_modrm32(bytes, max_len, o.pos, o.b1, o.map, p.as_32)?;
    // Valid segment registers: ES(0), CS(1), SS(2), DS(3), FS(4), GS(5)
    if m.needs_modrm && (o.b1 == 0x8C || o.b1 == 0x8E) && m.nnn > 5 {
        return Err(DecodeError::InvalidSegmentRegister { index: m.nnn as u8, opcode: o.b1 as u8 });
    }
    // === Phase 3.5: Read 3DNow! suffix byte (comes after ModRM/displacement) ===
    let (suffix, pos) = dnow_suffix(bytes, max_len, m.pos, o.map)?;
    // === Phase 4: Parse immediate and moffs (direct memory offset) ===
    let size = get_immediate_size_32(o.b1, o.map, p.os_32, p.as_32, m.nnn);
    let imm = fetch_immediate32(bytes, max_len, pos, size, o.b1, o.map, m.disp)?;
    finish32(p, o, m, suffix, imm)
}

/// The prefix scan keeps the SSE prefix and the lock/rep field below 4.
proof fn lemma_prefixes32_bounds(w: Seq<u8>, is_32: bool, i: int, st: Prefixes32)
    requires
        st.sse_prefix < 4,
        st.lock_rep < 4,
    ensures
        spec_scan_prefixes32(w, is_32, i, st).sse_prefix < 4,
        spec_scan_prefixes32(w, is_32, i, st).lock_rep < 4,
    decreases w.len() - i,
{
    if 0 <= i < w.len() && is_legacy_prefix32(w[i]) {
        let next = spec_apply_prefix32(st, w[i], is_32);
        lemma_prefixes32_bounds(w, is_32, i + 1, Prefixes32 { pos: (i + 1) as usize, ..next });
    }
}

/// 32-bit/16-bit instruction decoder
///
/// Decodes an x86 protected/real mode instruction and returns a `Result`
/// containing either the decoded `Instruction` on success, or a
/// `DecodeError` on failure. At most the first 15 bytes are read.
///
/// # Arguments
/// * `bytes` - The instruction bytes to decode
/// * `is_32` - true for 32-bit mode, false for 16-bit mode
pub fn fetch_decode32(bytes: &[u8], is_32: bool) -> (r: DecodeResult<Instruction>)
    ensures
        result_holds(r, spec_fetch_decode32(bytes@, is_32)),
{
    if bytes.len() == 0 {
        return Err(DecodeError::BufferUnderflow);
    }
    let max_len = if bytes.len() > 15 {
        15
    } else {
        bytes.len()
    };
    match decode32_window(bytes, max_len, is_32) {
        Ok(d) => Ok(Instruction::from_decoded(d)),
        Err(e) => Err(e),
    }
}

} // verus!
