//! 64-bit instruction decoder
//!
//! Decodes one x86-64 instruction: legacy and REX prefixes, opcode
//! (one-byte, `0F`, `0F 38`, `0F 3A`, 3DNow!), ModRM with REX-extended
//! registers, SIB, RIP-relative addressing and displacement, immediate, and
//! the opcode lookup.
//!
//! The decoding is stated as `spec_fetch_decode64`, a composition of one spec
//! function per step; `fetch_decode64` performs the same steps and its
//! contract is that spec.

use vstd::prelude::*;

use crate::bytes::{le16_at, le32_at, read_u16_le, read_u32_le, sign_extend8, sign_extend_byte};
use crate::decode_common::{
    disp_by_mod, dnow_suffix, fetch_escape, is_group_opcode, is_segment_push_pop,
    lemma_three_bit_fields, spec_disp_by_mod, spec_dnow_suffix, spec_fetch_escape, window_len,
    Immediate, MemOperand, ModRm, OpcodeBytes, BX_NIL_REGISTER, BX_NO_INDEX,
};
use crate::error::{BxDecodeError, DecodeError, DecodeResult};
use crate::instr_generated::{result_holds, DecodedInstr, Instruction};
use crate::instruction::{FLAG_AS32, FLAG_AS64, FLAG_EXTEND8BIT, FLAG_MODC0, FLAG_OS32, FLAG_OS64};
use crate::opcode::Opcode;
use crate::opmap::{find_opcode_in_table, spec_find_opcode};
use crate::opmap_tables::{
    get_opcode_table_0f38, get_opcode_table_0f3a, get_opcode_table_0f_64, get_opcode_table_64,
    spec_opcode_table_0f38, spec_opcode_table_0f3a, spec_opcode_table_0f_64, spec_opcode_table_64,
};
use crate::opmap_x87::{dnow_opcode, spec_dnow_opcode};

verus! {

/// The register index of RIP, the base of RIP-relative addressing.
pub const BX_64BIT_REG_RIP: u8 = 16;

// Decoding mask bit offsets
pub const OS64_OFFSET: u32 = 23;

pub const OS32_OFFSET: u32 = 22;

pub const AS64_OFFSET: u32 = 21;

pub const AS32_OFFSET: u32 = 20;

pub const SSE_PREFIX_OFFSET: u32 = 18;

pub const MODC0_OFFSET: u32 = 16;

pub const IS64_OFFSET: u32 = 15;

pub const RRR_OFFSET: u32 = 4;

pub const NNN_OFFSET: u32 = 0;

// ============================================================================
// Phase 1: legacy and REX prefixes
// ============================================================================
/// What the legacy and REX prefixes have set.
#[derive(Clone, Copy, PartialEq, Eq, Structural, Debug)]
pub struct Prefixes64 {
    /// The position of the first byte that is not a prefix.
    pub pos: usize,
    /// Segment override: 4 (FS) or 5 (GS), 7 for none.
    pub seg_override: u8,
    /// The REX prefix in force (0x40..=0x4F), 0 for none: a legacy prefix
    /// after a REX prefix cancels it.
    pub rex: u8,
    /// Cleared by `66`.
    pub os32: bool,
    /// Cleared by `67`.
    pub as64: bool,
    /// 0 none, 1 LOCK (F0), 2 REPNE (F2), 3 REP (F3): the last one wins.
    pub lock_rep: u8,
    /// 0 none, 1 (66), 2 (F3), 3 (F2).
    pub sse_prefix: u8,
}

/// The state before any prefix: 32-bit operands, 64-bit addresses.
pub open spec fn initial_prefixes64() -> Prefixes64 {
    Prefixes64 {
        pos: 0,
        seg_override: 7,
        rex: 0,
        os32: true,
        as64: true,
        lock_rep: 0,
        sse_prefix: 0,
    }
}

/// The legacy prefix bytes and the REX prefixes 0x40..=0x4F.
pub open spec fn is_prefix64_byte(b: u8) -> bool {
    b == 0x26 || b == 0x2E || b == 0x36 || b == 0x3E || b == 0x64 || b == 0x65 || b == 0x66 || b
        == 0x67 || b == 0xF0 || b == 0xF2 || b == 0xF3 || (0x40 <= b <= 0x4F)
}

/// The effect of one prefix byte. CS, DS, ES and SS overrides are ignored in
/// 64-bit mode; every legacy prefix cancels an earlier REX prefix.
pub open spec fn spec_apply_prefix64(st: Prefixes64, b: u8) -> Prefixes64 {
    if b == 0x26 || b == 0x2E || b == 0x36 || b == 0x3E {
        Prefixes64 { rex: 0, ..st }
    } else if b == 0x64 {
        Prefixes64 { rex: 0, seg_override: 4, ..st }
    } else if b == 0x65 {
        Prefixes64 { rex: 0, seg_override: 5, ..st }
    } else if b == 0x66 {
        Prefixes64 {
            rex: 0,
            os32: false,
            sse_prefix: if st.sse_prefix == 0 {
                1
            } else {
                st.sse_prefix
            },
            ..st
        }
    } else if b == 0x67 {
        Prefixes64 { rex: 0, as64: false, ..st }
    } else if b == 0xF0 {
        Prefixes64 { rex: 0, lock_rep: 1, ..st }
    } else if b == 0xF2 {
        Prefixes64 { rex: 0, lock_rep: 2, sse_prefix: 3, ..st }
    } else if b == 0xF3 {
        Prefixes64 { rex: 0, lock_rep: 3, sse_prefix: 2, ..st }
    } else if 0x40 <= b <= 0x4F {
        Prefixes64 { rex: b, ..st }
    } else {
        st
    }
}

/// The prefixes read from position `i` on, with `st` what the earlier ones
/// set; the result's `pos` is the first position that holds no prefix.
pub open spec fn spec_scan_prefixes64(w: Seq<u8>, i: int, st: Prefixes64) -> Prefixes64
    decreases w.len() - i,
{
    if 0 <= i < w.len() && is_prefix64_byte(w[i]) {
        let next = spec_apply_prefix64(st, w[i]);
        spec_scan_prefixes64(w, i + 1, Prefixes64 { pos: (i + 1) as usize, ..next })
    } else {
        Prefixes64 { pos: i as usize, ..st }
    }
}

fn apply_prefix64(st: Prefixes64, b: u8) -> (r: Prefixes64)
    ensures
        r == spec_apply_prefix64(st, b),
{
    if b == 0x26 || b == 0x2E || b == 0x36 || b == 0x3E {
        // These segment overrides are ignored in 64-bit mode but reset REX
        Prefixes64 { rex: 0, ..st }
    } else if b == 0x64 {
        // FS - valid in 64-bit
        Prefixes64 { rex: 0, seg_override: 4, ..st }
    } else if b == 0x65 {
        // GS - valid in 64-bit
        Prefixes64 { rex: 0, seg_override: 5, ..st }
    } else if b == 0x66 {
        // Operand size override
        Prefixes64 {
            rex: 0,
            os32: false,
            sse_prefix: if st.sse_prefix == 0 {
                1
            } else {
                st.sse_prefix
            },
            ..st
        }
    } else if b == 0x67 {
        // Address size override — only clears As64 (32-bit addressing)
        Prefixes64 { rex: 0, as64: false, ..st }
    } else if b == 0xF0 {
        // LOCK prefix
        Prefixes64 { rex: 0, lock_rep: 1, ..st }
    } else if b == 0xF2 {
        // REPNE/REPNZ (also SSE prefix F2)
        Prefixes64 { rex: 0, lock_rep: 2, sse_prefix: 3, ..st }
    } else if b == 0xF3 {
        // REP/REPE/REPZ (also SSE prefix F3)
        Prefixes64 { rex: 0, lock_rep: 3, sse_prefix: 2, ..st }
    } else if 0x40 <= b && b <= 0x4F {
        // REX prefix: the whole byte, so that a bare REX (0x40) still counts
        Prefixes64 { rex: b, ..st }
    } else {
        st
    }
}

fn is_prefix64(b: u8) -> (r: bool)
    ensures
        r == is_prefix64_byte(b),
{
    b == 0x26 || b == 0x2E || b == 0x36 || b == 0x3E || b == 0x64 || b == 0x65 || b == 0x66 || b
        == 0x67 || b == 0xF0 || b == 0xF2 || b == 0xF3 || (0x40 <= b && b <= 0x4F)
}

fn scan_prefixes64(bytes: &[u8], max_len: usize) -> (r: Prefixes64)
    requires
        max_len <= bytes@.len(),
        max_len <= 15,
    ensures
        r == spec_scan_prefixes64(bytes@.take(max_len as int), 0, initial_prefixes64()),
        r.pos <= max_len,
{
    let ghost w = bytes@.take(max_len as int);
    let mut st = Prefixes64 {
        pos: 0,
        seg_override: 7,
        rex: 0,
        os32: true,
        as64: true,
        lock_rep: 0,
        sse_prefix: 0,
    };
    // REX prefixes do not end the prefix loop: only a non-prefix byte does.
    while st.pos < max_len && is_prefix64(bytes[st.pos])
        invariant
            max_len <= bytes@.len(),
            max_len <= 15,
            w == bytes@.take(max_len as int),
            st.pos <= max_len,
            spec_scan_prefixes64(w, st.pos as int, st) == spec_scan_prefixes64(
                w,
                0,
                initial_prefixes64(),
            ),
        decreases max_len - st.pos,
    {
        let b = bytes[st.pos];
        let next = apply_prefix64(st, b);
        st = Prefixes64 { pos: st.pos + 1, ..next };
    }
    st
}

/// REX.W: 64-bit operand size.
pub open spec fn rex_w(p: Prefixes64) -> bool {
    p.rex != 0 && (p.rex & 0x08) != 0
}

/// The operand size is 32 bits or wider: no `66`, or REX.W.
pub open spec fn os32_in_force(p: Prefixes64) -> bool {
    p.os32 || rex_w(p)
}

// ============================================================================
// Phase 2: opcode
// ============================================================================
/// The opcode at `pos`. A `C4`/`C5` whose next byte has mod == 3 is a VEX
/// prefix, and a `62` followed by two more bytes whose first has bits 3..2
/// clear an EVEX prefix: neither is decoded.
pub open spec fn spec_fetch_opcode64(w: Seq<u8>, pos: usize) -> Result<OpcodeBytes, DecodeError> {
    let b = w[pos as int];
    let p = (pos + 1) as usize;
    if (b == 0xC4 || b == 0xC5) && p < w.len() && (w[p as int] & 0xC0) == 0xC0 {
        Err(DecodeError::Decoder(BxDecodeError::BxIllegalVexXopOpcodeMap))
    } else if b == 0x62 && p + 2 < w.len() && (w[p as int] & 0x0C) == 0 {
        Err(DecodeError::Decoder(BxDecodeError::BxEvexReservedBitsSet))
    } else if b == 0x0F {
        spec_fetch_escape(w, p)
    } else {
        Ok(OpcodeBytes { b1: b as u32, map: 0, pos: p })
    }
}

fn fetch_opcode64(bytes: &[u8], max_len: usize, pos: usize) -> (r: Result<OpcodeBytes, DecodeError>)
    requires
        max_len <= bytes@.len(),
        max_len <= 15,
        pos < max_len,
    ensures
        r == spec_fetch_opcode64(bytes@.take(max_len as int), pos),
        r is Ok ==> r->Ok_0.pos <= max_len && r->Ok_0.pos > pos,
{
    let b1 = bytes[pos];
    let p = pos + 1;
    // Check for VEX/EVEX prefixes
    if b1 == 0xC4 || b1 == 0xC5 {
        // VEX prefix (mod=11 check)
        if p < max_len && (bytes[p] & 0xC0) == 0xC0 {
            return Err(DecodeError::Decoder(BxDecodeError::BxIllegalVexXopOpcodeMap));
        }
    }
    if b1 == 0x62 {
        // EVEX prefix
        if p + 2 < max_len && (bytes[p] & 0x0C) == 0 {
            return Err(DecodeError::Decoder(BxDecodeError::BxEvexReservedBitsSet));
        }
    }
    if b1 == 0x0F {
        return fetch_escape(bytes, max_len, p);
    }
    Ok(OpcodeBytes { b1: b1 as u32, map: 0, pos: p })
}

// ============================================================================
// Phase 3: ModRM, SIB and displacement
// ============================================================================
/// The one-byte and `0F` opcodes that have no ModRM byte in 64-bit mode.
pub open spec fn spec_opcode_needs_modrm_64(b1: u32, map: u8) -> bool {
    if map == 0 {
        let op = b1 as u8;
        !(op == 0x04 || op == 0x05 || op == 0x0C || op == 0x0D || op == 0x14 || op == 0x15 || op
            == 0x1C || op == 0x1D || op == 0x24 || op == 0x25 || op == 0x2C || op == 0x2D || op
            == 0x34 || op == 0x35 || op == 0x3C || op == 0x3D || op == 0x06 || op == 0x07 || op
            == 0x0E || op == 0x16 || op == 0x17 || op == 0x1E || op == 0x1F || op == 0x27 || op
            == 0x2F || op == 0x37 || op == 0x3F || (0x40 <= op <= 0x5F) || (0x60 <= op <= 0x62)
            || op == 0x68 || op == 0x6A || (0x6C <= op <= 0x6F) || (0x70 <= op <= 0x7F) || (0x90
            <= op <= 0x9F) || (0xA0 <= op <= 0xAF) || (0xB0 <= op <= 0xBF) || op == 0xC2 || op
            == 0xC3 || op == 0xC8 || op == 0xC9 || op == 0xCA || op == 0xCB || (0xCC <= op <= 0xCF)
            || (0xD4 <= op <= 0xD7) || (0xE0 <= op <= 0xEF) || op == 0xF1 || op == 0xF4 || op
            == 0xF5 || (0xF8 <= op <= 0xFD))
    } else if map == 1 {
        let op = (b1 & 0xFF) as u8;
        !((0x05 <= op <= 0x09) || op == 0x0B || op == 0x0E || (0x30 <= op <= 0x37) || op == 0x77
            || (0x80 <= op <= 0x8F) || (0xA0 <= op <= 0xA2) || (0xA8 <= op <= 0xAA) || (0xC8 <= op
            <= 0xCF) || op == 0xFF)
    } else {
        true
    }
}

/// Check if opcode needs ModRM byte (64-bit mode)
fn opcode_needs_modrm_64(b1: u32, map: u8) -> (r: bool)
    ensures
        r == spec_opcode_needs_modrm_64(b1, map),
{
    if map == 0 {
        // One-byte opcodes
        let op = b1 as u8;
        !(op == 0x04 || op == 0x05 || op == 0x0C || op == 0x0D || op == 0x14 || op == 0x15 || op
            == 0x1C || op == 0x1D || op == 0x24 || op == 0x25 || op == 0x2C || op == 0x2D || op
            == 0x34 || op == 0x35 || op == 0x3C || op == 0x3D || op == 0x06 || op == 0x07 || op
            == 0x0E || op == 0x16 || op == 0x17 || op == 0x1E || op == 0x1F || op == 0x27 || op
            == 0x2F || op == 0x37 || op == 0x3F || (0x40 <= op && op <= 0x5F) || (0x60 <= op && op
            <= 0x62) || op == 0x68 || op == 0x6A || (0x6C <= op && op <= 0x6F) || (0x70 <= op && op
            <= 0x7F) || (0x90 <= op && op <= 0x9F) || (0xA0 <= op && op <= 0xAF) || (0xB0 <= op
            && op <= 0xBF) || op == 0xC2 || op == 0xC3 || op == 0xC8 || op == 0xC9 || op == 0xCA
            || op == 0xCB || (0xCC <= op && op <= 0xCF) || (0xD4 <= op && op <= 0xD7) || (0xE0
            <= op && op <= 0xEF) || op == 0xF1 || op == 0xF4 || op == 0xF5 || (0xF8 <= op && op
            <= 0xFD))
    } else if map == 1 {
        // 0F map
        let op = (b1 & 0xFF) as u8;
        !((0x05 <= op && op <= 0x09) || op == 0x0B || op == 0x0E || (0x30 <= op && op <= 0x37)
            || op == 0x77 || (0x80 <= op && op <= 0x8F) || (0xA0 <= op && op <= 0xA2) || (0xA8
            <= op && op <= 0xAA) || (0xC8 <= op && op <= 0xCF) || op == 0xFF)
    } else {
        // 0F38, 0F3A maps always need ModRM
        true
    }
}

/// `v` with bit 3 set when `bit` is set in the REX prefix.
pub open spec fn rex_extend(v: u32, rex: u8, bit: u8) -> u32 {
    if rex & bit != 0 {
        v | 8
    } else {
        v
    }
}

/// The base, index and scale of a ModRM memory operand in 64-bit mode, with
/// the SIB byte and the 32-bit displacement that replaces a missing base,
/// read from `pos` (just after the ModRM byte); `rm` is already extended by
/// REX.B.
pub open spec fn spec_modrm_base64(w: Seq<u8>, pos: usize, mod_field: u8, rm: u32, rex: u8) -> Result<
    MemOperand,
    DecodeError,
> {
    if (rm & 0x7) == 4 {
        if pos >= w.len() {
            Err(DecodeError::SibBufferUnderflow)
        } else {
            let sib = w[pos as int];
            let scale = (sib >> 6) & 0x3;
            let index = rex_extend(((sib >> 3) & 0x7) as u32, rex, 0x02) as u8;
            let base = rex_extend((sib & 0x7) as u32, rex, 0x01) as u8;
            let p = (pos + 1) as usize;
            if mod_field == 0 && (base & 0x7) == 5 {
                if p + 4 > w.len() {
                    Err(DecodeError::DisplacementBufferUnderflow)
                } else {
                    Ok(
                        MemOperand {
                            base: BX_NIL_REGISTER,
                            index,
                            scale,
                            disp: le32_at(w, p as int),
                            pos: (p + 4) as usize,
                        },
                    )
                }
            } else {
                Ok(MemOperand { base, index, scale, disp: 0, pos: p })
            }
        }
    } else if mod_field == 0 && (rm & 0x7) == 5 {
        // RIP-relative
        if pos + 4 > w.len() {
            Err(DecodeError::DisplacementBufferUnderflow)
        } else {
            Ok(
                MemOperand {
                    base: BX_64BIT_REG_RIP,
                    index: BX_NO_INDEX,
                    scale: 0,
                    disp: le32_at(w, pos as int),
                    pos: (pos + 4) as usize,
                },
            )
        }
    } else {
        Ok(MemOperand { base: (rm & 0xF) as u8, index: BX_NO_INDEX, scale: 0, disp: 0, pos })
    }
}

/// The memory operand of a ModRM byte in 64-bit mode, read from `pos` (just
/// after the ModRM byte): the base part, then the displacement that the
/// `mod` field calls for.
pub open spec fn spec_modrm_mem64(w: Seq<u8>, pos: usize, mod_field: u8, rm: u32, rex: u8) -> Result<
    MemOperand,
    DecodeError,
> {
    match spec_modrm_base64(w, pos, mod_field, rm, rex) {
        Err(e) => Err(e),
        Ok(m) => spec_disp_by_mod(w, m, mod_field, true),
    }
}

/// The ModRM fields of the instruction with opcode `b1` in `map`, read from
/// `pos` on, extended by REX.R (reg) and REX.B (rm, or the opcode register).
pub open spec fn spec_decode_modrm64(w: Seq<u8>, pos: usize, b1: u32, map: u8, rex: u8) -> Result<
    ModRm,
    DecodeError,
> {
    if !spec_opcode_needs_modrm_64(b1, map) {
        Ok(
            ModRm {
                needs_modrm: false,
                nnn: (b1 >> 3) & 0x7,
                rm: rex_extend(b1 & 0x7, rex, 0x01),
                modrm_byte: 0,
                mod_field: 3,
                base: 0,
                index: 0,
                scale: 0,
                disp: 0,
                pos,
            },
        )
    } else if pos >= w.len() {
        Err(DecodeError::ModRmBufferUnderflow)
    } else {
        let modrm = w[pos as int];
        let mod_field = (modrm >> 6) & 0x3;
        let nnn = rex_extend(((modrm >> 3) & 0x7) as u32, rex, 0x04);
        let rm = rex_extend((modrm & 0x7) as u32, rex, 0x01);
        let p = (pos + 1) as usize;
        if mod_field == 3 {
            Ok(
                ModRm {
                    needs_modrm: true,
                    nnn,
                    rm,
                    modrm_byte: modrm,
                    mod_field,
                    base: 0,
                    index: 0,
                    scale: 0,
                    disp: 0,
                    pos: p,
                },
            )
        } else {
            match spec_modrm_mem64(w, p, mod_field, rm, rex) {
                Err(e) => Err(e),
                Ok(m) => Ok(
                    ModRm {
                        needs_modrm: true,
                        nnn,
                        rm,
                        modrm_byte: modrm,
                        mod_field,
                        base: m.base,
                        index: m.index,
                        scale: m.scale,
                        disp: m.disp,
                        pos: m.pos,
                    },
                ),
            }
        }
    }
}

fn rex_ext(v: u32, rex: u8, bit: u8) -> (r: u32)
    ensures
        r == rex_extend(v, rex, bit),
{
    if rex & bit != 0 {
        v | 8
    } else {
        v
    }
}

fn modrm_mem64(bytes: &[u8], max_len: usize, pos: usize, mod_field: u8, rm: u32, rex: u8) -> (r:
    Result<MemOperand, DecodeError>)
    requires
        max_len <= bytes@.len(),
        max_len <= 15,
        pos <= max_len,
    ensures
        r == spec_modrm_mem64(bytes@.take(max_len as int), pos, mod_field, rm, rex),
        r is Ok ==> pos <= r->Ok_0.pos <= max_len,
{
    let ghost w = bytes@.take(max_len as int);
    let m = if (rm & 0x7) == 4 {
        // SIB byte
        if pos >= max_len {
            return Err(DecodeError::SibBufferUnderflow);
        }
        let sib = bytes[pos];
        let p = pos + 1;
        let scale = (sib >> 6) & 0x3;
        // REX.X extends the index, REX.B the base
        let index = rex_ext(((sib >> 3) & 0x7) as u32, rex, 0x02) as u8;
        let base = rex_ext((sib & 0x7) as u32, rex, 0x01) as u8;
        if mod_field == 0 && (base & 0x7) == 5 {
            // [disp32] or [index*scale+disp32]
            if p + 4 > max_len {
                return Err(DecodeError::DisplacementBufferUnderflow);
            }
            let disp = read_u32_le(bytes, p);
            assert(disp == le32_at(w, p as int));
            MemOperand { base: BX_NIL_REGISTER, index, scale, disp, pos: p + 4 }
        } else {
            MemOperand { base, index, scale, disp: 0, pos: p }
        }
    } else if mod_field == 0 && (rm & 0x7) == 5 {
        // RIP-relative addressing
        if pos + 4 > max_len {
            return Err(DecodeError::DisplacementBufferUnderflow);
        }
        let disp = read_u32_le(bytes, pos);
        assert(disp == le32_at(w, pos as int));
        MemOperand { base: BX_64BIT_REG_RIP, index: BX_NO_INDEX, scale: 0, disp, pos: pos + 4 }
    } else {
        MemOperand { base: (rm & 0xF) as u8, index: BX_NO_INDEX, scale: 0, disp: 0, pos }
    };
    // Handle displacement based on mod field
    disp_by_mod(bytes, max_len, m, mod_field, true)
}

fn decode_modrm64(bytes: &[u8], max_len: usize, pos: usize, b1: u32, map: u8, rex: u8) -> (r:
    Result<ModRm, DecodeError>)
    requires
        max_len <= bytes@.len(),
        max_len <= 15,
        pos <= max_len,
    ensures
        r == spec_decode_modrm64(bytes@.take(max_len as int), pos, b1, map, rex),
        r is Ok ==> pos <= r->Ok_0.pos <= max_len && r->Ok_0.rm < 16 && r->Ok_0.nnn < 16,
{
    proof {
        lemma_three_bit_fields(b1, 0);
    }
    if !opcode_needs_modrm_64(b1, map) {
        // REX.B extends the register encoded in the opcode's low bits
        let rm = rex_ext(b1 & 0x7, rex, 0x01);
        assert(rm < 16) by (bit_vector)
            requires
                rm == b1 & 0x7 || rm == (b1 & 0x7) | 8,
        ;
        return Ok(
            ModRm {
                needs_modrm: false,
                nnn: (b1 >> 3) & 0x7,
                rm,
                modrm_byte: 0,
                mod_field: 3,
                base: 0,
                index: 0,
                scale: 0,
                disp: 0,
                pos,
            },
        );
    }
    if pos >= max_len {
        return Err(DecodeError::ModRmBufferUnderflow);
    }
    let modrm = bytes[pos];
    let mod_field = (modrm >> 6) & 0x3;
    // REX.R extends reg, REX.B extends rm
    let nnn = rex_ext(((modrm >> 3) & 0x7) as u32, rex, 0x04);
    let rm = rex_ext((modrm & 0x7) as u32, rex, 0x01);
    assert(nnn < 16 && rm < 16) by (bit_vector)
        requires
            nnn == ((modrm >> 3) & 0x7) as u32 || nnn == (((modrm >> 3) & 0x7) as u32) | 8,
            rm == (modrm & 0x7) as u32 || rm == ((modrm & 0x7) as u32) | 8,
    ;
    let p = pos + 1;
    if mod_field == 3 {
        // Register mode
        return Ok(
            ModRm {
                needs_modrm: true,
                nnn,
                rm,
                modrm_byte: modrm,
                mod_field,
                base: 0,
                index: 0,
                scale: 0,
                disp: 0,
                pos: p,
            },
        );
    }
    // Memory mode
    let m = modrm_mem64(bytes, max_len, p, mod_field, rm, rex)?;
    Ok(
        ModRm {
            needs_modrm: true,
            nnn,
            rm,
            modrm_byte: modrm,
            mod_field,
            base: m.base,
            index: m.index,
            scale: m.scale,
            disp: m.disp,
            pos: m.pos,
        },
    )
}

// ============================================================================
// Register operands
// ============================================================================
/// ModRM opcodes whose rm operand is the destination and reg operand the
/// source (`Ed,Gd` forms) in 64-bit mode: one-byte opcodes ending in 1 or 9,
/// and the `0F` forms of Group 7, store-form SSE, MOV Rd/DRn, Groups 12-14,
/// BT/BTS/BTR/BTC, CMPXCHG, XADD, MOVNTI, Group 8, SHLD/SHRD and SETcc.
pub open spec fn is_ed_gd_64(b1: u32) -> bool {
    (b1 < 0x100 && ((b1 & 0x0F) == 0x01 || (b1 & 0x0F) == 0x09)) || b1 == 0x89 || b1 == 0x101
        || b1 == 0x111 || b1 == 0x121 || b1 == 0x129 || b1 == 0x171 || b1 == 0x172 || b1 == 0x173
        || b1 == 0x1A3 || b1 == 0x1AB || b1 == 0x1B3 || b1 == 0x1BB || b1 == 0x1B0 || b1 == 0x1B1
        || b1 == 0x1C0 || b1 == 0x1C1 || b1 == 0x1C3 || b1 == 0x1BA || b1 == 0x1A4 || b1 == 0x1A5
        || b1 == 0x1AC || b1 == 0x1AD || (0x190 <= b1 <= 0x19F)
}

/// The destination and first source operand slots in 64-bit mode.
pub open spec fn spec_operands64(b1: u32, map: u8, m: ModRm) -> (u8, u8) {
    if m.needs_modrm {
        if is_group_opcode(b1) || b1 == 0x8C {
            (m.rm as u8, m.nnn as u8)
        } else if b1 == 0x8E {
            (m.nnn as u8, m.rm as u8)
        } else if is_ed_gd_64(b1) {
            (m.rm as u8, m.nnn as u8)
        } else {
            (m.nnn as u8, m.rm as u8)
        }
    } else if is_segment_push_pop(b1, map) {
        (m.nnn as u8, m.rm as u8)
    } else {
        (m.rm as u8, m.nnn as u8)
    }
}

fn operands64(b1: u32, map: u8, m: ModRm) -> (r: (u8, u8))
    ensures
        r == spec_operands64(b1, map, m),
{
    if m.needs_modrm {
        // Group opcodes: 80, 81, 83, C0, C1, D0-D3, F6, F7, FE, FF
        let is_group_opcode = b1 == 0x80 || b1 == 0x81 || b1 == 0x83 || b1 == 0xC0 || b1 == 0xC1
            || b1 == 0xD0 || b1 == 0xD1 || b1 == 0xD2 || b1 == 0xD3 || b1 == 0xF6 || b1 == 0xF7
            || b1 == 0xFE || b1 == 0xFF;
        if is_group_opcode {
            // Group opcodes: operand is in rm, opcode extension in nnn
            (m.rm as u8, m.nnn as u8)
        } else if b1 == 0x8C {
            // MOV Ew,Sw: rm is destination (gpr), nnn is source (segment)
            (m.rm as u8, m.nnn as u8)
        } else if b1 == 0x8E {
            // MOV Sw,Ew: nnn is destination (segment), rm is source (gpr)
            (m.nnn as u8, m.rm as u8)
        } else if (b1 < 0x100 && ((b1 & 0x0F) == 0x01 || (b1 & 0x0F) == 0x09)) || b1 == 0x89
            // Two-byte Ed,Gd opcodes (DST=rm): Group 7, store-form SSE, MOV Rd/DRn, Groups 12-14
            || b1 == 0x101 || b1 == 0x111 || b1 == 0x121 || b1 == 0x129 || b1 == 0x171 || b1
            == 0x172 || b1 == 0x173
            // BT/BTS/BTR/BTC EdGd (0F A3/AB/B3/BB)
            || b1 == 0x1A3 || b1 == 0x1AB || b1 == 0x1B3 || b1 == 0x1BB
            // CMPXCHG EbGb/EdGd (0F B0/B1), XADD EbGb/EdGd (0F C0/C1), MOVNTI Ed,Gd (0F C3)
            || b1 == 0x1B0 || b1 == 0x1B1 || b1 == 0x1C0 || b1 == 0x1C1 || b1 == 0x1C3
            // BT/BTS/BTR/BTC Ev,Ib (0F BA /4../7)
            || b1 == 0x1BA
            // SHLD Ed,Gd,Ib/CL (0F A4/A5), SHRD Ed,Gd,Ib/CL (0F AC/AD)
            || b1 == 0x1A4 || b1 == 0x1A5 || b1 == 0x1AC || b1 == 0x1AD
            // SETcc Eb (0F 90..9F)
            || (b1 >= 0x190 && b1 <= 0x19F) {
            // Ed,Gd format: rm (Ed) is destination, nnn (Gd) is source
            (m.rm as u8, m.nnn as u8)
        } else {
            // Gd,Ed format: nnn (Gd) is destination, rm (Ed) is source
            (m.nnn as u8, m.rm as u8)
        }
    } else {
        // Segment push/pop uses nnn for the segment
        let is_segment_push_pop = b1 == 0x06 || b1 == 0x07 || b1 == 0x0E || b1 == 0x16 || b1
            == 0x17 || b1 == 0x1E || b1 == 0x1F || (map == 1 && ((b1 & 0xFF) == 0xA0 || (b1
            & 0xFF) == 0xA1 || (b1 & 0xFF) == 0xA8 || (b1 & 0xFF) == 0xA9));
        if is_segment_push_pop {
            (m.nnn as u8, m.rm as u8)
        } else {
            (m.rm as u8, m.nnn as u8)
        }
    }
}

// ============================================================================
// Phase 4: immediate
// ============================================================================
/// The number of immediate bytes (including the moffs address offset of
/// A0..A3) that follow the ModRM part in 64-bit mode. `MOV r64, imm64`
/// (REX.W B8..BF) takes 8 bytes; ENTER (C8) takes Iw and Ib.
pub open spec fn spec_immediate_size_64(
    b1: u32,
    map: u8,
    os32: bool,
    os64: bool,
    as64: bool,
    nnn: u32,
) -> u8 {
    if map == 0 {
        let op = b1 as u8;
        if op == 0xA0 || op == 0xA1 || op == 0xA2 || op == 0xA3 {
            if as64 {
                8
            } else {
                4
            }
        } else if op == 0x04 || op == 0x0C || op == 0x14 || op == 0x1C || op == 0x24 || op == 0x2C
            || op == 0x34 || op == 0x3C || op == 0x6A || op == 0x6B || op == 0xA8 || (0xB0 <= op
            <= 0xB7) || op == 0xCD || op == 0xD4 || op == 0xD5 || (0xE0 <= op <= 0xE7) || op
            == 0xEB || (0x70 <= op <= 0x7F) || op == 0x80 || op == 0x82 || op == 0x83 || op == 0xC0
            || op == 0xC1 || op == 0xC6 {
            1
        } else if op == 0xF6 {
            if (nnn & 7) == 0 || (nnn & 7) == 1 {
                1
            } else {
                0
            }
        } else if op == 0xF7 {
            if (nnn & 7) == 0 || (nnn & 7) == 1 {
                if os64 {
                    4
                } else if os32 {
                    4
                } else {
                    2
                }
            } else {
                0
            }
        } else if op == 0xC2 || op == 0xCA {
            2
        } else if op == 0x05 || op == 0x0D || op == 0x15 || op == 0x1D || op == 0x25 || op == 0x2D
            || op == 0x35 || op == 0x3D || op == 0x68 || op == 0x69 || op == 0xA9 || op == 0xE8
            || op == 0xE9 || op == 0x81 || op == 0xC7 {
            if os32 {
                4
            } else {
                2
            }
        } else if 0xB8 <= op <= 0xBF {
            if os64 {
                8
            } else if os32 {
                4
            } else {
                2
            }
        } else if op == 0xC8 {
            3
        } else {
            0
        }
    } else if map == 1 {
        let op = (b1 & 0xFF) as u8;
        if 0x80 <= op <= 0x8F {
            4
        } else if (0x70 <= op <= 0x73) || op == 0xA4 || op == 0xAC || op == 0xBA || op == 0xC2 || (
        0xC4 <= op <= 0xC6) {
            1
        } else {
            0
        }
    } else if map == 3 {
        1
    } else {
        0
    }
}

/// Get immediate size for opcode (64-bit mode)
fn get_immediate_size_64(b1: u32, map: u8, os32: bool, os64: bool, as64: bool, nnn: u32) -> (r: u8)
    ensures
        r == spec_immediate_size_64(b1, map, os32, os64, as64, nnn),
{
    if map == 0 {
        let op = b1 as u8;
        if op == 0xA0 || op == 0xA1 || op == 0xA2 || op == 0xA3 {
            // moffs - depends on ADDRESS size, not operand size
            if as64 {
                8
            } else {
                4
            }
        } else if op == 0x04 || op == 0x0C || op == 0x14 || op == 0x1C || op == 0x24 || op == 0x2C
            || op == 0x34 || op == 0x3C || op == 0x6A || op == 0x6B || op == 0xA8 || (0xB0 <= op
            && op <= 0xB7) || op == 0xCD || op == 0xD4 || op == 0xD5 || (0xE0 <= op && op <= 0xE7)
            || op == 0xEB || (0x70 <= op && op <= 0x7F) || op == 0x80 || op == 0x82 || op == 0x83
            || op == 0xC0 || op == 0xC1 || op == 0xC6 {
            // Ib
            1
        } else if op == 0xF6 {
            // Group 3a: TEST has Ib (nnn masked to 3 bits: REX.R may extend it)
            if (nnn & 7) == 0 || (nnn & 7) == 1 {
                1
            } else {
                0
            }
        } else if op == 0xF7 {
            // Group 3b: TEST has Iv, imm32 sign-extended for 64-bit operands
            if (nnn & 7) == 0 || (nnn & 7) == 1 {
                if os64 {
                    4
                } else if os32 {
                    4
                } else {
                    2
                }
            } else {
                0
            }
        } else if op == 0xC2 || op == 0xCA {
            // Iw
            2
        } else if op == 0x05 || op == 0x0D || op == 0x15 || op == 0x1D || op == 0x25 || op == 0x2D
            || op == 0x35 || op == 0x3D || op == 0x68 || op == 0x69 || op == 0xA9 || op == 0xE8
            || op == 0xE9 || op == 0x81 || op == 0xC7 {
            // Iv/Id (operand-size dependent)
            if os32 {
                4
            } else {
                2
            }
        } else if 0xB8 <= op && op <= 0xBF {
            // MOV reg, imm (B8-BF) - Iv or Iq
            if os64 {
                8
            } else if os32 {
                4
            } else {
                2
            }
        } else if op == 0xC8 {
            // ENTER: Iw + Ib = 3 bytes
            3
        } else {
            0
        }
    } else if map == 1 {
        let op = (b1 & 0xFF) as u8;
        if 0x80 <= op && op <= 0x8F {
            // Jcc rel32
            4
        } else if (0x70 <= op && op <= 0x73) || op == 0xA4 || op == 0xAC || op == 0xBA || op
            == 0xC2 || (0xC4 <= op && op <= 0xC6) {
            // Various with Ib
            1
        } else {
            0
        }
    } else if map == 3 {
        // 0F 3A - all have Ib
        1
    } else {
        0
    }
}

/// One-byte opcodes whose byte immediate is sign-extended to 32 bits in
/// 64-bit mode: the short branches, 83 (Group 1), 6A (PUSH imm8) and 6B
/// (IMUL r,r/m,imm8).
pub open spec fn sign_extends_imm8_64(op: u8) -> bool {
    (0x70 <= op <= 0x7F) || (0xE0 <= op <= 0xE3) || op == 0xEB || op == 0x83 || op == 0x6A || op
        == 0x6B
}

/// The immediate of `size` bytes at `pos`; `disp` is the displacement word so
/// far, which ENTER's Ib and the high half of an 8-byte immediate overwrite.
/// Other sizes read nothing.
pub open spec fn spec_fetch_immediate64(
    w: Seq<u8>,
    pos: usize,
    size: u8,
    b1: u32,
    map: u8,
    disp: u32,
) -> Result<Immediate, DecodeError> {
    if size > 0 && pos + size > w.len() {
        Err(DecodeError::ImmediateBufferUnderflow)
    } else if size == 1 {
        let b = w[pos as int];
        let id = if map == 0 && sign_extends_imm8_64(b1 as u8) {
            sign_extend8(b)
        } else {
            b as u32
        };
        Ok(Immediate { id, disp, pos: (pos + 1) as usize })
    } else if size == 2 {
        Ok(Immediate { id: le16_at(w, pos as int) as u32, disp, pos: (pos + 2) as usize })
    } else if size == 3 {
        Ok(
            Immediate {
                id: le16_at(w, pos as int) as u32,
                disp: w[pos + 2] as u32,
                pos: (pos + 3) as usize,
            },
        )
    } else if size == 4 {
        Ok(Immediate { id: le32_at(w, pos as int), disp, pos: (pos + 4) as usize })
    } else if size == 8 {
        Ok(
            Immediate {
                id: le32_at(w, pos as int),
                disp: le32_at(w, pos + 4),
                pos: (pos + 8) as usize,
            },
        )
    } else {
        Ok(Immediate { id: 0, disp, pos })
    }
}

fn fetch_immediate64(
    bytes: &[u8],
    max_len: usize,
    pos: usize,
    size: u8,
    b1: u32,
    map: u8,
    disp: u32,
) -> (r: Result<Immediate, DecodeError>)
    requires
        max_len <= bytes@.len(),
        max_len <= 15,
        pos <= max_len,
    ensures
        r == spec_fetch_immediate64(bytes@.take(max_len as int), pos, size, b1, map, disp),
        r is Ok ==> pos <= r->Ok_0.pos <= max_len,
{
    let ghost w = bytes@.take(max_len as int);
    if size > 0 && pos + (size as usize) > max_len {
        return Err(DecodeError::ImmediateBufferUnderflow);
    }
    if size == 1 {
        let byte_val = bytes[pos];
        // Sign-extend byte immediates that are used as 32-bit values via id()
        let op = b1 as u8;
        let needs_sign_ext = map == 0 && ((0x70 <= op && op <= 0x7F) || (0xE0 <= op && op <= 0xE3)
            || op == 0xEB || op == 0x83 || op == 0x6A || op == 0x6B);
        let id = if needs_sign_ext {
            sign_extend_byte(byte_val)
        } else {
            byte_val as u32
        };
        Ok(Immediate { id, disp, pos: pos + 1 })
    } else if size == 2 {
        let id = read_u16_le(bytes, pos) as u32;
        assert(id == le16_at(w, pos as int));
        Ok(Immediate { id, disp, pos: pos + 2 })
    } else if size == 3 {
        // ENTER: Iw + Ib
        let id = read_u16_le(bytes, pos) as u32;
        assert(id == le16_at(w, pos as int));
        Ok(Immediate { id, disp: bytes[pos + 2] as u32, pos: pos + 3 })
    } else if size == 4 {
        let id = read_u32_le(bytes, pos);
        assert(id == le32_at(w, pos as int));
        Ok(Immediate { id, disp, pos: pos + 4 })
    } else if size == 8 {
        // 64-bit immediate (MOV reg, imm64): low half in the operand word,
        // high half in the displacement word
        let id = read_u32_le(bytes, pos);
        let hi = read_u32_le(bytes, pos + 4);
        assert(id == le32_at(w, pos as int));
        assert(hi == le32_at(w, pos + 4));
        Ok(Immediate { id, disp: hi, pos: pos + 8 })
    } else {
        Ok(Immediate { id: 0, disp, pos })
    }
}

// ============================================================================
// Opcode lookup
// ============================================================================
/// The opcode that the tables give for `b1` in `map` under `decmask`.
#[verifier::opaque]
pub open spec fn spec_lookup_opcode_64(b1: u32, map: u8, decmask: u32) -> Opcode {
    if map == 0 {
        spec_find_opcode(spec_opcode_table_64(b1 as u8), decmask)
    } else if map == 1 {
        spec_find_opcode(spec_opcode_table_0f_64((b1 & 0xFF) as u8), decmask)
    } else if map == 2 {
        spec_find_opcode(spec_opcode_table_0f38((b1 & 0xFF) as u8), decmask)
    } else if map == 3 {
        spec_find_opcode(spec_opcode_table_0f3a((b1 & 0xFF) as u8), decmask)
    } else {
        Opcode::IaError
    }
}

/// Get opcode table and look up opcode for 64-bit mode
fn lookup_opcode_64(b1: u32, opcode_map: u8, decmask: u32) -> (r: Opcode)
    ensures
        r == spec_lookup_opcode_64(b1, opcode_map, decmask),
{
    reveal(spec_lookup_opcode_64);
    if opcode_map == 0 {
        // One-byte opcodes
        let table = get_opcode_table_64(b1 as u8);
        find_opcode_in_table(table.as_slice(), decmask)
    } else if opcode_map == 1 {
        // Two-byte opcodes (0F xx)
        let table = get_opcode_table_0f_64((b1 & 0xFF) as u8);
        find_opcode_in_table(table.as_slice(), decmask)
    } else if opcode_map == 2 {
        // Three-byte opcodes (0F 38 xx)
        let table = get_opcode_table_0f38((b1 & 0xFF) as u8);
        find_opcode_in_table(table.as_slice(), decmask)
    } else if opcode_map == 3 {
        // Three-byte opcodes (0F 3A xx)
        let table = get_opcode_table_0f3a((b1 & 0xFF) as u8);
        find_opcode_in_table(table.as_slice(), decmask)
    } else {
        Opcode::IaError
    }
}

// ============================================================================
// The decoder
// ============================================================================
/// The flags word: 32-bit addressing always, 64-bit unless `67`; operand
/// size 32 unless `66` (REX.W makes it 64 and 32); extend8bit with any REX
/// prefix; ModC0; the lock/rep field.
pub open spec fn spec_flags64(p: Prefixes64, mod_c0: bool) -> u8 {
    FLAG_AS32 | (if p.as64 {
        FLAG_AS64
    } else {
        0
    }) | (if os32_in_force(p) {
        FLAG_OS32
    } else {
        0
    }) | (if rex_w(p) {
        FLAG_OS64
    } else {
        0
    }) | (if p.rex != 0 {
        FLAG_EXTEND8BIT
    } else {
        0
    }) | (if mod_c0 {
        FLAG_MODC0
    } else {
        0
    }) | (p.lock_rep << 6)
}

/// The decoding mask: operand size, address size, SSE prefix, ModC0, 64-bit
/// mode, and the low three bits of the ModRM rm and reg fields (when there is
/// a ModRM byte).
pub open spec fn spec_decmask64(p: Prefixes64, m: ModRm) -> u32 {
    ((if rex_w(p) {
        1u32
    } else {
        0u32
    }) << OS64_OFFSET) | ((if os32_in_force(p) {
        1u32
    } else {
        0u32
    }) << OS32_OFFSET) | ((if p.as64 {
        1u32
    } else {
        0u32
    }) << AS64_OFFSET) | (1u32 << AS32_OFFSET) | ((p.sse_prefix as u32) << SSE_PREFIX_OFFSET) | ((
    if m.mod_field == 3 {
        1u32
    } else {
        0u32
    }) << MODC0_OFFSET) | (1u32 << IS64_OFFSET) | (if m.needs_modrm {
        ((m.rm & 0x7) << RRR_OFFSET) | ((m.nnn & 0x7) << NNN_OFFSET)
    } else {
        0
    })
}

/// The decoded instruction, or `BxIllegalOpcode` when the tables name no
/// opcode for it.
pub open spec fn spec_finish64(
    p: Prefixes64,
    o: OpcodeBytes,
    m: ModRm,
    suffix: u8,
    imm: Immediate,
) -> Result<DecodedInstr, DecodeError> {
    let (dst, src1) = spec_operands64(o.b1, o.map, m);
    let opcode = if o.map == 4 {
        spec_dnow_opcode(suffix)
    } else {
        spec_lookup_opcode_64(o.b1, o.map, spec_decmask64(p, m))
    };
    if opcode == Opcode::IaError {
        Err(DecodeError::Decoder(BxDecodeError::BxIllegalOpcode))
    } else {
        Ok(
            DecodedInstr {
                opcode,
                ilen: imm.pos as u8,
                flags: spec_flags64(p, m.mod_field == 3),
                dst,
                src1,
                seg: if p.seg_override < 7 {
                    p.seg_override
                } else {
                    3
                },
                base: m.base,
                index: m.index,
                scale: m.scale,
                id: imm.id,
                disp: imm.disp,
            },
        )
    }
}

/// Decoding of the window `w` (the first bytes of the buffer, at most 15),
/// step by step.
pub open spec fn spec_decode64(w: Seq<u8>) -> Result<DecodedInstr, DecodeError> {
    let p = spec_scan_prefixes64(w, 0, initial_prefixes64());
    if p.pos >= w.len() {
        Err(DecodeError::PrefixBufferUnderflow)
    } else {
        match spec_fetch_opcode64(w, p.pos) {
            Err(e) => Err(e),
            Ok(o) => match spec_decode_modrm64(w, o.pos, o.b1, o.map, p.rex) {
                Err(e) => Err(e),
                Ok(m) => if m.needs_modrm && (o.b1 == 0x8C || o.b1 == 0x8E) && m.nnn > 5 {
                    Err(DecodeError::InvalidSegmentRegister { index: m.nnn as u8, opcode: o.b1 as u8 })
                } else {
                    match spec_dnow_suffix(w, m.pos, o.map) {
                        Err(e) => Err(e),
                        Ok((suffix, pos)) => {
                            let size = spec_immediate_size_64(
                                o.b1,
                                o.map,
                                os32_in_force(p),
                                rex_w(p),
                                p.as64,
                                m.nnn,
                            );
                            match spec_fetch_immediate64(w, pos, size, o.b1, o.map, m.disp) {
                                Err(e) => Err(e),
                                Ok(imm) => spec_finish64(p, o, m, suffix, imm),
                            }
                        },
                    }
                },
            },
        }
    }
}

/// The result of decoding `bytes` in 64-bit mode.
pub open spec fn spec_fetch_decode64(bytes: Seq<u8>) -> Result<DecodedInstr, DecodeError> {
    if bytes.len() == 0 {
        Err(DecodeError::BufferUnderflow)
    } else {
        spec_decode64(bytes.take(window_len(bytes.len()) as int))
    }
}

fn finish64(p: Prefixes64, o: OpcodeBytes, m: ModRm, suffix: u8, imm: Immediate) -> (r: Result<
    DecodedInstr,
    DecodeError,
>)
    requires
        p.sse_prefix < 4,
        p.lock_rep < 4,
    ensures
        r == spec_finish64(p, o, m, suffix, imm),
{
    let mod_c0 = m.mod_field == 3;
    let (dst, src1) = operands64(o.b1, o.map, m);
    // REX.W asserts both Os64 and Os32
    let os64 = p.rex != 0 && (p.rex & 0x08) != 0;
    let os32 = p.os32 || os64;
    let opcode = if o.map == 4 {
        // 3DNow! instruction: use suffix to look up opcode directly
        dnow_opcode(suffix)
    } else {
        // Only include nnn/rm in decmask if instruction has ModRM
        let os64_val: u32 = if os64 {
            1
        } else {
            0
        };
        let os32_val: u32 = if os32 {
            1
        } else {
            0
        };
        let as64_val: u32 = if p.as64 {
            1
        } else {
            0
        };
        let modc0_val: u32 = if mod_c0 {
            1
        } else {
            0
        };
        let decmask: u32 = (os64_val << OS64_OFFSET) | (os32_val << OS32_OFFSET) | (as64_val
            << AS64_OFFSET) | (1u32 << AS32_OFFSET) | ((p.sse_prefix as u32) << SSE_PREFIX_OFFSET)
            | (modc0_val << MODC0_OFFSET) | (1u32 << IS64_OFFSET) | (if m.needs_modrm {
            ((m.rm & 0x7) << RRR_OFFSET) | ((m.nnn & 0x7) << NNN_OFFSET)
        } else {
            0
        });
        lookup_opcode_64(o.b1, o.map, decmask)
    };
    // Check if opcode lookup failed
    if opcode == Opcode::IaError {
        return Err(DecodeError::Decoder(BxDecodeError::BxIllegalOpcode));
    }
    let flags: u8 = FLAG_AS32 | (if p.as64 {
        FLAG_AS64
    } else {
        0
    }) | (if os32 {
        FLAG_OS32
    } else {
        0
    }) | (if os64 {
        FLAG_OS64
    } else {
        0
    }) | (if p.rex != 0 {
        FLAG_EXTEND8BIT
    } else {
        0
    }) | (if mod_c0 {
        FLAG_MODC0
    } else {
        0
    }) | (p.lock_rep << 6);
    let seg = if p.seg_override < 7 {
        p.seg_override
    } else {
        3  // DS
    };
    Ok(
        DecodedInstr {
            opcode,
            ilen: imm.pos as u8,
            flags,
            dst,
            src1,
            seg,
            base: m.base,
            index: m.index,
            scale: m.scale,
            id: imm.id,
            disp: imm.disp,
        },
    )
}

/// The prefix scan keeps the SSE prefix and the lock/rep field below 4.
proof fn lemma_prefixes64_bounds(w: Seq<u8>, i: int, st: Prefixes64)
    requires
        st.sse_prefix < 4,
        st.lock_rep < 4,
    ensures
        spec_scan_prefixes64(w, i, st).sse_prefix < 4,
        spec_scan_prefixes64(w, i, st).lock_rep < 4,
    decreases w.len() - i,
{
    if 0 <= i < w.len() && is_prefix64_byte(w[i]) {
        let next = spec_apply_prefix64(st, w[i]);
        lemma_prefixes64_bounds(w, i + 1, Prefixes64 { pos: (i + 1) as usize, ..next });
    }
}

/// Decode the window: the first `max_len` bytes of the buffer.
fn decode64_window(bytes: &[u8], max_len: usize) -> (r: Result<DecodedInstr, DecodeError>)
    requires
        max_len <= bytes@.len(),
        max_len <= 15,
    ensures
        r == spec_decode64(bytes@.take(max_len as int)),
{
    // === Phase 1: Parse legacy and REX prefixes ===
    let p = scan_prefixes64(bytes, max_len);
    proof {
        lemma_prefixes64_bounds(bytes@.take(max_len as int), 0, initial_prefixes64());
    }
    if p.pos >= max_len {
        return Err(DecodeError::PrefixBufferUnderflow);
    }
    // === Phase 2: Parse opcode ===
    let o = fetch_opcode64(bytes, max_len, p.pos)?;
    // === Phase 3: Parse ModRM if needed ===
    let m = decode_modrm64(bytes, max_len, o.pos, o.b1, o.map, p.rex)?;
    // Valid segment registers: ES(0), CS(1), SS(2), DS(3), FS(4), GS(5)
    if m.needs_modrm && (o.b1 == 0x8C || o.b1 == 0x8E) && m.nnn > 5 {
        return Err(DecodeError::InvalidSegmentRegister { index: m.nnn as u8, opcode: o.b1 as u8 });
    }
    // === Phase 3.5: Read 3DNow! suffix byte (comes after ModRM/displacement) ===
    let (suffix, pos) = dnow_suffix(bytes, max_len, m.pos, o.map)?;
    // === Phase 4: Parse immediate ===
    let os64 = p.rex != 0 && (p.rex & 0x08) != 0;
    let size = get_immediate_size_64(o.b1, o.map, p.os32 || os64, os64, p.as64, m.nnn);
    let imm = fetch_immediate64(bytes, max_len, pos, size, o.b1, o.map, m.disp)?;
    finish64(p, o, m, suffix, imm)
}

/// 64-bit instruction decoder
///
/// Decodes an x86-64 instruction and returns a `Result` containing either
/// the decoded `Instruction` on success, or a `DecodeError` on failure.
/// At most the first 15 bytes are read.
pub fn fetch_decode64(bytes: &[u8]) -> (r: DecodeResult<Instruction>)
    ensures
        result_holds(r, spec_fetch_decode64(bytes@)),
{
    if bytes.len() == 0 {
        return Err(DecodeError::BufferUnderflow);
    }
    let max_len = if bytes.len() > 15 {
        15
    } else {
        bytes.len()
    };
    match decode64_window(bytes, max_len) {
        Ok(d) => Ok(Instruction::from_decoded(d)),
        Err(e) => Err(e),
    }
}

} // verus!
