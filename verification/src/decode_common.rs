//! Steps of instruction decoding that the 16/32-bit and the 64-bit decoders
//! share: the opcode escape bytes, the displacement that the ModRM `mod`
//! field selects, and the 3DNow! suffix byte.
//!
//! Each step reads the instruction's window: the first bytes of the buffer,
//! at most 15. A step is stated as a spec function of the window and the
//! position it starts at, and performed by an executable function that reads
//! the buffer up to the window's end.

use vstd::prelude::*;

use crate::bytes::{le16_at, le32_at, read_u16_le, read_u32_le, sign_extend8, sign_extend_byte};
use crate::error::DecodeError;

verus! {

/// The register index that stands for "no base register".
pub const BX_NIL_REGISTER: u8 = 19;

/// The SIB index value that stands for "no index register".
pub const BX_NO_INDEX: u8 = 4;

/// Three-bit fields are below 8.
pub proof fn lemma_three_bit_fields(x: u32, b: u8)
    by (bit_vector)
    ensures
        x & 7 < 8,
        (x >> 3) & 7 < 8,
        b & 7 < 8,
        (b >> 3) & 7 < 8,
        (b >> 6) & 3 < 4,
{
}

/// The opcode bytes of an instruction.
#[derive(Clone, Copy, PartialEq, Eq, Structural, Debug)]
pub struct OpcodeBytes {
    /// The opcode, tagged with its map: `b`, `0x100 | b` (0F b),
    /// `0x200 | b` (0F 38 b), `0x300 | b` (0F 3A b), or `0x10F` (0F 0F).
    pub b1: u32,
    /// 0 one-byte, 1 `0F`, 2 `0F 38`, 3 `0F 3A`, 4 3DNow! (`0F 0F`)
    pub map: u8,
    /// The position after the opcode bytes.
    pub pos: usize,
}

/// The opcode that follows an `0F` escape byte, read from `pos` on.
pub open spec fn spec_fetch_escape(w: Seq<u8>, pos: usize) -> Result<OpcodeBytes, DecodeError> {
    if pos >= w.len() {
        Err(DecodeError::OpcodeBufferUnderflow)
    } else {
        let b2 = w[pos as int];
        let p = (pos + 1) as usize;
        if b2 == 0x38 {
            if p >= w.len() {
                Err(DecodeError::OpcodeBufferUnderflow)
            } else {
                Ok(OpcodeBytes { b1: 0x200 | (w[p as int] as u32), map: 2, pos: (p + 1) as usize })
            }
        } else if b2 == 0x3A {
            if p >= w.len() {
                Err(DecodeError::OpcodeBufferUnderflow)
            } else {
                Ok(OpcodeBytes { b1: 0x300 | (w[p as int] as u32), map: 3, pos: (p + 1) as usize })
            }
        } else if b2 == 0x0F {
            // 3DNow!: the suffix byte that names the instruction comes last
            Ok(OpcodeBytes { b1: 0x10F, map: 4, pos: p })
        } else {
            Ok(OpcodeBytes { b1: 0x100 | (b2 as u32), map: 1, pos: p })
        }
    }
}

/// Read the opcode that follows an `0F` escape byte.
pub fn fetch_escape(bytes: &[u8], max_len: usize, pos: usize) -> (r: Result<
    OpcodeBytes,
    DecodeError,
>)
    requires
        max_len <= bytes@.len(),
        max_len <= 15,
    ensures
        r == spec_fetch_escape(bytes@.take(max_len as int), pos),
{
    if pos >= max_len {
        return Err(DecodeError::OpcodeBufferUnderflow);
    }
    let b2 = bytes[pos];
    let p = pos + 1;
    if b2 == 0x38 {
        if p >= max_len {
            return Err(DecodeError::OpcodeBufferUnderflow);
        }
        Ok(OpcodeBytes { b1: 0x200 | (bytes[p] as u32), map: 2, pos: p + 1 })
    } else if b2 == 0x3A {
        if p >= max_len {
            return Err(DecodeError::OpcodeBufferUnderflow);
        }
        Ok(OpcodeBytes { b1: 0x300 | (bytes[p] as u32), map: 3, pos: p + 1 })
    } else if b2 == 0x0F {
        Ok(OpcodeBytes { b1: 0x10F, map: 4, pos: p })
    } else {
        Ok(OpcodeBytes { b1: 0x100 | (b2 as u32), map: 1, pos: p })
    }
}

/// The memory operand that a ModRM byte (and SIB byte) describes.
#[derive(Clone, Copy, PartialEq, Eq, Structural, Debug)]
pub struct MemOperand {
    pub base: u8,
    pub index: u8,
    pub scale: u8,
    pub disp: u32,
    /// The position after the bytes read so far.
    pub pos: usize,
}

/// The displacement that the ModRM `mod` field calls for: 8 bits
/// sign-extended for mod 1, 32 bits (`wide`) or 16 bits for mod 2, none
/// otherwise.
pub open spec fn spec_disp_by_mod(w: Seq<u8>, m: MemOperand, mod_field: u8, wide: bool) -> Result<
    MemOperand,
    DecodeError,
> {
    if mod_field == 1 {
        if m.pos >= w.len() {
            Err(DecodeError::DisplacementBufferUnderflow)
        } else {
            Ok(MemOperand { disp: sign_extend8(w[m.pos as int]), pos: (m.pos + 1) as usize, ..m })
        }
    } else if mod_field == 2 {
        if wide {
            if m.pos + 4 > w.len() {
                Err(DecodeError::DisplacementBufferUnderflow)
            } else {
                Ok(MemOperand { disp: le32_at(w, m.pos as int), pos: (m.pos + 4) as usize, ..m })
            }
        } else {
            if m.pos + 2 > w.len() {
                Err(DecodeError::DisplacementBufferUnderflow)
            } else {
                Ok(
                    MemOperand {
                        disp: le16_at(w, m.pos as int) as u32,
                        pos: (m.pos + 2) as usize,
                        ..m
                    },
                )
            }
        }
    } else {
        Ok(m)
    }
}

/// Read the displacement that the ModRM `mod` field calls for.
pub fn disp_by_mod(bytes: &[u8], max_len: usize, m: MemOperand, mod_field: u8, wide: bool) -> (r:
    Result<MemOperand, DecodeError>)
    requires
        max_len <= bytes@.len(),
        max_len <= 15,
        m.pos <= max_len,
    ensures
        r == spec_disp_by_mod(bytes@.take(max_len as int), m, mod_field, wide),
{
    let ghost w = bytes@.take(max_len as int);
    if mod_field == 1 {
        if m.pos >= max_len {
            return Err(DecodeError::DisplacementBufferUnderflow);
        }
        let disp = sign_extend_byte(bytes[m.pos]);
        Ok(MemOperand { disp, pos: m.pos + 1, ..m })
    } else if mod_field == 2 {
        if wide {
            if m.pos + 4 > max_len {
                return Err(DecodeError::DisplacementBufferUnderflow);
            }
            let disp = read_u32_le(bytes, m.pos);
            assert(disp == le32_at(w, m.pos as int));
            Ok(MemOperand { disp, pos: m.pos + 4, ..m })
        } else {
            if m.pos + 2 > max_len {
                return Err(DecodeError::DisplacementBufferUnderflow);
            }
            let disp = read_u16_le(bytes, m.pos) as u32;
            assert(disp == le16_at(w, m.pos as int));
            Ok(MemOperand { disp, pos: m.pos + 2, ..m })
        }
    } else {
        Ok(m)
    }
}

/// The 3DNow! suffix byte (map 4 only) and the position after it.
pub open spec fn spec_dnow_suffix(w: Seq<u8>, pos: usize, map: u8) -> Result<(u8, usize), DecodeError> {
    if map == 4 {
        if pos >= w.len() {
            Err(DecodeError::ImmediateBufferUnderflow)
        } else {
            Ok((w[pos as int], (pos + 1) as usize))
        }
    } else {
        Ok((0, pos))
    }
}

/// Read the 3DNow! suffix byte, which comes after ModRM and displacement.
pub fn dnow_suffix(bytes: &[u8], max_len: usize, pos: usize, map: u8) -> (r: Result<
    (u8, usize),
    DecodeError,
>)
    requires
        max_len <= bytes@.len(),
        max_len <= 15,
    ensures
        r == spec_dnow_suffix(bytes@.take(max_len as int), pos, map),
{
    if map == 4 {
        if pos >= max_len {
            return Err(DecodeError::ImmediateBufferUnderflow);
        }
        Ok((bytes[pos], pos + 1))
    } else {
        Ok((0, pos))
    }
}

/// The immediate and displacement words after the immediate bytes are read.
#[derive(Clone, Copy, PartialEq, Eq, Structural, Debug)]
pub struct Immediate {
    pub id: u32,
    pub disp: u32,
    /// The position after the immediate bytes.
    pub pos: usize,
}

/// The ModRM fields and the memory operand of an instruction.
#[derive(Clone, Copy, PartialEq, Eq, Structural, Debug)]
pub struct ModRm {
    pub needs_modrm: bool,
    /// ModRM reg field; without ModRM, bits 5..3 of the opcode.
    pub nnn: u32,
    /// ModRM rm field; without ModRM, bits 2..0 of the opcode.
    pub rm: u32,
    /// The ModRM byte (0 without ModRM).
    pub modrm_byte: u8,
    /// ModRM mod field; 3 (register form) without ModRM.
    pub mod_field: u8,
    pub base: u8,
    pub index: u8,
    pub scale: u8,
    pub disp: u32,
    /// The position after the ModRM, SIB and displacement bytes.
    pub pos: usize,
}

/// Group opcodes: the ModRM reg field selects the operation, the rm field
/// names the operand.
pub open spec fn is_group_opcode(b1: u32) -> bool {
    b1 == 0x80 || b1 == 0x81 || b1 == 0x83 || b1 == 0xC0 || b1 == 0xC1 || b1 == 0xD0 || b1 == 0xD1
        || b1 == 0xD2 || b1 == 0xD3 || b1 == 0xF6 || b1 == 0xF7 || b1 == 0xFE || b1 == 0xFF
}

/// Segment register push/pop: the register is in bits 5..3 of the opcode.
pub open spec fn is_segment_push_pop(b1: u32, map: u8) -> bool {
    b1 == 0x06 || b1 == 0x07 || b1 == 0x0E || b1 == 0x16 || b1 == 0x17 || b1 == 0x1E || b1 == 0x1F
        || (map == 1 && ((b1 & 0xFF) == 0xA0 || (b1 & 0xFF) == 0xA1 || (b1 & 0xFF) == 0xA8 || (b1
        & 0xFF) == 0xA9))
}

/// The length of the window: the buffer's length, at most 15.
pub open spec fn window_len(len: nat) -> nat {
    if len > 15 {
        15
    } else {
        len
    }
}


// ============================================================================
// What decoding reads
// ============================================================================
/// `w` and `w2` hold the same first `n` bytes, and both hold at least `n`.
pub open spec fn same_prefix(w: Seq<u8>, w2: Seq<u8>, n: int) -> bool {
    &&& 0 <= n <= w.len()
    &&& n <= w2.len()
    &&& forall|i: int| 0 <= i < n ==> #[trigger] w2[i] == w[i]
}

/// The little-endian words in the common part of two windows agree.
pub proof fn lemma_le_words_same(w: Seq<u8>, w2: Seq<u8>, n: int, pos: int)
    requires
        same_prefix(w, w2, n),
        0 <= pos,
    ensures
        pos + 2 <= n ==> le16_at(w2, pos) == le16_at(w, pos),
        pos + 4 <= n ==> le32_at(w2, pos) == le32_at(w, pos),
{
    if pos + 2 <= n {
        assert(w2[pos] == w[pos] && w2[pos + 1] == w[pos + 1]);
    }
    if pos + 4 <= n {
        assert(w2[pos + 2] == w[pos + 2] && w2[pos + 3] == w[pos + 3]);
    }
}

/// An escaped opcode read from `w` ends after `pos` and within `w`; it reads
/// only bytes before its end, so any window with the same bytes up to there
/// gives the same.
pub proof fn lemma_fetch_escape_reads(w: Seq<u8>, w2: Seq<u8>, pos: usize, n: int)
    requires
        spec_fetch_escape(w, pos) is Ok,
        w.len() <= 15,
    ensures
        pos < spec_fetch_escape(w, pos)->Ok_0.pos <= w.len(),
        spec_fetch_escape(w, pos)->Ok_0.map <= 4,
        same_prefix(w, w2, n) && n >= spec_fetch_escape(w, pos)->Ok_0.pos ==> spec_fetch_escape(
            w2,
            pos,
        ) == spec_fetch_escape(w, pos),
{
    if same_prefix(w, w2, n) && n >= spec_fetch_escape(w, pos)->Ok_0.pos {
        assert(w2[pos as int] == w[pos as int]);
        if w[pos as int] == 0x38 || w[pos as int] == 0x3A {
            assert(w2[pos + 1] == w[pos + 1]);
        }
    }
}

/// A displacement read from `w` ends within `w` (or reads nothing) and keeps
/// the operand's registers; it reads only bytes before its end.
pub proof fn lemma_disp_by_mod_reads(
    w: Seq<u8>,
    w2: Seq<u8>,
    m: MemOperand,
    mod_field: u8,
    wide: bool,
    n: int,
)
    requires
        spec_disp_by_mod(w, m, mod_field, wide) is Ok,
        w.len() <= 15,
    ensures
        m.pos <= spec_disp_by_mod(w, m, mod_field, wide)->Ok_0.pos,
        spec_disp_by_mod(w, m, mod_field, wide)->Ok_0.base == m.base,
        spec_disp_by_mod(w, m, mod_field, wide)->Ok_0.index == m.index,
        spec_disp_by_mod(w, m, mod_field, wide)->Ok_0.scale == m.scale,
        spec_disp_by_mod(w, m, mod_field, wide)->Ok_0.pos == m.pos || spec_disp_by_mod(
            w,
            m,
            mod_field,
            wide,
        )->Ok_0.pos <= w.len(),
        same_prefix(w, w2, n) && n >= spec_disp_by_mod(w, m, mod_field, wide)->Ok_0.pos
            ==> spec_disp_by_mod(w2, m, mod_field, wide) == spec_disp_by_mod(w, m, mod_field, wide),
{
    if same_prefix(w, w2, n) && n >= spec_disp_by_mod(w, m, mod_field, wide)->Ok_0.pos {
        lemma_le_words_same(w, w2, n, m.pos as int);
        if mod_field == 1 {
            assert(w2[m.pos as int] == w[m.pos as int]);
        }
    }
}

/// A 3DNow! suffix read from `w` ends within `w` (or reads nothing); it reads
/// only bytes before its end.
pub proof fn lemma_dnow_suffix_reads(w: Seq<u8>, w2: Seq<u8>, pos: usize, map: u8, n: int)
    requires
        spec_dnow_suffix(w, pos, map) is Ok,
        w.len() <= 15,
    ensures
        pos <= spec_dnow_suffix(w, pos, map)->Ok_0.1,
        spec_dnow_suffix(w, pos, map)->Ok_0.1 == pos || spec_dnow_suffix(w, pos, map)->Ok_0.1
            <= w.len(),
        same_prefix(w, w2, n) && n >= spec_dnow_suffix(w, pos, map)->Ok_0.1 ==> spec_dnow_suffix(
            w2,
            pos,
            map,
        ) == spec_dnow_suffix(w, pos, map),
{
    if same_prefix(w, w2, n) && n >= spec_dnow_suffix(w, pos, map)->Ok_0.1 && map == 4 {
        assert(w2[pos as int] == w[pos as int]);
    }
}

} // verus!
