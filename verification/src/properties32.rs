//! What 32-bit/16-bit decoding reads and what it produces.
//!
//! Each decoding step reads the window only below the position at which it
//! ends, so an instruction decodes the same from any buffer that holds the
//! same bytes up to its end: from a longer buffer, and from its own bytes;
//! and no shorter part of it decodes. The registers of a decoded
//! instruction are eight-register indices (or Nil for a missing base), and
//! its segment is one of ES..GS.

use vstd::prelude::*;

use crate::bytes::le16_at;
use crate::decode_common::{
    lemma_disp_by_mod_reads, lemma_dnow_suffix_reads, lemma_fetch_escape_reads,
    lemma_le_words_same, lemma_three_bit_fields, same_prefix, spec_disp_by_mod, spec_dnow_suffix,
    window_len, MemOperand, BX_NIL_REGISTER,
};
use crate::fetchdecode32::{
    initial_prefixes32, is_legacy_prefix32, spec_apply_prefix32, spec_decode32,
    spec_decode_modrm32, spec_fetch_decode32, spec_fetch_immediate32, spec_fetch_opcode32,
    spec_immediate_size_32, spec_modrm_base32, spec_modrm_mem16, spec_modrm_mem32,
    spec_opcode_needs_modrm_32, spec_resolve16_base_reg, spec_resolve16_index_reg,
    spec_scan_prefixes32, spec_segment32, Prefixes32,
};
use crate::error::DecodeError;
use crate::instr_generated::DecodedInstr;
use crate::instruction::{FLAG_AS32, FLAG_MODC0, FLAG_OS32};
use crate::opcode::Opcode;
use crate::properties64::opcode_len;

verus! {

/// The prefix scan ends within the window, at or after where it starts; it
/// reads the bytes up to and including the first that is not a prefix.
proof fn lemma_scan_prefixes32_reads(
    w: Seq<u8>,
    w2: Seq<u8>,
    is_32: bool,
    i: int,
    st: Prefixes32,
    n: int,
)
    requires
        0 <= i <= w.len(),
        w.len() <= 15,
    ensures
        i <= spec_scan_prefixes32(w, is_32, i, st).pos <= w.len(),
        same_prefix(w, w2, n) && spec_scan_prefixes32(w, is_32, i, st).pos < n
            ==> spec_scan_prefixes32(w2, is_32, i, st) == spec_scan_prefixes32(w, is_32, i, st),
    decreases w.len() - i,
{
    if i < w.len() && is_legacy_prefix32(w[i]) {
        let next = spec_apply_prefix32(st, w[i], is_32);
        let st2 = Prefixes32 { pos: (i + 1) as usize, ..next };
        lemma_scan_prefixes32_reads(w, w2, is_32, i + 1, st2, n);
        if same_prefix(w, w2, n) && spec_scan_prefixes32(w, is_32, i, st).pos < n {
            assert(w2[i] == w[i]);
        }
    } else if same_prefix(w, w2, n) && spec_scan_prefixes32(w, is_32, i, st).pos < n {
        assert(w2[i] == w[i]);
    }
}

/// The opcode ends after `pos` and within the window. It reads its own
/// bytes, and for `C4`, `C5` and `8F` the byte after, which is their ModRM
/// byte.
proof fn lemma_fetch_opcode32_reads(w: Seq<u8>, w2: Seq<u8>, pos: usize, n: int)
    requires
        pos < w.len() <= 15,
        spec_fetch_opcode32(w, pos) is Ok,
    ensures
        pos < spec_fetch_opcode32(w, pos)->Ok_0.pos <= w.len(),
        ({
            let o = spec_fetch_opcode32(w, pos)->Ok_0;
            same_prefix(w, w2, n) && n >= o.pos && (spec_opcode_needs_modrm_32(o.b1, o.map)
                ==> n > o.pos) ==> spec_fetch_opcode32(w2, pos) == spec_fetch_opcode32(w, pos)
        }),
{
    let b = w[pos as int];
    let p = (pos + 1) as usize;
    if b == 0x0F {
        lemma_fetch_escape_reads(w, w2, p, n);
    }
    let o = spec_fetch_opcode32(w, pos)->Ok_0;
    if same_prefix(w, w2, n) && n >= o.pos && (spec_opcode_needs_modrm_32(o.b1, o.map) ==> n
        > o.pos) {
        assert(w2[pos as int] == w[pos as int]);
        if b == 0xC4 || b == 0xC5 || b == 0x8F {
            assert(spec_opcode_needs_modrm_32(o.b1, o.map));
            assert(w2[p as int] == w[p as int]);
        }
    }
}

/// A 32-bit-addressing memory operand ends within the window and reads only
/// bytes before its end.
proof fn lemma_modrm_mem32_reads(w: Seq<u8>, w2: Seq<u8>, pos: usize, mod_field: u8, rm: u32, n: int)
    requires
        pos <= w.len() <= 15,
        spec_modrm_mem32(w, pos, mod_field, rm) is Ok,
    ensures
        pos <= spec_modrm_mem32(w, pos, mod_field, rm)->Ok_0.pos <= w.len(),
        rm < 8 ==> spec_modrm_mem32(w, pos, mod_field, rm)->Ok_0.base < 8 || spec_modrm_mem32(
            w,
            pos,
            mod_field,
            rm,
        )->Ok_0.base == BX_NIL_REGISTER,
        spec_modrm_mem32(w, pos, mod_field, rm)->Ok_0.index < 8,
        spec_modrm_mem32(w, pos, mod_field, rm)->Ok_0.scale < 4,
        same_prefix(w, w2, n) && n >= spec_modrm_mem32(w, pos, mod_field, rm)->Ok_0.pos
            ==> spec_modrm_mem32(w2, pos, mod_field, rm) == spec_modrm_mem32(w, pos, mod_field, rm),
{
    let m = spec_modrm_base32(w, pos, mod_field, rm)->Ok_0;
    if rm == 4 {
        lemma_three_bit_fields(0, w[pos as int]);
    }
    lemma_disp_by_mod_reads(w, w2, m, mod_field, true, n);
    let r = spec_modrm_mem32(w, pos, mod_field, rm)->Ok_0;
    if same_prefix(w, w2, n) && n >= r.pos {
        if rm == 4 {
            assert(w2[pos as int] == w[pos as int]);
            lemma_le_words_same(w, w2, n, pos + 1);
        } else {
            lemma_le_words_same(w, w2, n, pos as int);
        }
    }
}

/// A 16-bit-addressing memory operand ends within the window and reads only
/// bytes before its end.
proof fn lemma_modrm_mem16_reads(w: Seq<u8>, w2: Seq<u8>, pos: usize, mod_field: u8, rm: u32, n: int)
    requires
        pos <= w.len() <= 15,
        spec_modrm_mem16(w, pos, mod_field, rm) is Ok,
    ensures
        pos <= spec_modrm_mem16(w, pos, mod_field, rm)->Ok_0.pos <= w.len(),
        spec_modrm_mem16(w, pos, mod_field, rm)->Ok_0.base < 8 || spec_modrm_mem16(
            w,
            pos,
            mod_field,
            rm,
        )->Ok_0.base == BX_NIL_REGISTER,
        spec_modrm_mem16(w, pos, mod_field, rm)->Ok_0.index < 8,
        spec_modrm_mem16(w, pos, mod_field, rm)->Ok_0.scale < 4,
        same_prefix(w, w2, n) && n >= spec_modrm_mem16(w, pos, mod_field, rm)->Ok_0.pos
            ==> spec_modrm_mem16(w2, pos, mod_field, rm) == spec_modrm_mem16(w, pos, mod_field, rm),
{
    let index = spec_resolve16_index_reg(rm);
    let m = if mod_field == 0 && rm == 6 {
        MemOperand {
            base: BX_NIL_REGISTER,
            index,
            scale: 0,
            disp: le16_at(w, pos as int) as u32,
            pos: (pos + 2) as usize,
        }
    } else {
        MemOperand { base: spec_resolve16_base_reg(rm), index, scale: 0, disp: 0, pos }
    };
    assert(spec_disp_by_mod(w, m, mod_field, false) == spec_modrm_mem16(w, pos, mod_field, rm));
    lemma_disp_by_mod_reads(w, w2, m, mod_field, false, n);
    let r = spec_modrm_mem16(w, pos, mod_field, rm)->Ok_0;
    if same_prefix(w, w2, n) && n >= r.pos {
        lemma_le_words_same(w, w2, n, pos as int);
    }
}

/// The ModRM part ends within the window, after `pos` when there is a ModRM
/// byte, and reads only bytes before its end.
proof fn lemma_decode_modrm32_reads(
    w: Seq<u8>,
    w2: Seq<u8>,
    pos: usize,
    b1: u32,
    map: u8,
    as_32: bool,
    n: int,
)
    requires
        pos <= w.len() <= 15,
        spec_decode_modrm32(w, pos, b1, map, as_32) is Ok,
    ensures
        ({
            let m = spec_decode_modrm32(w, pos, b1, map, as_32)->Ok_0;
            &&& pos <= m.pos <= w.len()
            &&& m.needs_modrm == spec_opcode_needs_modrm_32(b1, map)
            &&& m.needs_modrm ==> pos < m.pos
            &&& m.nnn < 8 && m.rm < 8
            &&& m.base < 8 || m.base == BX_NIL_REGISTER
            &&& m.index < 8 && m.scale < 4
            &&& same_prefix(w, w2, n) && n >= m.pos ==> spec_decode_modrm32(w2, pos, b1, map, as_32)
                == spec_decode_modrm32(w, pos, b1, map, as_32)
        }),
{
    lemma_three_bit_fields(b1, 0);
    if spec_opcode_needs_modrm_32(b1, map) {
        let modrm = w[pos as int];
        lemma_three_bit_fields(0, modrm);
        let mod_field = (modrm >> 6) & 0x3;
        let rm = (modrm & 0x7) as u32;
        let p = (pos + 1) as usize;
        if mod_field != 3 {
            if as_32 {
                lemma_modrm_mem32_reads(w, w2, p, mod_field, rm, n);
            } else {
                lemma_modrm_mem16_reads(w, w2, p, mod_field, rm, n);
            }
        }
        let m = spec_decode_modrm32(w, pos, b1, map, as_32)->Ok_0;
        if same_prefix(w, w2, n) && n >= m.pos {
            assert(w2[pos as int] == w[pos as int]);
        }
    }
}

/// The immediate sizes of 32-bit/16-bit mode.
proof fn lemma_immediate_size_32(b1: u32, map: u8, os_32: bool, as_32: bool, nnn: u32)
    ensures
        ({
            let size = spec_immediate_size_32(b1, map, os_32, as_32, nnn);
            size == 0 || size == 1 || size == 2 || size == 3 || size == 4 || size == 6
        }),
{
}

/// The immediate ends `size` bytes after `pos`, within the window, and reads
/// only those bytes.
proof fn lemma_fetch_immediate32_reads(
    w: Seq<u8>,
    w2: Seq<u8>,
    pos: usize,
    size: u8,
    b1: u32,
    map: u8,
    disp: u32,
    n: int,
)
    requires
        pos <= w.len() <= 15,
        size == 0 || size == 1 || size == 2 || size == 3 || size == 4 || size == 6,
        spec_fetch_immediate32(w, pos, size, b1, map, disp) is Ok,
    ensures
        spec_fetch_immediate32(w, pos, size, b1, map, disp)->Ok_0.pos == pos + size,
        pos + size <= w.len(),
        same_prefix(w, w2, n) && n >= pos + size ==> spec_fetch_immediate32(
            w2,
            pos,
            size,
            b1,
            map,
            disp,
        ) == spec_fetch_immediate32(w, pos, size, b1, map, disp),
{
    if same_prefix(w, w2, n) && n >= pos + size {
        lemma_le_words_same(w, w2, n, pos as int);
        lemma_le_words_same(w, w2, n, pos + 2);
        lemma_le_words_same(w, w2, n, pos + 4);
        if size == 1 || size == 3 {
            assert(w2[pos as int] == w[pos as int]);
            assert(size == 3 ==> w2[pos + 2] == w[pos + 2]);
        }
    }
}

/// The prefix scan leaves no segment override (7) or one of ES..GS.
proof fn lemma_scan_prefixes32_segment(w: Seq<u8>, is_32: bool, i: int, st: Prefixes32)
    requires
        st.seg_override <= 5 || st.seg_override == 7,
    ensures
        spec_scan_prefixes32(w, is_32, i, st).seg_override <= 5 || spec_scan_prefixes32(
            w,
            is_32,
            i,
            st,
        ).seg_override == 7,
    decreases w.len() - i,
{
    if 0 <= i < w.len() && is_legacy_prefix32(w[i]) {
        let next = spec_apply_prefix32(st, w[i], is_32);
        lemma_scan_prefixes32_segment(
            w,
            is_32,
            i + 1,
            Prefixes32 { pos: (i + 1) as usize, ..next },
        );
    }
}

/// A window that decodes gives an instruction of at least one byte that ends
/// within it, whose registers are among the eight (the base may be Nil) and
/// whose segment is one of ES..GS; and every window with the same bytes up
/// to the instruction's end decodes the same.
pub proof fn lemma_decode32_reads(w: Seq<u8>, w2: Seq<u8>, is_32: bool, n: int)
    requires
        w.len() <= 15,
        spec_decode32(w, is_32) is Ok,
    ensures
        1 <= spec_decode32(w, is_32)->Ok_0.ilen <= w.len(),
        ({
            let d = spec_decode32(w, is_32)->Ok_0;
            &&& d.dst < 8 && d.src1 < 8
            &&& d.base < 8 || d.base == BX_NIL_REGISTER
            &&& d.index < 8 && d.scale < 4
            &&& d.seg <= 5
        }),
        same_prefix(w, w2, n) && n >= spec_decode32(w, is_32)->Ok_0.ilen ==> spec_decode32(
            w2,
            is_32,
        ) == spec_decode32(w, is_32),
{
    let st0 = initial_prefixes32(is_32);
    let p = spec_scan_prefixes32(w, is_32, 0, st0);
    lemma_scan_prefixes32_reads(w, w2, is_32, 0, st0, n);
    lemma_scan_prefixes32_segment(w, is_32, 0, st0);
    let o = spec_fetch_opcode32(w, p.pos)->Ok_0;
    lemma_fetch_opcode32_reads(w, w2, p.pos, n);
    let m = spec_decode_modrm32(w, o.pos, o.b1, o.map, p.as_32)->Ok_0;
    lemma_decode_modrm32_reads(w, w2, o.pos, o.b1, o.map, p.as_32, n);
    let sp = spec_dnow_suffix(w, m.pos, o.map)->Ok_0;
    lemma_dnow_suffix_reads(w, w2, m.pos, o.map, n);
    let size = spec_immediate_size_32(o.b1, o.map, p.os_32, p.as_32, m.nnn);
    lemma_immediate_size_32(o.b1, o.map, p.os_32, p.as_32, m.nnn);
    lemma_fetch_immediate32_reads(w, w2, sp.1, size, o.b1, o.map, m.disp, n);
}

/// A decoded instruction is at least one byte long, lies within the first
/// 15 bytes of the buffer, and names an opcode.
pub proof fn lemma_fetch_decode32_length(bytes: Seq<u8>, is_32: bool)
    requires
        spec_fetch_decode32(bytes, is_32) is Ok,
    ensures
        1 <= spec_fetch_decode32(bytes, is_32)->Ok_0.ilen <= window_len(bytes.len()),
        spec_fetch_decode32(bytes, is_32)->Ok_0.opcode != Opcode::IaError,
{
    let w = bytes.take(window_len(bytes.len()) as int);
    lemma_decode32_reads(w, w, is_32, 0);
}

/// The registers of a decoded instruction are among the eight general
/// registers (its base may be Nil, 19, when there is none), its scale is
/// below 4, and its segment is one of ES..GS (0..=5).
pub proof fn lemma_fetch_decode32_fields(bytes: Seq<u8>, is_32: bool)
    requires
        spec_fetch_decode32(bytes, is_32) is Ok,
    ensures
        ({
            let d = spec_fetch_decode32(bytes, is_32)->Ok_0;
            &&& d.dst < 8 && d.src1 < 8
            &&& d.base < 8 || d.base == BX_NIL_REGISTER
            &&& d.index < 8 && d.scale < 4
            &&& d.seg <= 5
        }),
{
    let w = bytes.take(window_len(bytes.len()) as int);
    lemma_decode32_reads(w, w, is_32, 0);
}

/// Only the first 15 bytes of the buffer take part in decoding.
pub proof fn lemma_fetch_decode32_window(bytes: Seq<u8>, is_32: bool)
    ensures
        spec_fetch_decode32(bytes, is_32) == spec_fetch_decode32(
            bytes.take(window_len(bytes.len()) as int),
            is_32,
        ),
{
    let w = bytes.take(window_len(bytes.len()) as int);
    assert(w.take(window_len(w.len()) as int) =~= w);
}

/// Bytes that follow a decoded instruction do not change how it decodes.
pub proof fn lemma_fetch_decode32_extend(bytes: Seq<u8>, more: Seq<u8>, is_32: bool)
    requires
        spec_fetch_decode32(bytes, is_32) is Ok,
    ensures
        spec_fetch_decode32(bytes + more, is_32) == spec_fetch_decode32(bytes, is_32),
{
    let b2 = bytes + more;
    let w = bytes.take(window_len(bytes.len()) as int);
    let w2 = b2.take(window_len(b2.len()) as int);
    lemma_decode32_reads(w, w2, is_32, w.len() as int);
    assert(same_prefix(w, w2, w.len() as int)) by {
        assert forall|i: int| 0 <= i < w.len() implies #[trigger] w2[i] == w[i] by {
            assert(b2[i] == bytes[i]);
        }
    }
}

/// An instruction decodes from its own bytes, the first `ilen` of the
/// buffer, exactly as from the whole buffer.
pub proof fn lemma_fetch_decode32_own_bytes(bytes: Seq<u8>, is_32: bool)
    requires
        spec_fetch_decode32(bytes, is_32) is Ok,
    ensures
        spec_fetch_decode32(
            bytes.take(spec_fetch_decode32(bytes, is_32)->Ok_0.ilen as int),
            is_32,
        ) == spec_fetch_decode32(bytes, is_32),
{
    let ilen = spec_fetch_decode32(bytes, is_32)->Ok_0.ilen as int;
    let w = bytes.take(window_len(bytes.len()) as int);
    lemma_decode32_reads(w, w, is_32, 0);
    let b2 = bytes.take(ilen);
    let w2 = b2.take(window_len(b2.len()) as int);
    assert(w2 =~= b2);
    assert(same_prefix(w, w2, ilen));
    lemma_decode32_reads(w, w2, is_32, ilen);
}

/// No part of a decoded instruction shorter than the whole decodes: the
/// first `k` bytes, for every `k` below its length, give an error.
pub proof fn lemma_fetch_decode32_shorter_fails(bytes: Seq<u8>, is_32: bool, k: int)
    requires
        spec_fetch_decode32(bytes, is_32) is Ok,
        0 <= k < spec_fetch_decode32(bytes, is_32)->Ok_0.ilen,
    ensures
        spec_fetch_decode32(bytes.take(k), is_32) is Err,
{
    let w = bytes.take(window_len(bytes.len()) as int);
    lemma_decode32_reads(w, w, is_32, 0);
    if k > 0 {
        let wk = bytes.take(k);
        assert(wk.take(window_len(wk.len()) as int) =~= wk);
        if spec_decode32(wk, is_32) is Ok {
            lemma_decode32_reads(wk, wk, is_32, 0);
            assert(same_prefix(wk, w, spec_decode32(wk, is_32)->Ok_0.ilen as int));
            lemma_decode32_reads(wk, w, is_32, spec_decode32(wk, is_32)->Ok_0.ilen as int);
        }
    }
}

/// Decoding a window never reports an empty buffer.
proof fn lemma_decode32_never_underflow(w: Seq<u8>, is_32: bool)
    ensures
        spec_decode32(w, is_32) != Err::<DecodedInstr, DecodeError>(DecodeError::BufferUnderflow),
{
}

/// Decoding reports an empty buffer exactly when the buffer is empty.
pub proof fn lemma_fetch_decode32_underflow(bytes: Seq<u8>, is_32: bool)
    ensures
        (spec_fetch_decode32(bytes, is_32) == Err::<DecodedInstr, DecodeError>(DecodeError::BufferUnderflow)) <==> bytes.len()
            == 0,
{
    if bytes.len() > 0 {
        lemma_decode32_never_underflow(bytes.take(window_len(bytes.len()) as int), is_32);
    }
}

// ============================================================================
// What the prefixes select
// ============================================================================
/// The position of the first byte of `w` from `i` on that is not a legacy
/// prefix (or the end of `w`): where the opcode starts.
pub open spec fn prefix_end32(w: Seq<u8>, i: int) -> int
    decreases w.len() - i,
{
    if 0 <= i < w.len() && is_legacy_prefix32(w[i]) {
        prefix_end32(w, i + 1)
    } else {
        i
    }
}

/// Byte `b` occurs among the first `end` bytes of `w`.
pub open spec fn occurs_before(w: Seq<u8>, b: u8, end: int) -> bool {
    exists|j: int| 0 <= j < end && #[trigger] w[j] == b
}

/// The segment-override prefixes.
pub open spec fn is_segment_prefix(b: u8) -> bool {
    b == 0x26 || b == 0x2E || b == 0x36 || b == 0x3E || b == 0x64 || b == 0x65
}

/// No segment-override prefix occurs among the first `end` bytes of `w`.
pub open spec fn no_segment_prefix(w: Seq<u8>, end: int) -> bool {
    forall|j: int| 0 <= j < end ==> !is_segment_prefix(#[trigger] w[j])
}

/// What the prefix scan keeps track of, stated over the bytes read so far:
/// each `67` toggles the address size away from the mode's and each `66` the
/// operand size (however often they occur), and the segment override stays
/// unset while no segment prefix has occurred.
proof fn lemma_scan_prefixes32_select(w: Seq<u8>, is_32: bool, i: int, st: Prefixes32)
    requires
        0 <= i <= w.len(),
        w.len() <= 15,
        st.as_32 == (is_32 != occurs_before(w, 0x67, i)),
        st.os_32 == (is_32 != occurs_before(w, 0x66, i)),
        no_segment_prefix(w, i) ==> st.seg_override == 7,
    ensures
        ({
            let r = spec_scan_prefixes32(w, is_32, i, st);
            &&& r.pos == prefix_end32(w, i)
            &&& r.as_32 == (is_32 != occurs_before(w, 0x67, r.pos as int))
            &&& r.os_32 == (is_32 != occurs_before(w, 0x66, r.pos as int))
            &&& no_segment_prefix(w, r.pos as int) ==> r.seg_override == 7
        }),
    decreases w.len() - i,
{
    if i < w.len() && is_legacy_prefix32(w[i]) {
        let b = w[i];
        let next = spec_apply_prefix32(st, b, is_32);
        let st2 = Prefixes32 { pos: (i + 1) as usize, ..next };
        assert(occurs_before(w, 0x67, i + 1) == (occurs_before(w, 0x67, i) || b == 0x67)) by {
            if b == 0x67 {
                assert(w[i] == 0x67);
            }
            if occurs_before(w, 0x67, i + 1) && !occurs_before(w, 0x67, i) {
                let j = choose|j: int| 0 <= j < i + 1 && #[trigger] w[j] == 0x67;
                assert(j == i);
            }
        }
        assert(occurs_before(w, 0x66, i + 1) == (occurs_before(w, 0x66, i) || b == 0x66)) by {
            if b == 0x66 {
                assert(w[i] == 0x66);
            }
            if occurs_before(w, 0x66, i + 1) && !occurs_before(w, 0x66, i) {
                let j = choose|j: int| 0 <= j < i + 1 && #[trigger] w[j] == 0x66;
                assert(j == i);
            }
        }
        if no_segment_prefix(w, i + 1) {
            assert(!is_segment_prefix(w[i]));
            assert(no_segment_prefix(w, i));
        }
        lemma_scan_prefixes32_select(w, is_32, i + 1, st2);
    }
}

/// The flags word records the address size, the operand size and the
/// register form in bits 0, 2 and 4.
proof fn lemma_flags32_bits(a: bool, o: bool, c: bool, l: u8)
    by (bit_vector)
    requires
        l < 4,
    ensures
        ((((if a { 1u8 } else { 0u8 }) | (if o { 4u8 } else { 0u8 })) | (if c { 0x10u8 } else {
            0u8
        })) | (l << 6)) & 1u8 != 0 == a,
        ((((if a { 1u8 } else { 0u8 }) | (if o { 4u8 } else { 0u8 })) | (if c { 0x10u8 } else {
            0u8
        })) | (l << 6)) & 4u8 != 0 == o,
        ((((if a { 1u8 } else { 0u8 }) | (if o { 4u8 } else { 0u8 })) | (if c { 0x10u8 } else {
            0u8
        })) | (l << 6)) & 0x10u8 != 0 == c,
{
}

/// The prefix scan keeps the lock/rep field below 4.
proof fn lemma_scan_prefixes32_lock_rep(w: Seq<u8>, is_32: bool, i: int, st: Prefixes32)
    requires
        st.lock_rep < 4,
    ensures
        spec_scan_prefixes32(w, is_32, i, st).lock_rep < 4,
    decreases w.len() - i,
{
    if 0 <= i < w.len() && is_legacy_prefix32(w[i]) {
        let next = spec_apply_prefix32(st, w[i], is_32);
        lemma_scan_prefixes32_lock_rep(w, is_32, i + 1, Prefixes32 { pos: (i + 1) as usize, ..next });
    }
}

/// The size prefixes: a decoded instruction has 32-bit addressing exactly
/// when the mode is 32-bit and no `67` prefix occurs, or the mode is 16-bit
/// and one does; likewise the operand size with `66`. Several occurrences
/// count as one.
pub proof fn lemma_fetch_decode32_size_prefixes(bytes: Seq<u8>, is_32: bool)
    requires
        spec_fetch_decode32(bytes, is_32) is Ok,
    ensures
        ({
            let d = spec_fetch_decode32(bytes, is_32)->Ok_0;
            let pe = prefix_end32(bytes, 0);
            &&& pe < d.ilen
            &&& (d.flags & FLAG_AS32 != 0) == (is_32 != occurs_before(bytes, 0x67, pe))
            &&& (d.flags & FLAG_OS32 != 0) == (is_32 != occurs_before(bytes, 0x66, pe))
        }),
{
    lemma_prefixes_of_window32(bytes, is_32);
}

/// Without a segment-override prefix, a memory operand whose base is BP or
/// EBP, or with 32-bit addressing ESP, is in SS (2); every other operand is
/// in DS (3).
pub proof fn lemma_fetch_decode32_default_segment(bytes: Seq<u8>, is_32: bool)
    requires
        spec_fetch_decode32(bytes, is_32) is Ok,
        no_segment_prefix(bytes, prefix_end32(bytes, 0)),
    ensures
        ({
            let d = spec_fetch_decode32(bytes, is_32)->Ok_0;
            d.seg == if d.flags & FLAG_MODC0 == 0 && (d.base == 5 || (d.flags & FLAG_AS32 != 0
                && d.base == 4)) {
                2u8
            } else {
                3u8
            }
        }),
{
    lemma_prefixes_of_window32(bytes, is_32);
}

/// The prefix facts of a decoded instruction, read off its window.
#[verifier::spinoff_prover]
#[verifier::rlimit(50)]
proof fn lemma_prefixes_of_window32(bytes: Seq<u8>, is_32: bool)
    requires
        spec_fetch_decode32(bytes, is_32) is Ok,
    ensures
        ({
            let d = spec_fetch_decode32(bytes, is_32)->Ok_0;
            let pe = prefix_end32(bytes, 0);
            &&& pe < d.ilen
            &&& (d.flags & FLAG_AS32 != 0) == (is_32 != occurs_before(bytes, 0x67, pe))
            &&& (d.flags & FLAG_OS32 != 0) == (is_32 != occurs_before(bytes, 0x66, pe))
            &&& no_segment_prefix(bytes, pe) ==> d.seg == if d.flags & FLAG_MODC0 == 0 && (d.base
                == 5 || (d.flags & FLAG_AS32 != 0 && d.base == 4)) {
                2u8
            } else {
                3u8
            }
        }),
{
    let w = bytes.take(window_len(bytes.len()) as int);
    lemma_decode32_reads(w, w, is_32, 0);
    let st0 = initial_prefixes32(is_32);
    lemma_scan_prefixes32_select(w, is_32, 0, st0);
    lemma_scan_prefixes32_reads(w, w, is_32, 0, st0, 0);
    lemma_scan_prefixes32_lock_rep(w, is_32, 0, st0);
    let p = spec_scan_prefixes32(w, is_32, 0, st0);
    let o = spec_fetch_opcode32(w, p.pos)->Ok_0;
    lemma_fetch_opcode32_reads(w, w, p.pos, 0);
    let m = spec_decode_modrm32(w, o.pos, o.b1, o.map, p.as_32)->Ok_0;
    lemma_decode_modrm32_reads(w, w, o.pos, o.b1, o.map, p.as_32, 0);
    lemma_modrm32_default_segment(w, o.pos, o.b1, o.map, p.as_32);
    let d = spec_fetch_decode32(bytes, is_32)->Ok_0;
    lemma_flags32_bits(p.as_32, p.os_32, m.mod_field == 3, p.lock_rep);
    // the prefixes lie inside the window, where it agrees with the buffer
    lemma_prefix_end32_window(bytes, w, 0, p.pos as int);
    assert(occurs_before(bytes, 0x67, p.pos as int) == occurs_before(w, 0x67, p.pos as int)) by {
        if occurs_before(w, 0x67, p.pos as int) {
            let j = choose|j: int| 0 <= j < p.pos && #[trigger] w[j] == 0x67;
            assert(bytes[j] == 0x67);
        }
        if occurs_before(bytes, 0x67, p.pos as int) {
            let j = choose|j: int| 0 <= j < p.pos && #[trigger] bytes[j] == 0x67;
            assert(w[j] == 0x67);
        }
    }
    assert(occurs_before(bytes, 0x66, p.pos as int) == occurs_before(w, 0x66, p.pos as int)) by {
        if occurs_before(w, 0x66, p.pos as int) {
            let j = choose|j: int| 0 <= j < p.pos && #[trigger] w[j] == 0x66;
            assert(bytes[j] == 0x66);
        }
        if occurs_before(bytes, 0x66, p.pos as int) {
            let j = choose|j: int| 0 <= j < p.pos && #[trigger] bytes[j] == 0x66;
            assert(w[j] == 0x66);
        }
    }
    if no_segment_prefix(bytes, p.pos as int) {
        assert forall|j: int| 0 <= j < p.pos implies !is_segment_prefix(#[trigger] w[j]) by {
            assert(w[j] == bytes[j]);
        }
    }
}

/// The prefixes end at the same place in the buffer as in its window when
/// they end inside the window.
proof fn lemma_prefix_end32_window(bytes: Seq<u8>, w: Seq<u8>, i: int, e: int)
    requires
        0 <= i <= e < w.len(),
        w.len() <= bytes.len(),
        forall|j: int| 0 <= j < w.len() ==> #[trigger] w[j] == bytes[j],
        prefix_end32(w, i) == e,
    ensures
        prefix_end32(bytes, i) == e,
    decreases e - i,
{
    assert(w[i] == bytes[i]);
    if i < e {
        lemma_prefix_end32_window(bytes, w, i + 1, e);
    } else if is_legacy_prefix32(w[i]) {
        lemma_prefix_end32_after(w, i + 1);
    }
}

/// The prefixes end at or after the position the count starts from.
proof fn lemma_prefix_end32_after(w: Seq<u8>, i: int)
    requires
        0 <= i,
    ensures
        prefix_end32(w, i) >= i,
    decreases w.len() - i,
{
    if i < w.len() && is_legacy_prefix32(w[i]) {
        lemma_prefix_end32_after(w, i + 1);
    }
}

/// The low three bits of a register index: the index itself below 8, and
/// DS's code 3 for Nil (19).
proof fn lemma_low_three_bits(x: u8)
    by (bit_vector)
    ensures
        x < 8 ==> x & 7 == x,
        x == 19 ==> x & 7 == 3,
{
}

/// Without a segment override, the segment of a ModRM operand: SS for a
/// memory operand based on BP/EBP, or with 32-bit addressing ESP; DS
/// otherwise.
proof fn lemma_modrm32_default_segment(w: Seq<u8>, pos: usize, b1: u32, map: u8, as_32: bool)
    requires
        pos <= w.len() <= 15,
        spec_decode_modrm32(w, pos, b1, map, as_32) is Ok,
    ensures
        ({
            let m = spec_decode_modrm32(w, pos, b1, map, as_32)->Ok_0;
            spec_segment32(7, as_32, m) == if m.mod_field != 3 && (m.base == 5 || (as_32 && m.base
                == 4)) {
                2u8
            } else {
                3u8
            }
        }),
{
    lemma_decode_modrm32_reads(w, w, pos, b1, map, as_32, 0);
    if spec_opcode_needs_modrm_32(b1, map) {
        let modrm = w[pos as int];
        let mod_field = (modrm >> 6) & 0x3;
        let rm = (modrm & 0x7) as u32;
        let p = (pos + 1) as usize;
        if mod_field != 3 {
            if as_32 {
                let mb = spec_modrm_base32(w, p, mod_field, rm)->Ok_0;
                lemma_disp_by_mod_reads(w, w, mb, mod_field, true, 0);
                let m = spec_decode_modrm32(w, pos, b1, map, as_32)->Ok_0;
                assert(m.base == mb.base);
                assert(m.rm == rm && m.mod_field == mod_field);
                if rm == 4 {
                    let sib = w[p as int];
                    lemma_three_bit_fields(0, sib);
                    assert(mod_field == 0 ==> mb.base == 4 || mb.base == 19 || (mb.base < 8 && mb.base != 5));
                    assert(mb.base < 8 || mb.base == 19);
                    lemma_low_three_bits(mb.base);
                } else {
                    assert(rm < 8);
                    lemma_low_three_bits(rm as u8);
                }
            } else {
                let index = spec_resolve16_index_reg(rm);
                let mb = if mod_field == 0 && rm == 6 {
                    MemOperand {
                        base: BX_NIL_REGISTER,
                        index,
                        scale: 0,
                        disp: le16_at(w, p as int) as u32,
                        pos: (p + 2) as usize,
                    }
                } else {
                    MemOperand { base: spec_resolve16_base_reg(rm), index, scale: 0, disp: 0, pos: p }
                };
                lemma_disp_by_mod_reads(w, w, mb, mod_field, false, 0);
            }
        }
    }
}

/// The one-byte opcodes whose 8-bit immediate is a signed value: the short
/// conditional jumps (70..7F), LOOPNE/LOOPE/LOOP/JCXZ (E0..E3), the short
/// JMP (EB) and Group 1 with a byte immediate (83).
pub open spec fn signed_imm8_opcode32(op: u8) -> bool {
    (0x70 <= op && op <= 0x7F) || (0xE0 <= op && op <= 0xE3) || op == 0xEB || op == 0x83
}

/// The 32-bit value of a signed byte.
pub open spec fn signed_byte_value(b: u8) -> int {
    if b < 0x80 {
        b as int
    } else {
        b as int + 0xFFFF_FF00
    }
}

/// The 8-bit immediate of a short branch or of `83` is its last byte, sign
/// extended to 32 bits; a short branch is its opcode and that byte.
#[verifier::spinoff_prover]
#[verifier::rlimit(50)]
pub proof fn lemma_fetch_decode32_signed_imm8(bytes: Seq<u8>, is_32: bool)
    requires
        spec_fetch_decode32(bytes, is_32) is Ok,
        signed_imm8_opcode32(bytes[prefix_end32(bytes, 0)]),
    ensures
        ({
            let d = spec_fetch_decode32(bytes, is_32)->Ok_0;
            let pe = prefix_end32(bytes, 0);
            &&& d.id as int == signed_byte_value(bytes[d.ilen - 1])
            &&& bytes[pe] != 0x83 ==> d.ilen == pe + 2
        }),
{
    lemma_prefixes_of_window32(bytes, is_32);
    let w = bytes.take(window_len(bytes.len()) as int);
    let st0 = initial_prefixes32(is_32);
    lemma_scan_prefixes32_select(w, is_32, 0, st0);
    lemma_scan_prefixes32_reads(w, w, is_32, 0, st0, 0);
    let p = spec_scan_prefixes32(w, is_32, 0, st0);
    lemma_prefix_end32_window(bytes, w, 0, p.pos as int);
    lemma_decode32_reads(w, w, is_32, 0);
    let o = spec_fetch_opcode32(w, p.pos)->Ok_0;
    lemma_fetch_opcode32_reads(w, w, p.pos, 0);
    assert(w[p.pos as int] == bytes[p.pos as int]);
    let m = spec_decode_modrm32(w, o.pos, o.b1, o.map, p.as_32)->Ok_0;
    lemma_decode_modrm32_reads(w, w, o.pos, o.b1, o.map, p.as_32, 0);
    let size = spec_immediate_size_32(o.b1, o.map, p.os_32, p.as_32, m.nnn);
    assert(size == 1);
    let d = spec_fetch_decode32(bytes, is_32)->Ok_0;
    assert(w[d.ilen - 1] == bytes[d.ilen - 1]);
}

/// The registers of a ModRM memory operand with 32-bit addressing, read
/// from the ModRM byte at `pos` and the SIB byte after it.
proof fn lemma_modrm32_registers(w: Seq<u8>, pos: usize, b1: u32, map: u8)
    requires
        pos <= w.len() <= 15,
        spec_decode_modrm32(w, pos, b1, map, true) is Ok,
        spec_decode_modrm32(w, pos, b1, map, true)->Ok_0.mod_field != 3,
    ensures
        ({
            let m = spec_decode_modrm32(w, pos, b1, map, true)->Ok_0;
            let modrm = w[pos as int];
            &&& pos < w.len()
            &&& m.nnn as u8 == (modrm >> 3) & 7
            &&& m.rm as u8 == modrm & 7
            &&& m.mod_field == modrm >> 6
            &&& modrm & 7 == 4 ==> {
                let sib = w[pos + 1];
                &&& pos + 1 < w.len()
                &&& m.index == (sib >> 3) & 7
                &&& m.scale == sib >> 6
                &&& m.base == if modrm >> 6 == 0 && sib & 7 == 5 {
                    19
                } else {
                    sib & 7
                }
            }
            &&& modrm & 7 != 4 ==> m.base == if modrm >> 6 == 0 && modrm & 7 == 5 {
                19
            } else {
                modrm & 7
            }
        }),
{
    lemma_decode_modrm32_reads(w, w, pos, b1, map, true, 0);
    let modrm = w[pos as int];
    lemma_field_bits(modrm);
    let q = (pos + 1) as usize;
    let mod_field = (modrm >> 6) & 0x3;
    let rm = (modrm & 0x7) as u32;
    let mb = spec_modrm_base32(w, q, mod_field, rm)->Ok_0;
    lemma_disp_by_mod_reads(w, w, mb, mod_field, true, 0);
    if modrm & 7 == 4 {
        lemma_field_bits(w[q as int]);
    }
}

/// The fields of a ModRM or SIB byte.
proof fn lemma_field_bits(b: u8)
    by (bit_vector)
    ensures
        (b >> 6) & 0x3 == b >> 6,
        (b >> 3) & 0x7 < 8,
        b & 0x7 < 8,
        ((b >> 3) & 0x7) as u32 as u8 == (b >> 3) & 0x7,
        (b & 0x7) as u32 as u8 == b & 0x7,
{
}

/// The registers of a memory operand with 32-bit addressing. The ModRM byte
/// follows the opcode; its reg field names the register operand (the
/// destination or the source). With a SIB byte (rm = 4), the index is the
/// SIB index field, the scale the SIB scale field and the base the SIB base
/// field, or none (Nil, 19) for base 5 with mod = 0; without SIB, the base
/// is the rm field, or none for rm = 5 with mod = 0.
#[verifier::spinoff_prover]
#[verifier::rlimit(50)]
pub proof fn lemma_fetch_decode32_memory_operand(bytes: Seq<u8>, is_32: bool)
    requires
        spec_fetch_decode32(bytes, is_32) is Ok,
        spec_fetch_decode32(bytes, is_32)->Ok_0.flags & FLAG_MODC0 == 0,
        spec_fetch_decode32(bytes, is_32)->Ok_0.flags & FLAG_AS32 != 0,
    ensures
        ({
            let d = spec_fetch_decode32(bytes, is_32)->Ok_0;
            let pe = prefix_end32(bytes, 0);
            let mp = pe + opcode_len(bytes, pe);
            let modrm = bytes[mp];
            let reg = (modrm >> 3) & 7;
            &&& mp < d.ilen
            &&& d.dst == reg || d.src1 == reg
            &&& modrm & 7 == 4 ==> {
                let sib = bytes[mp + 1];
                &&& d.index == (sib >> 3) & 7
                &&& d.scale == sib >> 6
                &&& d.base == if modrm >> 6 == 0 && sib & 7 == 5 {
                    19
                } else {
                    sib & 7
                }
            }
            &&& modrm & 7 != 4 ==> d.base == if modrm >> 6 == 0 && modrm & 7 == 5 {
                19
            } else {
                modrm & 7
            }
        }),
{
    lemma_prefixes_of_window32(bytes, is_32);
    let w = bytes.take(window_len(bytes.len()) as int);
    let st0 = initial_prefixes32(is_32);
    lemma_scan_prefixes32_select(w, is_32, 0, st0);
    lemma_scan_prefixes32_reads(w, w, is_32, 0, st0, 0);
    lemma_scan_prefixes32_lock_rep(w, is_32, 0, st0);
    let p = spec_scan_prefixes32(w, is_32, 0, st0);
    lemma_prefix_end32_window(bytes, w, 0, p.pos as int);
    lemma_decode32_reads(w, w, is_32, 0);
    let o = spec_fetch_opcode32(w, p.pos)->Ok_0;
    lemma_fetch_opcode32_reads(w, w, p.pos, 0);
    assert(w[p.pos as int] == bytes[p.pos as int]);
    if w[p.pos as int] == 0x0F {
        assert(w[p.pos + 1] == bytes[p.pos + 1]);
    }
    let m = spec_decode_modrm32(w, o.pos, o.b1, o.map, p.as_32)->Ok_0;
    lemma_decode_modrm32_reads(w, w, o.pos, o.b1, o.map, p.as_32, 0);
    lemma_flags32_bits(p.as_32, p.os_32, m.mod_field == 3, p.lock_rep);
    assert(m.mod_field != 3);
    assert(p.as_32);
    assert(o.pos == p.pos + opcode_len(bytes, p.pos as int));
    lemma_modrm32_registers(w, o.pos, o.b1, o.map);
    assert(w[o.pos as int] == bytes[o.pos as int]);
    if w[o.pos as int] & 7 == 4 {
        assert(w[o.pos + 1] == bytes[o.pos + 1]);
    }
}

} // verus!
