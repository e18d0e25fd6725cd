//! What 64-bit decoding reads and what it produces.
//!
//! Each decoding step reads the window only below the position at which it
//! ends, so an instruction decodes the same from any buffer that holds the
//! same bytes up to its end: from a longer buffer, and from its own bytes;
//! and no shorter part of it decodes. The registers of a decoded
//! instruction are sixteen-register indices (or RIP or Nil for the base),
//! and its segment is DS, FS or GS.

use vstd::prelude::*;

use crate::decode_common::{
    lemma_disp_by_mod_reads, lemma_dnow_suffix_reads, lemma_fetch_escape_reads,
    lemma_le_words_same, lemma_three_bit_fields, same_prefix, spec_dnow_suffix, window_len,
    BX_NIL_REGISTER,
};
use crate::fetchdecode32::{spec_apply_prefix32, Prefixes32};
use crate::properties32::signed_byte_value;
use crate::fetchdecode64::{
    initial_prefixes64, is_prefix64_byte, os32_in_force, rex_extend, rex_w, spec_apply_prefix64,
    spec_decmask64, spec_decode64, spec_decode_modrm64, spec_fetch_decode64,
    spec_fetch_immediate64, spec_fetch_opcode64, spec_immediate_size_64, spec_lookup_opcode_64,
    spec_modrm_base64, spec_modrm_mem64, spec_opcode_needs_modrm_64, spec_scan_prefixes64,
    Prefixes64, BX_64BIT_REG_RIP,
};
use crate::error::DecodeError;
use crate::instr_generated::DecodedInstr;
use crate::instruction::{
    FLAG_AS32, FLAG_AS64, FLAG_EXTEND8BIT, FLAG_MODC0, FLAG_OS32, FLAG_OS64,
};
use crate::opcode::Opcode;
use crate::opmap_tables::spec_opcode_table_64;

verus! {

/// In 64-bit mode the tables name no opcode for `62`.
proof fn lemma_lookup64_62(decmask: u32)
    ensures
        spec_lookup_opcode_64(0x62, 0, decmask) == Opcode::IaError,
{
    reveal(spec_lookup_opcode_64);
    assert(spec_opcode_table_64(0x62).len() == 0);
}

/// The prefix scan ends within the window, at or after where it starts; it
/// reads the bytes up to and including the first that is not a prefix.
proof fn lemma_scan_prefixes64_reads(w: Seq<u8>, w2: Seq<u8>, i: int, st: Prefixes64, n: int)
    requires
        0 <= i <= w.len(),
        w.len() <= 15,
    ensures
        i <= spec_scan_prefixes64(w, i, st).pos <= w.len(),
        same_prefix(w, w2, n) && spec_scan_prefixes64(w, i, st).pos < n ==> spec_scan_prefixes64(
            w2,
            i,
            st,
        ) == spec_scan_prefixes64(w, i, st),
    decreases w.len() - i,
{
    if i < w.len() && is_prefix64_byte(w[i]) {
        let next = spec_apply_prefix64(st, w[i]);
        let st2 = Prefixes64 { pos: (i + 1) as usize, ..next };
        lemma_scan_prefixes64_reads(w, w2, i + 1, st2, n);
        if same_prefix(w, w2, n) && spec_scan_prefixes64(w, i, st).pos < n {
            assert(w2[i] == w[i]);
        }
    } else if same_prefix(w, w2, n) && spec_scan_prefixes64(w, i, st).pos < n {
        assert(w2[i] == w[i]);
    }
}

/// The opcode ends after `pos` and within the window. It reads its own
/// bytes, for `C4` and `C5` the byte after, which is their ModRM byte, and
/// for `62` the bytes that would make it an EVEX prefix.
proof fn lemma_fetch_opcode64_reads(w: Seq<u8>, w2: Seq<u8>, pos: usize, n: int)
    requires
        pos < w.len() <= 15,
        spec_fetch_opcode64(w, pos) is Ok,
    ensures
        pos < spec_fetch_opcode64(w, pos)->Ok_0.pos <= w.len(),
        spec_fetch_opcode64(w, pos)->Ok_0.map == 0 ==> spec_fetch_opcode64(w, pos)->Ok_0.b1
            == w[pos as int] as u32,
        ({
            let o = spec_fetch_opcode64(w, pos)->Ok_0;
            same_prefix(w, w2, n) && n >= o.pos && (spec_opcode_needs_modrm_64(o.b1, o.map)
                ==> n > o.pos) && (o.map == 0 ==> o.b1 != 0x62) ==> spec_fetch_opcode64(w2, pos)
                == spec_fetch_opcode64(w, pos)
        }),
{
    let b = w[pos as int];
    let p = (pos + 1) as usize;
    if b == 0x0F {
        lemma_fetch_escape_reads(w, w2, p, n);
    }
    let o = spec_fetch_opcode64(w, pos)->Ok_0;
    if same_prefix(w, w2, n) && n >= o.pos && (spec_opcode_needs_modrm_64(o.b1, o.map) ==> n
        > o.pos) && (o.map == 0 ==> o.b1 != 0x62) {
        assert(w2[pos as int] == w[pos as int]);
        if b == 0xC4 || b == 0xC5 {
            assert(spec_opcode_needs_modrm_64(o.b1, o.map));
            assert(w2[p as int] == w[p as int]);
        }
    }
}

/// A three-bit field extended by a REX bit is below 16.
proof fn lemma_rex_extend_range(v: u32, rex: u8, bit: u8)
    requires
        v < 8,
    ensures
        rex_extend(v, rex, bit) < 16,
{
    assert(v < 8 ==> (v | 8) < 16) by (bit_vector);
}

/// A 64-bit memory operand ends within the window and reads only bytes
/// before its end.
proof fn lemma_modrm_mem64_reads(
    w: Seq<u8>,
    w2: Seq<u8>,
    pos: usize,
    mod_field: u8,
    rm: u32,
    rex: u8,
    n: int,
)
    requires
        pos <= w.len() <= 15,
        spec_modrm_mem64(w, pos, mod_field, rm, rex) is Ok,
    ensures
        pos <= spec_modrm_mem64(w, pos, mod_field, rm, rex)->Ok_0.pos <= w.len(),
        ({
            let r = spec_modrm_mem64(w, pos, mod_field, rm, rex)->Ok_0;
            &&& r.base < 16 || r.base == BX_64BIT_REG_RIP || r.base == BX_NIL_REGISTER
            &&& r.index < 16 && r.scale < 4
        }),
        same_prefix(w, w2, n) && n >= spec_modrm_mem64(w, pos, mod_field, rm, rex)->Ok_0.pos
            ==> spec_modrm_mem64(w2, pos, mod_field, rm, rex) == spec_modrm_mem64(
            w,
            pos,
            mod_field,
            rm,
            rex,
        ),
{
    let m = spec_modrm_base64(w, pos, mod_field, rm, rex)->Ok_0;
    if (rm & 0x7) == 4 {
        let sib = w[pos as int];
        lemma_three_bit_fields(0, sib);
        lemma_rex_extend_range(((sib >> 3) & 0x7) as u32, rex, 0x02);
        lemma_rex_extend_range((sib & 0x7) as u32, rex, 0x01);
    }
    assert((rm & 0xF) < 16) by (bit_vector);
    lemma_disp_by_mod_reads(w, w2, m, mod_field, true, n);
    let r = spec_modrm_mem64(w, pos, mod_field, rm, rex)->Ok_0;
    if same_prefix(w, w2, n) && n >= r.pos {
        if (rm & 0x7) == 4 {
            assert(w2[pos as int] == w[pos as int]);
            lemma_le_words_same(w, w2, n, pos + 1);
        } else {
            lemma_le_words_same(w, w2, n, pos as int);
        }
    }
}

/// The ModRM part ends within the window, after `pos` when there is a ModRM
/// byte, and reads only bytes before its end.
proof fn lemma_decode_modrm64_reads(
    w: Seq<u8>,
    w2: Seq<u8>,
    pos: usize,
    b1: u32,
    map: u8,
    rex: u8,
    n: int,
)
    requires
        pos <= w.len() <= 15,
        spec_decode_modrm64(w, pos, b1, map, rex) is Ok,
    ensures
        ({
            let m = spec_decode_modrm64(w, pos, b1, map, rex)->Ok_0;
            &&& pos <= m.pos <= w.len()
            &&& m.needs_modrm == spec_opcode_needs_modrm_64(b1, map)
            &&& m.needs_modrm ==> pos < m.pos
            &&& m.nnn < 16 && m.rm < 16
            &&& m.base < 16 || m.base == BX_64BIT_REG_RIP || m.base == BX_NIL_REGISTER
            &&& m.index < 16 && m.scale < 4
            &&& same_prefix(w, w2, n) && n >= m.pos ==> spec_decode_modrm64(w2, pos, b1, map, rex)
                == spec_decode_modrm64(w, pos, b1, map, rex)
        }),
{
    lemma_three_bit_fields(b1, 0);
    lemma_rex_extend_range(b1 & 0x7, rex, 0x01);
    if spec_opcode_needs_modrm_64(b1, map) {
        let modrm = w[pos as int];
        lemma_three_bit_fields(0, modrm);
        lemma_rex_extend_range(((modrm >> 3) & 0x7) as u32, rex, 0x04);
        lemma_rex_extend_range((modrm & 0x7) as u32, rex, 0x01);
        let mod_field = (modrm >> 6) & 0x3;
        let rm = rex_extend((modrm & 0x7) as u32, rex, 0x01);
        let p = (pos + 1) as usize;
        if mod_field != 3 {
            lemma_modrm_mem64_reads(w, w2, p, mod_field, rm, rex, n);
        }
        let m = spec_decode_modrm64(w, pos, b1, map, rex)->Ok_0;
        if same_prefix(w, w2, n) && n >= m.pos {
            assert(w2[pos as int] == w[pos as int]);
        }
    }
}

/// The immediate sizes of 64-bit mode.
proof fn lemma_immediate_size_64(b1: u32, map: u8, os32: bool, os64: bool, as64: bool, nnn: u32)
    ensures
        ({
            let size = spec_immediate_size_64(b1, map, os32, os64, as64, nnn);
            size == 0 || size == 1 || size == 2 || size == 3 || size == 4 || size == 8
        }),
{
}

/// The immediate ends `size` bytes after `pos`, within the window, and reads
/// only those bytes.
proof fn lemma_fetch_immediate64_reads(
    w: Seq<u8>,
    w2: Seq<u8>,
    pos: usize,
    size: u8,
    b1: u32,
    map: u8,
    disp: u32,
    n: int,
)
    requires
        pos <= w.len() <= 15,
        size == 0 || size == 1 || size == 2 || size == 3 || size == 4 || size == 8,
        spec_fetch_immediate64(w, pos, size, b1, map, disp) is Ok,
    ensures
        spec_fetch_immediate64(w, pos, size, b1, map, disp)->Ok_0.pos == pos + size,
        pos + size <= w.len(),
        same_prefix(w, w2, n) && n >= pos + size ==> spec_fetch_immediate64(
            w2,
            pos,
            size,
            b1,
            map,
            disp,
        ) == spec_fetch_immediate64(w, pos, size, b1, map, disp),
{
    if same_prefix(w, w2, n) && n >= pos + size {
        lemma_le_words_same(w, w2, n, pos as int);
        lemma_le_words_same(w, w2, n, pos + 4);
        if size == 1 || size == 3 {
            assert(w2[pos as int] == w[pos as int]);
            assert(size == 3 ==> w2[pos + 2] == w[pos + 2]);
        }
    }
}

/// The prefix scan leaves no segment override (7), FS (4) or GS (5).
proof fn lemma_scan_prefixes64_segment(w: Seq<u8>, i: int, st: Prefixes64)
    requires
        st.seg_override == 4 || st.seg_override == 5 || st.seg_override == 7,
    ensures
        ({
            let r = spec_scan_prefixes64(w, i, st);
            r.seg_override == 4 || r.seg_override == 5 || r.seg_override == 7
        }),
    decreases w.len() - i,
{
    if 0 <= i < w.len() && is_prefix64_byte(w[i]) {
        let next = spec_apply_prefix64(st, w[i]);
        lemma_scan_prefixes64_segment(w, i + 1, Prefixes64 { pos: (i + 1) as usize, ..next });
    }
}

/// A window that decodes gives an instruction of at least one byte that ends
/// within it, whose registers are among the sixteen (the base may be RIP or
/// Nil) and whose segment is DS, FS or GS; and every window with the same
/// bytes up to the instruction's end decodes the same.
pub proof fn lemma_decode64_reads(w: Seq<u8>, w2: Seq<u8>, n: int)
    requires
        w.len() <= 15,
        spec_decode64(w) is Ok,
    ensures
        ({
            let d = spec_decode64(w)->Ok_0;
            &&& 1 <= d.ilen <= w.len()
            &&& d.dst < 16 && d.src1 < 16
            &&& d.base < 16 || d.base == BX_64BIT_REG_RIP || d.base == BX_NIL_REGISTER
            &&& d.index < 16 && d.scale < 4
            &&& d.seg == 3 || d.seg == 4 || d.seg == 5
            &&& same_prefix(w, w2, n) && n >= d.ilen ==> spec_decode64(w2) == spec_decode64(w)
        }),
{
    let st0 = initial_prefixes64();
    let p = spec_scan_prefixes64(w, 0, st0);
    lemma_scan_prefixes64_reads(w, w2, 0, st0, n);
    lemma_scan_prefixes64_segment(w, 0, st0);
    let o = spec_fetch_opcode64(w, p.pos)->Ok_0;
    lemma_fetch_opcode64_reads(w, w2, p.pos, n);
    let m = spec_decode_modrm64(w, o.pos, o.b1, o.map, p.rex)->Ok_0;
    lemma_decode_modrm64_reads(w, w2, o.pos, o.b1, o.map, p.rex, n);
    let sp = spec_dnow_suffix(w, m.pos, o.map)->Ok_0;
    lemma_dnow_suffix_reads(w, w2, m.pos, o.map, n);
    let size = spec_immediate_size_64(o.b1, o.map, os32_in_force(p), rex_w(p), p.as64, m.nnn);
    lemma_immediate_size_64(o.b1, o.map, os32_in_force(p), rex_w(p), p.as64, m.nnn);
    lemma_fetch_immediate64_reads(w, w2, sp.1, size, o.b1, o.map, m.disp, n);
    lemma_lookup64_62(spec_decmask64(p, m));
    assert(o.map == 0 ==> o.b1 != 0x62);
}

/// A decoded instruction is at least one byte long, lies within the first
/// 15 bytes of the buffer, and names an opcode.
pub proof fn lemma_fetch_decode64_length(bytes: Seq<u8>)
    requires
        spec_fetch_decode64(bytes) is Ok,
    ensures
        1 <= spec_fetch_decode64(bytes)->Ok_0.ilen <= window_len(bytes.len()),
        spec_fetch_decode64(bytes)->Ok_0.opcode != Opcode::IaError,
{
    let w = bytes.take(window_len(bytes.len()) as int);
    lemma_decode64_reads(w, w, 0);
}

/// A flags word built on the 32-bit address flag keeps it.
proof fn lemma_as32_kept(a: u8, b: u8, c: u8, d: u8, e: u8, f: u8)
    by (bit_vector)
    ensures
        ((((((0x01u8 | a) | b) | c) | d) | e) | f) & 0x01u8 != 0,
{
}

/// The registers of a decoded instruction are among the sixteen general
/// registers (its base may be RIP, 16, or Nil, 19), its scale is below 4,
/// its segment is DS, FS or GS (3, 4, 5), and its 32-bit address flag is
/// set.
pub proof fn lemma_fetch_decode64_fields(bytes: Seq<u8>)
    requires
        spec_fetch_decode64(bytes) is Ok,
    ensures
        spec_fetch_decode64(bytes)->Ok_0.flags & FLAG_AS32 != 0,
        ({
            let d = spec_fetch_decode64(bytes)->Ok_0;
            &&& d.dst < 16 && d.src1 < 16
            &&& d.base < 16 || d.base == BX_64BIT_REG_RIP || d.base == BX_NIL_REGISTER
            &&& d.index < 16 && d.scale < 4
            &&& d.seg == 3 || d.seg == 4 || d.seg == 5
        }),
{
    let w = bytes.take(window_len(bytes.len()) as int);
    lemma_decode64_reads(w, w, 0);
    let p = spec_scan_prefixes64(w, 0, initial_prefixes64());
    let o = spec_fetch_opcode64(w, p.pos)->Ok_0;
    let m = spec_decode_modrm64(w, o.pos, o.b1, o.map, p.rex)->Ok_0;
    lemma_as32_kept(
        if p.as64 { FLAG_AS64 } else { 0 },
        if os32_in_force(p) { FLAG_OS32 } else { 0 },
        if rex_w(p) { FLAG_OS64 } else { 0 },
        if p.rex != 0 { FLAG_EXTEND8BIT } else { 0 },
        if m.mod_field == 3 { FLAG_MODC0 } else { 0 },
        p.lock_rep << 6,
    );
}

/// Only the first 15 bytes of the buffer take part in decoding.
pub proof fn lemma_fetch_decode64_window(bytes: Seq<u8>)
    ensures
        spec_fetch_decode64(bytes) == spec_fetch_decode64(
            bytes.take(window_len(bytes.len()) as int),
        ),
{
    let w = bytes.take(window_len(bytes.len()) as int);
    assert(w.take(window_len(w.len()) as int) =~= w);
}

/// Bytes that follow a decoded instruction do not change how it decodes.
pub proof fn lemma_fetch_decode64_extend(bytes: Seq<u8>, more: Seq<u8>)
    requires
        spec_fetch_decode64(bytes) is Ok,
    ensures
        spec_fetch_decode64(bytes + more) == spec_fetch_decode64(bytes),
{
    let b2 = bytes + more;
    let w = bytes.take(window_len(bytes.len()) as int);
    let w2 = b2.take(window_len(b2.len()) as int);
    lemma_decode64_reads(w, w2, w.len() as int);
    assert(same_prefix(w, w2, w.len() as int)) by {
        assert forall|i: int| 0 <= i < w.len() implies #[trigger] w2[i] == w[i] by {
            assert(b2[i] == bytes[i]);
        }
    }
}

/// An instruction decodes from its own bytes, the first `ilen` of the
/// buffer, exactly as from the whole buffer.
pub proof fn lemma_fetch_decode64_own_bytes(bytes: Seq<u8>)
    requires
        spec_fetch_decode64(bytes) is Ok,
    ensures
        spec_fetch_decode64(bytes.take(spec_fetch_decode64(bytes)->Ok_0.ilen as int))
            == spec_fetch_decode64(bytes),
{
    let ilen = spec_fetch_decode64(bytes)->Ok_0.ilen as int;
    let w = bytes.take(window_len(bytes.len()) as int);
    lemma_decode64_reads(w, w, 0);
    let b2 = bytes.take(ilen);
    let w2 = b2.take(window_len(b2.len()) as int);
    assert(w2 =~= b2);
    assert(same_prefix(w, w2, ilen));
    lemma_decode64_reads(w, w2, ilen);
}

/// No part of a decoded instruction shorter than the whole decodes: the
/// first `k` bytes, for every `k` below its length, give an error.
pub proof fn lemma_fetch_decode64_shorter_fails(bytes: Seq<u8>, k: int)
    requires
        spec_fetch_decode64(bytes) is Ok,
        0 <= k < spec_fetch_decode64(bytes)->Ok_0.ilen,
    ensures
        spec_fetch_decode64(bytes.take(k)) is Err,
{
    let w = bytes.take(window_len(bytes.len()) as int);
    lemma_decode64_reads(w, w, 0);
    if k > 0 {
        let wk = bytes.take(k);
        assert(wk.take(window_len(wk.len()) as int) =~= wk);
        if spec_decode64(wk) is Ok {
            lemma_decode64_reads(wk, wk, 0);
            assert(same_prefix(wk, w, spec_decode64(wk)->Ok_0.ilen as int));
            lemma_decode64_reads(wk, w, spec_decode64(wk)->Ok_0.ilen as int);
        }
    }
}

/// Decoding a window never reports an empty buffer.
proof fn lemma_decode64_never_underflow(w: Seq<u8>)
    ensures
        spec_decode64(w) != Err::<DecodedInstr, DecodeError>(DecodeError::BufferUnderflow),
{
}

/// Decoding reports an empty buffer exactly when the buffer is empty.
pub proof fn lemma_fetch_decode64_underflow(bytes: Seq<u8>)
    ensures
        (spec_fetch_decode64(bytes) == Err::<DecodedInstr, DecodeError>(DecodeError::BufferUnderflow)) <==> bytes.len()
            == 0,
{
    if bytes.len() > 0 {
        lemma_decode64_never_underflow(bytes.take(window_len(bytes.len()) as int));
    }
}

// ============================================================================
// What the prefixes select
// ============================================================================
/// The position of the first byte of `w` from `i` on that is not a legacy or
/// REX prefix (or the end of `w`): where the opcode starts.
pub open spec fn prefix_end64(w: Seq<u8>, i: int) -> int
    decreases w.len() - i,
{
    if 0 <= i < w.len() && is_prefix64_byte(w[i]) {
        prefix_end64(w, i + 1)
    } else {
        i
    }
}

/// The REX prefixes 0x40..=0x4F.
pub open spec fn is_rex(b: u8) -> bool {
    0x40 <= b <= 0x4F
}

/// The REX prefix in force before position `i`: the byte just before `i`
/// if it is a REX prefix, none (0) otherwise; a legacy prefix after a REX
/// prefix cancels it.
pub open spec fn rex_before(w: Seq<u8>, i: int) -> u8 {
    if i > 0 && is_rex(w[i - 1]) {
        w[i - 1]
    } else {
        0
    }
}

/// Neither FS (`64`) nor GS (`65`) occurs among the first `end` bytes.
pub open spec fn no_fs_gs_prefix(w: Seq<u8>, end: int) -> bool {
    forall|j: int| 0 <= j < end ==> #[trigger] w[j] != 0x64 && w[j] != 0x65
}

/// What the prefix scan keeps track of, stated over the bytes read so far:
/// the REX prefix in force is the one just before, and without FS or GS
/// there is no segment override.
proof fn lemma_scan_prefixes64_select(w: Seq<u8>, i: int, st: Prefixes64)
    requires
        0 <= i <= w.len(),
        w.len() <= 15,
        st.rex == rex_before(w, i),
        no_fs_gs_prefix(w, i) ==> st.seg_override == 7,
    ensures
        ({
            let r = spec_scan_prefixes64(w, i, st);
            &&& r.pos == prefix_end64(w, i)
            &&& r.rex == rex_before(w, r.pos as int)
            &&& no_fs_gs_prefix(w, r.pos as int) ==> r.seg_override == 7
        }),
    decreases w.len() - i,
{
    if i < w.len() && is_prefix64_byte(w[i]) {
        let next = spec_apply_prefix64(st, w[i]);
        let st2 = Prefixes64 { pos: (i + 1) as usize, ..next };
        if no_fs_gs_prefix(w, i + 1) {
            assert(w[i] != 0x64 && w[i] != 0x65);
            assert(no_fs_gs_prefix(w, i));
        }
        lemma_scan_prefixes64_select(w, i + 1, st2);
    }
}

/// The prefixes end at or after the position the count starts from.
proof fn lemma_prefix_end64_after(w: Seq<u8>, i: int)
    requires
        0 <= i,
    ensures
        prefix_end64(w, i) >= i,
    decreases w.len() - i,
{
    if i < w.len() && is_prefix64_byte(w[i]) {
        lemma_prefix_end64_after(w, i + 1);
    }
}

/// The prefixes end at the same place in the buffer as in its window when
/// they end inside the window.
proof fn lemma_prefix_end64_window(bytes: Seq<u8>, w: Seq<u8>, i: int, e: int)
    requires
        0 <= i <= e < w.len(),
        w.len() <= bytes.len(),
        forall|j: int| 0 <= j < w.len() ==> #[trigger] w[j] == bytes[j],
        prefix_end64(w, i) == e,
    ensures
        prefix_end64(bytes, i) == e,
    decreases e - i,
{
    assert(w[i] == bytes[i]);
    if i < e {
        lemma_prefix_end64_window(bytes, w, i + 1, e);
    } else if is_prefix64_byte(w[i]) {
        lemma_prefix_end64_after(w, i + 1);
    }
}

/// The flags word of 64-bit mode records REX.W in bit 3 and the presence of
/// a REX prefix in bit 5.
proof fn lemma_flags64_bits(a: bool, o: bool, rw: bool, x: bool, c: bool, l: u8)
    by (bit_vector)
    requires
        l < 4,
    ensures
        ((((((0x01u8 | (if a { 2u8 } else { 0u8 })) | (if o { 4u8 } else { 0u8 })) | (if rw {
            8u8
        } else {
            0u8
        })) | (if x { 0x20u8 } else { 0u8 })) | (if c { 0x10u8 } else { 0u8 })) | (l << 6)) & 8u8
            != 0 == rw,
        ((((((0x01u8 | (if a { 2u8 } else { 0u8 })) | (if o { 4u8 } else { 0u8 })) | (if rw {
            8u8
        } else {
            0u8
        })) | (if x { 0x20u8 } else { 0u8 })) | (if c { 0x10u8 } else { 0u8 })) | (l << 6))
            & 0x20u8 != 0 == x,
        ((((((0x01u8 | (if a { 2u8 } else { 0u8 })) | (if o { 4u8 } else { 0u8 })) | (if rw {
            8u8
        } else {
            0u8
        })) | (if x { 0x20u8 } else { 0u8 })) | (if c { 0x10u8 } else { 0u8 })) | (l << 6))
            & 0x10u8 != 0 == c,
{
}

/// The prefix scan keeps the lock/rep field below 4.
proof fn lemma_scan_prefixes64_lock_rep(w: Seq<u8>, i: int, st: Prefixes64)
    requires
        st.lock_rep < 4,
    ensures
        spec_scan_prefixes64(w, i, st).lock_rep < 4,
    decreases w.len() - i,
{
    if 0 <= i < w.len() && is_prefix64_byte(w[i]) {
        let next = spec_apply_prefix64(st, w[i]);
        lemma_scan_prefixes64_lock_rep(w, i + 1, Prefixes64 { pos: (i + 1) as usize, ..next });
    }
}

/// The REX prefix of a decoded instruction is the byte just before its
/// opcode, when that byte is one: a legacy prefix after a REX prefix cancels
/// it. Its presence sets the extend8bit flag and its W bit the 64-bit
/// operand size; without FS or GS prefix the segment is DS (the CS, DS, ES
/// and SS overrides are ignored).
pub proof fn lemma_fetch_decode64_rex(bytes: Seq<u8>)
    requires
        spec_fetch_decode64(bytes) is Ok,
    ensures
        ({
            let d = spec_fetch_decode64(bytes)->Ok_0;
            let pe = prefix_end64(bytes, 0);
            let rex = rex_before(bytes, pe);
            &&& pe < d.ilen
            &&& (d.flags & FLAG_EXTEND8BIT != 0) == (rex != 0)
            &&& (d.flags & FLAG_OS64 != 0) == (rex != 0 && rex & 0x08 != 0)
            &&& no_fs_gs_prefix(bytes, pe) ==> d.seg == 3
        }),
{
    let w = bytes.take(window_len(bytes.len()) as int);
    lemma_decode64_reads(w, w, 0);
    let st0 = initial_prefixes64();
    lemma_scan_prefixes64_select(w, 0, st0);
    lemma_scan_prefixes64_reads(w, w, 0, st0, 0);
    lemma_scan_prefixes64_lock_rep(w, 0, st0);
    let p = spec_scan_prefixes64(w, 0, st0);
    let o = spec_fetch_opcode64(w, p.pos)->Ok_0;
    lemma_fetch_opcode64_reads(w, w, p.pos, 0);
    let m = spec_decode_modrm64(w, o.pos, o.b1, o.map, p.rex)->Ok_0;
    lemma_decode_modrm64_reads(w, w, o.pos, o.b1, o.map, p.rex, 0);
    lemma_flags64_bits(
        p.as64,
        os32_in_force(p),
        rex_w(p),
        p.rex != 0,
        m.mod_field == 3,
        p.lock_rep,
    );
    lemma_prefix_end64_window(bytes, w, 0, p.pos as int);
    if p.pos > 0 {
        assert(w[p.pos - 1] == bytes[p.pos - 1]);
    }
    if no_fs_gs_prefix(bytes, p.pos as int) {
        assert forall|j: int| 0 <= j < p.pos implies #[trigger] w[j] != 0x64 && w[j] != 0x65 by {
            assert(w[j] == bytes[j]);
        }
    }
}

/// The opcode-table column (the SSE prefix) that each prefix selects. `66`
/// selects column 1 in both modes. In 64-bit mode `F3` selects column 2 and
/// `F2` column 3, the tables' own numbering; in 16/32-bit mode `F2` selects
/// column 2 and `F3` column 3, so there the two select each other's column.
pub proof fn lemma_sse_prefix_columns(st32: Prefixes32, is_32: bool, st64: Prefixes64)
    requires
        st32.sse_prefix == 0,
        st64.sse_prefix == 0,
    ensures
        spec_apply_prefix32(st32, 0x66, is_32).sse_prefix == 1,
        spec_apply_prefix64(st64, 0x66).sse_prefix == 1,
        spec_apply_prefix64(st64, 0xF3).sse_prefix == 2,
        spec_apply_prefix64(st64, 0xF2).sse_prefix == 3,
        spec_apply_prefix32(st32, 0xF2, is_32).sse_prefix == 2,
        spec_apply_prefix32(st32, 0xF3, is_32).sse_prefix == 3,
{
}

// ============================================================================
// What the ModRM and SIB bytes select
// ============================================================================
/// The length of the opcode that starts at `pe`: 1 for a one-byte opcode, 2
/// after the `0F` escape (3DNow!'s `0F 0F` included), 3 after `0F 38` or
/// `0F 3A`. The ModRM byte, if any, follows it.
pub open spec fn opcode_len(w: Seq<u8>, pe: int) -> int {
    if w[pe] == 0x0F {
        if w[pe + 1] == 0x38 || w[pe + 1] == 0x3A {
            3
        } else {
            2
        }
    } else {
        1
    }
}

/// The fourth bit of a register number that a REX bit supplies: 8 when
/// `bit` is set in `rex`, 0 otherwise.
pub open spec fn rex_bit(rex: u8, bit: u8) -> u8 {
    if rex & bit != 0 {
        8
    } else {
        0
    }
}

/// A three-bit field extended by a REX bit is the field with the REX bit as
/// its fourth bit, and keeps its low three bits.
proof fn lemma_rex_extend_bits(v: u8, rex: u8, bit: u8)
    by (bit_vector)
    requires
        v < 8,
    ensures
        (if rex & bit != 0 { (v as u32) | 8 } else { v as u32 }) as u8 == v | (if rex & bit != 0 {
            8u8
        } else {
            0u8
        }),
        (if rex & bit != 0 { (v as u32) | 8 } else { v as u32 }) & 7 == v as u32,
        ((if rex & bit != 0 { (v as u32) | 8 } else { v as u32 }) & 0xF) as u8 == v | (if rex
            & bit != 0 {
            8u8
        } else {
            0u8
        }),
{
}

/// The fields of a ModRM or SIB byte.
proof fn lemma_byte_fields(b: u8)
    by (bit_vector)
    ensures
        (b >> 6) & 0x3 == b >> 6,
        (b >> 3) & 0x7 < 8,
        b & 0x7 < 8,
{
}

/// The registers of a ModRM memory operand in 64-bit mode, read from the
/// ModRM byte at `pos` and the SIB byte after it.
proof fn lemma_modrm64_registers(w: Seq<u8>, pos: usize, b1: u32, map: u8, rex: u8)
    requires
        pos <= w.len() <= 15,
        spec_decode_modrm64(w, pos, b1, map, rex) is Ok,
        spec_decode_modrm64(w, pos, b1, map, rex)->Ok_0.mod_field != 3,
    ensures
        ({
            let m = spec_decode_modrm64(w, pos, b1, map, rex)->Ok_0;
            let modrm = w[pos as int];
            &&& pos < w.len()
            &&& m.nnn as u8 == ((modrm >> 3) & 7) | rex_bit(rex, 4)
            &&& m.rm as u8 == (modrm & 7) | rex_bit(rex, 1)
            &&& m.mod_field == modrm >> 6
            &&& modrm & 7 == 4 ==> {
                let sib = w[pos + 1];
                &&& pos + 1 < w.len()
                &&& m.index == ((sib >> 3) & 7) | rex_bit(rex, 2)
                &&& m.scale == sib >> 6
                &&& m.base == if modrm >> 6 == 0 && sib & 7 == 5 {
                    19
                } else {
                    (sib & 7) | rex_bit(rex, 1)
                }
            }
            &&& modrm & 7 != 4 ==> m.base == if modrm >> 6 == 0 && modrm & 7 == 5 {
                16
            } else {
                (modrm & 7) | rex_bit(rex, 1)
            }
        }),
{
    lemma_decode_modrm64_reads(w, w, pos, b1, map, rex, 0);
    let modrm = w[pos as int];
    lemma_byte_fields(modrm);
    lemma_rex_extend_bits((modrm >> 3) & 7, rex, 0x04);
    lemma_rex_extend_bits(modrm & 7, rex, 0x01);
    let q = (pos + 1) as usize;
    let mod_field = (modrm >> 6) & 0x3;
    let rm = rex_extend((modrm & 0x7) as u32, rex, 0x01);
    let mb = spec_modrm_base64(w, q, mod_field, rm, rex)->Ok_0;
    lemma_disp_by_mod_reads(w, w, mb, mod_field, true, 0);
    if modrm & 7 == 4 {
        let sib = w[q as int];
        lemma_byte_fields(sib);
        lemma_rex_extend_bits((sib >> 3) & 7, rex, 0x02);
        lemma_rex_extend_bits(sib & 7, rex, 0x01);
    }
}

/// The registers of a memory operand in 64-bit mode. The ModRM byte follows
/// the opcode; its reg field, with REX.R as fourth bit, names the register
/// operand (the destination or the source). With a SIB byte (rm = 4), the
/// index is the SIB index field with REX.X as fourth bit, the scale the SIB
/// scale field, and the base the SIB base field with REX.B as fourth bit,
/// or none (Nil, 19) for base 5 with mod = 0; without SIB, the base is the
/// rm field with REX.B as fourth bit, or RIP (16) for rm = 5 with mod = 0.
pub proof fn lemma_fetch_decode64_memory_operand(bytes: Seq<u8>)
    requires
        spec_fetch_decode64(bytes) is Ok,
        spec_fetch_decode64(bytes)->Ok_0.flags & FLAG_MODC0 == 0,
    ensures
        ({
            let d = spec_fetch_decode64(bytes)->Ok_0;
            let pe = prefix_end64(bytes, 0);
            let mp = pe + opcode_len(bytes, pe);
            let modrm = bytes[mp];
            let rex = rex_before(bytes, pe);
            let reg = ((modrm >> 3) & 7) | rex_bit(rex, 4);
            &&& mp < d.ilen
            &&& d.dst == reg || d.src1 == reg
            &&& modrm & 7 == 4 ==> {
                let sib = bytes[mp + 1];
                &&& d.index == ((sib >> 3) & 7) | rex_bit(rex, 2)
                &&& d.scale == sib >> 6
                &&& d.base == if modrm >> 6 == 0 && sib & 7 == 5 {
                    19
                } else {
                    (sib & 7) | rex_bit(rex, 1)
                }
            }
            &&& modrm & 7 != 4 ==> d.base == if modrm >> 6 == 0 && modrm & 7 == 5 {
                16
            } else {
                (modrm & 7) | rex_bit(rex, 1)
            }
        }),
{
    let w = bytes.take(window_len(bytes.len()) as int);
    lemma_decode64_reads(w, w, 0);
    let st0 = initial_prefixes64();
    lemma_scan_prefixes64_select(w, 0, st0);
    lemma_scan_prefixes64_reads(w, w, 0, st0, 0);
    lemma_scan_prefixes64_lock_rep(w, 0, st0);
    let p = spec_scan_prefixes64(w, 0, st0);
    lemma_prefix_end64_window(bytes, w, 0, p.pos as int);
    if p.pos > 0 {
        assert(w[p.pos - 1] == bytes[p.pos - 1]);
    }
    let o = spec_fetch_opcode64(w, p.pos)->Ok_0;
    lemma_fetch_opcode64_reads(w, w, p.pos, 0);
    assert(w[p.pos as int] == bytes[p.pos as int]);
    if w[p.pos as int] == 0x0F {
        assert(w[p.pos + 1] == bytes[p.pos + 1]);
    }
    let m = spec_decode_modrm64(w, o.pos, o.b1, o.map, p.rex)->Ok_0;
    lemma_decode_modrm64_reads(w, w, o.pos, o.b1, o.map, p.rex, 0);
    lemma_flags64_bits(
        p.as64,
        os32_in_force(p),
        rex_w(p),
        p.rex != 0,
        m.mod_field == 3,
        p.lock_rep,
    );
    assert(m.mod_field != 3);
    assert(o.pos == p.pos + opcode_len(bytes, p.pos as int));
    lemma_modrm64_registers(w, o.pos, o.b1, o.map, p.rex);
    assert(w[o.pos as int] == bytes[o.pos as int]);
    if w[o.pos as int] & 7 == 4 {
        assert(w[o.pos + 1] == bytes[o.pos + 1]);
    }
}

/// The one-byte opcodes whose 8-bit immediate is a signed value in 64-bit
/// mode: the short conditional jumps (70..7F), LOOPNE/LOOPE/LOOP/JRCXZ
/// (E0..E3), the short JMP (EB), Group 1 with a byte immediate (83), PUSH
/// imm8 (6A) and IMUL with a byte immediate (6B).
pub open spec fn signed_imm8_opcode64(op: u8) -> bool {
    (0x70 <= op && op <= 0x7F) || (0xE0 <= op && op <= 0xE3) || op == 0xEB || op == 0x83 || op
        == 0x6A || op == 0x6B
}

/// The 8-bit immediate of these opcodes is the instruction's last byte, sign
/// extended to 32 bits; a short branch is its prefixes, its opcode and that
/// byte.
pub proof fn lemma_fetch_decode64_signed_imm8(bytes: Seq<u8>)
    requires
        spec_fetch_decode64(bytes) is Ok,
        signed_imm8_opcode64(bytes[prefix_end64(bytes, 0)]),
    ensures
        ({
            let d = spec_fetch_decode64(bytes)->Ok_0;
            let pe = prefix_end64(bytes, 0);
            let op = bytes[pe];
            &&& d.id as int == signed_byte_value(bytes[d.ilen - 1])
            &&& (0x70 <= op && op <= 0x7F) || (0xE0 <= op && op <= 0xE3) || op == 0xEB
                ==> d.ilen == pe + 2
        }),
{
    let w = bytes.take(window_len(bytes.len()) as int);
    lemma_decode64_reads(w, w, 0);
    let st0 = initial_prefixes64();
    lemma_scan_prefixes64_select(w, 0, st0);
    lemma_scan_prefixes64_reads(w, w, 0, st0, 0);
    let p = spec_scan_prefixes64(w, 0, st0);
    lemma_prefix_end64_window(bytes, w, 0, p.pos as int);
    let o = spec_fetch_opcode64(w, p.pos)->Ok_0;
    lemma_fetch_opcode64_reads(w, w, p.pos, 0);
    assert(w[p.pos as int] == bytes[p.pos as int]);
    let m = spec_decode_modrm64(w, o.pos, o.b1, o.map, p.rex)->Ok_0;
    lemma_decode_modrm64_reads(w, w, o.pos, o.b1, o.map, p.rex, 0);
    let size = spec_immediate_size_64(o.b1, o.map, os32_in_force(p), rex_w(p), p.as64, m.nnn);
    assert(size == 1);
    let d = spec_fetch_decode64(bytes)->Ok_0;
    assert(w[d.ilen - 1] == bytes[d.ilen - 1]);
}

} // verus!
