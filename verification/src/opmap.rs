//! Opcode table entries and the table search.
//!
//! A table entry carries a 48-bit attribute word in the Bochs layout: the
//! low 24 bits are a mask of the decoding-mask bits that the entry cares
//! about, the next 24 bits the value those bits must have. The decoding mask
//! of an instruction packs:
//!
//! ```text
//!  23..22 operand size (os64, os32)     21..20 address size (as64, as32)
//!  19..18 SSE prefix (0 none, 1 66, 2 F3, 3 F2)
//!  16     ModRM mod == 3                15     64-bit mode
//!   7     ModRM reg == rm               6..4   ModRM rm     2..0  ModRM reg
//! ```

use vstd::prelude::*;

use crate::opcode::Opcode;

verus! {

pub const OS32_OFFSET: u64 = 22;

pub const AS32_OFFSET: u64 = 20;

pub const SSE_PREFIX_OFFSET: u64 = 18;

pub const MODC0_OFFSET: u64 = 16;

pub const IS64_OFFSET: u64 = 15;

pub const SRC_EQ_DST_OFFSET: u64 = 7;

pub const RRR_OFFSET: u64 = 4;

pub const NNN_OFFSET: u64 = 0;

/// Operand size 64 (REX.W).
pub const ATTR_OS64: u64 = (3 << (OS32_OFFSET + 24)) | (3 << OS32_OFFSET);

/// Operand size 32.
pub const ATTR_OS32: u64 = (1 << (OS32_OFFSET + 24)) | (3 << OS32_OFFSET);

/// Operand size 16.
pub const ATTR_OS16: u64 = (0 << (OS32_OFFSET + 24)) | (3 << OS32_OFFSET);

/// Address size 64.
pub const ATTR_AS64: u64 = (3 << (AS32_OFFSET + 24)) | (3 << AS32_OFFSET);

/// Address size 32.
pub const ATTR_AS32: u64 = (1 << (AS32_OFFSET + 24)) | (3 << AS32_OFFSET);

/// Address size 16.
pub const ATTR_AS16: u64 = (0 << (AS32_OFFSET + 24)) | (3 << AS32_OFFSET);

/// Not in 64-bit mode.
pub const ATTR_IS32: u64 = (0 << (IS64_OFFSET + 24)) | (1 << IS64_OFFSET);

/// In 64-bit mode.
pub const ATTR_IS64: u64 = (1 << (IS64_OFFSET + 24)) | (1 << IS64_OFFSET);

/// No SSE prefix.
pub const ATTR_SSE_NO_PREFIX: u64 = (0 << (SSE_PREFIX_OFFSET + 24)) | (3 << SSE_PREFIX_OFFSET);

/// SSE prefix 66.
pub const ATTR_SSE_PREFIX_66: u64 = (1 << (SSE_PREFIX_OFFSET + 24)) | (3 << SSE_PREFIX_OFFSET);

/// SSE prefix F3.
pub const ATTR_SSE_PREFIX_F3: u64 = (2 << (SSE_PREFIX_OFFSET + 24)) | (3 << SSE_PREFIX_OFFSET);

/// SSE prefix F2.
pub const ATTR_SSE_PREFIX_F2: u64 = (3 << (SSE_PREFIX_OFFSET + 24)) | (3 << SSE_PREFIX_OFFSET);

/// Register form (ModRM mod == 3).
pub const ATTR_MODC0: u64 = (1 << (MODC0_OFFSET + 24)) | (1 << MODC0_OFFSET);

/// Memory form (ModRM mod != 3).
pub const ATTR_MOD_MEM: u64 = (0 << (MODC0_OFFSET + 24)) | (1 << MODC0_OFFSET);

/// ModRM reg equals ModRM rm.
pub const ATTR_SRC_EQ_DST: u64 = (1 << (SRC_EQ_DST_OFFSET + 24)) | (1 << SRC_EQ_DST_OFFSET);

pub const ATTR_NNN0: u64 = (0 << (NNN_OFFSET + 24)) | (7 << NNN_OFFSET);

pub const ATTR_NNN1: u64 = (1 << (NNN_OFFSET + 24)) | (7 << NNN_OFFSET);

pub const ATTR_NNN2: u64 = (2 << (NNN_OFFSET + 24)) | (7 << NNN_OFFSET);

pub const ATTR_NNN3: u64 = (3 << (NNN_OFFSET + 24)) | (7 << NNN_OFFSET);

pub const ATTR_NNN4: u64 = (4 << (NNN_OFFSET + 24)) | (7 << NNN_OFFSET);

pub const ATTR_NNN5: u64 = (5 << (NNN_OFFSET + 24)) | (7 << NNN_OFFSET);

pub const ATTR_NNN6: u64 = (6 << (NNN_OFFSET + 24)) | (7 << NNN_OFFSET);

pub const ATTR_NNN7: u64 = (7 << (NNN_OFFSET + 24)) | (7 << NNN_OFFSET);

pub const ATTR_RRR0: u64 = (0 << (RRR_OFFSET + 24)) | (7 << RRR_OFFSET);

pub const ATTR_RRR1: u64 = (1 << (RRR_OFFSET + 24)) | (7 << RRR_OFFSET);

pub const ATTR_RRR2: u64 = (2 << (RRR_OFFSET + 24)) | (7 << RRR_OFFSET);

pub const ATTR_RRR3: u64 = (3 << (RRR_OFFSET + 24)) | (7 << RRR_OFFSET);

/// One entry of an opcode table.
#[derive(Clone, Copy, PartialEq, Eq, Structural, Debug)]
pub struct OpcodeEntry {
    /// Attribute mask (bits 23..0) and required attribute values (bits 47..24).
    pub attr: u64,
    /// The opcode that this entry decodes to.
    pub opcode: Opcode,
    /// The last entry of its table: the search stops after it.
    pub last: bool,
}

/// An entry that the search may pass over.
pub open spec fn form_opcode(attr: u64, opcode: Opcode) -> OpcodeEntry {
    OpcodeEntry { attr, opcode, last: false }
}

/// The entry that ends a table.
pub open spec fn last_opcode(attr: u64, opcode: Opcode) -> OpcodeEntry {
    OpcodeEntry { attr, opcode, last: true }
}

/// Build an entry that the search may pass over.
pub fn entry(attr: u64, opcode: Opcode) -> (e: OpcodeEntry)
    ensures
        e == form_opcode(attr, opcode),
{
    OpcodeEntry { attr, opcode, last: false }
}

/// Build the entry that ends a table.
pub fn last_entry(attr: u64, opcode: Opcode) -> (e: OpcodeEntry)
    ensures
        e == last_opcode(attr, opcode),
{
    OpcodeEntry { attr, opcode, last: true }
}

/// The bits of the decoding mask that an entry looks at.
pub open spec fn entry_ignmsk(e: OpcodeEntry) -> u32 {
    (e.attr & 0xFFFFFF) as u32
}

/// The values that an entry requires of those bits.
pub open spec fn entry_opmsk(e: OpcodeEntry) -> u32 {
    (e.attr >> 24) as u32
}

/// The entry accepts the decoding mask: on every bit that the entry looks at,
/// the mask has the value that the entry requires.
pub open spec fn entry_matches(e: OpcodeEntry, decmask: u32) -> bool {
    (entry_opmsk(e) & entry_ignmsk(e)) == (decmask & entry_ignmsk(e))
}

/// The opcode of the first entry that accepts `decmask`, searching no
/// further than the first entry marked last; `IaError` when there is none.
pub open spec fn spec_find_opcode(table: Seq<OpcodeEntry>, decmask: u32) -> Opcode
    decreases table.len(),
{
    if table.len() == 0 {
        Opcode::IaError
    } else if entry_matches(table[0], decmask) {
        table[0].opcode
    } else if table[0].last {
        Opcode::IaError
    } else {
        spec_find_opcode(table.drop_first(), decmask)
    }
}

/// Search opcode table for matching opcode
pub fn find_opcode_in_table(table: &[OpcodeEntry], decmask: u32) -> (r: Opcode)
    ensures
        r == spec_find_opcode(table@, decmask),
{
    let mut i: usize = 0;
    assert(table@.skip(0) =~= table@);
    while i < table.len()
        invariant
            0 <= i <= table@.len(),
            spec_find_opcode(table@.skip(i as int), decmask) == spec_find_opcode(table@, decmask),
        decreases table@.len() - i,
    {
        let entry = table[i];
        assert(table@.skip(i as int)[0] == entry);
        assert(table@.skip(i as int).drop_first() =~= table@.skip(i + 1));
        let ignmsk = (entry.attr & 0xFFFFFF) as u32;
        let opmsk = (entry.attr >> 24) as u32;
        if (opmsk & ignmsk) == (decmask & ignmsk) {
            return entry.opcode;
        }
        // The search ends with the entry marked last.
        if entry.last {
            return Opcode::IaError;
        }
        i += 1;
    }
    assert(table@.skip(i as int).len() == 0);
    Opcode::IaError
}

} // verus!
