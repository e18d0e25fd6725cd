//! Opcode lookup tables, one per opcode byte (or byte range), in the
//! layout of the Bochs `fetchdecode_opmap*` tables: each entry names the
//! decoding attributes it requires and the opcode it decodes to, and the
//! first entry whose attributes match the decoding mask wins.
//!
//! Each table is stated as a spec function and built by an executable
//! function whose contract is that spec function.

use vstd::prelude::*;

use crate::opcode::Opcode;
use crate::opmap::{
    entry, form_opcode, last_entry, last_opcode, OpcodeEntry, ATTR_AS16, ATTR_AS32, ATTR_AS64, ATTR_IS32,
    ATTR_IS64, ATTR_MODC0, ATTR_MOD_MEM, ATTR_NNN0, ATTR_NNN1, ATTR_NNN2, ATTR_NNN3, ATTR_NNN4,
    ATTR_NNN5, ATTR_NNN6, ATTR_NNN7, ATTR_OS16, ATTR_OS32, ATTR_OS64, ATTR_RRR0, ATTR_RRR1,
    ATTR_RRR2, ATTR_RRR3, ATTR_SRC_EQ_DST, ATTR_SSE_NO_PREFIX, ATTR_SSE_PREFIX_66,
    ATTR_SSE_PREFIX_F2, ATTR_SSE_PREFIX_F3,
};

verus! {

/// `BxOpcodeTable00`
pub open spec fn spec_table_00() -> Seq<OpcodeEntry> {
    seq![
        last_opcode(0, Opcode::AddEbGb),
    ]
}

fn table_00() -> (t: Vec<OpcodeEntry>)
    ensures
        t@ == spec_table_00(),
{
    vec![
        last_entry(0, Opcode::AddEbGb),
    ]
}

/// `BxOpcodeTable01`
pub open spec fn spec_table_01() -> Seq<OpcodeEntry> {
    seq![
        form_opcode(ATTR_OS64, Opcode::AddEqGq),
        form_opcode(ATTR_OS32, Opcode::AddEdGd),
        last_opcode(ATTR_OS16, Opcode::AddEwGw),
    ]
}

fn table_01() -> (t: Vec<OpcodeEntry>)
    ensures
        t@ == spec_table_01(),
{
    vec![
        entry(ATTR_OS64, Opcode::AddEqGq),
        entry(ATTR_OS32, Opcode::AddEdGd),
        last_entry(ATTR_OS16, Opcode::AddEwGw),
    ]
}

/// `BxOpcodeTable02`
pub open spec fn spec_table_02() -> Seq<OpcodeEntry> {
    seq![
        last_opcode(0, Opcode::AddGbEb),
    ]
}

fn table_02() -> (t: Vec<OpcodeEntry>)
    ensures
        t@ == spec_table_02(),
{
    vec![
        last_entry(0, Opcode::AddGbEb),
    ]
}

/// `BxOpcodeTable03`
pub open spec fn spec_table_03() -> Seq<OpcodeEntry> {
    seq![
        form_opcode(ATTR_OS64, Opcode::AddGqEq),
        form_opcode(ATTR_OS32, Opcode::AddGdEd),
        last_opcode(ATTR_OS16, Opcode::AddGwEw),
    ]
}

fn table_03() -> (t: Vec<OpcodeEntry>)
    ensures
        t@ == spec_table_03(),
{
    vec![
        entry(ATTR_OS64, Opcode::AddGqEq),
        entry(ATTR_OS32, Opcode::AddGdEd),
        last_entry(ATTR_OS16, Opcode::AddGwEw),
    ]
}

/// `BxOpcodeTable04`
pub open spec fn spec_table_04() -> Seq<OpcodeEntry> {
    seq![
        last_opcode(0, Opcode::AddAlib),
    ]
}

fn table_04() -> (t: Vec<OpcodeEntry>)
    ensures
        t@ == spec_table_04(),
{
    vec![
        last_entry(0, Opcode::AddAlib),
    ]
}

/// `BxOpcodeTable05`
pub open spec fn spec_table_05() -> Seq<OpcodeEntry> {
    seq![
        form_opcode(ATTR_OS64, Opcode::AddRaxid),
        form_opcode(ATTR_OS32, Opcode::AddEaxid),
        last_opcode(ATTR_OS16, Opcode::AddAxiw),
    ]
}

fn table_05() -> (t: Vec<OpcodeEntry>)
    ensures
        t@ == spec_table_05(),
{
    vec![
        entry(ATTR_OS64, Opcode::AddRaxid),
        entry(ATTR_OS32, Opcode::AddEaxid),
        last_entry(ATTR_OS16, Opcode::AddAxiw),
    ]
}

/// `BxOpcodeTable06`
pub open spec fn spec_table_06() -> Seq<OpcodeEntry> {
    seq![
        form_opcode(ATTR_IS32 | ATTR_OS32, Opcode::PushOp32Sw),
        last_opcode(ATTR_IS32 | ATTR_OS16, Opcode::PushOp16Sw),
    ]
}

fn table_06() -> (t: Vec<OpcodeEntry>)
    ensures
        t@ == spec_table_06(),
{
    vec![
        entry(ATTR_IS32 | ATTR_OS32, Opcode::PushOp32Sw),
        last_entry(ATTR_IS32 | ATTR_OS16, Opcode::PushOp16Sw),
    ]
}

/// `BxOpcodeTable07`
pub open spec fn spec_table_07() -> Seq<OpcodeEntry> {
    seq![
        form_opcode(ATTR_IS32 | ATTR_OS32, Opcode::PopOp32Sw),
        last_opcode(ATTR_IS32 | ATTR_OS16, Opcode::PopOp16Sw),
    ]
}

fn table_07() -> (t: Vec<OpcodeEntry>)
    ensures
        t@ == spec_table_07(),
{
    vec![
        entry(ATTR_IS32 | ATTR_OS32, Opcode::PopOp32Sw),
        last_entry(ATTR_IS32 | ATTR_OS16, Opcode::PopOp16Sw),
    ]
}

/// `BxOpcodeTable08`
pub open spec fn spec_table_08() -> Seq<OpcodeEntry> {
    seq![
        last_opcode(0, Opcode::OrEbGb),
    ]
}

fn table_08() -> (t: Vec<OpcodeEntry>)
    ensures
        t@ == spec_table_08(),
{
    vec![
        last_entry(0, Opcode::OrEbGb),
    ]
}

/// `BxOpcodeTable09`
pub open spec fn spec_table_09() -> Seq<OpcodeEntry> {
    seq![
        form_opcode(ATTR_OS64, Opcode::OrEqGq),
        form_opcode(ATTR_OS32, Opcode::OrEdGd),
        last_opcode(ATTR_OS16, Opcode::OrEwGw),
    ]
}

fn table_09() -> (t: Vec<OpcodeEntry>)
    ensures
        t@ == spec_table_09(),
{
    vec![
        entry(ATTR_OS64, Opcode::OrEqGq),
        entry(ATTR_OS32, Opcode::OrEdGd),
        last_entry(ATTR_OS16, Opcode::OrEwGw),
    ]
}

/// `BxOpcodeTable0A`
pub open spec fn spec_table_0a() -> Seq<OpcodeEntry> {
    seq![
        last_opcode(0, Opcode::OrGbEb),
    ]
}

fn table_0a() -> (t: Vec<OpcodeEntry>)
    ensures
        t@ == spec_table_0a(),
{
    vec![
        last_entry(0, Opcode::OrGbEb),
    ]
}

/// `BxOpcodeTable0B`
pub open spec fn spec_table_0b() -> Seq<OpcodeEntry> {
    seq![
        form_opcode(ATTR_OS64, Opcode::OrGqEq),
        form_opcode(ATTR_OS32, Opcode::OrGdEd),
        last_opcode(ATTR_OS16, Opcode::OrGwEw),
    ]
}

fn table_0b() -> (t: Vec<OpcodeEntry>)
    ensures
        t@ == spec_table_0b(),
{
    vec![
        entry(ATTR_OS64, Opcode::OrGqEq),
        entry(ATTR_OS32, Opcode::OrGdEd),
        last_entry(ATTR_OS16, Opcode::OrGwEw),
    ]
}

/// `BxOpcodeTable0C`
pub open spec fn spec_table_0c() -> Seq<OpcodeEntry> {
    seq![
        last_opcode(0, Opcode::OrAlib),
    ]
}

fn table_0c() -> (t: Vec<OpcodeEntry>)
    ensures
        t@ == spec_table_0c(),
{
    vec![
        last_entry(0, Opcode::OrAlib),
    ]
}

/// `BxOpcodeTable0D`
pub open spec fn spec_table_0d() -> Seq<OpcodeEntry> {
    seq![
        form_opcode(ATTR_OS64, Opcode::OrRaxid),
        form_opcode(ATTR_OS32, Opcode::OrEaxid),
        last_opcode(ATTR_OS16, Opcode::OrAxiw),
    ]
}

fn table_0d() -> (t: Vec<OpcodeEntry>)
    ensures
        t@ == spec_table_0d(),
{
    vec![
        entry(ATTR_OS64, Opcode::OrRaxid),
        entry(ATTR_OS32, Opcode::OrEaxid),
        last_entry(ATTR_OS16, Opcode::OrAxiw),
    ]
}

/// `BxOpcodeTable0E`
pub open spec fn spec_table_0e() -> Seq<OpcodeEntry> {
    seq![
        form_opcode(ATTR_IS32 | ATTR_OS32, Opcode::PushOp32Sw),
        last_opcode(ATTR_IS32 | ATTR_OS16, Opcode::PushOp16Sw),
    ]
}

fn table_0e() -> (t: Vec<OpcodeEntry>)
    ensures
        t@ == spec_table_0e(),
{
    vec![
        entry(ATTR_IS32 | ATTR_OS32, Opcode::PushOp32Sw),
        last_entry(ATTR_IS32 | ATTR_OS16, Opcode::PushOp16Sw),
    ]
}

/// `BxOpcodeTable10`
pub open spec fn spec_table_10() -> Seq<OpcodeEntry> {
    seq![
        last_opcode(0, Opcode::AdcEbGb),
    ]
}

fn table_10() -> (t: Vec<OpcodeEntry>)
    ensures
        t@ == spec_table_10(),
{
    vec![
        last_entry(0, Opcode::AdcEbGb),
    ]
}

/// `BxOpcodeTable11`
pub open spec fn spec_table_11() -> Seq<OpcodeEntry> {
    seq![
        form_opcode(ATTR_OS64, Opcode::AdcEqGq),
        form_opcode(ATTR_OS32, Opcode::AdcEdGd),
        last_opcode(ATTR_OS16, Opcode::AdcEwGw),
    ]
}

fn table_11() -> (t: Vec<OpcodeEntry>)
    ensures
        t@ == spec_table_11(),
{
    vec![
        entry(ATTR_OS64, Opcode::AdcEqGq),
        entry(ATTR_OS32, Opcode::AdcEdGd),
        last_entry(ATTR_OS16, Opcode::AdcEwGw),
    ]
}

/// `BxOpcodeTable12`
pub open spec fn spec_table_12() -> Seq<OpcodeEntry> {
    seq![
        last_opcode(0, Opcode::AdcGbEb),
    ]
}

fn table_12() -> (t: Vec<OpcodeEntry>)
    ensures
        t@ == spec_table_12(),
{
    vec![
        last_entry(0, Opcode::AdcGbEb),
    ]
}

/// `BxOpcodeTable13`
pub open spec fn spec_table_13() -> Seq<OpcodeEntry> {
    seq![
        form_opcode(ATTR_OS64, Opcode::AdcGqEq),
        form_opcode(ATTR_OS32, Opcode::AdcGdEd),
        last_opcode(ATTR_OS16, Opcode::AdcGwEw),
    ]
}

fn table_13() -> (t: Vec<OpcodeEntry>)
    ensures
        t@ == spec_table_13(),
{
    vec![
        entry(ATTR_OS64, Opcode::AdcGqEq),
        entry(ATTR_OS32, Opcode::AdcGdEd),
        last_entry(ATTR_OS16, Opcode::AdcGwEw),
    ]
}

/// `BxOpcodeTable14`
pub open spec fn spec_table_14() -> Seq<OpcodeEntry> {
    seq![
        last_opcode(0, Opcode::AdcAlib),
    ]
}

fn table_14() -> (t: Vec<OpcodeEntry>)
    ensures
        t@ == spec_table_14(),
{
    vec![
        last_entry(0, Opcode::AdcAlib),
    ]
}

/// `BxOpcodeTable15`
pub open spec fn spec_table_15() -> Seq<OpcodeEntry> {
    seq![
        form_opcode(ATTR_OS64, Opcode::AdcRaxid),
        form_opcode(ATTR_OS32, Opcode::AdcEaxid),
        last_opcode(ATTR_OS16, Opcode::AdcAxiw),
    ]
}

fn table_15() -> (t: Vec<OpcodeEntry>)
    ensures
        t@ == spec_table_15(),
{
    vec![
        entry(ATTR_OS64, Opcode::AdcRaxid),
        entry(ATTR_OS32, Opcode::AdcEaxid),
        last_entry(ATTR_OS16, Opcode::AdcAxiw),
    ]
}

/// `BxOpcodeTable16`
pub open spec fn spec_table_16() -> Seq<OpcodeEntry> {
    seq![
        form_opcode(ATTR_IS32 | ATTR_OS32, Opcode::PushOp32Sw),
        last_opcode(ATTR_IS32 | ATTR_OS16, Opcode::PushOp16Sw),
    ]
}

fn table_16() -> (t: Vec<OpcodeEntry>)
    ensures
        t@ == spec_table_16(),
{
    vec![
        entry(ATTR_IS32 | ATTR_OS32, Opcode::PushOp32Sw),
        last_entry(ATTR_IS32 | ATTR_OS16, Opcode::PushOp16Sw),
    ]
}

/// `BxOpcodeTable17`
pub open spec fn spec_table_17() -> Seq<OpcodeEntry> {
    seq![
        form_opcode(ATTR_IS32 | ATTR_OS32, Opcode::PopOp32Sw),
        last_opcode(ATTR_IS32 | ATTR_OS16, Opcode::PopOp16Sw),
    ]
}

fn table_17() -> (t: Vec<OpcodeEntry>)
    ensures
        t@ == spec_table_17(),
{
    vec![
        entry(ATTR_IS32 | ATTR_OS32, Opcode::PopOp32Sw),
        last_entry(ATTR_IS32 | ATTR_OS16, Opcode::PopOp16Sw),
    ]
}

/// `BxOpcodeTable18`
pub open spec fn spec_table_18() -> Seq<OpcodeEntry> {
    seq![
        last_opcode(0, Opcode::SbbEbGb),
    ]
}

fn table_18() -> (t: Vec<OpcodeEntry>)
    ensures
        t@ == spec_table_18(),
{
    vec![
        last_entry(0, Opcode::SbbEbGb),
    ]
}

/// `BxOpcodeTable19`
pub open spec fn spec_table_19() -> Seq<OpcodeEntry> {
    seq![
        form_opcode(ATTR_OS64, Opcode::SbbEqGq),
        form_opcode(ATTR_OS32, Opcode::SbbEdGd),
        last_opcode(ATTR_OS16, Opcode::SbbEwGw),
    ]
}

fn table_19() -> (t: Vec<OpcodeEntry>)
    ensures
        t@ == spec_table_19(),
{
    vec![
        entry(ATTR_OS64, Opcode::SbbEqGq),
        entry(ATTR_OS32, Opcode::SbbEdGd),
        last_entry(ATTR_OS16, Opcode::SbbEwGw),
    ]
}

/// `BxOpcodeTable1A`
pub open spec fn spec_table_1a() -> Seq<OpcodeEntry> {
    seq![
        last_opcode(0, Opcode::SbbGbEb),
    ]
}

fn table_1a() -> (t: Vec<OpcodeEntry>)
    ensures
        t@ == spec_table_1a(),
{
    vec![
        last_entry(0, Opcode::SbbGbEb),
    ]
}

/// `BxOpcodeTable1B`
pub open spec fn spec_table_1b() -> Seq<OpcodeEntry> {
    seq![
        form_opcode(ATTR_OS64, Opcode::SbbGqEq),
        form_opcode(ATTR_OS32, Opcode::SbbGdEd),
        last_opcode(ATTR_OS16, Opcode::SbbGwEw),
    ]
}

fn table_1b() -> (t: Vec<OpcodeEntry>)
    ensures
        t@ == spec_table_1b(),
{
    vec![
        entry(ATTR_OS64, Opcode::SbbGqEq),
        entry(ATTR_OS32, Opcode::SbbGdEd),
        last_entry(ATTR_OS16, Opcode::SbbGwEw),
    ]
}

/// `BxOpcodeTable1C`
pub open spec fn spec_table_1c() -> Seq<OpcodeEntry> {
    seq![
        last_opcode(0, Opcode::SbbAlib),
    ]
}

fn table_1c() -> (t: Vec<OpcodeEntry>)
    ensures
        t@ == spec_table_1c(),
{
    vec![
        last_entry(0, Opcode::SbbAlib),
    ]
}

/// `BxOpcodeTable1D`
pub open spec fn spec_table_1d() -> Seq<OpcodeEntry> {
    seq![
        form_opcode(ATTR_OS64, Opcode::SbbRaxid),
        form_opcode(ATTR_OS32, Opcode::SbbEaxid),
        last_opcode(ATTR_OS16, Opcode::SbbAxiw),
    ]
}

fn table_1d() -> (t: Vec<OpcodeEntry>)
    ensures
        t@ == spec_table_1d(),
{
    vec![
        entry(ATTR_OS64, Opcode::SbbRaxid),
        entry(ATTR_OS32, Opcode::SbbEaxid),
        last_entry(ATTR_OS16, Opcode::SbbAxiw),
    ]
}

/// `BxOpcodeTable1E`
pub open spec fn spec_table_1e() -> Seq<OpcodeEntry> {
    seq![
        form_opcode(ATTR_IS32 | ATTR_OS32, Opcode::PushOp32Sw),
        last_opcode(ATTR_IS32 | ATTR_OS16, Opcode::PushOp16Sw),
    ]
}

fn table_1e() -> (t: Vec<OpcodeEntry>)
    ensures
        t@ == spec_table_1e(),
{
    vec![
        entry(ATTR_IS32 | ATTR_OS32, Opcode::PushOp32Sw),
        last_entry(ATTR_IS32 | ATTR_OS16, Opcode::PushOp16Sw),
    ]
}

/// `BxOpcodeTable1F`
pub open spec fn spec_table_1f() -> Seq<OpcodeEntry> {
    seq![
        form_opcode(ATTR_IS32 | ATTR_OS32, Opcode::PopOp32Sw),
        last_opcode(ATTR_IS32 | ATTR_OS16, Opcode::PopOp16Sw),
    ]
}

fn table_1f() -> (t: Vec<OpcodeEntry>)
    ensures
        t@ == spec_table_1f(),
{
    vec![
        entry(ATTR_IS32 | ATTR_OS32, Opcode::PopOp32Sw),
        last_entry(ATTR_IS32 | ATTR_OS16, Opcode::PopOp16Sw),
    ]
}

/// `BxOpcodeTable20`
pub open spec fn spec_table_20() -> Seq<OpcodeEntry> {
    seq![
        last_opcode(0, Opcode::AndEbGb),
    ]
}

fn table_20() -> (t: Vec<OpcodeEntry>)
    ensures
        t@ == spec_table_20(),
{
    vec![
        last_entry(0, Opcode::AndEbGb),
    ]
}

/// `BxOpcodeTable21`
pub open spec fn spec_table_21() -> Seq<OpcodeEntry> {
    seq![
        form_opcode(ATTR_OS64, Opcode::AndEqGq),
        form_opcode(ATTR_OS32, Opcode::AndEdGd),
        last_opcode(ATTR_OS16, Opcode::AndEwGw),
    ]
}

fn table_21() -> (t: Vec<OpcodeEntry>)
    ensures
        t@ == spec_table_21(),
{
    vec![
        entry(ATTR_OS64, Opcode::AndEqGq),
        entry(ATTR_OS32, Opcode::AndEdGd),
        last_entry(ATTR_OS16, Opcode::AndEwGw),
    ]
}

/// `BxOpcodeTable22`
pub open spec fn spec_table_22() -> Seq<OpcodeEntry> {
    seq![
        last_opcode(0, Opcode::AndGbEb),
    ]
}

fn table_22() -> (t: Vec<OpcodeEntry>)
    ensures
        t@ == spec_table_22(),
{
    vec![
        last_entry(0, Opcode::AndGbEb),
    ]
}

/// `BxOpcodeTable23`
pub open spec fn spec_table_23() -> Seq<OpcodeEntry> {
    seq![
        form_opcode(ATTR_OS64, Opcode::AndGqEq),
        form_opcode(ATTR_OS32, Opcode::AndGdEd),
        last_opcode(ATTR_OS16, Opcode::AndGwEw),
    ]
}

fn table_23() -> (t: Vec<OpcodeEntry>)
    ensures
        t@ == spec_table_23(),
{
    vec![
        entry(ATTR_OS64, Opcode::AndGqEq),
        entry(ATTR_OS32, Opcode::AndGdEd),
        last_entry(ATTR_OS16, Opcode::AndGwEw),
    ]
}

/// `BxOpcodeTable24`
pub open spec fn spec_table_24() -> Seq<OpcodeEntry> {
    seq![
        last_opcode(0, Opcode::AndAlib),
    ]
}

fn table_24() -> (t: Vec<OpcodeEntry>)
    ensures
        t@ == spec_table_24(),
{
    vec![
        last_entry(0, Opcode::AndAlib),
    ]
}

/// `BxOpcodeTable25`
pub open spec fn spec_table_25() -> Seq<OpcodeEntry> {
    seq![
        form_opcode(ATTR_OS64, Opcode::AndRaxid),
        form_opcode(ATTR_OS32, Opcode::AndEaxid),
        last_opcode(ATTR_OS16, Opcode::AndAxiw),
    ]
}

fn table_25() -> (t: Vec<OpcodeEntry>)
    ensures
        t@ == spec_table_25(),
{
    vec![
        entry(ATTR_OS64, Opcode::AndRaxid),
        entry(ATTR_OS32, Opcode::AndEaxid),
        last_entry(ATTR_OS16, Opcode::AndAxiw),
    ]
}

/// `BxOpcodeTable27`
pub open spec fn spec_table_27() -> Seq<OpcodeEntry> {
    seq![
        last_opcode(ATTR_IS32, Opcode::Daa),
    ]
}

fn table_27() -> (t: Vec<OpcodeEntry>)
    ensures
        t@ == spec_table_27(),
{
    vec![
        last_entry(ATTR_IS32, Opcode::Daa),
    ]
}

/// `BxOpcodeTable28`
pub open spec fn spec_table_28() -> Seq<OpcodeEntry> {
    seq![
        last_opcode(0, Opcode::SubEbGb),
    ]
}

fn table_28() -> (t: Vec<OpcodeEntry>)
    ensures
        t@ == spec_table_28(),
{
    vec![
        last_entry(0, Opcode::SubEbGb),
    ]
}

/// `BxOpcodeTable29`
pub open spec fn spec_table_29() -> Seq<OpcodeEntry> {
    seq![
        form_opcode(ATTR_OS64 | ATTR_MODC0 | ATTR_SRC_EQ_DST, Opcode::SubEqGqZeroIdiom),
        form_opcode(ATTR_OS32 | ATTR_MODC0 | ATTR_SRC_EQ_DST, Opcode::SubEdGdZeroIdiom),
        form_opcode(ATTR_OS16 | ATTR_MODC0 | ATTR_SRC_EQ_DST, Opcode::SubEwGwZeroIdiom),
        form_opcode(ATTR_OS64, Opcode::SubEqGq),
        form_opcode(ATTR_OS32, Opcode::SubEdGd),
        last_opcode(ATTR_OS16, Opcode::SubEwGw),
    ]
}

fn table_29() -> (t: Vec<OpcodeEntry>)
    ensures
        t@ == spec_table_29(),
{
    vec![
        entry(ATTR_OS64 | ATTR_MODC0 | ATTR_SRC_EQ_DST, Opcode::SubEqGqZeroIdiom),
        entry(ATTR_OS32 | ATTR_MODC0 | ATTR_SRC_EQ_DST, Opcode::SubEdGdZeroIdiom),
        entry(ATTR_OS16 | ATTR_MODC0 | ATTR_SRC_EQ_DST, Opcode::SubEwGwZeroIdiom),
        entry(ATTR_OS64, Opcode::SubEqGq),
        entry(ATTR_OS32, Opcode::SubEdGd),
        last_entry(ATTR_OS16, Opcode::SubEwGw),
    ]
}

/// `BxOpcodeTable2A`
pub open spec fn spec_table_2a() -> Seq<OpcodeEntry> {
    seq![
        last_opcode(0, Opcode::SubGbEb),
    ]
}

fn table_2a() -> (t: Vec<OpcodeEntry>)
    ensures
        t@ == spec_table_2a(),
{
    vec![
        last_entry(0, Opcode::SubGbEb),
    ]
}

/// `BxOpcodeTable2B`
pub open spec fn spec_table_2b() -> Seq<OpcodeEntry> {
    seq![
        form_opcode(ATTR_OS64 | ATTR_MODC0 | ATTR_SRC_EQ_DST, Opcode::SubGqEqZeroIdiom),
        form_opcode(ATTR_OS32 | ATTR_MODC0 | ATTR_SRC_EQ_DST, Opcode::SubGdEdZeroIdiom),
        form_opcode(ATTR_OS16 | ATTR_MODC0 | ATTR_SRC_EQ_DST, Opcode::SubGwEwZeroIdiom),
        form_opcode(ATTR_OS64, Opcode::SubGqEq),
        form_opcode(ATTR_OS32, Opcode::SubGdEd),
        last_opcode(ATTR_OS16, Opcode::SubGwEw),
    ]
}

fn table_2b() -> (t: Vec<OpcodeEntry>)
    ensures
        t@ == spec_table_2b(),
{
    vec![
        entry(ATTR_OS64 | ATTR_MODC0 | ATTR_SRC_EQ_DST, Opcode::SubGqEqZeroIdiom),
        entry(ATTR_OS32 | ATTR_MODC0 | ATTR_SRC_EQ_DST, Opcode::SubGdEdZeroIdiom),
        entry(ATTR_OS16 | ATTR_MODC0 | ATTR_SRC_EQ_DST, Opcode::SubGwEwZeroIdiom),
        entry(ATTR_OS64, Opcode::SubGqEq),
        entry(ATTR_OS32, Opcode::SubGdEd),
        last_entry(ATTR_OS16, Opcode::SubGwEw),
    ]
}

/// `BxOpcodeTable2C`
pub open spec fn spec_table_2c() -> Seq<OpcodeEntry> {
    seq![
        last_opcode(0, Opcode::SubAlib),
    ]
}

fn table_2c() -> (t: Vec<OpcodeEntry>)
    ensures
        t@ == spec_table_2c(),
{
    vec![
        last_entry(0, Opcode::SubAlib),
    ]
}

/// `BxOpcodeTable2D`
pub open spec fn spec_table_2d() -> Seq<OpcodeEntry> {
    seq![
        form_opcode(ATTR_OS64, Opcode::SubRaxid),
        form_opcode(ATTR_OS32, Opcode::SubEaxid),
        last_opcode(ATTR_OS16, Opcode::SubAxiw),
    ]
}

fn table_2d() -> (t: Vec<OpcodeEntry>)
    ensures
        t@ == spec_table_2d(),
{
    vec![
        entry(ATTR_OS64, Opcode::SubRaxid),
        entry(ATTR_OS32, Opcode::SubEaxid),
        last_entry(ATTR_OS16, Opcode::SubAxiw),
    ]
}

/// `BxOpcodeTable2F`
pub open spec fn spec_table_2f() -> Seq<OpcodeEntry> {
    seq![
        last_opcode(ATTR_IS32, Opcode::Das),
    ]
}

fn table_2f() -> (t: Vec<OpcodeEntry>)
    ensures
        t@ == spec_table_2f(),
{
    vec![
        last_entry(ATTR_IS32, Opcode::Das),
    ]
}

/// `BxOpcodeTable30`
pub open spec fn spec_table_30() -> Seq<OpcodeEntry> {
    seq![
        last_opcode(0, Opcode::XorEbGb),
    ]
}

fn table_30() -> (t: Vec<OpcodeEntry>)
    ensures
        t@ == spec_table_30(),
{
    vec![
        last_entry(0, Opcode::XorEbGb),
    ]
}

/// `BxOpcodeTable31`
pub open spec fn spec_table_31() -> Seq<OpcodeEntry> {
    seq![
        form_opcode(ATTR_OS64 | ATTR_MODC0 | ATTR_SRC_EQ_DST, Opcode::XorEqGqZeroIdiom),
        form_opcode(ATTR_OS32 | ATTR_MODC0 | ATTR_SRC_EQ_DST, Opcode::XorEdGdZeroIdiom),
        form_opcode(ATTR_OS16 | ATTR_MODC0 | ATTR_SRC_EQ_DST, Opcode::XorEwGwZeroIdiom),
        form_opcode(ATTR_OS64, Opcode::XorEqGq),
        form_opcode(ATTR_OS32, Opcode::XorEdGd),
        last_opcode(ATTR_OS16, Opcode::XorEwGw),
    ]
}

fn table_31() -> (t: Vec<OpcodeEntry>)
    ensures
        t@ == spec_table_31(),
{
    vec![
        entry(ATTR_OS64 | ATTR_MODC0 | ATTR_SRC_EQ_DST, Opcode::XorEqGqZeroIdiom),
        entry(ATTR_OS32 | ATTR_MODC0 | ATTR_SRC_EQ_DST, Opcode::XorEdGdZeroIdiom),
        entry(ATTR_OS16 | ATTR_MODC0 | ATTR_SRC_EQ_DST, Opcode::XorEwGwZeroIdiom),
        entry(ATTR_OS64, Opcode::XorEqGq),
        entry(ATTR_OS32, Opcode::XorEdGd),
        last_entry(ATTR_OS16, Opcode::XorEwGw),
    ]
}

/// `BxOpcodeTable32`
pub open spec fn spec_table_32() -> Seq<OpcodeEntry> {
    seq![
        last_opcode(0, Opcode::XorGbEb),
    ]
}

fn table_32() -> (t: Vec<OpcodeEntry>)
    ensures
        t@ == spec_table_32(),
{
    vec![
        last_entry(0, Opcode::XorGbEb),
    ]
}

/// `BxOpcodeTable33`
pub open spec fn spec_table_33() -> Seq<OpcodeEntry> {
    seq![
        form_opcode(ATTR_OS64 | ATTR_MODC0 | ATTR_SRC_EQ_DST, Opcode::XorGqEqZeroIdiom),
        form_opcode(ATTR_OS32 | ATTR_MODC0 | ATTR_SRC_EQ_DST, Opcode::XorGdEdZeroIdiom),
        form_opcode(ATTR_OS16 | ATTR_MODC0 | ATTR_SRC_EQ_DST, Opcode::XorGwEwZeroIdiom),
        form_opcode(ATTR_OS64, Opcode::XorGqEq),
        form_opcode(ATTR_OS32, Opcode::XorGdEd),
        last_opcode(ATTR_OS16, Opcode::XorGwEw),
    ]
}

fn table_33() -> (t: Vec<OpcodeEntry>)
    ensures
        t@ == spec_table_33(),
{
    vec![
        entry(ATTR_OS64 | ATTR_MODC0 | ATTR_SRC_EQ_DST, Opcode::XorGqEqZeroIdiom),
        entry(ATTR_OS32 | ATTR_MODC0 | ATTR_SRC_EQ_DST, Opcode::XorGdEdZeroIdiom),
        entry(ATTR_OS16 | ATTR_MODC0 | ATTR_SRC_EQ_DST, Opcode::XorGwEwZeroIdiom),
        entry(ATTR_OS64, Opcode::XorGqEq),
        entry(ATTR_OS32, Opcode::XorGdEd),
        last_entry(ATTR_OS16, Opcode::XorGwEw),
    ]
}

/// `BxOpcodeTable34`
pub open spec fn spec_table_34() -> Seq<OpcodeEntry> {
    seq![
        last_opcode(0, Opcode::XorAlib),
    ]
}

fn table_34() -> (t: Vec<OpcodeEntry>)
    ensures
        t@ == spec_table_34(),
{
    vec![
        last_entry(0, Opcode::XorAlib),
    ]
}

/// `BxOpcodeTable35`
pub open spec fn spec_table_35() -> Seq<OpcodeEntry> {
    seq![
        form_opcode(ATTR_OS64, Opcode::XorRaxid),
        form_opcode(ATTR_OS32, Opcode::XorEaxid),
        last_opcode(ATTR_OS16, Opcode::XorAxiw),
    ]
}

fn table_35() -> (t: Vec<OpcodeEntry>)
    ensures
        t@ == spec_table_35(),
{
    vec![
        entry(ATTR_OS64, Opcode::XorRaxid),
        entry(ATTR_OS32, Opcode::XorEaxid),
        last_entry(ATTR_OS16, Opcode::XorAxiw),
    ]
}

/// `BxOpcodeTable37`
pub open spec fn spec_table_37() -> Seq<OpcodeEntry> {
    seq![
        last_opcode(ATTR_IS32, Opcode::Aaa),
    ]
}

fn table_37() -> (t: Vec<OpcodeEntry>)
    ensures
        t@ == spec_table_37(),
{
    vec![
        last_entry(ATTR_IS32, Opcode::Aaa),
    ]
}

/// `BxOpcodeTable38`
pub open spec fn spec_table_38() -> Seq<OpcodeEntry> {
    seq![
        last_opcode(0, Opcode::CmpEbGb),
    ]
}

fn table_38() -> (t: Vec<OpcodeEntry>)
    ensures
        t@ == spec_table_38(),
{
    vec![
        last_entry(0, Opcode::CmpEbGb),
    ]
}

/// `BxOpcodeTable39`
pub open spec fn spec_table_39() -> Seq<OpcodeEntry> {
    seq![
        form_opcode(ATTR_OS64, Opcode::CmpEqGq),
        form_opcode(ATTR_OS32, Opcode::CmpEdGd),
        last_opcode(ATTR_OS16, Opcode::CmpEwGw),
    ]
}

fn table_39() -> (t: Vec<OpcodeEntry>)
    ensures
        t@ == spec_table_39(),
{
    vec![
        entry(ATTR_OS64, Opcode::CmpEqGq),
        entry(ATTR_OS32, Opcode::CmpEdGd),
        last_entry(ATTR_OS16, Opcode::CmpEwGw),
    ]
}

/// `BxOpcodeTable3A`
pub open spec fn spec_table_3a() -> Seq<OpcodeEntry> {
    seq![
        last_opcode(0, Opcode::CmpGbEb),
    ]
}

fn table_3a() -> (t: Vec<OpcodeEntry>)
    ensures
        t@ == spec_table_3a(),
{
    vec![
        last_entry(0, Opcode::CmpGbEb),
    ]
}

/// `BxOpcodeTable3B`
pub open spec fn spec_table_3b() -> Seq<OpcodeEntry> {
    seq![
        form_opcode(ATTR_OS64, Opcode::CmpGqEq),
        form_opcode(ATTR_OS32, Opcode::CmpGdEd),
        last_opcode(ATTR_OS16, Opcode::CmpGwEw),
    ]
}

fn table_3b() -> (t: Vec<OpcodeEntry>)
    ensures
        t@ == spec_table_3b(),
{
    vec![
        entry(ATTR_OS64, Opcode::CmpGqEq),
        entry(ATTR_OS32, Opcode::CmpGdEd),
        last_entry(ATTR_OS16, Opcode::CmpGwEw),
    ]
}

/// `BxOpcodeTable3C`
pub open spec fn spec_table_3c() -> Seq<OpcodeEntry> {
    seq![
        last_opcode(0, Opcode::CmpAlib),
    ]
}

fn table_3c() -> (t: Vec<OpcodeEntry>)
    ensures
        t@ == spec_table_3c(),
{
    vec![
        last_entry(0, Opcode::CmpAlib),
    ]
}

/// `BxOpcodeTable3D`
pub open spec fn spec_table_3d() -> Seq<OpcodeEntry> {
    seq![
        form_opcode(ATTR_OS64, Opcode::CmpRaxid),
        form_opcode(ATTR_OS32, Opcode::CmpEaxid),
        last_opcode(ATTR_OS16, Opcode::CmpAxiw),
    ]
}

fn table_3d() -> (t: Vec<OpcodeEntry>)
    ensures
        t@ == spec_table_3d(),
{
    vec![
        entry(ATTR_OS64, Opcode::CmpRaxid),
        entry(ATTR_OS32, Opcode::CmpEaxid),
        last_entry(ATTR_OS16, Opcode::CmpAxiw),
    ]
}

/// `BxOpcodeTable3F`
pub open spec fn spec_table_3f() -> Seq<OpcodeEntry> {
    seq![
        last_opcode(ATTR_IS32, Opcode::Aas),
    ]
}

fn table_3f() -> (t: Vec<OpcodeEntry>)
    ensures
        t@ == spec_table_3f(),
{
    vec![
        last_entry(ATTR_IS32, Opcode::Aas),
    ]
}

/// `BxOpcodeTable40x47`
pub open spec fn spec_table_40x47() -> Seq<OpcodeEntry> {
    seq![
        form_opcode(ATTR_IS32 | ATTR_OS32, Opcode::IncEd),
        last_opcode(ATTR_IS32 | ATTR_OS16, Opcode::IncEw),
    ]
}

fn table_40x47() -> (t: Vec<OpcodeEntry>)
    ensures
        t@ == spec_table_40x47(),
{
    vec![
        entry(ATTR_IS32 | ATTR_OS32, Opcode::IncEd),
        last_entry(ATTR_IS32 | ATTR_OS16, Opcode::IncEw),
    ]
}

/// `BxOpcodeTable48x4F`
pub open spec fn spec_table_48x4f() -> Seq<OpcodeEntry> {
    seq![
        form_opcode(ATTR_IS32 | ATTR_OS32, Opcode::DecEd),
        last_opcode(ATTR_IS32 | ATTR_OS16, Opcode::DecEw),
    ]
}

fn table_48x4f() -> (t: Vec<OpcodeEntry>)
    ensures
        t@ == spec_table_48x4f(),
{
    vec![
        entry(ATTR_IS32 | ATTR_OS32, Opcode::DecEd),
        last_entry(ATTR_IS32 | ATTR_OS16, Opcode::DecEw),
    ]
}

/// `BxOpcodeTable50x57`
pub open spec fn spec_table_50x57() -> Seq<OpcodeEntry> {
    seq![
        form_opcode(ATTR_IS64 | ATTR_OS16, Opcode::PushEw),
        form_opcode(ATTR_IS64, Opcode::PushEq),
        form_opcode(ATTR_OS32, Opcode::PushEd),
        last_opcode(ATTR_OS16, Opcode::PushEw),
    ]
}

fn table_50x57() -> (t: Vec<OpcodeEntry>)
    ensures
        t@ == spec_table_50x57(),
{
    vec![
        entry(ATTR_IS64 | ATTR_OS16, Opcode::PushEw),
        entry(ATTR_IS64, Opcode::PushEq),
        entry(ATTR_OS32, Opcode::PushEd),
        last_entry(ATTR_OS16, Opcode::PushEw),
    ]
}

/// `BxOpcodeTable58x5F`
pub open spec fn spec_table_58x5f() -> Seq<OpcodeEntry> {
    seq![
        form_opcode(ATTR_IS64 | ATTR_OS16, Opcode::PopEw),
        form_opcode(ATTR_IS64, Opcode::PopEq),
        form_opcode(ATTR_OS32, Opcode::PopEd),
        last_opcode(ATTR_OS16, Opcode::PopEw),
    ]
}

fn table_58x5f() -> (t: Vec<OpcodeEntry>)
    ensures
        t@ == spec_table_58x5f(),
{
    vec![
        entry(ATTR_IS64 | ATTR_OS16, Opcode::PopEw),
        entry(ATTR_IS64, Opcode::PopEq),
        entry(ATTR_OS32, Opcode::PopEd),
        last_entry(ATTR_OS16, Opcode::PopEw),
    ]
}

/// `BxOpcodeTable60`
pub open spec fn spec_table_60() -> Seq<OpcodeEntry> {
    seq![
        form_opcode(ATTR_IS32 | ATTR_OS32, Opcode::PushaOp32),
        last_opcode(ATTR_IS32 | ATTR_OS16, Opcode::PushaOp16),
    ]
}

fn table_60() -> (t: Vec<OpcodeEntry>)
    ensures
        t@ == spec_table_60(),
{
    vec![
        entry(ATTR_IS32 | ATTR_OS32, Opcode::PushaOp32),
        last_entry(ATTR_IS32 | ATTR_OS16, Opcode::PushaOp16),
    ]
}

/// `BxOpcodeTable61`
pub open spec fn spec_table_61() -> Seq<OpcodeEntry> {
    seq![
        form_opcode(ATTR_IS32 | ATTR_OS32, Opcode::PopaOp32),
        last_opcode(ATTR_IS32 | ATTR_OS16, Opcode::PopaOp16),
    ]
}

fn table_61() -> (t: Vec<OpcodeEntry>)
    ensures
        t@ == spec_table_61(),
{
    vec![
        entry(ATTR_IS32 | ATTR_OS32, Opcode::PopaOp32),
        last_entry(ATTR_IS32 | ATTR_OS16, Opcode::PopaOp16),
    ]
}

/// `BxOpcodeTable62`
pub open spec fn spec_table_62() -> Seq<OpcodeEntry> {
    seq![
        form_opcode(ATTR_IS32 | ATTR_OS32 | ATTR_MOD_MEM, Opcode::BoundGdMa),
        last_opcode(ATTR_IS32 | ATTR_OS16 | ATTR_MOD_MEM, Opcode::BoundGwMa),
    ]
}

fn table_62() -> (t: Vec<OpcodeEntry>)
    ensures
        t@ == spec_table_62(),
{
    vec![
        entry(ATTR_IS32 | ATTR_OS32 | ATTR_MOD_MEM, Opcode::BoundGdMa),
        last_entry(ATTR_IS32 | ATTR_OS16 | ATTR_MOD_MEM, Opcode::BoundGwMa),
    ]
}

/// `BxOpcodeTable63_32`
pub open spec fn spec_table_63_32() -> Seq<OpcodeEntry> {
    seq![
        last_opcode(0, Opcode::ArplEwGw),
    ]
}

fn table_63_32() -> (t: Vec<OpcodeEntry>)
    ensures
        t@ == spec_table_63_32(),
{
    vec![
        last_entry(0, Opcode::ArplEwGw),
    ]
}

/// `BxOpcodeTable68`
pub open spec fn spec_table_68() -> Seq<OpcodeEntry> {
    seq![
        form_opcode(ATTR_IS64 | ATTR_OS16, Opcode::PushIw),
        form_opcode(ATTR_IS64, Opcode::PushOp64Id),
        form_opcode(ATTR_OS32, Opcode::PushId),
        last_opcode(ATTR_OS16, Opcode::PushIw),
    ]
}

fn table_68() -> (t: Vec<OpcodeEntry>)
    ensures
        t@ == spec_table_68(),
{
    vec![
        entry(ATTR_IS64 | ATTR_OS16, Opcode::PushIw),
        entry(ATTR_IS64, Opcode::PushOp64Id),
        entry(ATTR_OS32, Opcode::PushId),
        last_entry(ATTR_OS16, Opcode::PushIw),
    ]
}

/// `BxOpcodeTable69`
pub open spec fn spec_table_69() -> Seq<OpcodeEntry> {
    seq![
        form_opcode(ATTR_OS64, Opcode::ImulGqEqId),
        form_opcode(ATTR_OS32, Opcode::ImulGdEdId),
        last_opcode(ATTR_OS16, Opcode::ImulGwEwIw),
    ]
}

fn table_69() -> (t: Vec<OpcodeEntry>)
    ensures
        t@ == spec_table_69(),
{
    vec![
        entry(ATTR_OS64, Opcode::ImulGqEqId),
        entry(ATTR_OS32, Opcode::ImulGdEdId),
        last_entry(ATTR_OS16, Opcode::ImulGwEwIw),
    ]
}

/// `BxOpcodeTable6A`
pub open spec fn spec_table_6a() -> Seq<OpcodeEntry> {
    seq![
        form_opcode(ATTR_IS64 | ATTR_OS16, Opcode::PushSIb16),
        form_opcode(ATTR_IS64, Opcode::PushOp64SIb),
        form_opcode(ATTR_OS32, Opcode::PushSIb32),
        last_opcode(ATTR_OS16, Opcode::PushSIb16),
    ]
}

fn table_6a() -> (t: Vec<OpcodeEntry>)
    ensures
        t@ == spec_table_6a(),
{
    vec![
        entry(ATTR_IS64 | ATTR_OS16, Opcode::PushSIb16),
        entry(ATTR_IS64, Opcode::PushOp64SIb),
        entry(ATTR_OS32, Opcode::PushSIb32),
        last_entry(ATTR_OS16, Opcode::PushSIb16),
    ]
}

/// `BxOpcodeTable6B`
pub open spec fn spec_table_6b() -> Seq<OpcodeEntry> {
    seq![
        form_opcode(ATTR_OS64, Opcode::ImulGqEqsIb),
        form_opcode(ATTR_OS32, Opcode::ImulGdEdsIb),
        last_opcode(ATTR_OS16, Opcode::ImulGwEwsIb),
    ]
}

fn table_6b() -> (t: Vec<OpcodeEntry>)
    ensures
        t@ == spec_table_6b(),
{
    vec![
        entry(ATTR_OS64, Opcode::ImulGqEqsIb),
        entry(ATTR_OS32, Opcode::ImulGdEdsIb),
        last_entry(ATTR_OS16, Opcode::ImulGwEwsIb),
    ]
}

/// `BxOpcodeTable6C`
pub open spec fn spec_table_6c() -> Seq<OpcodeEntry> {
    seq![
        last_opcode(0, Opcode::RepInsbYbDx),
    ]
}

fn table_6c() -> (t: Vec<OpcodeEntry>)
    ensures
        t@ == spec_table_6c(),
{
    vec![
        last_entry(0, Opcode::RepInsbYbDx),
    ]
}

/// `BxOpcodeTable6D`
pub open spec fn spec_table_6d() -> Seq<OpcodeEntry> {
    seq![
        form_opcode(ATTR_OS16, Opcode::RepInswYwDx),
        last_opcode(0, Opcode::RepInsdYdDx),
    ]
}

fn table_6d() -> (t: Vec<OpcodeEntry>)
    ensures
        t@ == spec_table_6d(),
{
    vec![
        entry(ATTR_OS16, Opcode::RepInswYwDx),
        last_entry(0, Opcode::RepInsdYdDx),
    ]
}

/// `BxOpcodeTable6E`
pub open spec fn spec_table_6e() -> Seq<OpcodeEntry> {
    seq![
        last_opcode(0, Opcode::RepOutsbDxxb),
    ]
}

fn table_6e() -> (t: Vec<OpcodeEntry>)
    ensures
        t@ == spec_table_6e(),
{
    vec![
        last_entry(0, Opcode::RepOutsbDxxb),
    ]
}

/// `BxOpcodeTable6F`
pub open spec fn spec_table_6f() -> Seq<OpcodeEntry> {
    seq![
        form_opcode(ATTR_OS16, Opcode::RepOutswDxxw),
        last_opcode(0, Opcode::RepOutsdDxxd),
    ]
}

fn table_6f() -> (t: Vec<OpcodeEntry>)
    ensures
        t@ == spec_table_6f(),
{
    vec![
        entry(ATTR_OS16, Opcode::RepOutswDxxw),
        last_entry(0, Opcode::RepOutsdDxxd),
    ]
}

/// `BxOpcodeTable70_32`
pub open spec fn spec_table_70_32() -> Seq<OpcodeEntry> {
    seq![
        form_opcode(ATTR_OS32, Opcode::JoJbd),
        last_opcode(ATTR_OS16, Opcode::JoJbw),
    ]
}

fn table_70_32() -> (t: Vec<OpcodeEntry>)
    ensures
        t@ == spec_table_70_32(),
{
    vec![
        entry(ATTR_OS32, Opcode::JoJbd),
        last_entry(ATTR_OS16, Opcode::JoJbw),
    ]
}

/// `BxOpcodeTable71_32`
pub open spec fn spec_table_71_32() -> Seq<OpcodeEntry> {
    seq![
        form_opcode(ATTR_OS32, Opcode::JnoJbd),
        last_opcode(ATTR_OS16, Opcode::JnoJbw),
    ]
}

fn table_71_32() -> (t: Vec<OpcodeEntry>)
    ensures
        t@ == spec_table_71_32(),
{
    vec![
        entry(ATTR_OS32, Opcode::JnoJbd),
        last_entry(ATTR_OS16, Opcode::JnoJbw),
    ]
}

/// `BxOpcodeTable72_32`
pub open spec fn spec_table_72_32() -> Seq<OpcodeEntry> {
    seq![
        form_opcode(ATTR_OS32, Opcode::JbJbd),
        last_opcode(ATTR_OS16, Opcode::JbJbw),
    ]
}

fn table_72_32() -> (t: Vec<OpcodeEntry>)
    ensures
        t@ == spec_table_72_32(),
{
    vec![
        entry(ATTR_OS32, Opcode::JbJbd),
        last_entry(ATTR_OS16, Opcode::JbJbw),
    ]
}

/// `BxOpcodeTable73_32`
pub open spec fn spec_table_73_32() -> Seq<OpcodeEntry> {
    seq![
        form_opcode(ATTR_OS32, Opcode::JnbJbd),
        last_opcode(ATTR_OS16, Opcode::JnbJbw),
    ]
}

fn table_73_32() -> (t: Vec<OpcodeEntry>)
    ensures
        t@ == spec_table_73_32(),
{
    vec![
        entry(ATTR_OS32, Opcode::JnbJbd),
        last_entry(ATTR_OS16, Opcode::JnbJbw),
    ]
}

/// `BxOpcodeTable74_32`
pub open spec fn spec_table_74_32() -> Seq<OpcodeEntry> {
    seq![
        form_opcode(ATTR_OS32, Opcode::JzJbd),
        last_opcode(ATTR_OS16, Opcode::JzJbw),
    ]
}

fn table_74_32() -> (t: Vec<OpcodeEntry>)
    ensures
        t@ == spec_table_74_32(),
{
    vec![
        entry(ATTR_OS32, Opcode::JzJbd),
        last_entry(ATTR_OS16, Opcode::JzJbw),
    ]
}

/// `BxOpcodeTable75_32`
pub open spec fn spec_table_75_32() -> Seq<OpcodeEntry> {
    seq![
        form_opcode(ATTR_OS32, Opcode::JnzJbd),
        last_opcode(ATTR_OS16, Opcode::JnzJbw),
    ]
}

fn table_75_32() -> (t: Vec<OpcodeEntry>)
    ensures
        t@ == spec_table_75_32(),
{
    vec![
        entry(ATTR_OS32, Opcode::JnzJbd),
        last_entry(ATTR_OS16, Opcode::JnzJbw),
    ]
}

/// `BxOpcodeTable76_32`
pub open spec fn spec_table_76_32() -> Seq<OpcodeEntry> {
    seq![
        form_opcode(ATTR_OS32, Opcode::JbeJbd),
        last_opcode(ATTR_OS16, Opcode::JbeJbw),
    ]
}

fn table_76_32() -> (t: Vec<OpcodeEntry>)
    ensures
        t@ == spec_table_76_32(),
{
    vec![
        entry(ATTR_OS32, Opcode::JbeJbd),
        last_entry(ATTR_OS16, Opcode::JbeJbw),
    ]
}

/// `BxOpcodeTable77_32`
pub open spec fn spec_table_77_32() -> Seq<OpcodeEntry> {
    seq![
        form_opcode(ATTR_OS32, Opcode::JnbeJbd),
        last_opcode(ATTR_OS16, Opcode::JnbeJbw),
    ]
}

fn table_77_32() -> (t: Vec<OpcodeEntry>)
    ensures
        t@ == spec_table_77_32(),
{
    vec![
        entry(ATTR_OS32, Opcode::JnbeJbd),
        last_entry(ATTR_OS16, Opcode::JnbeJbw),
    ]
}

/// `BxOpcodeTable78_32`
pub open spec fn spec_table_78_32() -> Seq<OpcodeEntry> {
    seq![
        form_opcode(ATTR_OS32, Opcode::JsJbd),
        last_opcode(ATTR_OS16, Opcode::JsJbw),
    ]
}

fn table_78_32() -> (t: Vec<OpcodeEntry>)
    ensures
        t@ == spec_table_78_32(),
{
    vec![
        entry(ATTR_OS32, Opcode::JsJbd),
        last_entry(ATTR_OS16, Opcode::JsJbw),
    ]
}

/// `BxOpcodeTable79_32`
pub open spec fn spec_table_79_32() -> Seq<OpcodeEntry> {
    seq![
        form_opcode(ATTR_OS32, Opcode::JnsJbd),
        last_opcode(ATTR_OS16, Opcode::JnsJbw),
    ]
}

fn table_79_32() -> (t: Vec<OpcodeEntry>)
    ensures
        t@ == spec_table_79_32(),
{
    vec![
        entry(ATTR_OS32, Opcode::JnsJbd),
        last_entry(ATTR_OS16, Opcode::JnsJbw),
    ]
}

/// `BxOpcodeTable7A_32`
pub open spec fn spec_table_7a_32() -> Seq<OpcodeEntry> {
    seq![
        form_opcode(ATTR_OS32, Opcode::JpJbd),
        last_opcode(ATTR_OS16, Opcode::JpJbw),
    ]
}

fn table_7a_32() -> (t: Vec<OpcodeEntry>)
    ensures
        t@ == spec_table_7a_32(),
{
    vec![
        entry(ATTR_OS32, Opcode::JpJbd),
        last_entry(ATTR_OS16, Opcode::JpJbw),
    ]
}

/// `BxOpcodeTable7B_32`
pub open spec fn spec_table_7b_32() -> Seq<OpcodeEntry> {
    seq![
        form_opcode(ATTR_OS32, Opcode::JnpJbd),
        last_opcode(ATTR_OS16, Opcode::JnpJbw),
    ]
}

fn table_7b_32() -> (t: Vec<OpcodeEntry>)
    ensures
        t@ == spec_table_7b_32(),
{
    vec![
        entry(ATTR_OS32, Opcode::JnpJbd),
        last_entry(ATTR_OS16, Opcode::JnpJbw),
    ]
}

/// `BxOpcodeTable7C_32`
pub open spec fn spec_table_7c_32() -> Seq<OpcodeEntry> {
    seq![
        form_opcode(ATTR_OS32, Opcode::JlJbd),
        last_opcode(ATTR_OS16, Opcode::JlJbw),
    ]
}

fn table_7c_32() -> (t: Vec<OpcodeEntry>)
    ensures
        t@ == spec_table_7c_32(),
{
    vec![
        entry(ATTR_OS32, Opcode::JlJbd),
        last_entry(ATTR_OS16, Opcode::JlJbw),
    ]
}

/// `BxOpcodeTable7D_32`
pub open spec fn spec_table_7d_32() -> Seq<OpcodeEntry> {
    seq![
        form_opcode(ATTR_OS32, Opcode::JnlJbd),
        last_opcode(ATTR_OS16, Opcode::JnlJbw),
    ]
}

fn table_7d_32() -> (t: Vec<OpcodeEntry>)
    ensures
        t@ == spec_table_7d_32(),
{
    vec![
        entry(ATTR_OS32, Opcode::JnlJbd),
        last_entry(ATTR_OS16, Opcode::JnlJbw),
    ]
}

/// `BxOpcodeTable7E_32`
pub open spec fn spec_table_7e_32() -> Seq<OpcodeEntry> {
    seq![
        form_opcode(ATTR_OS32, Opcode::JleJbd),
        last_opcode(ATTR_OS16, Opcode::JleJbw),
    ]
}

fn table_7e_32() -> (t: Vec<OpcodeEntry>)
    ensures
        t@ == spec_table_7e_32(),
{
    vec![
        entry(ATTR_OS32, Opcode::JleJbd),
        last_entry(ATTR_OS16, Opcode::JleJbw),
    ]
}

/// `BxOpcodeTable7F_32`
pub open spec fn spec_table_7f_32() -> Seq<OpcodeEntry> {
    seq![
        form_opcode(ATTR_OS32, Opcode::JnleJbd),
        last_opcode(ATTR_OS16, Opcode::JnleJbw),
    ]
}

fn table_7f_32() -> (t: Vec<OpcodeEntry>)
    ensures
        t@ == spec_table_7f_32(),
{
    vec![
        entry(ATTR_OS32, Opcode::JnleJbd),
        last_entry(ATTR_OS16, Opcode::JnleJbw),
    ]
}

/// `BxOpcodeTable80`
pub open spec fn spec_table_80() -> Seq<OpcodeEntry> {
    seq![
        form_opcode(ATTR_NNN0, Opcode::AddEbIb),
        form_opcode(ATTR_NNN1, Opcode::OrEbIb),
        form_opcode(ATTR_NNN2, Opcode::AdcEbIb),
        form_opcode(ATTR_NNN3, Opcode::SbbEbIb),
        form_opcode(ATTR_NNN4, Opcode::AndEbIb),
        form_opcode(ATTR_NNN5, Opcode::SubEbIb),
        form_opcode(ATTR_NNN6, Opcode::XorEbIb),
        last_opcode(ATTR_NNN7, Opcode::CmpEbIb),
    ]
}

fn table_80() -> (t: Vec<OpcodeEntry>)
    ensures
        t@ == spec_table_80(),
{
    vec![
        entry(ATTR_NNN0, Opcode::AddEbIb),
        entry(ATTR_NNN1, Opcode::OrEbIb),
        entry(ATTR_NNN2, Opcode::AdcEbIb),
        entry(ATTR_NNN3, Opcode::SbbEbIb),
        entry(ATTR_NNN4, Opcode::AndEbIb),
        entry(ATTR_NNN5, Opcode::SubEbIb),
        entry(ATTR_NNN6, Opcode::XorEbIb),
        last_entry(ATTR_NNN7, Opcode::CmpEbIb),
    ]
}

/// `BxOpcodeTable81`
pub open spec fn spec_table_81() -> Seq<OpcodeEntry> {
    seq![
        form_opcode(ATTR_NNN0 | ATTR_OS64, Opcode::AddEqId),
        form_opcode(ATTR_NNN0 | ATTR_OS32, Opcode::AddEdId),
        form_opcode(ATTR_NNN0 | ATTR_OS16, Opcode::AddEwIw),
        form_opcode(ATTR_NNN1 | ATTR_OS64, Opcode::OrEqId),
        form_opcode(ATTR_NNN1 | ATTR_OS32, Opcode::OrEdId),
        form_opcode(ATTR_NNN1 | ATTR_OS16, Opcode::OrEwIw),
        form_opcode(ATTR_NNN2 | ATTR_OS64, Opcode::AdcEqId),
        form_opcode(ATTR_NNN2 | ATTR_OS32, Opcode::AdcEdId),
        form_opcode(ATTR_NNN2 | ATTR_OS16, Opcode::AdcEwIw),
        form_opcode(ATTR_NNN3 | ATTR_OS64, Opcode::SbbEqId),
        form_opcode(ATTR_NNN3 | ATTR_OS32, Opcode::SbbEdId),
        form_opcode(ATTR_NNN3 | ATTR_OS16, Opcode::SbbEwIw),
        form_opcode(ATTR_NNN4 | ATTR_OS64, Opcode::AndEqId),
        form_opcode(ATTR_NNN4 | ATTR_OS32, Opcode::AndEdId),
        form_opcode(ATTR_NNN4 | ATTR_OS16, Opcode::AndEwIw),
        form_opcode(ATTR_NNN5 | ATTR_OS64, Opcode::SubEqId),
        form_opcode(ATTR_NNN5 | ATTR_OS32, Opcode::SubEdId),
        form_opcode(ATTR_NNN5 | ATTR_OS16, Opcode::SubEwIw),
        form_opcode(ATTR_NNN6 | ATTR_OS64, Opcode::XorEqId),
        form_opcode(ATTR_NNN6 | ATTR_OS32, Opcode::XorEdId),
        form_opcode(ATTR_NNN6 | ATTR_OS16, Opcode::XorEwIw),
        form_opcode(ATTR_NNN7 | ATTR_OS64, Opcode::CmpEqId),
        form_opcode(ATTR_NNN7 | ATTR_OS32, Opcode::CmpEdId),
        last_opcode(ATTR_NNN7 | ATTR_OS16, Opcode::CmpEwIw),
    ]
}

fn table_81() -> (t: Vec<OpcodeEntry>)
    ensures
        t@ == spec_table_81(),
{
    vec![
        entry(ATTR_NNN0 | ATTR_OS64, Opcode::AddEqId),
        entry(ATTR_NNN0 | ATTR_OS32, Opcode::AddEdId),
        entry(ATTR_NNN0 | ATTR_OS16, Opcode::AddEwIw),
        entry(ATTR_NNN1 | ATTR_OS64, Opcode::OrEqId),
        entry(ATTR_NNN1 | ATTR_OS32, Opcode::OrEdId),
        entry(ATTR_NNN1 | ATTR_OS16, Opcode::OrEwIw),
        entry(ATTR_NNN2 | ATTR_OS64, Opcode::AdcEqId),
        entry(ATTR_NNN2 | ATTR_OS32, Opcode::AdcEdId),
        entry(ATTR_NNN2 | ATTR_OS16, Opcode::AdcEwIw),
        entry(ATTR_NNN3 | ATTR_OS64, Opcode::SbbEqId),
        entry(ATTR_NNN3 | ATTR_OS32, Opcode::SbbEdId),
        entry(ATTR_NNN3 | ATTR_OS16, Opcode::SbbEwIw),
        entry(ATTR_NNN4 | ATTR_OS64, Opcode::AndEqId),
        entry(ATTR_NNN4 | ATTR_OS32, Opcode::AndEdId),
        entry(ATTR_NNN4 | ATTR_OS16, Opcode::AndEwIw),
        entry(ATTR_NNN5 | ATTR_OS64, Opcode::SubEqId),
        entry(ATTR_NNN5 | ATTR_OS32, Opcode::SubEdId),
        entry(ATTR_NNN5 | ATTR_OS16, Opcode::SubEwIw),
        entry(ATTR_NNN6 | ATTR_OS64, Opcode::XorEqId),
        entry(ATTR_NNN6 | ATTR_OS32, Opcode::XorEdId),
        entry(ATTR_NNN6 | ATTR_OS16, Opcode::XorEwIw),
        entry(ATTR_NNN7 | ATTR_OS64, Opcode::CmpEqId),
        entry(ATTR_NNN7 | ATTR_OS32, Opcode::CmpEdId),
        last_entry(ATTR_NNN7 | ATTR_OS16, Opcode::CmpEwIw),
    ]
}

/// `BxOpcodeTable83`
pub open spec fn spec_table_83() -> Seq<OpcodeEntry> {
    seq![
        form_opcode(ATTR_NNN0 | ATTR_OS64, Opcode::AddEqsIb),
        form_opcode(ATTR_NNN0 | ATTR_OS32, Opcode::AddEdsIb),
        form_opcode(ATTR_NNN0 | ATTR_OS16, Opcode::AddEwsIb),
        form_opcode(ATTR_NNN1 | ATTR_OS64, Opcode::OrEqsIb),
        form_opcode(ATTR_NNN1 | ATTR_OS32, Opcode::OrEdsIb),
        form_opcode(ATTR_NNN1 | ATTR_OS16, Opcode::OrEwsIb),
        form_opcode(ATTR_NNN2 | ATTR_OS64, Opcode::AdcEqsIb),
        form_opcode(ATTR_NNN2 | ATTR_OS32, Opcode::AdcEdsIb),
        form_opcode(ATTR_NNN2 | ATTR_OS16, Opcode::AdcEwsIb),
        form_opcode(ATTR_NNN3 | ATTR_OS64, Opcode::SbbEqsIb),
        form_opcode(ATTR_NNN3 | ATTR_OS32, Opcode::SbbEdsIb),
        form_opcode(ATTR_NNN3 | ATTR_OS16, Opcode::SbbEwsIb),
        form_opcode(ATTR_NNN4 | ATTR_OS64, Opcode::AndEqsIb),
        form_opcode(ATTR_NNN4 | ATTR_OS32, Opcode::AndEdsIb),
        form_opcode(ATTR_NNN4 | ATTR_OS16, Opcode::AndEwsIb),
        form_opcode(ATTR_NNN5 | ATTR_OS64, Opcode::SubEqsIb),
        form_opcode(ATTR_NNN5 | ATTR_OS32, Opcode::SubEdsIb),
        form_opcode(ATTR_NNN5 | ATTR_OS16, Opcode::SubEwsIb),
        form_opcode(ATTR_NNN6 | ATTR_OS64, Opcode::XorEqsIb),
        form_opcode(ATTR_NNN6 | ATTR_OS32, Opcode::XorEdsIb),
        form_opcode(ATTR_NNN6 | ATTR_OS16, Opcode::XorEwsIb),
        form_opcode(ATTR_NNN7 | ATTR_OS64, Opcode::CmpEqsIb),
        form_opcode(ATTR_NNN7 | ATTR_OS32, Opcode::CmpEdsIb),
        last_opcode(ATTR_NNN7 | ATTR_OS16, Opcode::CmpEwsIb),
    ]
}

fn table_83() -> (t: Vec<OpcodeEntry>)
    ensures
        t@ == spec_table_83(),
{
    vec![
        entry(ATTR_NNN0 | ATTR_OS64, Opcode::AddEqsIb),
        entry(ATTR_NNN0 | ATTR_OS32, Opcode::AddEdsIb),
        entry(ATTR_NNN0 | ATTR_OS16, Opcode::AddEwsIb),
        entry(ATTR_NNN1 | ATTR_OS64, Opcode::OrEqsIb),
        entry(ATTR_NNN1 | ATTR_OS32, Opcode::OrEdsIb),
        entry(ATTR_NNN1 | ATTR_OS16, Opcode::OrEwsIb),
        entry(ATTR_NNN2 | ATTR_OS64, Opcode::AdcEqsIb),
        entry(ATTR_NNN2 | ATTR_OS32, Opcode::AdcEdsIb),
        entry(ATTR_NNN2 | ATTR_OS16, Opcode::AdcEwsIb),
        entry(ATTR_NNN3 | ATTR_OS64, Opcode::SbbEqsIb),
        entry(ATTR_NNN3 | ATTR_OS32, Opcode::SbbEdsIb),
        entry(ATTR_NNN3 | ATTR_OS16, Opcode::SbbEwsIb),
        entry(ATTR_NNN4 | ATTR_OS64, Opcode::AndEqsIb),
        entry(ATTR_NNN4 | ATTR_OS32, Opcode::AndEdsIb),
        entry(ATTR_NNN4 | ATTR_OS16, Opcode::AndEwsIb),
        entry(ATTR_NNN5 | ATTR_OS64, Opcode::SubEqsIb),
        entry(ATTR_NNN5 | ATTR_OS32, Opcode::SubEdsIb),
        entry(ATTR_NNN5 | ATTR_OS16, Opcode::SubEwsIb),
        entry(ATTR_NNN6 | ATTR_OS64, Opcode::XorEqsIb),
        entry(ATTR_NNN6 | ATTR_OS32, Opcode::XorEdsIb),
        entry(ATTR_NNN6 | ATTR_OS16, Opcode::XorEwsIb),
        entry(ATTR_NNN7 | ATTR_OS64, Opcode::CmpEqsIb),
        entry(ATTR_NNN7 | ATTR_OS32, Opcode::CmpEdsIb),
        last_entry(ATTR_NNN7 | ATTR_OS16, Opcode::CmpEwsIb),
    ]
}

/// `BxOpcodeTable84`
pub open spec fn spec_table_84() -> Seq<OpcodeEntry> {
    seq![
        last_opcode(0, Opcode::TestEbGb),
    ]
}

fn table_84() -> (t: Vec<OpcodeEntry>)
    ensures
        t@ == spec_table_84(),
{
    vec![
        last_entry(0, Opcode::TestEbGb),
    ]
}

/// `BxOpcodeTable85`
pub open spec fn spec_table_85() -> Seq<OpcodeEntry> {
    seq![
        form_opcode(ATTR_OS64, Opcode::TestEqGq),
        form_opcode(ATTR_OS32, Opcode::TestEdGd),
        last_opcode(ATTR_OS16, Opcode::TestEwGw),
    ]
}

fn table_85() -> (t: Vec<OpcodeEntry>)
    ensures
        t@ == spec_table_85(),
{
    vec![
        entry(ATTR_OS64, Opcode::TestEqGq),
        entry(ATTR_OS32, Opcode::TestEdGd),
        last_entry(ATTR_OS16, Opcode::TestEwGw),
    ]
}

/// `BxOpcodeTable86`
pub open spec fn spec_table_86() -> Seq<OpcodeEntry> {
    seq![
        last_opcode(0, Opcode::XchgEbGb),
    ]
}

fn table_86() -> (t: Vec<OpcodeEntry>)
    ensures
        t@ == spec_table_86(),
{
    vec![
        last_entry(0, Opcode::XchgEbGb),
    ]
}

/// `BxOpcodeTable87`
pub open spec fn spec_table_87() -> Seq<OpcodeEntry> {
    seq![
        form_opcode(ATTR_OS64, Opcode::XchgEqGq),
        form_opcode(ATTR_OS32, Opcode::XchgEdGd),
        last_opcode(ATTR_OS16, Opcode::XchgEwGw),
    ]
}

fn table_87() -> (t: Vec<OpcodeEntry>)
    ensures
        t@ == spec_table_87(),
{
    vec![
        entry(ATTR_OS64, Opcode::XchgEqGq),
        entry(ATTR_OS32, Opcode::XchgEdGd),
        last_entry(ATTR_OS16, Opcode::XchgEwGw),
    ]
}

/// `BxOpcodeTable88`
pub open spec fn spec_table_88() -> Seq<OpcodeEntry> {
    seq![
        last_opcode(0, Opcode::MovEbGb),
    ]
}

fn table_88() -> (t: Vec<OpcodeEntry>)
    ensures
        t@ == spec_table_88(),
{
    vec![
        last_entry(0, Opcode::MovEbGb),
    ]
}

/// `BxOpcodeTable89`
pub open spec fn spec_table_89() -> Seq<OpcodeEntry> {
    seq![
        form_opcode(ATTR_OS64, Opcode::MovEqGq),
        form_opcode(ATTR_IS64 | ATTR_OS32, Opcode::MovOp64EdGd),
        form_opcode(ATTR_OS32, Opcode::MovOp32EdGd),
        last_opcode(ATTR_OS16, Opcode::MovEwGw),
    ]
}

fn table_89() -> (t: Vec<OpcodeEntry>)
    ensures
        t@ == spec_table_89(),
{
    vec![
        entry(ATTR_OS64, Opcode::MovEqGq),
        entry(ATTR_IS64 | ATTR_OS32, Opcode::MovOp64EdGd),
        entry(ATTR_OS32, Opcode::MovOp32EdGd),
        last_entry(ATTR_OS16, Opcode::MovEwGw),
    ]
}

/// `BxOpcodeTable8A`
pub open spec fn spec_table_8a() -> Seq<OpcodeEntry> {
    seq![
        last_opcode(0, Opcode::MovGbEb),
    ]
}

fn table_8a() -> (t: Vec<OpcodeEntry>)
    ensures
        t@ == spec_table_8a(),
{
    vec![
        last_entry(0, Opcode::MovGbEb),
    ]
}

/// `BxOpcodeTable8B`
pub open spec fn spec_table_8b() -> Seq<OpcodeEntry> {
    seq![
        form_opcode(ATTR_OS64, Opcode::MovGqEq),
        form_opcode(ATTR_IS64 | ATTR_OS32, Opcode::MovOp64GdEd),
        form_opcode(ATTR_OS32, Opcode::MovOp32GdEd),
        last_opcode(ATTR_OS16, Opcode::MovGwEw),
    ]
}

fn table_8b() -> (t: Vec<OpcodeEntry>)
    ensures
        t@ == spec_table_8b(),
{
    vec![
        entry(ATTR_OS64, Opcode::MovGqEq),
        entry(ATTR_IS64 | ATTR_OS32, Opcode::MovOp64GdEd),
        entry(ATTR_OS32, Opcode::MovOp32GdEd),
        last_entry(ATTR_OS16, Opcode::MovGwEw),
    ]
}

/// `BxOpcodeTable8C`
pub open spec fn spec_table_8c() -> Seq<OpcodeEntry> {
    seq![
        last_opcode(0, Opcode::MovEwSw),
    ]
}

fn table_8c() -> (t: Vec<OpcodeEntry>)
    ensures
        t@ == spec_table_8c(),
{
    vec![
        last_entry(0, Opcode::MovEwSw),
    ]
}

/// `BxOpcodeTable8D`
pub open spec fn spec_table_8d() -> Seq<OpcodeEntry> {
    seq![
        form_opcode(ATTR_OS64 | ATTR_MOD_MEM, Opcode::LeaGqM),
        form_opcode(ATTR_OS32 | ATTR_MOD_MEM, Opcode::LeaGdM),
        last_opcode(ATTR_OS16 | ATTR_MOD_MEM, Opcode::LeaGwM),
    ]
}

fn table_8d() -> (t: Vec<OpcodeEntry>)
    ensures
        t@ == spec_table_8d(),
{
    vec![
        entry(ATTR_OS64 | ATTR_MOD_MEM, Opcode::LeaGqM),
        entry(ATTR_OS32 | ATTR_MOD_MEM, Opcode::LeaGdM),
        last_entry(ATTR_OS16 | ATTR_MOD_MEM, Opcode::LeaGwM),
    ]
}

/// `BxOpcodeTable8E`
pub open spec fn spec_table_8e() -> Seq<OpcodeEntry> {
    seq![
        last_opcode(0, Opcode::MovSwEw),
    ]
}

fn table_8e() -> (t: Vec<OpcodeEntry>)
    ensures
        t@ == spec_table_8e(),
{
    vec![
        last_entry(0, Opcode::MovSwEw),
    ]
}

/// `BxOpcodeTable8F`
pub open spec fn spec_table_8f() -> Seq<OpcodeEntry> {
    seq![
        form_opcode(ATTR_IS64 | ATTR_NNN0 | ATTR_OS16, Opcode::PopEw),
        form_opcode(ATTR_IS64 | ATTR_NNN0, Opcode::PopEq),
        form_opcode(ATTR_NNN0 | ATTR_OS32, Opcode::PopEd),
        last_opcode(ATTR_NNN0 | ATTR_OS16, Opcode::PopEw),
    ]
}

fn table_8f() -> (t: Vec<OpcodeEntry>)
    ensures
        t@ == spec_table_8f(),
{
    vec![
        entry(ATTR_IS64 | ATTR_NNN0 | ATTR_OS16, Opcode::PopEw),
        entry(ATTR_IS64 | ATTR_NNN0, Opcode::PopEq),
        entry(ATTR_NNN0 | ATTR_OS32, Opcode::PopEd),
        last_entry(ATTR_NNN0 | ATTR_OS16, Opcode::PopEw),
    ]
}

/// `BxOpcodeTable90x97`
pub open spec fn spec_table_90x97() -> Seq<OpcodeEntry> {
    seq![
        form_opcode(ATTR_OS64, Opcode::XchgRrxRax),
        form_opcode(ATTR_OS32, Opcode::XchgErxEax),
        last_opcode(ATTR_OS16, Opcode::XchgRxax),
    ]
}

fn table_90x97() -> (t: Vec<OpcodeEntry>)
    ensures
        t@ == spec_table_90x97(),
{
    vec![
        entry(ATTR_OS64, Opcode::XchgRrxRax),
        entry(ATTR_OS32, Opcode::XchgErxEax),
        last_entry(ATTR_OS16, Opcode::XchgRxax),
    ]
}

/// `BxOpcodeTable98`
pub open spec fn spec_table_98() -> Seq<OpcodeEntry> {
    seq![
        form_opcode(ATTR_OS64, Opcode::Cdqe),
        form_opcode(ATTR_OS32, Opcode::Cwde),
        last_opcode(ATTR_OS16, Opcode::Cbw),
    ]
}

fn table_98() -> (t: Vec<OpcodeEntry>)
    ensures
        t@ == spec_table_98(),
{
    vec![
        entry(ATTR_OS64, Opcode::Cdqe),
        entry(ATTR_OS32, Opcode::Cwde),
        last_entry(ATTR_OS16, Opcode::Cbw),
    ]
}

/// `BxOpcodeTable99`
pub open spec fn spec_table_99() -> Seq<OpcodeEntry> {
    seq![
        form_opcode(ATTR_OS64, Opcode::Cqo),
        form_opcode(ATTR_OS32, Opcode::Cdq),
        last_opcode(ATTR_OS16, Opcode::Cwd),
    ]
}

fn table_99() -> (t: Vec<OpcodeEntry>)
    ensures
        t@ == spec_table_99(),
{
    vec![
        entry(ATTR_OS64, Opcode::Cqo),
        entry(ATTR_OS32, Opcode::Cdq),
        last_entry(ATTR_OS16, Opcode::Cwd),
    ]
}

/// `BxOpcodeTable9A`
pub open spec fn spec_table_9a() -> Seq<OpcodeEntry> {
    seq![
        form_opcode(ATTR_IS32 | ATTR_OS32, Opcode::CallfOp32Ap),
        last_opcode(ATTR_IS32 | ATTR_OS16, Opcode::CallfOp16Ap),
    ]
}

fn table_9a() -> (t: Vec<OpcodeEntry>)
    ensures
        t@ == spec_table_9a(),
{
    vec![
        entry(ATTR_IS32 | ATTR_OS32, Opcode::CallfOp32Ap),
        last_entry(ATTR_IS32 | ATTR_OS16, Opcode::CallfOp16Ap),
    ]
}

/// `BxOpcodeTable9B`
pub open spec fn spec_table_9b() -> Seq<OpcodeEntry> {
    seq![
        last_opcode(0, Opcode::Fwait),
    ]
}

fn table_9b() -> (t: Vec<OpcodeEntry>)
    ensures
        t@ == spec_table_9b(),
{
    vec![
        last_entry(0, Opcode::Fwait),
    ]
}

/// `BxOpcodeTable9C`
pub open spec fn spec_table_9c() -> Seq<OpcodeEntry> {
    seq![
        form_opcode(ATTR_IS64 | ATTR_OS16, Opcode::PushfFw),
        form_opcode(ATTR_IS64, Opcode::PushfFq),
        form_opcode(ATTR_OS32, Opcode::PushfFd),
        last_opcode(ATTR_OS16, Opcode::PushfFw),
    ]
}

fn table_9c() -> (t: Vec<OpcodeEntry>)
    ensures
        t@ == spec_table_9c(),
{
    vec![
        entry(ATTR_IS64 | ATTR_OS16, Opcode::PushfFw),
        entry(ATTR_IS64, Opcode::PushfFq),
        entry(ATTR_OS32, Opcode::PushfFd),
        last_entry(ATTR_OS16, Opcode::PushfFw),
    ]
}

/// `BxOpcodeTable9D`
pub open spec fn spec_table_9d() -> Seq<OpcodeEntry> {
    seq![
        form_opcode(ATTR_IS64 | ATTR_OS16, Opcode::PopfFw),
        form_opcode(ATTR_IS64, Opcode::PopfFq),
        form_opcode(ATTR_OS32, Opcode::PopfFd),
        last_opcode(ATTR_OS16, Opcode::PopfFw),
    ]
}

fn table_9d() -> (t: Vec<OpcodeEntry>)
    ensures
        t@ == spec_table_9d(),
{
    vec![
        entry(ATTR_IS64 | ATTR_OS16, Opcode::PopfFw),
        entry(ATTR_IS64, Opcode::PopfFq),
        entry(ATTR_OS32, Opcode::PopfFd),
        last_entry(ATTR_OS16, Opcode::PopfFw),
    ]
}

/// `BxOpcodeTable9E_32`
pub open spec fn spec_table_9e_32() -> Seq<OpcodeEntry> {
    seq![
        last_opcode(0, Opcode::Sahf),
    ]
}

fn table_9e_32() -> (t: Vec<OpcodeEntry>)
    ensures
        t@ == spec_table_9e_32(),
{
    vec![
        last_entry(0, Opcode::Sahf),
    ]
}

/// `BxOpcodeTable9F_32`
pub open spec fn spec_table_9f_32() -> Seq<OpcodeEntry> {
    seq![
        last_opcode(0, Opcode::Lahf),
    ]
}

fn table_9f_32() -> (t: Vec<OpcodeEntry>)
    ensures
        t@ == spec_table_9f_32(),
{
    vec![
        last_entry(0, Opcode::Lahf),
    ]
}

/// `BxOpcodeTableA0_32`
pub open spec fn spec_table_a0_32() -> Seq<OpcodeEntry> {
    seq![
        last_opcode(0, Opcode::MovAlod),
    ]
}

fn table_a0_32() -> (t: Vec<OpcodeEntry>)
    ensures
        t@ == spec_table_a0_32(),
{
    vec![
        last_entry(0, Opcode::MovAlod),
    ]
}

/// `BxOpcodeTableA1_32`
pub open spec fn spec_table_a1_32() -> Seq<OpcodeEntry> {
    seq![
        form_opcode(ATTR_OS32, Opcode::MovEaxod),
        last_opcode(ATTR_OS16, Opcode::MovAxod),
    ]
}

fn table_a1_32() -> (t: Vec<OpcodeEntry>)
    ensures
        t@ == spec_table_a1_32(),
{
    vec![
        entry(ATTR_OS32, Opcode::MovEaxod),
        last_entry(ATTR_OS16, Opcode::MovAxod),
    ]
}

/// `BxOpcodeTableA2_32`
pub open spec fn spec_table_a2_32() -> Seq<OpcodeEntry> {
    seq![
        last_opcode(0, Opcode::MovOdAl),
    ]
}

fn table_a2_32() -> (t: Vec<OpcodeEntry>)
    ensures
        t@ == spec_table_a2_32(),
{
    vec![
        last_entry(0, Opcode::MovOdAl),
    ]
}

/// `BxOpcodeTableA3_32`
pub open spec fn spec_table_a3_32() -> Seq<OpcodeEntry> {
    seq![
        form_opcode(ATTR_OS32, Opcode::MovOdEax),
        last_opcode(ATTR_OS16, Opcode::MovOdAx),
    ]
}

fn table_a3_32() -> (t: Vec<OpcodeEntry>)
    ensures
        t@ == spec_table_a3_32(),
{
    vec![
        entry(ATTR_OS32, Opcode::MovOdEax),
        last_entry(ATTR_OS16, Opcode::MovOdAx),
    ]
}

/// `BxOpcodeTableA4`
pub open spec fn spec_table_a4() -> Seq<OpcodeEntry> {
    seq![
        last_opcode(0, Opcode::RepMovsbYbXb),
    ]
}

fn table_a4() -> (t: Vec<OpcodeEntry>)
    ensures
        t@ == spec_table_a4(),
{
    vec![
        last_entry(0, Opcode::RepMovsbYbXb),
    ]
}

/// `BxOpcodeTableA5`
pub open spec fn spec_table_a5() -> Seq<OpcodeEntry> {
    seq![
        form_opcode(ATTR_OS64, Opcode::RepMovsqYqXq),
        form_opcode(ATTR_OS32, Opcode::RepMovsdYdXd),
        last_opcode(ATTR_OS16, Opcode::RepMovswYwXw),
    ]
}

fn table_a5() -> (t: Vec<OpcodeEntry>)
    ensures
        t@ == spec_table_a5(),
{
    vec![
        entry(ATTR_OS64, Opcode::RepMovsqYqXq),
        entry(ATTR_OS32, Opcode::RepMovsdYdXd),
        last_entry(ATTR_OS16, Opcode::RepMovswYwXw),
    ]
}

/// `BxOpcodeTableA6`
pub open spec fn spec_table_a6() -> Seq<OpcodeEntry> {
    seq![
        last_opcode(0, Opcode::RepCmpsbXbYb),
    ]
}

fn table_a6() -> (t: Vec<OpcodeEntry>)
    ensures
        t@ == spec_table_a6(),
{
    vec![
        last_entry(0, Opcode::RepCmpsbXbYb),
    ]
}

/// `BxOpcodeTableA7`
pub open spec fn spec_table_a7() -> Seq<OpcodeEntry> {
    seq![
        form_opcode(ATTR_OS64, Opcode::RepCmpsqXqYq),
        form_opcode(ATTR_OS32, Opcode::RepCmpsdXdYd),
        last_opcode(ATTR_OS16, Opcode::RepCmpswXwYw),
    ]
}

fn table_a7() -> (t: Vec<OpcodeEntry>)
    ensures
        t@ == spec_table_a7(),
{
    vec![
        entry(ATTR_OS64, Opcode::RepCmpsqXqYq),
        entry(ATTR_OS32, Opcode::RepCmpsdXdYd),
        last_entry(ATTR_OS16, Opcode::RepCmpswXwYw),
    ]
}

/// `BxOpcodeTableA8`
pub open spec fn spec_table_a8() -> Seq<OpcodeEntry> {
    seq![
        last_opcode(0, Opcode::TestAlib),
    ]
}

fn table_a8() -> (t: Vec<OpcodeEntry>)
    ensures
        t@ == spec_table_a8(),
{
    vec![
        last_entry(0, Opcode::TestAlib),
    ]
}

/// `BxOpcodeTableA9`
pub open spec fn spec_table_a9() -> Seq<OpcodeEntry> {
    seq![
        form_opcode(ATTR_OS64, Opcode::TestRaxid),
        form_opcode(ATTR_OS32, Opcode::TestEaxid),
        last_opcode(ATTR_OS16, Opcode::TestAxiw),
    ]
}

fn table_a9() -> (t: Vec<OpcodeEntry>)
    ensures
        t@ == spec_table_a9(),
{
    vec![
        entry(ATTR_OS64, Opcode::TestRaxid),
        entry(ATTR_OS32, Opcode::TestEaxid),
        last_entry(ATTR_OS16, Opcode::TestAxiw),
    ]
}

/// `BxOpcodeTableAA`
pub open spec fn spec_table_aa() -> Seq<OpcodeEntry> {
    seq![
        last_opcode(0, Opcode::RepStosbYbAl),
    ]
}

fn table_aa() -> (t: Vec<OpcodeEntry>)
    ensures
        t@ == spec_table_aa(),
{
    vec![
        last_entry(0, Opcode::RepStosbYbAl),
    ]
}

/// `BxOpcodeTableAB`
pub open spec fn spec_table_ab() -> Seq<OpcodeEntry> {
    seq![
        form_opcode(ATTR_OS64, Opcode::RepStosqYqRax),
        form_opcode(ATTR_OS32, Opcode::RepStosdYdEax),
        last_opcode(ATTR_OS16, Opcode::RepStoswYwAx),
    ]
}

fn table_ab() -> (t: Vec<OpcodeEntry>)
    ensures
        t@ == spec_table_ab(),
{
    vec![
        entry(ATTR_OS64, Opcode::RepStosqYqRax),
        entry(ATTR_OS32, Opcode::RepStosdYdEax),
        last_entry(ATTR_OS16, Opcode::RepStoswYwAx),
    ]
}

/// `BxOpcodeTableAC`
pub open spec fn spec_table_ac() -> Seq<OpcodeEntry> {
    seq![
        last_opcode(0, Opcode::RepLodsbAlxb),
    ]
}

fn table_ac() -> (t: Vec<OpcodeEntry>)
    ensures
        t@ == spec_table_ac(),
{
    vec![
        last_entry(0, Opcode::RepLodsbAlxb),
    ]
}

/// `BxOpcodeTableAD`
pub open spec fn spec_table_ad() -> Seq<OpcodeEntry> {
    seq![
        form_opcode(ATTR_OS64, Opcode::RepLodsqRaxxq),
        form_opcode(ATTR_OS32, Opcode::RepLodsdEaxxd),
        last_opcode(ATTR_OS16, Opcode::RepLodswAxxw),
    ]
}

fn table_ad() -> (t: Vec<OpcodeEntry>)
    ensures
        t@ == spec_table_ad(),
{
    vec![
        entry(ATTR_OS64, Opcode::RepLodsqRaxxq),
        entry(ATTR_OS32, Opcode::RepLodsdEaxxd),
        last_entry(ATTR_OS16, Opcode::RepLodswAxxw),
    ]
}

/// `BxOpcodeTableAE`
pub open spec fn spec_table_ae() -> Seq<OpcodeEntry> {
    seq![
        last_opcode(0, Opcode::RepScasbAlyb),
    ]
}

fn table_ae() -> (t: Vec<OpcodeEntry>)
    ensures
        t@ == spec_table_ae(),
{
    vec![
        last_entry(0, Opcode::RepScasbAlyb),
    ]
}

/// `BxOpcodeTableAF`
pub open spec fn spec_table_af() -> Seq<OpcodeEntry> {
    seq![
        form_opcode(ATTR_OS64, Opcode::RepScasqRaxyq),
        form_opcode(ATTR_OS32, Opcode::RepScasdEaxyd),
        last_opcode(ATTR_OS16, Opcode::RepScaswAxyw),
    ]
}

fn table_af() -> (t: Vec<OpcodeEntry>)
    ensures
        t@ == spec_table_af(),
{
    vec![
        entry(ATTR_OS64, Opcode::RepScasqRaxyq),
        entry(ATTR_OS32, Opcode::RepScasdEaxyd),
        last_entry(ATTR_OS16, Opcode::RepScaswAxyw),
    ]
}

/// `BxOpcodeTableB0xB7`
pub open spec fn spec_table_b0xb7() -> Seq<OpcodeEntry> {
    seq![
        last_opcode(0, Opcode::MovEbIb),
    ]
}

fn table_b0xb7() -> (t: Vec<OpcodeEntry>)
    ensures
        t@ == spec_table_b0xb7(),
{
    vec![
        last_entry(0, Opcode::MovEbIb),
    ]
}

/// `BxOpcodeTableB8xBF`
pub open spec fn spec_table_b8xbf() -> Seq<OpcodeEntry> {
    seq![
        form_opcode(ATTR_OS64, Opcode::MovRrxiq),
        form_opcode(ATTR_OS32, Opcode::MovEdId),
        last_opcode(ATTR_OS16, Opcode::MovEwIw),
    ]
}

fn table_b8xbf() -> (t: Vec<OpcodeEntry>)
    ensures
        t@ == spec_table_b8xbf(),
{
    vec![
        entry(ATTR_OS64, Opcode::MovRrxiq),
        entry(ATTR_OS32, Opcode::MovEdId),
        last_entry(ATTR_OS16, Opcode::MovEwIw),
    ]
}

/// `BxOpcodeTableC0`
pub open spec fn spec_table_c0() -> Seq<OpcodeEntry> {
    seq![
        form_opcode(ATTR_NNN0, Opcode::RolEbIb),
        form_opcode(ATTR_NNN1, Opcode::RorEbIb),
        form_opcode(ATTR_NNN2, Opcode::RclEbIb),
        form_opcode(ATTR_NNN3, Opcode::RcrEbIb),
        form_opcode(ATTR_NNN4, Opcode::ShlEbIb),
        form_opcode(ATTR_NNN5, Opcode::ShrEbIb),
        form_opcode(ATTR_NNN6, Opcode::ShlEbIb),
        last_opcode(ATTR_NNN7, Opcode::SarEbIb),
    ]
}

fn table_c0() -> (t: Vec<OpcodeEntry>)
    ensures
        t@ == spec_table_c0(),
{
    vec![
        entry(ATTR_NNN0, Opcode::RolEbIb),
        entry(ATTR_NNN1, Opcode::RorEbIb),
        entry(ATTR_NNN2, Opcode::RclEbIb),
        entry(ATTR_NNN3, Opcode::RcrEbIb),
        entry(ATTR_NNN4, Opcode::ShlEbIb),
        entry(ATTR_NNN5, Opcode::ShrEbIb),
        entry(ATTR_NNN6, Opcode::ShlEbIb),
        last_entry(ATTR_NNN7, Opcode::SarEbIb),
    ]
}

/// `BxOpcodeTableC1`
pub open spec fn spec_table_c1() -> Seq<OpcodeEntry> {
    seq![
        form_opcode(ATTR_NNN0 | ATTR_OS64, Opcode::RolEqIb),
        form_opcode(ATTR_NNN0 | ATTR_OS32, Opcode::RolEdIb),
        form_opcode(ATTR_NNN0 | ATTR_OS16, Opcode::RolEwIb),
        form_opcode(ATTR_NNN1 | ATTR_OS64, Opcode::RorEqIb),
        form_opcode(ATTR_NNN1 | ATTR_OS32, Opcode::RorEdIb),
        form_opcode(ATTR_NNN1 | ATTR_OS16, Opcode::RorEwIb),
        form_opcode(ATTR_NNN2 | ATTR_OS64, Opcode::RclEqIb),
        form_opcode(ATTR_NNN2 | ATTR_OS32, Opcode::RclEdIb),
        form_opcode(ATTR_NNN2 | ATTR_OS16, Opcode::RclEwIb),
        form_opcode(ATTR_NNN3 | ATTR_OS64, Opcode::RcrEqIb),
        form_opcode(ATTR_NNN3 | ATTR_OS32, Opcode::RcrEdIb),
        form_opcode(ATTR_NNN3 | ATTR_OS16, Opcode::RcrEwIb),
        form_opcode(ATTR_NNN4 | ATTR_OS64, Opcode::ShlEqIb),
        form_opcode(ATTR_NNN4 | ATTR_OS32, Opcode::ShlEdIb),
        form_opcode(ATTR_NNN4 | ATTR_OS16, Opcode::ShlEwIb),
        form_opcode(ATTR_NNN5 | ATTR_OS64, Opcode::ShrEqIb),
        form_opcode(ATTR_NNN5 | ATTR_OS32, Opcode::ShrEdIb),
        form_opcode(ATTR_NNN5 | ATTR_OS16, Opcode::ShrEwIb),
        form_opcode(ATTR_NNN6 | ATTR_OS64, Opcode::ShlEqIb),
        form_opcode(ATTR_NNN6 | ATTR_OS32, Opcode::ShlEdIb),
        form_opcode(ATTR_NNN6 | ATTR_OS16, Opcode::ShlEwIb),
        form_opcode(ATTR_NNN7 | ATTR_OS64, Opcode::SarEqIb),
        form_opcode(ATTR_NNN7 | ATTR_OS32, Opcode::SarEdIb),
        last_opcode(ATTR_NNN7 | ATTR_OS16, Opcode::SarEwIb),
    ]
}

fn table_c1() -> (t: Vec<OpcodeEntry>)
    ensures
        t@ == spec_table_c1(),
{
    vec![
        entry(ATTR_NNN0 | ATTR_OS64, Opcode::RolEqIb),
        entry(ATTR_NNN0 | ATTR_OS32, Opcode::RolEdIb),
        entry(ATTR_NNN0 | ATTR_OS16, Opcode::RolEwIb),
        entry(ATTR_NNN1 | ATTR_OS64, Opcode::RorEqIb),
        entry(ATTR_NNN1 | ATTR_OS32, Opcode::RorEdIb),
        entry(ATTR_NNN1 | ATTR_OS16, Opcode::RorEwIb),
        entry(ATTR_NNN2 | ATTR_OS64, Opcode::RclEqIb),
        entry(ATTR_NNN2 | ATTR_OS32, Opcode::RclEdIb),
        entry(ATTR_NNN2 | ATTR_OS16, Opcode::RclEwIb),
        entry(ATTR_NNN3 | ATTR_OS64, Opcode::RcrEqIb),
        entry(ATTR_NNN3 | ATTR_OS32, Opcode::RcrEdIb),
        entry(ATTR_NNN3 | ATTR_OS16, Opcode::RcrEwIb),
        entry(ATTR_NNN4 | ATTR_OS64, Opcode::ShlEqIb),
        entry(ATTR_NNN4 | ATTR_OS32, Opcode::ShlEdIb),
        entry(ATTR_NNN4 | ATTR_OS16, Opcode::ShlEwIb),
        entry(ATTR_NNN5 | ATTR_OS64, Opcode::ShrEqIb),
        entry(ATTR_NNN5 | ATTR_OS32, Opcode::ShrEdIb),
        entry(ATTR_NNN5 | ATTR_OS16, Opcode::ShrEwIb),
        entry(ATTR_NNN6 | ATTR_OS64, Opcode::ShlEqIb),
        entry(ATTR_NNN6 | ATTR_OS32, Opcode::ShlEdIb),
        entry(ATTR_NNN6 | ATTR_OS16, Opcode::ShlEwIb),
        entry(ATTR_NNN7 | ATTR_OS64, Opcode::SarEqIb),
        entry(ATTR_NNN7 | ATTR_OS32, Opcode::SarEdIb),
        last_entry(ATTR_NNN7 | ATTR_OS16, Opcode::SarEwIb),
    ]
}

/// `BxOpcodeTableC2_32`
pub open spec fn spec_table_c2_32() -> Seq<OpcodeEntry> {
    seq![
        form_opcode(ATTR_OS32, Opcode::RetOp32Iw),
        last_opcode(ATTR_OS16, Opcode::RetOp16Iw),
    ]
}

fn table_c2_32() -> (t: Vec<OpcodeEntry>)
    ensures
        t@ == spec_table_c2_32(),
{
    vec![
        entry(ATTR_OS32, Opcode::RetOp32Iw),
        last_entry(ATTR_OS16, Opcode::RetOp16Iw),
    ]
}

/// `BxOpcodeTableC3_32`
pub open spec fn spec_table_c3_32() -> Seq<OpcodeEntry> {
    seq![
        form_opcode(ATTR_OS32, Opcode::RetOp32),
        last_opcode(ATTR_OS16, Opcode::RetOp16),
    ]
}

fn table_c3_32() -> (t: Vec<OpcodeEntry>)
    ensures
        t@ == spec_table_c3_32(),
{
    vec![
        entry(ATTR_OS32, Opcode::RetOp32),
        last_entry(ATTR_OS16, Opcode::RetOp16),
    ]
}

/// `BxOpcodeTableC4_32`
pub open spec fn spec_table_c4_32() -> Seq<OpcodeEntry> {
    seq![
        form_opcode(ATTR_OS32 | ATTR_MOD_MEM, Opcode::LesGdMp),
        last_opcode(ATTR_OS16 | ATTR_MOD_MEM, Opcode::LesGwMp),
    ]
}

fn table_c4_32() -> (t: Vec<OpcodeEntry>)
    ensures
        t@ == spec_table_c4_32(),
{
    vec![
        entry(ATTR_OS32 | ATTR_MOD_MEM, Opcode::LesGdMp),
        last_entry(ATTR_OS16 | ATTR_MOD_MEM, Opcode::LesGwMp),
    ]
}

/// `BxOpcodeTableC5_32`
pub open spec fn spec_table_c5_32() -> Seq<OpcodeEntry> {
    seq![
        form_opcode(ATTR_OS32 | ATTR_MOD_MEM, Opcode::LdsGdMp),
        last_opcode(ATTR_OS16 | ATTR_MOD_MEM, Opcode::LdsGwMp),
    ]
}

fn table_c5_32() -> (t: Vec<OpcodeEntry>)
    ensures
        t@ == spec_table_c5_32(),
{
    vec![
        entry(ATTR_OS32 | ATTR_MOD_MEM, Opcode::LdsGdMp),
        last_entry(ATTR_OS16 | ATTR_MOD_MEM, Opcode::LdsGwMp),
    ]
}

/// `BxOpcodeTableC6`
pub open spec fn spec_table_c6() -> Seq<OpcodeEntry> {
    seq![
        last_opcode(ATTR_NNN0, Opcode::MovEbIb),
    ]
}

fn table_c6() -> (t: Vec<OpcodeEntry>)
    ensures
        t@ == spec_table_c6(),
{
    vec![
        last_entry(ATTR_NNN0, Opcode::MovEbIb),
    ]
}

/// `BxOpcodeTableC7`
pub open spec fn spec_table_c7() -> Seq<OpcodeEntry> {
    seq![
        form_opcode(ATTR_NNN0 | ATTR_OS64, Opcode::MovEqId),
        form_opcode(ATTR_NNN0 | ATTR_OS32, Opcode::MovEdId),
        last_opcode(ATTR_NNN0 | ATTR_OS16, Opcode::MovEwIw),
    ]
}

fn table_c7() -> (t: Vec<OpcodeEntry>)
    ensures
        t@ == spec_table_c7(),
{
    vec![
        entry(ATTR_NNN0 | ATTR_OS64, Opcode::MovEqId),
        entry(ATTR_NNN0 | ATTR_OS32, Opcode::MovEdId),
        last_entry(ATTR_NNN0 | ATTR_OS16, Opcode::MovEwIw),
    ]
}

/// `BxOpcodeTableC8_32`
pub open spec fn spec_table_c8_32() -> Seq<OpcodeEntry> {
    seq![
        form_opcode(ATTR_OS32, Opcode::EnterOp32IwIb),
        last_opcode(ATTR_OS16, Opcode::EnterOp16IwIb),
    ]
}

fn table_c8_32() -> (t: Vec<OpcodeEntry>)
    ensures
        t@ == spec_table_c8_32(),
{
    vec![
        entry(ATTR_OS32, Opcode::EnterOp32IwIb),
        last_entry(ATTR_OS16, Opcode::EnterOp16IwIb),
    ]
}

/// `BxOpcodeTableC9_32`
pub open spec fn spec_table_c9_32() -> Seq<OpcodeEntry> {
    seq![
        form_opcode(ATTR_OS32, Opcode::LeaveOp32),
        last_opcode(ATTR_OS16, Opcode::LeaveOp16),
    ]
}

fn table_c9_32() -> (t: Vec<OpcodeEntry>)
    ensures
        t@ == spec_table_c9_32(),
{
    vec![
        entry(ATTR_OS32, Opcode::LeaveOp32),
        last_entry(ATTR_OS16, Opcode::LeaveOp16),
    ]
}

/// `BxOpcodeTableCA`
pub open spec fn spec_table_ca() -> Seq<OpcodeEntry> {
    seq![
        form_opcode(ATTR_OS64, Opcode::RetfOp64Iw),
        form_opcode(ATTR_OS32, Opcode::RetfOp32Iw),
        last_opcode(ATTR_OS16, Opcode::RetfOp16Iw),
    ]
}

fn table_ca() -> (t: Vec<OpcodeEntry>)
    ensures
        t@ == spec_table_ca(),
{
    vec![
        entry(ATTR_OS64, Opcode::RetfOp64Iw),
        entry(ATTR_OS32, Opcode::RetfOp32Iw),
        last_entry(ATTR_OS16, Opcode::RetfOp16Iw),
    ]
}

/// `BxOpcodeTableCB`
pub open spec fn spec_table_cb() -> Seq<OpcodeEntry> {
    seq![
        form_opcode(ATTR_OS64, Opcode::RetfOp64),
        form_opcode(ATTR_OS32, Opcode::RetfOp32),
        last_opcode(ATTR_OS16, Opcode::RetfOp16),
    ]
}

fn table_cb() -> (t: Vec<OpcodeEntry>)
    ensures
        t@ == spec_table_cb(),
{
    vec![
        entry(ATTR_OS64, Opcode::RetfOp64),
        entry(ATTR_OS32, Opcode::RetfOp32),
        last_entry(ATTR_OS16, Opcode::RetfOp16),
    ]
}

/// `BxOpcodeTableCC`
pub open spec fn spec_table_cc() -> Seq<OpcodeEntry> {
    seq![
        last_opcode(0, Opcode::INT3),
    ]
}

fn table_cc() -> (t: Vec<OpcodeEntry>)
    ensures
        t@ == spec_table_cc(),
{
    vec![
        last_entry(0, Opcode::INT3),
    ]
}

/// `BxOpcodeTableCD`
pub open spec fn spec_table_cd() -> Seq<OpcodeEntry> {
    seq![
        last_opcode(0, Opcode::IntIb),
    ]
}

fn table_cd() -> (t: Vec<OpcodeEntry>)
    ensures
        t@ == spec_table_cd(),
{
    vec![
        last_entry(0, Opcode::IntIb),
    ]
}

/// `BxOpcodeTableCE`
pub open spec fn spec_table_ce() -> Seq<OpcodeEntry> {
    seq![
        last_opcode(ATTR_IS32, Opcode::Int0),
    ]
}

fn table_ce() -> (t: Vec<OpcodeEntry>)
    ensures
        t@ == spec_table_ce(),
{
    vec![
        last_entry(ATTR_IS32, Opcode::Int0),
    ]
}

/// `BxOpcodeTableCF_32`
pub open spec fn spec_table_cf_32() -> Seq<OpcodeEntry> {
    seq![
        form_opcode(ATTR_OS32, Opcode::IretOp32),
        last_opcode(ATTR_OS16, Opcode::IretOp16),
    ]
}

fn table_cf_32() -> (t: Vec<OpcodeEntry>)
    ensures
        t@ == spec_table_cf_32(),
{
    vec![
        entry(ATTR_OS32, Opcode::IretOp32),
        last_entry(ATTR_OS16, Opcode::IretOp16),
    ]
}

/// `BxOpcodeTableD0`
pub open spec fn spec_table_d0() -> Seq<OpcodeEntry> {
    seq![
        form_opcode(ATTR_NNN0, Opcode::RolEbI1),
        form_opcode(ATTR_NNN1, Opcode::RorEbI1),
        form_opcode(ATTR_NNN2, Opcode::RclEbI1),
        form_opcode(ATTR_NNN3, Opcode::RcrEbI1),
        form_opcode(ATTR_NNN4, Opcode::ShlEbI1),
        form_opcode(ATTR_NNN5, Opcode::ShrEbI1),
        form_opcode(ATTR_NNN6, Opcode::ShlEbI1),
        last_opcode(ATTR_NNN7, Opcode::SarEbI1),
    ]
}

fn table_d0() -> (t: Vec<OpcodeEntry>)
    ensures
        t@ == spec_table_d0(),
{
    vec![
        entry(ATTR_NNN0, Opcode::RolEbI1),
        entry(ATTR_NNN1, Opcode::RorEbI1),
        entry(ATTR_NNN2, Opcode::RclEbI1),
        entry(ATTR_NNN3, Opcode::RcrEbI1),
        entry(ATTR_NNN4, Opcode::ShlEbI1),
        entry(ATTR_NNN5, Opcode::ShrEbI1),
        entry(ATTR_NNN6, Opcode::ShlEbI1),
        last_entry(ATTR_NNN7, Opcode::SarEbI1),
    ]
}

/// `BxOpcodeTableD1`
pub open spec fn spec_table_d1() -> Seq<OpcodeEntry> {
    seq![
        form_opcode(ATTR_NNN0 | ATTR_OS64, Opcode::RolEqI1),
        form_opcode(ATTR_NNN0 | ATTR_OS32, Opcode::RolEdI1),
        form_opcode(ATTR_NNN0 | ATTR_OS16, Opcode::RolEwI1),
        form_opcode(ATTR_NNN1 | ATTR_OS64, Opcode::RorEqI1),
        form_opcode(ATTR_NNN1 | ATTR_OS32, Opcode::RorEdI1),
        form_opcode(ATTR_NNN1 | ATTR_OS16, Opcode::RorEwI1),
        form_opcode(ATTR_NNN2 | ATTR_OS64, Opcode::RclEqI1),
        form_opcode(ATTR_NNN2 | ATTR_OS32, Opcode::RclEdI1),
        form_opcode(ATTR_NNN2 | ATTR_OS16, Opcode::RclEwI1),
        form_opcode(ATTR_NNN3 | ATTR_OS64, Opcode::RcrEqI1),
        form_opcode(ATTR_NNN3 | ATTR_OS32, Opcode::RcrEdI1),
        form_opcode(ATTR_NNN3 | ATTR_OS16, Opcode::RcrEwI1),
        form_opcode(ATTR_NNN4 | ATTR_OS64, Opcode::ShlEqI1),
        form_opcode(ATTR_NNN4 | ATTR_OS32, Opcode::ShlEdI1),
        form_opcode(ATTR_NNN4 | ATTR_OS16, Opcode::ShlEwI1),
        form_opcode(ATTR_NNN5 | ATTR_OS64, Opcode::ShrEqI1),
        form_opcode(ATTR_NNN5 | ATTR_OS32, Opcode::ShrEdI1),
        form_opcode(ATTR_NNN5 | ATTR_OS16, Opcode::ShrEwI1),
        form_opcode(ATTR_NNN6 | ATTR_OS64, Opcode::ShlEqI1),
        form_opcode(ATTR_NNN6 | ATTR_OS32, Opcode::ShlEdI1),
        form_opcode(ATTR_NNN6 | ATTR_OS16, Opcode::ShlEwI1),
        form_opcode(ATTR_NNN7 | ATTR_OS64, Opcode::SarEqI1),
        form_opcode(ATTR_NNN7 | ATTR_OS32, Opcode::SarEdI1),
        last_opcode(ATTR_NNN7 | ATTR_OS16, Opcode::SarEwI1),
    ]
}

fn table_d1() -> (t: Vec<OpcodeEntry>)
    ensures
        t@ == spec_table_d1(),
{
    vec![
        entry(ATTR_NNN0 | ATTR_OS64, Opcode::RolEqI1),
        entry(ATTR_NNN0 | ATTR_OS32, Opcode::RolEdI1),
        entry(ATTR_NNN0 | ATTR_OS16, Opcode::RolEwI1),
        entry(ATTR_NNN1 | ATTR_OS64, Opcode::RorEqI1),
        entry(ATTR_NNN1 | ATTR_OS32, Opcode::RorEdI1),
        entry(ATTR_NNN1 | ATTR_OS16, Opcode::RorEwI1),
        entry(ATTR_NNN2 | ATTR_OS64, Opcode::RclEqI1),
        entry(ATTR_NNN2 | ATTR_OS32, Opcode::RclEdI1),
        entry(ATTR_NNN2 | ATTR_OS16, Opcode::RclEwI1),
        entry(ATTR_NNN3 | ATTR_OS64, Opcode::RcrEqI1),
        entry(ATTR_NNN3 | ATTR_OS32, Opcode::RcrEdI1),
        entry(ATTR_NNN3 | ATTR_OS16, Opcode::RcrEwI1),
        entry(ATTR_NNN4 | ATTR_OS64, Opcode::ShlEqI1),
        entry(ATTR_NNN4 | ATTR_OS32, Opcode::ShlEdI1),
        entry(ATTR_NNN4 | ATTR_OS16, Opcode::ShlEwI1),
        entry(ATTR_NNN5 | ATTR_OS64, Opcode::ShrEqI1),
        entry(ATTR_NNN5 | ATTR_OS32, Opcode::ShrEdI1),
        entry(ATTR_NNN5 | ATTR_OS16, Opcode::ShrEwI1),
        entry(ATTR_NNN6 | ATTR_OS64, Opcode::ShlEqI1),
        entry(ATTR_NNN6 | ATTR_OS32, Opcode::ShlEdI1),
        entry(ATTR_NNN6 | ATTR_OS16, Opcode::ShlEwI1),
        entry(ATTR_NNN7 | ATTR_OS64, Opcode::SarEqI1),
        entry(ATTR_NNN7 | ATTR_OS32, Opcode::SarEdI1),
        last_entry(ATTR_NNN7 | ATTR_OS16, Opcode::SarEwI1),
    ]
}

/// `BxOpcodeTableD2`
pub open spec fn spec_table_d2() -> Seq<OpcodeEntry> {
    seq![
        form_opcode(ATTR_NNN0, Opcode::RolEb),
        form_opcode(ATTR_NNN1, Opcode::RorEb),
        form_opcode(ATTR_NNN2, Opcode::RclEb),
        form_opcode(ATTR_NNN3, Opcode::RcrEb),
        form_opcode(ATTR_NNN4, Opcode::ShlEb),
        form_opcode(ATTR_NNN5, Opcode::ShrEb),
        form_opcode(ATTR_NNN6, Opcode::ShlEb),
        last_opcode(ATTR_NNN7, Opcode::SarEb),
    ]
}

fn table_d2() -> (t: Vec<OpcodeEntry>)
    ensures
        t@ == spec_table_d2(),
{
    vec![
        entry(ATTR_NNN0, Opcode::RolEb),
        entry(ATTR_NNN1, Opcode::RorEb),
        entry(ATTR_NNN2, Opcode::RclEb),
        entry(ATTR_NNN3, Opcode::RcrEb),
        entry(ATTR_NNN4, Opcode::ShlEb),
        entry(ATTR_NNN5, Opcode::ShrEb),
        entry(ATTR_NNN6, Opcode::ShlEb),
        last_entry(ATTR_NNN7, Opcode::SarEb),
    ]
}

/// `BxOpcodeTableD3`
pub open spec fn spec_table_d3() -> Seq<OpcodeEntry> {
    seq![
        form_opcode(ATTR_NNN0 | ATTR_OS64, Opcode::RolEq),
        form_opcode(ATTR_NNN0 | ATTR_OS32, Opcode::RolEd),
        form_opcode(ATTR_NNN0 | ATTR_OS16, Opcode::RolEw),
        form_opcode(ATTR_NNN1 | ATTR_OS64, Opcode::RorEq),
        form_opcode(ATTR_NNN1 | ATTR_OS32, Opcode::RorEd),
        form_opcode(ATTR_NNN1 | ATTR_OS16, Opcode::RorEw),
        form_opcode(ATTR_NNN2 | ATTR_OS64, Opcode::RclEq),
        form_opcode(ATTR_NNN2 | ATTR_OS32, Opcode::RclEd),
        form_opcode(ATTR_NNN2 | ATTR_OS16, Opcode::RclEw),
        form_opcode(ATTR_NNN3 | ATTR_OS64, Opcode::RcrEq),
        form_opcode(ATTR_NNN3 | ATTR_OS32, Opcode::RcrEd),
        form_opcode(ATTR_NNN3 | ATTR_OS16, Opcode::RcrEw),
        form_opcode(ATTR_NNN4 | ATTR_OS64, Opcode::ShlEq),
        form_opcode(ATTR_NNN4 | ATTR_OS32, Opcode::ShlEd),
        form_opcode(ATTR_NNN4 | ATTR_OS16, Opcode::ShlEw),
        form_opcode(ATTR_NNN5 | ATTR_OS64, Opcode::ShrEq),
        form_opcode(ATTR_NNN5 | ATTR_OS32, Opcode::ShrEd),
        form_opcode(ATTR_NNN5 | ATTR_OS16, Opcode::ShrEw),
        form_opcode(ATTR_NNN6 | ATTR_OS64, Opcode::ShlEq),
        form_opcode(ATTR_NNN6 | ATTR_OS32, Opcode::ShlEd),
        form_opcode(ATTR_NNN6 | ATTR_OS16, Opcode::ShlEw),
        form_opcode(ATTR_NNN7 | ATTR_OS64, Opcode::SarEq),
        form_opcode(ATTR_NNN7 | ATTR_OS32, Opcode::SarEd),
        last_opcode(ATTR_NNN7 | ATTR_OS16, Opcode::SarEw),
    ]
}

fn table_d3() -> (t: Vec<OpcodeEntry>)
    ensures
        t@ == spec_table_d3(),
{
    vec![
        entry(ATTR_NNN0 | ATTR_OS64, Opcode::RolEq),
        entry(ATTR_NNN0 | ATTR_OS32, Opcode::RolEd),
        entry(ATTR_NNN0 | ATTR_OS16, Opcode::RolEw),
        entry(ATTR_NNN1 | ATTR_OS64, Opcode::RorEq),
        entry(ATTR_NNN1 | ATTR_OS32, Opcode::RorEd),
        entry(ATTR_NNN1 | ATTR_OS16, Opcode::RorEw),
        entry(ATTR_NNN2 | ATTR_OS64, Opcode::RclEq),
        entry(ATTR_NNN2 | ATTR_OS32, Opcode::RclEd),
        entry(ATTR_NNN2 | ATTR_OS16, Opcode::RclEw),
        entry(ATTR_NNN3 | ATTR_OS64, Opcode::RcrEq),
        entry(ATTR_NNN3 | ATTR_OS32, Opcode::RcrEd),
        entry(ATTR_NNN3 | ATTR_OS16, Opcode::RcrEw),
        entry(ATTR_NNN4 | ATTR_OS64, Opcode::ShlEq),
        entry(ATTR_NNN4 | ATTR_OS32, Opcode::ShlEd),
        entry(ATTR_NNN4 | ATTR_OS16, Opcode::ShlEw),
        entry(ATTR_NNN5 | ATTR_OS64, Opcode::ShrEq),
        entry(ATTR_NNN5 | ATTR_OS32, Opcode::ShrEd),
        entry(ATTR_NNN5 | ATTR_OS16, Opcode::ShrEw),
        entry(ATTR_NNN6 | ATTR_OS64, Opcode::ShlEq),
        entry(ATTR_NNN6 | ATTR_OS32, Opcode::ShlEd),
        entry(ATTR_NNN6 | ATTR_OS16, Opcode::ShlEw),
        entry(ATTR_NNN7 | ATTR_OS64, Opcode::SarEq),
        entry(ATTR_NNN7 | ATTR_OS32, Opcode::SarEd),
        last_entry(ATTR_NNN7 | ATTR_OS16, Opcode::SarEw),
    ]
}

/// `BxOpcodeTableD4`
pub open spec fn spec_table_d4() -> Seq<OpcodeEntry> {
    seq![
        last_opcode(ATTR_IS32, Opcode::Aam),
    ]
}

fn table_d4() -> (t: Vec<OpcodeEntry>)
    ensures
        t@ == spec_table_d4(),
{
    vec![
        last_entry(ATTR_IS32, Opcode::Aam),
    ]
}

/// `BxOpcodeTableD5`
pub open spec fn spec_table_d5() -> Seq<OpcodeEntry> {
    seq![
        last_opcode(ATTR_IS32, Opcode::Aad),
    ]
}

fn table_d5() -> (t: Vec<OpcodeEntry>)
    ensures
        t@ == spec_table_d5(),
{
    vec![
        last_entry(ATTR_IS32, Opcode::Aad),
    ]
}

/// `BxOpcodeTableD6`
pub open spec fn spec_table_d6() -> Seq<OpcodeEntry> {
    seq![
        last_opcode(ATTR_IS32, Opcode::Salc),
    ]
}

fn table_d6() -> (t: Vec<OpcodeEntry>)
    ensures
        t@ == spec_table_d6(),
{
    vec![
        last_entry(ATTR_IS32, Opcode::Salc),
    ]
}

/// `BxOpcodeTableD7`
pub open spec fn spec_table_d7() -> Seq<OpcodeEntry> {
    seq![
        last_opcode(0, Opcode::Xlat),
    ]
}

fn table_d7() -> (t: Vec<OpcodeEntry>)
    ensures
        t@ == spec_table_d7(),
{
    vec![
        last_entry(0, Opcode::Xlat),
    ]
}

/// `BxOpcodeTableE0_32`
pub open spec fn spec_table_e0_32() -> Seq<OpcodeEntry> {
    seq![
        form_opcode(ATTR_OS32, Opcode::LoopneJbd),
        last_opcode(ATTR_OS16, Opcode::LoopneJbw),
    ]
}

fn table_e0_32() -> (t: Vec<OpcodeEntry>)
    ensures
        t@ == spec_table_e0_32(),
{
    vec![
        entry(ATTR_OS32, Opcode::LoopneJbd),
        last_entry(ATTR_OS16, Opcode::LoopneJbw),
    ]
}

/// `BxOpcodeTableE1_32`
pub open spec fn spec_table_e1_32() -> Seq<OpcodeEntry> {
    seq![
        form_opcode(ATTR_OS32, Opcode::LoopeJbd),
        last_opcode(ATTR_OS16, Opcode::LoopeJbw),
    ]
}

fn table_e1_32() -> (t: Vec<OpcodeEntry>)
    ensures
        t@ == spec_table_e1_32(),
{
    vec![
        entry(ATTR_OS32, Opcode::LoopeJbd),
        last_entry(ATTR_OS16, Opcode::LoopeJbw),
    ]
}

/// `BxOpcodeTableE2_32`
pub open spec fn spec_table_e2_32() -> Seq<OpcodeEntry> {
    seq![
        form_opcode(ATTR_OS32, Opcode::LoopJbd),
        last_opcode(ATTR_OS16, Opcode::LoopJbw),
    ]
}

fn table_e2_32() -> (t: Vec<OpcodeEntry>)
    ensures
        t@ == spec_table_e2_32(),
{
    vec![
        entry(ATTR_OS32, Opcode::LoopJbd),
        last_entry(ATTR_OS16, Opcode::LoopJbw),
    ]
}

/// `BxOpcodeTableE3_32`
pub open spec fn spec_table_e3_32() -> Seq<OpcodeEntry> {
    seq![
        form_opcode(ATTR_AS32, Opcode::JecxzJbd),
        last_opcode(ATTR_AS16, Opcode::JcxzJbw),
    ]
}

fn table_e3_32() -> (t: Vec<OpcodeEntry>)
    ensures
        t@ == spec_table_e3_32(),
{
    vec![
        entry(ATTR_AS32, Opcode::JecxzJbd),
        last_entry(ATTR_AS16, Opcode::JcxzJbw),
    ]
}

/// `BxOpcodeTableE4`
pub open spec fn spec_table_e4() -> Seq<OpcodeEntry> {
    seq![
        last_opcode(0, Opcode::InAlib),
    ]
}

fn table_e4() -> (t: Vec<OpcodeEntry>)
    ensures
        t@ == spec_table_e4(),
{
    vec![
        last_entry(0, Opcode::InAlib),
    ]
}

/// `BxOpcodeTableE5`
pub open spec fn spec_table_e5() -> Seq<OpcodeEntry> {
    seq![
        form_opcode(ATTR_OS16, Opcode::InAxib),
        last_opcode(0, Opcode::InEaxib),
    ]
}

fn table_e5() -> (t: Vec<OpcodeEntry>)
    ensures
        t@ == spec_table_e5(),
{
    vec![
        entry(ATTR_OS16, Opcode::InAxib),
        last_entry(0, Opcode::InEaxib),
    ]
}

/// `BxOpcodeTableE6`
pub open spec fn spec_table_e6() -> Seq<OpcodeEntry> {
    seq![
        last_opcode(0, Opcode::OutIbAl),
    ]
}

fn table_e6() -> (t: Vec<OpcodeEntry>)
    ensures
        t@ == spec_table_e6(),
{
    vec![
        last_entry(0, Opcode::OutIbAl),
    ]
}

/// `BxOpcodeTableE7`
pub open spec fn spec_table_e7() -> Seq<OpcodeEntry> {
    seq![
        form_opcode(ATTR_OS16, Opcode::OutIbAx),
        last_opcode(0, Opcode::OutIbEax),
    ]
}

fn table_e7() -> (t: Vec<OpcodeEntry>)
    ensures
        t@ == spec_table_e7(),
{
    vec![
        entry(ATTR_OS16, Opcode::OutIbAx),
        last_entry(0, Opcode::OutIbEax),
    ]
}

/// `BxOpcodeTableE8_32`
pub open spec fn spec_table_e8_32() -> Seq<OpcodeEntry> {
    seq![
        form_opcode(ATTR_OS32, Opcode::CallJd),
        last_opcode(ATTR_OS16, Opcode::CallJw),
    ]
}

fn table_e8_32() -> (t: Vec<OpcodeEntry>)
    ensures
        t@ == spec_table_e8_32(),
{
    vec![
        entry(ATTR_OS32, Opcode::CallJd),
        last_entry(ATTR_OS16, Opcode::CallJw),
    ]
}

/// `BxOpcodeTableE9_32`
pub open spec fn spec_table_e9_32() -> Seq<OpcodeEntry> {
    seq![
        form_opcode(ATTR_OS32, Opcode::JmpJd),
        last_opcode(ATTR_OS16, Opcode::JmpJw),
    ]
}

fn table_e9_32() -> (t: Vec<OpcodeEntry>)
    ensures
        t@ == spec_table_e9_32(),
{
    vec![
        entry(ATTR_OS32, Opcode::JmpJd),
        last_entry(ATTR_OS16, Opcode::JmpJw),
    ]
}

/// `BxOpcodeTableEA_32`
pub open spec fn spec_table_ea_32() -> Seq<OpcodeEntry> {
    seq![
        last_opcode(0, Opcode::JmpfAp),
    ]
}

fn table_ea_32() -> (t: Vec<OpcodeEntry>)
    ensures
        t@ == spec_table_ea_32(),
{
    vec![
        last_entry(0, Opcode::JmpfAp),
    ]
}

/// `BxOpcodeTableEB_32`
pub open spec fn spec_table_eb_32() -> Seq<OpcodeEntry> {
    seq![
        form_opcode(ATTR_OS32, Opcode::JmpJbd),
        last_opcode(ATTR_OS16, Opcode::JmpJbw),
    ]
}

fn table_eb_32() -> (t: Vec<OpcodeEntry>)
    ensures
        t@ == spec_table_eb_32(),
{
    vec![
        entry(ATTR_OS32, Opcode::JmpJbd),
        last_entry(ATTR_OS16, Opcode::JmpJbw),
    ]
}

/// `BxOpcodeTableEC`
pub open spec fn spec_table_ec() -> Seq<OpcodeEntry> {
    seq![
        last_opcode(0, Opcode::InAlDx),
    ]
}

fn table_ec() -> (t: Vec<OpcodeEntry>)
    ensures
        t@ == spec_table_ec(),
{
    vec![
        last_entry(0, Opcode::InAlDx),
    ]
}

/// `BxOpcodeTableED`
pub open spec fn spec_table_ed() -> Seq<OpcodeEntry> {
    seq![
        form_opcode(ATTR_OS16, Opcode::InAxDx),
        last_opcode(0, Opcode::InEaxDx),
    ]
}

fn table_ed() -> (t: Vec<OpcodeEntry>)
    ensures
        t@ == spec_table_ed(),
{
    vec![
        entry(ATTR_OS16, Opcode::InAxDx),
        last_entry(0, Opcode::InEaxDx),
    ]
}

/// `BxOpcodeTableEE`
pub open spec fn spec_table_ee() -> Seq<OpcodeEntry> {
    seq![
        last_opcode(0, Opcode::OutDxAl),
    ]
}

fn table_ee() -> (t: Vec<OpcodeEntry>)
    ensures
        t@ == spec_table_ee(),
{
    vec![
        last_entry(0, Opcode::OutDxAl),
    ]
}

/// `BxOpcodeTableEF`
pub open spec fn spec_table_ef() -> Seq<OpcodeEntry> {
    seq![
        form_opcode(ATTR_OS16, Opcode::OutDxAx),
        last_opcode(0, Opcode::OutDxEax),
    ]
}

fn table_ef() -> (t: Vec<OpcodeEntry>)
    ensures
        t@ == spec_table_ef(),
{
    vec![
        entry(ATTR_OS16, Opcode::OutDxAx),
        last_entry(0, Opcode::OutDxEax),
    ]
}

/// `BxOpcodeTableF1`
pub open spec fn spec_table_f1() -> Seq<OpcodeEntry> {
    seq![
        last_opcode(0, Opcode::INT1),
    ]
}

fn table_f1() -> (t: Vec<OpcodeEntry>)
    ensures
        t@ == spec_table_f1(),
{
    vec![
        last_entry(0, Opcode::INT1),
    ]
}

/// `BxOpcodeTableF4`
pub open spec fn spec_table_f4() -> Seq<OpcodeEntry> {
    seq![
        last_opcode(0, Opcode::Hlt),
    ]
}

fn table_f4() -> (t: Vec<OpcodeEntry>)
    ensures
        t@ == spec_table_f4(),
{
    vec![
        last_entry(0, Opcode::Hlt),
    ]
}

/// `BxOpcodeTableF5`
pub open spec fn spec_table_f5() -> Seq<OpcodeEntry> {
    seq![
        last_opcode(0, Opcode::Cmc),
    ]
}

fn table_f5() -> (t: Vec<OpcodeEntry>)
    ensures
        t@ == spec_table_f5(),
{
    vec![
        last_entry(0, Opcode::Cmc),
    ]
}

/// `BxOpcodeTableF6`
pub open spec fn spec_table_f6() -> Seq<OpcodeEntry> {
    seq![
        form_opcode(ATTR_NNN0, Opcode::TestEbIb),
        form_opcode(ATTR_NNN1, Opcode::TestEbIb),
        form_opcode(ATTR_NNN2, Opcode::NotEb),
        form_opcode(ATTR_NNN3, Opcode::NegEb),
        form_opcode(ATTR_NNN4, Opcode::MulAleb),
        form_opcode(ATTR_NNN5, Opcode::ImulAleb),
        form_opcode(ATTR_NNN6, Opcode::DivAleb),
        last_opcode(ATTR_NNN7, Opcode::IdivAleb),
    ]
}

fn table_f6() -> (t: Vec<OpcodeEntry>)
    ensures
        t@ == spec_table_f6(),
{
    vec![
        entry(ATTR_NNN0, Opcode::TestEbIb),
        entry(ATTR_NNN1, Opcode::TestEbIb),
        entry(ATTR_NNN2, Opcode::NotEb),
        entry(ATTR_NNN3, Opcode::NegEb),
        entry(ATTR_NNN4, Opcode::MulAleb),
        entry(ATTR_NNN5, Opcode::ImulAleb),
        entry(ATTR_NNN6, Opcode::DivAleb),
        last_entry(ATTR_NNN7, Opcode::IdivAleb),
    ]
}

/// `BxOpcodeTableF7`
pub open spec fn spec_table_f7() -> Seq<OpcodeEntry> {
    seq![
        form_opcode(ATTR_NNN0 | ATTR_OS64, Opcode::TestEqId),
        form_opcode(ATTR_NNN0 | ATTR_OS32, Opcode::TestEdId),
        form_opcode(ATTR_NNN0 | ATTR_OS16, Opcode::TestEwIw),
        form_opcode(ATTR_NNN1 | ATTR_OS64, Opcode::TestEqId),
        form_opcode(ATTR_NNN1 | ATTR_OS32, Opcode::TestEdId),
        form_opcode(ATTR_NNN1 | ATTR_OS16, Opcode::TestEwIw),
        form_opcode(ATTR_NNN2 | ATTR_OS64, Opcode::NotEq),
        form_opcode(ATTR_NNN2 | ATTR_OS32, Opcode::NotEd),
        form_opcode(ATTR_NNN2 | ATTR_OS16, Opcode::NotEw),
        form_opcode(ATTR_NNN3 | ATTR_OS64, Opcode::NegEq),
        form_opcode(ATTR_NNN3 | ATTR_OS32, Opcode::NegEd),
        form_opcode(ATTR_NNN3 | ATTR_OS16, Opcode::NegEw),
        form_opcode(ATTR_NNN4 | ATTR_OS64, Opcode::MulRaxeq),
        form_opcode(ATTR_NNN4 | ATTR_OS32, Opcode::MulEaxed),
        form_opcode(ATTR_NNN4 | ATTR_OS16, Opcode::MulAxew),
        form_opcode(ATTR_NNN5 | ATTR_OS64, Opcode::ImulRaxeq),
        form_opcode(ATTR_NNN5 | ATTR_OS32, Opcode::ImulEaxed),
        form_opcode(ATTR_NNN5 | ATTR_OS16, Opcode::ImulAxew),
        form_opcode(ATTR_NNN6 | ATTR_OS64, Opcode::DivRaxeq),
        form_opcode(ATTR_NNN6 | ATTR_OS32, Opcode::DivEaxed),
        form_opcode(ATTR_NNN6 | ATTR_OS16, Opcode::DivAxew),
        form_opcode(ATTR_NNN7 | ATTR_OS64, Opcode::IdivRaxeq),
        form_opcode(ATTR_NNN7 | ATTR_OS32, Opcode::IdivEaxed),
        last_opcode(ATTR_NNN7 | ATTR_OS16, Opcode::IdivAxew),
    ]
}

fn table_f7() -> (t: Vec<OpcodeEntry>)
    ensures
        t@ == spec_table_f7(),
{
    vec![
        entry(ATTR_NNN0 | ATTR_OS64, Opcode::TestEqId),
        entry(ATTR_NNN0 | ATTR_OS32, Opcode::TestEdId),
        entry(ATTR_NNN0 | ATTR_OS16, Opcode::TestEwIw),
        entry(ATTR_NNN1 | ATTR_OS64, Opcode::TestEqId),
        entry(ATTR_NNN1 | ATTR_OS32, Opcode::TestEdId),
        entry(ATTR_NNN1 | ATTR_OS16, Opcode::TestEwIw),
        entry(ATTR_NNN2 | ATTR_OS64, Opcode::NotEq),
        entry(ATTR_NNN2 | ATTR_OS32, Opcode::NotEd),
        entry(ATTR_NNN2 | ATTR_OS16, Opcode::NotEw),
        entry(ATTR_NNN3 | ATTR_OS64, Opcode::NegEq),
        entry(ATTR_NNN3 | ATTR_OS32, Opcode::NegEd),
        entry(ATTR_NNN3 | ATTR_OS16, Opcode::NegEw),
        entry(ATTR_NNN4 | ATTR_OS64, Opcode::MulRaxeq),
        entry(ATTR_NNN4 | ATTR_OS32, Opcode::MulEaxed),
        entry(ATTR_NNN4 | ATTR_OS16, Opcode::MulAxew),
        entry(ATTR_NNN5 | ATTR_OS64, Opcode::ImulRaxeq),
        entry(ATTR_NNN5 | ATTR_OS32, Opcode::ImulEaxed),
        entry(ATTR_NNN5 | ATTR_OS16, Opcode::ImulAxew),
        entry(ATTR_NNN6 | ATTR_OS64, Opcode::DivRaxeq),
        entry(ATTR_NNN6 | ATTR_OS32, Opcode::DivEaxed),
        entry(ATTR_NNN6 | ATTR_OS16, Opcode::DivAxew),
        entry(ATTR_NNN7 | ATTR_OS64, Opcode::IdivRaxeq),
        entry(ATTR_NNN7 | ATTR_OS32, Opcode::IdivEaxed),
        last_entry(ATTR_NNN7 | ATTR_OS16, Opcode::IdivAxew),
    ]
}

/// `BxOpcodeTableF8`
pub open spec fn spec_table_f8() -> Seq<OpcodeEntry> {
    seq![
        last_opcode(0, Opcode::Clc),
    ]
}

fn table_f8() -> (t: Vec<OpcodeEntry>)
    ensures
        t@ == spec_table_f8(),
{
    vec![
        last_entry(0, Opcode::Clc),
    ]
}

/// `BxOpcodeTableF9`
pub open spec fn spec_table_f9() -> Seq<OpcodeEntry> {
    seq![
        last_opcode(0, Opcode::Stc),
    ]
}

fn table_f9() -> (t: Vec<OpcodeEntry>)
    ensures
        t@ == spec_table_f9(),
{
    vec![
        last_entry(0, Opcode::Stc),
    ]
}

/// `BxOpcodeTableFA`
pub open spec fn spec_table_fa() -> Seq<OpcodeEntry> {
    seq![
        last_opcode(0, Opcode::Cli),
    ]
}

fn table_fa() -> (t: Vec<OpcodeEntry>)
    ensures
        t@ == spec_table_fa(),
{
    vec![
        last_entry(0, Opcode::Cli),
    ]
}

/// `BxOpcodeTableFB`
pub open spec fn spec_table_fb() -> Seq<OpcodeEntry> {
    seq![
        last_opcode(0, Opcode::Sti),
    ]
}

fn table_fb() -> (t: Vec<OpcodeEntry>)
    ensures
        t@ == spec_table_fb(),
{
    vec![
        last_entry(0, Opcode::Sti),
    ]
}

/// `BxOpcodeTableFC`
pub open spec fn spec_table_fc() -> Seq<OpcodeEntry> {
    seq![
        last_opcode(0, Opcode::Cld),
    ]
}

fn table_fc() -> (t: Vec<OpcodeEntry>)
    ensures
        t@ == spec_table_fc(),
{
    vec![
        last_entry(0, Opcode::Cld),
    ]
}

/// `BxOpcodeTableFD`
pub open spec fn spec_table_fd() -> Seq<OpcodeEntry> {
    seq![
        last_opcode(0, Opcode::Std),
    ]
}

fn table_fd() -> (t: Vec<OpcodeEntry>)
    ensures
        t@ == spec_table_fd(),
{
    vec![
        last_entry(0, Opcode::Std),
    ]
}

/// `BxOpcodeTableFE`
pub open spec fn spec_table_fe() -> Seq<OpcodeEntry> {
    seq![
        form_opcode(ATTR_NNN0, Opcode::IncEb),
        last_opcode(ATTR_NNN1, Opcode::DecEb),
    ]
}

fn table_fe() -> (t: Vec<OpcodeEntry>)
    ensures
        t@ == spec_table_fe(),
{
    vec![
        entry(ATTR_NNN0, Opcode::IncEb),
        last_entry(ATTR_NNN1, Opcode::DecEb),
    ]
}

/// `BxOpcodeTableFF`
pub open spec fn spec_table_ff() -> Seq<OpcodeEntry> {
    seq![
        form_opcode(ATTR_NNN0 | ATTR_OS64, Opcode::IncEq),
        form_opcode(ATTR_NNN0 | ATTR_OS32, Opcode::IncEd),
        form_opcode(ATTR_NNN0 | ATTR_OS16, Opcode::IncEw),
        form_opcode(ATTR_NNN1 | ATTR_OS64, Opcode::DecEq),
        form_opcode(ATTR_NNN1 | ATTR_OS32, Opcode::DecEd),
        form_opcode(ATTR_NNN1 | ATTR_OS16, Opcode::DecEw),
        form_opcode(ATTR_IS64 | ATTR_NNN2 | ATTR_OS16, Opcode::CallEw),
        form_opcode(ATTR_IS64 | ATTR_NNN2, Opcode::CallEq),
        form_opcode(ATTR_NNN2 | ATTR_OS32, Opcode::CallEd),
        form_opcode(ATTR_NNN2 | ATTR_OS16, Opcode::CallEw),
        form_opcode(ATTR_NNN3 | ATTR_MOD_MEM | ATTR_OS64, Opcode::CallfOp64Ep),
        form_opcode(ATTR_NNN3 | ATTR_MOD_MEM | ATTR_OS32, Opcode::CallfOp32Ep),
        form_opcode(ATTR_NNN3 | ATTR_MOD_MEM | ATTR_OS16, Opcode::CallfOp16Ep),
        form_opcode(ATTR_IS64 | ATTR_NNN4 | ATTR_OS16, Opcode::JmpEw),
        form_opcode(ATTR_IS64 | ATTR_NNN4, Opcode::JmpEq),
        form_opcode(ATTR_NNN4 | ATTR_OS32, Opcode::JmpEd),
        form_opcode(ATTR_NNN4 | ATTR_OS16, Opcode::JmpEw),
        form_opcode(ATTR_NNN5 | ATTR_MOD_MEM | ATTR_OS64, Opcode::JmpfOp64Ep),
        form_opcode(ATTR_NNN5 | ATTR_MOD_MEM | ATTR_OS32, Opcode::JmpfOp32Ep),
        form_opcode(ATTR_NNN5 | ATTR_MOD_MEM | ATTR_OS16, Opcode::JmpfOp16Ep),
        form_opcode(ATTR_IS64 | ATTR_NNN6 | ATTR_OS16, Opcode::PushEw),
        form_opcode(ATTR_IS64 | ATTR_NNN6, Opcode::PushEq),
        form_opcode(ATTR_NNN6 | ATTR_OS32, Opcode::PushEd),
        last_opcode(ATTR_NNN6 | ATTR_OS16, Opcode::PushEw),
    ]
}

fn table_ff() -> (t: Vec<OpcodeEntry>)
    ensures
        t@ == spec_table_ff(),
{
    vec![
        entry(ATTR_NNN0 | ATTR_OS64, Opcode::IncEq),
        entry(ATTR_NNN0 | ATTR_OS32, Opcode::IncEd),
        entry(ATTR_NNN0 | ATTR_OS16, Opcode::IncEw),
        entry(ATTR_NNN1 | ATTR_OS64, Opcode::DecEq),
        entry(ATTR_NNN1 | ATTR_OS32, Opcode::DecEd),
        entry(ATTR_NNN1 | ATTR_OS16, Opcode::DecEw),
        entry(ATTR_IS64 | ATTR_NNN2 | ATTR_OS16, Opcode::CallEw),
        entry(ATTR_IS64 | ATTR_NNN2, Opcode::CallEq),
        entry(ATTR_NNN2 | ATTR_OS32, Opcode::CallEd),
        entry(ATTR_NNN2 | ATTR_OS16, Opcode::CallEw),
        entry(ATTR_NNN3 | ATTR_MOD_MEM | ATTR_OS64, Opcode::CallfOp64Ep),
        entry(ATTR_NNN3 | ATTR_MOD_MEM | ATTR_OS32, Opcode::CallfOp32Ep),
        entry(ATTR_NNN3 | ATTR_MOD_MEM | ATTR_OS16, Opcode::CallfOp16Ep),
        entry(ATTR_IS64 | ATTR_NNN4 | ATTR_OS16, Opcode::JmpEw),
        entry(ATTR_IS64 | ATTR_NNN4, Opcode::JmpEq),
        entry(ATTR_NNN4 | ATTR_OS32, Opcode::JmpEd),
        entry(ATTR_NNN4 | ATTR_OS16, Opcode::JmpEw),
        entry(ATTR_NNN5 | ATTR_MOD_MEM | ATTR_OS64, Opcode::JmpfOp64Ep),
        entry(ATTR_NNN5 | ATTR_MOD_MEM | ATTR_OS32, Opcode::JmpfOp32Ep),
        entry(ATTR_NNN5 | ATTR_MOD_MEM | ATTR_OS16, Opcode::JmpfOp16Ep),
        entry(ATTR_IS64 | ATTR_NNN6 | ATTR_OS16, Opcode::PushEw),
        entry(ATTR_IS64 | ATTR_NNN6, Opcode::PushEq),
        entry(ATTR_NNN6 | ATTR_OS32, Opcode::PushEd),
        last_entry(ATTR_NNN6 | ATTR_OS16, Opcode::PushEw),
    ]
}

/// `BxOpcodeTable63_64`
pub open spec fn spec_table_63_64() -> Seq<OpcodeEntry> {
    seq![
        form_opcode(ATTR_OS64, Opcode::MovsxdGqEd),
        form_opcode(ATTR_OS32, Opcode::MovOp64GdEd),
        last_opcode(ATTR_OS16, Opcode::MovGwEw),
    ]
}

fn table_63_64() -> (t: Vec<OpcodeEntry>)
    ensures
        t@ == spec_table_63_64(),
{
    vec![
        entry(ATTR_OS64, Opcode::MovsxdGqEd),
        entry(ATTR_OS32, Opcode::MovOp64GdEd),
        last_entry(ATTR_OS16, Opcode::MovGwEw),
    ]
}

/// `BxOpcodeTable70_64`
pub open spec fn spec_table_70_64() -> Seq<OpcodeEntry> {
    seq![
        last_opcode(0, Opcode::JoJbq),
    ]
}

fn table_70_64() -> (t: Vec<OpcodeEntry>)
    ensures
        t@ == spec_table_70_64(),
{
    vec![
        last_entry(0, Opcode::JoJbq),
    ]
}

/// `BxOpcodeTable71_64`
pub open spec fn spec_table_71_64() -> Seq<OpcodeEntry> {
    seq![
        last_opcode(0, Opcode::JnoJbq),
    ]
}

fn table_71_64() -> (t: Vec<OpcodeEntry>)
    ensures
        t@ == spec_table_71_64(),
{
    vec![
        last_entry(0, Opcode::JnoJbq),
    ]
}

/// `BxOpcodeTable72_64`
pub open spec fn spec_table_72_64() -> Seq<OpcodeEntry> {
    seq![
        last_opcode(0, Opcode::JbJbq),
    ]
}

fn table_72_64() -> (t: Vec<OpcodeEntry>)
    ensures
        t@ == spec_table_72_64(),
{
    vec![
        last_entry(0, Opcode::JbJbq),
    ]
}

/// `BxOpcodeTable73_64`
pub open spec fn spec_table_73_64() -> Seq<OpcodeEntry> {
    seq![
        last_opcode(0, Opcode::JnbJbq),
    ]
}

fn table_73_64() -> (t: Vec<OpcodeEntry>)
    ensures
        t@ == spec_table_73_64(),
{
    vec![
        last_entry(0, Opcode::JnbJbq),
    ]
}

/// `BxOpcodeTable74_64`
pub open spec fn spec_table_74_64() -> Seq<OpcodeEntry> {
    seq![
        last_opcode(0, Opcode::JzJbq),
    ]
}

fn table_74_64() -> (t: Vec<OpcodeEntry>)
    ensures
        t@ == spec_table_74_64(),
{
    vec![
        last_entry(0, Opcode::JzJbq),
    ]
}

/// `BxOpcodeTable75_64`
pub open spec fn spec_table_75_64() -> Seq<OpcodeEntry> {
    seq![
        last_opcode(0, Opcode::JnzJbq),
    ]
}

fn table_75_64() -> (t: Vec<OpcodeEntry>)
    ensures
        t@ == spec_table_75_64(),
{
    vec![
        last_entry(0, Opcode::JnzJbq),
    ]
}

/// `BxOpcodeTable76_64`
pub open spec fn spec_table_76_64() -> Seq<OpcodeEntry> {
    seq![
        last_opcode(0, Opcode::JbeJbq),
    ]
}

fn table_76_64() -> (t: Vec<OpcodeEntry>)
    ensures
        t@ == spec_table_76_64(),
{
    vec![
        last_entry(0, Opcode::JbeJbq),
    ]
}

/// `BxOpcodeTable77_64`
pub open spec fn spec_table_77_64() -> Seq<OpcodeEntry> {
    seq![
        last_opcode(0, Opcode::JnbeJbq),
    ]
}

fn table_77_64() -> (t: Vec<OpcodeEntry>)
    ensures
        t@ == spec_table_77_64(),
{
    vec![
        last_entry(0, Opcode::JnbeJbq),
    ]
}

/// `BxOpcodeTable78_64`
pub open spec fn spec_table_78_64() -> Seq<OpcodeEntry> {
    seq![
        last_opcode(0, Opcode::JsJbq),
    ]
}

fn table_78_64() -> (t: Vec<OpcodeEntry>)
    ensures
        t@ == spec_table_78_64(),
{
    vec![
        last_entry(0, Opcode::JsJbq),
    ]
}

/// `BxOpcodeTable79_64`
pub open spec fn spec_table_79_64() -> Seq<OpcodeEntry> {
    seq![
        last_opcode(0, Opcode::JnsJbq),
    ]
}

fn table_79_64() -> (t: Vec<OpcodeEntry>)
    ensures
        t@ == spec_table_79_64(),
{
    vec![
        last_entry(0, Opcode::JnsJbq),
    ]
}

/// `BxOpcodeTable7A_64`
pub open spec fn spec_table_7a_64() -> Seq<OpcodeEntry> {
    seq![
        last_opcode(0, Opcode::JpJbq),
    ]
}

fn table_7a_64() -> (t: Vec<OpcodeEntry>)
    ensures
        t@ == spec_table_7a_64(),
{
    vec![
        last_entry(0, Opcode::JpJbq),
    ]
}

/// `BxOpcodeTable7B_64`
pub open spec fn spec_table_7b_64() -> Seq<OpcodeEntry> {
    seq![
        last_opcode(0, Opcode::JnpJbq),
    ]
}

fn table_7b_64() -> (t: Vec<OpcodeEntry>)
    ensures
        t@ == spec_table_7b_64(),
{
    vec![
        last_entry(0, Opcode::JnpJbq),
    ]
}

/// `BxOpcodeTable7C_64`
pub open spec fn spec_table_7c_64() -> Seq<OpcodeEntry> {
    seq![
        last_opcode(0, Opcode::JlJbq),
    ]
}

fn table_7c_64() -> (t: Vec<OpcodeEntry>)
    ensures
        t@ == spec_table_7c_64(),
{
    vec![
        last_entry(0, Opcode::JlJbq),
    ]
}

/// `BxOpcodeTable7D_64`
pub open spec fn spec_table_7d_64() -> Seq<OpcodeEntry> {
    seq![
        last_opcode(0, Opcode::JnlJbq),
    ]
}

fn table_7d_64() -> (t: Vec<OpcodeEntry>)
    ensures
        t@ == spec_table_7d_64(),
{
    vec![
        last_entry(0, Opcode::JnlJbq),
    ]
}

/// `BxOpcodeTable7E_64`
pub open spec fn spec_table_7e_64() -> Seq<OpcodeEntry> {
    seq![
        last_opcode(0, Opcode::JleJbq),
    ]
}

fn table_7e_64() -> (t: Vec<OpcodeEntry>)
    ensures
        t@ == spec_table_7e_64(),
{
    vec![
        last_entry(0, Opcode::JleJbq),
    ]
}

/// `BxOpcodeTable7F_64`
pub open spec fn spec_table_7f_64() -> Seq<OpcodeEntry> {
    seq![
        last_opcode(0, Opcode::JnleJbq),
    ]
}

fn table_7f_64() -> (t: Vec<OpcodeEntry>)
    ensures
        t@ == spec_table_7f_64(),
{
    vec![
        last_entry(0, Opcode::JnleJbq),
    ]
}

/// `BxOpcodeTable9E_64`
pub open spec fn spec_table_9e_64() -> Seq<OpcodeEntry> {
    seq![
        last_opcode(0, Opcode::SahfLm),
    ]
}

fn table_9e_64() -> (t: Vec<OpcodeEntry>)
    ensures
        t@ == spec_table_9e_64(),
{
    vec![
        last_entry(0, Opcode::SahfLm),
    ]
}

/// `BxOpcodeTable9F_64`
pub open spec fn spec_table_9f_64() -> Seq<OpcodeEntry> {
    seq![
        last_opcode(0, Opcode::LahfLm),
    ]
}

fn table_9f_64() -> (t: Vec<OpcodeEntry>)
    ensures
        t@ == spec_table_9f_64(),
{
    vec![
        last_entry(0, Opcode::LahfLm),
    ]
}

/// `BxOpcodeTableA0_64`
pub open spec fn spec_table_a0_64() -> Seq<OpcodeEntry> {
    seq![
        last_opcode(0, Opcode::MovAloq),
    ]
}

fn table_a0_64() -> (t: Vec<OpcodeEntry>)
    ensures
        t@ == spec_table_a0_64(),
{
    vec![
        last_entry(0, Opcode::MovAloq),
    ]
}

/// `BxOpcodeTableA1_64`
pub open spec fn spec_table_a1_64() -> Seq<OpcodeEntry> {
    seq![
        form_opcode(ATTR_OS64, Opcode::MovRaxoq),
        form_opcode(ATTR_OS32, Opcode::MovEaxoq),
        last_opcode(ATTR_OS16, Opcode::MovAxoq),
    ]
}

fn table_a1_64() -> (t: Vec<OpcodeEntry>)
    ensures
        t@ == spec_table_a1_64(),
{
    vec![
        entry(ATTR_OS64, Opcode::MovRaxoq),
        entry(ATTR_OS32, Opcode::MovEaxoq),
        last_entry(ATTR_OS16, Opcode::MovAxoq),
    ]
}

/// `BxOpcodeTableA2_64`
pub open spec fn spec_table_a2_64() -> Seq<OpcodeEntry> {
    seq![
        last_opcode(0, Opcode::MovOqAl),
    ]
}

fn table_a2_64() -> (t: Vec<OpcodeEntry>)
    ensures
        t@ == spec_table_a2_64(),
{
    vec![
        last_entry(0, Opcode::MovOqAl),
    ]
}

/// `BxOpcodeTableA3_64`
pub open spec fn spec_table_a3_64() -> Seq<OpcodeEntry> {
    seq![
        form_opcode(ATTR_OS64, Opcode::MovOqRax),
        form_opcode(ATTR_OS32, Opcode::MovOqEax),
        last_opcode(ATTR_OS16, Opcode::MovOqAx),
    ]
}

fn table_a3_64() -> (t: Vec<OpcodeEntry>)
    ensures
        t@ == spec_table_a3_64(),
{
    vec![
        entry(ATTR_OS64, Opcode::MovOqRax),
        entry(ATTR_OS32, Opcode::MovOqEax),
        last_entry(ATTR_OS16, Opcode::MovOqAx),
    ]
}

/// `BxOpcodeTableC2_64`
pub open spec fn spec_table_c2_64() -> Seq<OpcodeEntry> {
    seq![
        form_opcode(ATTR_OS16, Opcode::RetOp16Iw),
        last_opcode(0, Opcode::RetOp64Iw),
    ]
}

fn table_c2_64() -> (t: Vec<OpcodeEntry>)
    ensures
        t@ == spec_table_c2_64(),
{
    vec![
        entry(ATTR_OS16, Opcode::RetOp16Iw),
        last_entry(0, Opcode::RetOp64Iw),
    ]
}

/// `BxOpcodeTableC3_64`
pub open spec fn spec_table_c3_64() -> Seq<OpcodeEntry> {
    seq![
        form_opcode(ATTR_OS16, Opcode::RetOp16),
        last_opcode(0, Opcode::RetOp64),
    ]
}

fn table_c3_64() -> (t: Vec<OpcodeEntry>)
    ensures
        t@ == spec_table_c3_64(),
{
    vec![
        entry(ATTR_OS16, Opcode::RetOp16),
        last_entry(0, Opcode::RetOp64),
    ]
}

/// `BxOpcodeTableC8_64`
pub open spec fn spec_table_c8_64() -> Seq<OpcodeEntry> {
    seq![
        form_opcode(ATTR_OS16, Opcode::EnterOp16IwIb),
        last_opcode(0, Opcode::EnterOp64IwIb),
    ]
}

fn table_c8_64() -> (t: Vec<OpcodeEntry>)
    ensures
        t@ == spec_table_c8_64(),
{
    vec![
        entry(ATTR_OS16, Opcode::EnterOp16IwIb),
        last_entry(0, Opcode::EnterOp64IwIb),
    ]
}

/// `BxOpcodeTableC9_64`
pub open spec fn spec_table_c9_64() -> Seq<OpcodeEntry> {
    seq![
        form_opcode(ATTR_OS16, Opcode::LeaveOp16),
        last_opcode(0, Opcode::LeaveOp64),
    ]
}

fn table_c9_64() -> (t: Vec<OpcodeEntry>)
    ensures
        t@ == spec_table_c9_64(),
{
    vec![
        entry(ATTR_OS16, Opcode::LeaveOp16),
        last_entry(0, Opcode::LeaveOp64),
    ]
}

/// `BxOpcodeTableCF_64`
pub open spec fn spec_table_cf_64() -> Seq<OpcodeEntry> {
    seq![
        form_opcode(ATTR_OS64, Opcode::IretOp64),
        form_opcode(ATTR_OS32, Opcode::IretOp32),
        last_opcode(ATTR_OS16, Opcode::IretOp16),
    ]
}

fn table_cf_64() -> (t: Vec<OpcodeEntry>)
    ensures
        t@ == spec_table_cf_64(),
{
    vec![
        entry(ATTR_OS64, Opcode::IretOp64),
        entry(ATTR_OS32, Opcode::IretOp32),
        last_entry(ATTR_OS16, Opcode::IretOp16),
    ]
}

/// `BxOpcodeTableE0_64`
pub open spec fn spec_table_e0_64() -> Seq<OpcodeEntry> {
    seq![
        last_opcode(0, Opcode::LoopneJbq),
    ]
}

fn table_e0_64() -> (t: Vec<OpcodeEntry>)
    ensures
        t@ == spec_table_e0_64(),
{
    vec![
        last_entry(0, Opcode::LoopneJbq),
    ]
}

/// `BxOpcodeTableE1_64`
pub open spec fn spec_table_e1_64() -> Seq<OpcodeEntry> {
    seq![
        last_opcode(0, Opcode::LoopeJbq),
    ]
}

fn table_e1_64() -> (t: Vec<OpcodeEntry>)
    ensures
        t@ == spec_table_e1_64(),
{
    vec![
        last_entry(0, Opcode::LoopeJbq),
    ]
}

/// `BxOpcodeTableE2_64`
pub open spec fn spec_table_e2_64() -> Seq<OpcodeEntry> {
    seq![
        last_opcode(0, Opcode::LoopJbq),
    ]
}

fn table_e2_64() -> (t: Vec<OpcodeEntry>)
    ensures
        t@ == spec_table_e2_64(),
{
    vec![
        last_entry(0, Opcode::LoopJbq),
    ]
}

/// `BxOpcodeTableE3_64`
pub open spec fn spec_table_e3_64() -> Seq<OpcodeEntry> {
    seq![
        form_opcode(ATTR_AS64, Opcode::JrcxzJbq),
        last_opcode(0, Opcode::JecxzJbd),
    ]
}

fn table_e3_64() -> (t: Vec<OpcodeEntry>)
    ensures
        t@ == spec_table_e3_64(),
{
    vec![
        entry(ATTR_AS64, Opcode::JrcxzJbq),
        last_entry(0, Opcode::JecxzJbd),
    ]
}

/// `BxOpcodeTableE8_64`
pub open spec fn spec_table_e8_64() -> Seq<OpcodeEntry> {
    seq![
        last_opcode(0, Opcode::CallJq),
    ]
}

fn table_e8_64() -> (t: Vec<OpcodeEntry>)
    ensures
        t@ == spec_table_e8_64(),
{
    vec![
        last_entry(0, Opcode::CallJq),
    ]
}

/// `BxOpcodeTableE9_64`
pub open spec fn spec_table_e9_64() -> Seq<OpcodeEntry> {
    seq![
        last_opcode(0, Opcode::JmpJq),
    ]
}

fn table_e9_64() -> (t: Vec<OpcodeEntry>)
    ensures
        t@ == spec_table_e9_64(),
{
    vec![
        last_entry(0, Opcode::JmpJq),
    ]
}

/// `BxOpcodeTableEB_64`
pub open spec fn spec_table_eb_64() -> Seq<OpcodeEntry> {
    seq![
        last_opcode(0, Opcode::JmpJbq),
    ]
}

fn table_eb_64() -> (t: Vec<OpcodeEntry>)
    ensures
        t@ == spec_table_eb_64(),
{
    vec![
        last_entry(0, Opcode::JmpJbq),
    ]
}

/// `BxOpcodeTable0F00`
pub open spec fn spec_table_0f00() -> Seq<OpcodeEntry> {
    seq![
        form_opcode(ATTR_NNN0, Opcode::SldtEw),
        form_opcode(ATTR_NNN1, Opcode::StrEw),
        form_opcode(ATTR_NNN2, Opcode::LldtEw),
        form_opcode(ATTR_NNN3, Opcode::LtrEw),
        form_opcode(ATTR_NNN4, Opcode::VerrEw),
        last_opcode(ATTR_NNN5, Opcode::VerwEw),
    ]
}

fn table_0f00() -> (t: Vec<OpcodeEntry>)
    ensures
        t@ == spec_table_0f00(),
{
    vec![
        entry(ATTR_NNN0, Opcode::SldtEw),
        entry(ATTR_NNN1, Opcode::StrEw),
        entry(ATTR_NNN2, Opcode::LldtEw),
        entry(ATTR_NNN3, Opcode::LtrEw),
        entry(ATTR_NNN4, Opcode::VerrEw),
        last_entry(ATTR_NNN5, Opcode::VerwEw),
    ]
}

/// `BxOpcodeTable0F01`
pub open spec fn spec_table_0f01() -> Seq<OpcodeEntry> {
    seq![
        form_opcode(ATTR_IS64 | ATTR_NNN0 | ATTR_MOD_MEM, Opcode::SgdtOp64Ms),
        form_opcode(ATTR_NNN0 | ATTR_MOD_MEM, Opcode::SgdtMs),
        form_opcode(ATTR_IS64 | ATTR_NNN1 | ATTR_MOD_MEM, Opcode::SidtOp64Ms),
        form_opcode(ATTR_NNN1 | ATTR_MOD_MEM, Opcode::SidtMs),
        form_opcode(ATTR_IS64 | ATTR_NNN2 | ATTR_MOD_MEM, Opcode::LgdtOp64Ms),
        form_opcode(ATTR_NNN2 | ATTR_MOD_MEM, Opcode::LgdtMs),
        form_opcode(ATTR_IS64 | ATTR_NNN3 | ATTR_MOD_MEM, Opcode::LidtOp64Ms),
        form_opcode(ATTR_NNN3 | ATTR_MOD_MEM, Opcode::LidtMs),
        form_opcode(ATTR_NNN7 | ATTR_MOD_MEM, Opcode::Invlpg),
        form_opcode(ATTR_NNN1 | ATTR_MODC0 | ATTR_RRR0, Opcode::Monitor),
        form_opcode(ATTR_NNN1 | ATTR_MODC0 | ATTR_RRR1, Opcode::Mwait),
        form_opcode(ATTR_NNN2 | ATTR_MODC0 | ATTR_RRR0, Opcode::Xgetbv),
        form_opcode(ATTR_NNN2 | ATTR_MODC0 | ATTR_RRR1, Opcode::Xsetbv),
        form_opcode(ATTR_IS64 | ATTR_NNN7 | ATTR_MODC0 | ATTR_RRR0, Opcode::Swapgs),
        form_opcode(ATTR_NNN7 | ATTR_MODC0 | ATTR_RRR1, Opcode::Rdtscp),
        form_opcode(ATTR_NNN4, Opcode::SmswEw),
        last_opcode(ATTR_NNN6, Opcode::LmswEw),
    ]
}

fn table_0f01() -> (t: Vec<OpcodeEntry>)
    ensures
        t@ == spec_table_0f01(),
{
    vec![
        entry(ATTR_IS64 | ATTR_NNN0 | ATTR_MOD_MEM, Opcode::SgdtOp64Ms),
        entry(ATTR_NNN0 | ATTR_MOD_MEM, Opcode::SgdtMs),
        entry(ATTR_IS64 | ATTR_NNN1 | ATTR_MOD_MEM, Opcode::SidtOp64Ms),
        entry(ATTR_NNN1 | ATTR_MOD_MEM, Opcode::SidtMs),
        entry(ATTR_IS64 | ATTR_NNN2 | ATTR_MOD_MEM, Opcode::LgdtOp64Ms),
        entry(ATTR_NNN2 | ATTR_MOD_MEM, Opcode::LgdtMs),
        entry(ATTR_IS64 | ATTR_NNN3 | ATTR_MOD_MEM, Opcode::LidtOp64Ms),
        entry(ATTR_NNN3 | ATTR_MOD_MEM, Opcode::LidtMs),
        entry(ATTR_NNN7 | ATTR_MOD_MEM, Opcode::Invlpg),
        entry(ATTR_NNN1 | ATTR_MODC0 | ATTR_RRR0, Opcode::Monitor),
        entry(ATTR_NNN1 | ATTR_MODC0 | ATTR_RRR1, Opcode::Mwait),
        entry(ATTR_NNN2 | ATTR_MODC0 | ATTR_RRR0, Opcode::Xgetbv),
        entry(ATTR_NNN2 | ATTR_MODC0 | ATTR_RRR1, Opcode::Xsetbv),
        entry(ATTR_IS64 | ATTR_NNN7 | ATTR_MODC0 | ATTR_RRR0, Opcode::Swapgs),
        entry(ATTR_NNN7 | ATTR_MODC0 | ATTR_RRR1, Opcode::Rdtscp),
        entry(ATTR_NNN4, Opcode::SmswEw),
        last_entry(ATTR_NNN6, Opcode::LmswEw),
    ]
}

/// `BxOpcodeTable0F02`
pub open spec fn spec_table_0f02() -> Seq<OpcodeEntry> {
    seq![
        form_opcode(ATTR_OS16, Opcode::LarGwEw),
        last_opcode(0, Opcode::LarGdEw),
    ]
}

fn table_0f02() -> (t: Vec<OpcodeEntry>)
    ensures
        t@ == spec_table_0f02(),
{
    vec![
        entry(ATTR_OS16, Opcode::LarGwEw),
        last_entry(0, Opcode::LarGdEw),
    ]
}

/// `BxOpcodeTable0F03`
pub open spec fn spec_table_0f03() -> Seq<OpcodeEntry> {
    seq![
        form_opcode(ATTR_OS16, Opcode::LslGwEw),
        last_opcode(0, Opcode::LslGdEw),
    ]
}

fn table_0f03() -> (t: Vec<OpcodeEntry>)
    ensures
        t@ == spec_table_0f03(),
{
    vec![
        entry(ATTR_OS16, Opcode::LslGwEw),
        last_entry(0, Opcode::LslGdEw),
    ]
}

/// `BxOpcodeTable0F05_32`
pub open spec fn spec_table_0f05_32() -> Seq<OpcodeEntry> {
    seq![
        last_opcode(0, Opcode::SyscallLegacy),
    ]
}

fn table_0f05_32() -> (t: Vec<OpcodeEntry>)
    ensures
        t@ == spec_table_0f05_32(),
{
    vec![
        last_entry(0, Opcode::SyscallLegacy),
    ]
}

/// `BxOpcodeTable0F06`
pub open spec fn spec_table_0f06() -> Seq<OpcodeEntry> {
    seq![
        last_opcode(0, Opcode::Clts),
    ]
}

fn table_0f06() -> (t: Vec<OpcodeEntry>)
    ensures
        t@ == spec_table_0f06(),
{
    vec![
        last_entry(0, Opcode::Clts),
    ]
}

/// `BxOpcodeTable0F07_32`
pub open spec fn spec_table_0f07_32() -> Seq<OpcodeEntry> {
    seq![
        last_opcode(0, Opcode::SysretLegacy),
    ]
}

fn table_0f07_32() -> (t: Vec<OpcodeEntry>)
    ensures
        t@ == spec_table_0f07_32(),
{
    vec![
        last_entry(0, Opcode::SysretLegacy),
    ]
}

/// `BxOpcodeTable0F08`
pub open spec fn spec_table_0f08() -> Seq<OpcodeEntry> {
    seq![
        last_opcode(0, Opcode::Invd),
    ]
}

fn table_0f08() -> (t: Vec<OpcodeEntry>)
    ensures
        t@ == spec_table_0f08(),
{
    vec![
        last_entry(0, Opcode::Invd),
    ]
}

/// `BxOpcodeTable0F09`
pub open spec fn spec_table_0f09() -> Seq<OpcodeEntry> {
    seq![
        last_opcode(0, Opcode::Wbinvd),
    ]
}

fn table_0f09() -> (t: Vec<OpcodeEntry>)
    ensures
        t@ == spec_table_0f09(),
{
    vec![
        last_entry(0, Opcode::Wbinvd),
    ]
}

/// `BxOpcodeTable0F0B`
pub open spec fn spec_table_0f0b() -> Seq<OpcodeEntry> {
    seq![
        last_opcode(0, Opcode::Ud2),
    ]
}

fn table_0f0b() -> (t: Vec<OpcodeEntry>)
    ensures
        t@ == spec_table_0f0b(),
{
    vec![
        last_entry(0, Opcode::Ud2),
    ]
}

/// `BxOpcodeTable0F0D`
pub open spec fn spec_table_0f0d() -> Seq<OpcodeEntry> {
    seq![
        last_opcode(ATTR_NNN1 | ATTR_MOD_MEM, Opcode::PrefetchwMb),
    ]
}

fn table_0f0d() -> (t: Vec<OpcodeEntry>)
    ensures
        t@ == spec_table_0f0d(),
{
    vec![
        last_entry(ATTR_NNN1 | ATTR_MOD_MEM, Opcode::PrefetchwMb),
    ]
}

/// `BxOpcodeTable0F0E`
pub open spec fn spec_table_0f0e() -> Seq<OpcodeEntry> {
    seq![
        last_opcode(0, Opcode::Femms),
    ]
}

fn table_0f0e() -> (t: Vec<OpcodeEntry>)
    ensures
        t@ == spec_table_0f0e(),
{
    vec![
        last_entry(0, Opcode::Femms),
    ]
}

/// `BxOpcodeTable0F10`
pub open spec fn spec_table_0f10() -> Seq<OpcodeEntry> {
    seq![
        form_opcode(ATTR_SSE_NO_PREFIX, Opcode::MovupsVpsWps),
        form_opcode(ATTR_SSE_PREFIX_66, Opcode::MovupdVpdWpd),
        form_opcode(ATTR_SSE_PREFIX_F3, Opcode::MovssVssWss),
        last_opcode(ATTR_SSE_PREFIX_F2, Opcode::MovsdVsdWsd),
    ]
}

fn table_0f10() -> (t: Vec<OpcodeEntry>)
    ensures
        t@ == spec_table_0f10(),
{
    vec![
        entry(ATTR_SSE_NO_PREFIX, Opcode::MovupsVpsWps),
        entry(ATTR_SSE_PREFIX_66, Opcode::MovupdVpdWpd),
        entry(ATTR_SSE_PREFIX_F3, Opcode::MovssVssWss),
        last_entry(ATTR_SSE_PREFIX_F2, Opcode::MovsdVsdWsd),
    ]
}

/// `BxOpcodeTable0F11`
pub open spec fn spec_table_0f11() -> Seq<OpcodeEntry> {
    seq![
        form_opcode(ATTR_SSE_NO_PREFIX, Opcode::MovupsWpsVps),
        form_opcode(ATTR_SSE_PREFIX_66, Opcode::MovupdWpdVpd),
        form_opcode(ATTR_SSE_PREFIX_F3, Opcode::MovssWssVss),
        last_opcode(ATTR_SSE_PREFIX_F2, Opcode::MovsdWsdVsd),
    ]
}

fn table_0f11() -> (t: Vec<OpcodeEntry>)
    ensures
        t@ == spec_table_0f11(),
{
    vec![
        entry(ATTR_SSE_NO_PREFIX, Opcode::MovupsWpsVps),
        entry(ATTR_SSE_PREFIX_66, Opcode::MovupdWpdVpd),
        entry(ATTR_SSE_PREFIX_F3, Opcode::MovssWssVss),
        last_entry(ATTR_SSE_PREFIX_F2, Opcode::MovsdWsdVsd),
    ]
}

/// `BxOpcodeTable0F12`
pub open spec fn spec_table_0f12() -> Seq<OpcodeEntry> {
    seq![
        form_opcode(ATTR_SSE_NO_PREFIX | ATTR_MODC0, Opcode::MovhlpsVpsWps),
        form_opcode(ATTR_SSE_NO_PREFIX | ATTR_MOD_MEM, Opcode::MovlpsVpsMq),
        form_opcode(ATTR_SSE_PREFIX_66 | ATTR_MOD_MEM, Opcode::MovlpdVsdMq),
        form_opcode(ATTR_SSE_PREFIX_F3, Opcode::MovsldupVpsWps),
        last_opcode(ATTR_SSE_PREFIX_F2, Opcode::MovddupVpdWq),
    ]
}

fn table_0f12() -> (t: Vec<OpcodeEntry>)
    ensures
        t@ == spec_table_0f12(),
{
    vec![
        entry(ATTR_SSE_NO_PREFIX | ATTR_MODC0, Opcode::MovhlpsVpsWps),
        entry(ATTR_SSE_NO_PREFIX | ATTR_MOD_MEM, Opcode::MovlpsVpsMq),
        entry(ATTR_SSE_PREFIX_66 | ATTR_MOD_MEM, Opcode::MovlpdVsdMq),
        entry(ATTR_SSE_PREFIX_F3, Opcode::MovsldupVpsWps),
        last_entry(ATTR_SSE_PREFIX_F2, Opcode::MovddupVpdWq),
    ]
}

/// `BxOpcodeTable0F13`
pub open spec fn spec_table_0f13() -> Seq<OpcodeEntry> {
    seq![
        form_opcode(ATTR_SSE_NO_PREFIX | ATTR_MOD_MEM, Opcode::MovlpsMqVps),
        last_opcode(ATTR_SSE_PREFIX_66 | ATTR_MOD_MEM, Opcode::MovlpdMqVsd),
    ]
}

fn table_0f13() -> (t: Vec<OpcodeEntry>)
    ensures
        t@ == spec_table_0f13(),
{
    vec![
        entry(ATTR_SSE_NO_PREFIX | ATTR_MOD_MEM, Opcode::MovlpsMqVps),
        last_entry(ATTR_SSE_PREFIX_66 | ATTR_MOD_MEM, Opcode::MovlpdMqVsd),
    ]
}

/// `BxOpcodeTable0F14`
pub open spec fn spec_table_0f14() -> Seq<OpcodeEntry> {
    seq![
        form_opcode(ATTR_SSE_NO_PREFIX, Opcode::UnpcklpsVpsWdq),
        last_opcode(ATTR_SSE_PREFIX_66, Opcode::UnpcklpdVpdWdq),
    ]
}

fn table_0f14() -> (t: Vec<OpcodeEntry>)
    ensures
        t@ == spec_table_0f14(),
{
    vec![
        entry(ATTR_SSE_NO_PREFIX, Opcode::UnpcklpsVpsWdq),
        last_entry(ATTR_SSE_PREFIX_66, Opcode::UnpcklpdVpdWdq),
    ]
}

/// `BxOpcodeTable0F15`
pub open spec fn spec_table_0f15() -> Seq<OpcodeEntry> {
    seq![
        form_opcode(ATTR_SSE_NO_PREFIX, Opcode::UnpckhpsVpsWdq),
        last_opcode(ATTR_SSE_PREFIX_66, Opcode::UnpckhpdVpdWdq),
    ]
}

fn table_0f15() -> (t: Vec<OpcodeEntry>)
    ensures
        t@ == spec_table_0f15(),
{
    vec![
        entry(ATTR_SSE_NO_PREFIX, Opcode::UnpckhpsVpsWdq),
        last_entry(ATTR_SSE_PREFIX_66, Opcode::UnpckhpdVpdWdq),
    ]
}

/// `BxOpcodeTable0F16`
pub open spec fn spec_table_0f16() -> Seq<OpcodeEntry> {
    seq![
        form_opcode(ATTR_SSE_NO_PREFIX | ATTR_MODC0, Opcode::MovlhpsVpsWps),
        form_opcode(ATTR_SSE_NO_PREFIX | ATTR_MOD_MEM, Opcode::MovhpsVpsMq),
        form_opcode(ATTR_SSE_PREFIX_66 | ATTR_MOD_MEM, Opcode::MovhpdVsdMq),
        last_opcode(ATTR_SSE_PREFIX_F3, Opcode::MovshdupVpsWps),
    ]
}

fn table_0f16() -> (t: Vec<OpcodeEntry>)
    ensures
        t@ == spec_table_0f16(),
{
    vec![
        entry(ATTR_SSE_NO_PREFIX | ATTR_MODC0, Opcode::MovlhpsVpsWps),
        entry(ATTR_SSE_NO_PREFIX | ATTR_MOD_MEM, Opcode::MovhpsVpsMq),
        entry(ATTR_SSE_PREFIX_66 | ATTR_MOD_MEM, Opcode::MovhpdVsdMq),
        last_entry(ATTR_SSE_PREFIX_F3, Opcode::MovshdupVpsWps),
    ]
}

/// `BxOpcodeTable0F17`
pub open spec fn spec_table_0f17() -> Seq<OpcodeEntry> {
    seq![
        form_opcode(ATTR_SSE_NO_PREFIX | ATTR_MOD_MEM, Opcode::MovhpsMqVps),
        last_opcode(ATTR_SSE_PREFIX_66 | ATTR_MOD_MEM, Opcode::MovhpdMqVsd),
    ]
}

fn table_0f17() -> (t: Vec<OpcodeEntry>)
    ensures
        t@ == spec_table_0f17(),
{
    vec![
        entry(ATTR_SSE_NO_PREFIX | ATTR_MOD_MEM, Opcode::MovhpsMqVps),
        last_entry(ATTR_SSE_PREFIX_66 | ATTR_MOD_MEM, Opcode::MovhpdMqVsd),
    ]
}

/// `BxOpcodeTable0F18`
pub open spec fn spec_table_0f18() -> Seq<OpcodeEntry> {
    seq![
        form_opcode(ATTR_NNN0 | ATTR_MOD_MEM, Opcode::PrefetchntaMb),
        form_opcode(ATTR_NNN1 | ATTR_MOD_MEM, Opcode::Prefetcht0Mb),
        form_opcode(ATTR_NNN2 | ATTR_MOD_MEM, Opcode::Prefetcht1Mb),
        last_opcode(ATTR_NNN3 | ATTR_MOD_MEM, Opcode::Prefetcht2Mb),
    ]
}

fn table_0f18() -> (t: Vec<OpcodeEntry>)
    ensures
        t@ == spec_table_0f18(),
{
    vec![
        entry(ATTR_NNN0 | ATTR_MOD_MEM, Opcode::PrefetchntaMb),
        entry(ATTR_NNN1 | ATTR_MOD_MEM, Opcode::Prefetcht0Mb),
        entry(ATTR_NNN2 | ATTR_MOD_MEM, Opcode::Prefetcht1Mb),
        last_entry(ATTR_NNN3 | ATTR_MOD_MEM, Opcode::Prefetcht2Mb),
    ]
}

/// `BxOpcodeTable0F1E`
pub open spec fn spec_table_0f1e() -> Seq<OpcodeEntry> {
    seq![
        form_opcode(ATTR_SSE_PREFIX_F3 | ATTR_MODC0 | ATTR_NNN7 | ATTR_RRR3, Opcode::Endbranch32),
        last_opcode(ATTR_SSE_PREFIX_F3 | ATTR_MODC0 | ATTR_NNN7 | ATTR_RRR2, Opcode::Endbranch64),
    ]
}

fn table_0f1e() -> (t: Vec<OpcodeEntry>)
    ensures
        t@ == spec_table_0f1e(),
{
    vec![
        entry(ATTR_SSE_PREFIX_F3 | ATTR_MODC0 | ATTR_NNN7 | ATTR_RRR3, Opcode::Endbranch32),
        last_entry(ATTR_SSE_PREFIX_F3 | ATTR_MODC0 | ATTR_NNN7 | ATTR_RRR2, Opcode::Endbranch64),
    ]
}

/// `BxOpcodeTable0F20_32`
pub open spec fn spec_table_0f20_32() -> Seq<OpcodeEntry> {
    seq![
        form_opcode(ATTR_NNN0, Opcode::MovRdCr0),
        form_opcode(ATTR_NNN2, Opcode::MovRdCr2),
        form_opcode(ATTR_NNN3, Opcode::MovRdCr3),
        last_opcode(ATTR_NNN4, Opcode::MovRdCr4),
    ]
}

fn table_0f20_32() -> (t: Vec<OpcodeEntry>)
    ensures
        t@ == spec_table_0f20_32(),
{
    vec![
        entry(ATTR_NNN0, Opcode::MovRdCr0),
        entry(ATTR_NNN2, Opcode::MovRdCr2),
        entry(ATTR_NNN3, Opcode::MovRdCr3),
        last_entry(ATTR_NNN4, Opcode::MovRdCr4),
    ]
}

/// `BxOpcodeTable0F21_32`
pub open spec fn spec_table_0f21_32() -> Seq<OpcodeEntry> {
    seq![
        last_opcode(0, Opcode::MovRdDd),
    ]
}

fn table_0f21_32() -> (t: Vec<OpcodeEntry>)
    ensures
        t@ == spec_table_0f21_32(),
{
    vec![
        last_entry(0, Opcode::MovRdDd),
    ]
}

/// `BxOpcodeTable0F22_32`
pub open spec fn spec_table_0f22_32() -> Seq<OpcodeEntry> {
    seq![
        form_opcode(ATTR_NNN0, Opcode::MovCr0rd),
        form_opcode(ATTR_NNN2, Opcode::MovCr2rd),
        form_opcode(ATTR_NNN3, Opcode::MovCr3rd),
        last_opcode(ATTR_NNN4, Opcode::MovCr4rd),
    ]
}

fn table_0f22_32() -> (t: Vec<OpcodeEntry>)
    ensures
        t@ == spec_table_0f22_32(),
{
    vec![
        entry(ATTR_NNN0, Opcode::MovCr0rd),
        entry(ATTR_NNN2, Opcode::MovCr2rd),
        entry(ATTR_NNN3, Opcode::MovCr3rd),
        last_entry(ATTR_NNN4, Opcode::MovCr4rd),
    ]
}

/// `BxOpcodeTable0F23_32`
pub open spec fn spec_table_0f23_32() -> Seq<OpcodeEntry> {
    seq![
        last_opcode(0, Opcode::MovDdRd),
    ]
}

fn table_0f23_32() -> (t: Vec<OpcodeEntry>)
    ensures
        t@ == spec_table_0f23_32(),
{
    vec![
        last_entry(0, Opcode::MovDdRd),
    ]
}

/// `BxOpcodeTable0F28`
pub open spec fn spec_table_0f28() -> Seq<OpcodeEntry> {
    seq![
        form_opcode(ATTR_SSE_NO_PREFIX, Opcode::MovapsVpsWps),
        last_opcode(ATTR_SSE_PREFIX_66, Opcode::MovapdVpdWpd),
    ]
}

fn table_0f28() -> (t: Vec<OpcodeEntry>)
    ensures
        t@ == spec_table_0f28(),
{
    vec![
        entry(ATTR_SSE_NO_PREFIX, Opcode::MovapsVpsWps),
        last_entry(ATTR_SSE_PREFIX_66, Opcode::MovapdVpdWpd),
    ]
}

/// `BxOpcodeTable0F29`
pub open spec fn spec_table_0f29() -> Seq<OpcodeEntry> {
    seq![
        form_opcode(ATTR_SSE_NO_PREFIX, Opcode::MovapsWpsVps),
        last_opcode(ATTR_SSE_PREFIX_66, Opcode::MovapdWpdVpd),
    ]
}

fn table_0f29() -> (t: Vec<OpcodeEntry>)
    ensures
        t@ == spec_table_0f29(),
{
    vec![
        entry(ATTR_SSE_NO_PREFIX, Opcode::MovapsWpsVps),
        last_entry(ATTR_SSE_PREFIX_66, Opcode::MovapdWpdVpd),
    ]
}

/// `BxOpcodeTable0F2A`
pub open spec fn spec_table_0f2a() -> Seq<OpcodeEntry> {
    seq![
        form_opcode(ATTR_SSE_NO_PREFIX, Opcode::Cvtpi2psVpsQq),
        form_opcode(ATTR_SSE_PREFIX_66, Opcode::Cvtpi2pdVpdQq),
        form_opcode(ATTR_SSE_PREFIX_F3 | ATTR_OS64, Opcode::Cvtsi2ssVssEq),
        form_opcode(ATTR_SSE_PREFIX_F3, Opcode::Cvtsi2ssVssEd),
        form_opcode(ATTR_SSE_PREFIX_F2 | ATTR_OS64, Opcode::Cvtsi2sdVsdEq),
        last_opcode(ATTR_SSE_PREFIX_F2, Opcode::Cvtsi2sdVsdEd),
    ]
}

fn table_0f2a() -> (t: Vec<OpcodeEntry>)
    ensures
        t@ == spec_table_0f2a(),
{
    vec![
        entry(ATTR_SSE_NO_PREFIX, Opcode::Cvtpi2psVpsQq),
        entry(ATTR_SSE_PREFIX_66, Opcode::Cvtpi2pdVpdQq),
        entry(ATTR_SSE_PREFIX_F3 | ATTR_OS64, Opcode::Cvtsi2ssVssEq),
        entry(ATTR_SSE_PREFIX_F3, Opcode::Cvtsi2ssVssEd),
        entry(ATTR_SSE_PREFIX_F2 | ATTR_OS64, Opcode::Cvtsi2sdVsdEq),
        last_entry(ATTR_SSE_PREFIX_F2, Opcode::Cvtsi2sdVsdEd),
    ]
}

/// `BxOpcodeTable0F2B`
pub open spec fn spec_table_0f2b() -> Seq<OpcodeEntry> {
    seq![
        form_opcode(ATTR_SSE_NO_PREFIX | ATTR_MOD_MEM, Opcode::MovntpsMpsVps),
        last_opcode(ATTR_SSE_PREFIX_66 | ATTR_MOD_MEM, Opcode::MovntpdMpdVpd),
    ]
}

fn table_0f2b() -> (t: Vec<OpcodeEntry>)
    ensures
        t@ == spec_table_0f2b(),
{
    vec![
        entry(ATTR_SSE_NO_PREFIX | ATTR_MOD_MEM, Opcode::MovntpsMpsVps),
        last_entry(ATTR_SSE_PREFIX_66 | ATTR_MOD_MEM, Opcode::MovntpdMpdVpd),
    ]
}

/// `BxOpcodeTable0F2C`
pub open spec fn spec_table_0f2c() -> Seq<OpcodeEntry> {
    seq![
        form_opcode(ATTR_SSE_NO_PREFIX, Opcode::Cvttps2piPqWps),
        form_opcode(ATTR_SSE_PREFIX_66, Opcode::Cvttpd2piPqWpd),
        form_opcode(ATTR_SSE_PREFIX_F3 | ATTR_OS64, Opcode::Cvttss2siGqWss),
        form_opcode(ATTR_SSE_PREFIX_F3, Opcode::Cvttss2siGdWss),
        form_opcode(ATTR_SSE_PREFIX_F2 | ATTR_OS64, Opcode::Cvttsd2siGqWsd),
        last_opcode(ATTR_SSE_PREFIX_F2, Opcode::Cvttsd2siGdWsd),
    ]
}

fn table_0f2c() -> (t: Vec<OpcodeEntry>)
    ensures
        t@ == spec_table_0f2c(),
{
    vec![
        entry(ATTR_SSE_NO_PREFIX, Opcode::Cvttps2piPqWps),
        entry(ATTR_SSE_PREFIX_66, Opcode::Cvttpd2piPqWpd),
        entry(ATTR_SSE_PREFIX_F3 | ATTR_OS64, Opcode::Cvttss2siGqWss),
        entry(ATTR_SSE_PREFIX_F3, Opcode::Cvttss2siGdWss),
        entry(ATTR_SSE_PREFIX_F2 | ATTR_OS64, Opcode::Cvttsd2siGqWsd),
        last_entry(ATTR_SSE_PREFIX_F2, Opcode::Cvttsd2siGdWsd),
    ]
}

/// `BxOpcodeTable0F2D`
pub open spec fn spec_table_0f2d() -> Seq<OpcodeEntry> {
    seq![
        form_opcode(ATTR_SSE_NO_PREFIX, Opcode::Cvtps2piPqWps),
        form_opcode(ATTR_SSE_PREFIX_66, Opcode::Cvtpd2piPqWpd),
        form_opcode(ATTR_SSE_PREFIX_F3 | ATTR_OS64, Opcode::Cvtss2siGqWss),
        form_opcode(ATTR_SSE_PREFIX_F3, Opcode::Cvtss2siGdWss),
        form_opcode(ATTR_SSE_PREFIX_F2 | ATTR_OS64, Opcode::Cvtsd2siGqWsd),
        last_opcode(ATTR_SSE_PREFIX_F2, Opcode::Cvtsd2siGdWsd),
    ]
}

fn table_0f2d() -> (t: Vec<OpcodeEntry>)
    ensures
        t@ == spec_table_0f2d(),
{
    vec![
        entry(ATTR_SSE_NO_PREFIX, Opcode::Cvtps2piPqWps),
        entry(ATTR_SSE_PREFIX_66, Opcode::Cvtpd2piPqWpd),
        entry(ATTR_SSE_PREFIX_F3 | ATTR_OS64, Opcode::Cvtss2siGqWss),
        entry(ATTR_SSE_PREFIX_F3, Opcode::Cvtss2siGdWss),
        entry(ATTR_SSE_PREFIX_F2 | ATTR_OS64, Opcode::Cvtsd2siGqWsd),
        last_entry(ATTR_SSE_PREFIX_F2, Opcode::Cvtsd2siGdWsd),
    ]
}

/// `BxOpcodeTable0F2E`
pub open spec fn spec_table_0f2e() -> Seq<OpcodeEntry> {
    seq![
        form_opcode(ATTR_SSE_NO_PREFIX, Opcode::UcomissVssWss),
        last_opcode(ATTR_SSE_PREFIX_66, Opcode::UcomisdVsdWsd),
    ]
}

fn table_0f2e() -> (t: Vec<OpcodeEntry>)
    ensures
        t@ == spec_table_0f2e(),
{
    vec![
        entry(ATTR_SSE_NO_PREFIX, Opcode::UcomissVssWss),
        last_entry(ATTR_SSE_PREFIX_66, Opcode::UcomisdVsdWsd),
    ]
}

/// `BxOpcodeTable0F2F`
pub open spec fn spec_table_0f2f() -> Seq<OpcodeEntry> {
    seq![
        form_opcode(ATTR_SSE_NO_PREFIX, Opcode::ComissVssWss),
        last_opcode(ATTR_SSE_PREFIX_66, Opcode::ComisdVsdWsd),
    ]
}

fn table_0f2f() -> (t: Vec<OpcodeEntry>)
    ensures
        t@ == spec_table_0f2f(),
{
    vec![
        entry(ATTR_SSE_NO_PREFIX, Opcode::ComissVssWss),
        last_entry(ATTR_SSE_PREFIX_66, Opcode::ComisdVsdWsd),
    ]
}

/// `BxOpcodeTable0F30`
pub open spec fn spec_table_0f30() -> Seq<OpcodeEntry> {
    seq![
        last_opcode(0, Opcode::Wrmsr),
    ]
}

fn table_0f30() -> (t: Vec<OpcodeEntry>)
    ensures
        t@ == spec_table_0f30(),
{
    vec![
        last_entry(0, Opcode::Wrmsr),
    ]
}

/// `BxOpcodeTable0F31`
pub open spec fn spec_table_0f31() -> Seq<OpcodeEntry> {
    seq![
        last_opcode(0, Opcode::Rdtsc),
    ]
}

fn table_0f31() -> (t: Vec<OpcodeEntry>)
    ensures
        t@ == spec_table_0f31(),
{
    vec![
        last_entry(0, Opcode::Rdtsc),
    ]
}

/// `BxOpcodeTable0F32`
pub open spec fn spec_table_0f32() -> Seq<OpcodeEntry> {
    seq![
        last_opcode(0, Opcode::Rdmsr),
    ]
}

fn table_0f32() -> (t: Vec<OpcodeEntry>)
    ensures
        t@ == spec_table_0f32(),
{
    vec![
        last_entry(0, Opcode::Rdmsr),
    ]
}

/// `BxOpcodeTable0F33`
pub open spec fn spec_table_0f33() -> Seq<OpcodeEntry> {
    seq![
        last_opcode(0, Opcode::Rdpmc),
    ]
}

fn table_0f33() -> (t: Vec<OpcodeEntry>)
    ensures
        t@ == spec_table_0f33(),
{
    vec![
        last_entry(0, Opcode::Rdpmc),
    ]
}

/// `BxOpcodeTable0F34`
pub open spec fn spec_table_0f34() -> Seq<OpcodeEntry> {
    seq![
        last_opcode(0, Opcode::Sysenter),
    ]
}

fn table_0f34() -> (t: Vec<OpcodeEntry>)
    ensures
        t@ == spec_table_0f34(),
{
    vec![
        last_entry(0, Opcode::Sysenter),
    ]
}

/// `BxOpcodeTable0F35`
pub open spec fn spec_table_0f35() -> Seq<OpcodeEntry> {
    seq![
        last_opcode(0, Opcode::Sysexit),
    ]
}

fn table_0f35() -> (t: Vec<OpcodeEntry>)
    ensures
        t@ == spec_table_0f35(),
{
    vec![
        last_entry(0, Opcode::Sysexit),
    ]
}

/// `BxOpcodeTable0F37`
pub open spec fn spec_table_0f37() -> Seq<OpcodeEntry> {
    seq![
        last_opcode(0, Opcode::Getsec),
    ]
}

fn table_0f37() -> (t: Vec<OpcodeEntry>)
    ensures
        t@ == spec_table_0f37(),
{
    vec![
        last_entry(0, Opcode::Getsec),
    ]
}

/// `BxOpcodeTable0F40`
pub open spec fn spec_table_0f40() -> Seq<OpcodeEntry> {
    seq![
        form_opcode(ATTR_OS64, Opcode::CmovoGqEq),
        form_opcode(ATTR_OS32, Opcode::CmovoGdEd),
        last_opcode(ATTR_OS16, Opcode::CmovoGwEw),
    ]
}

fn table_0f40() -> (t: Vec<OpcodeEntry>)
    ensures
        t@ == spec_table_0f40(),
{
    vec![
        entry(ATTR_OS64, Opcode::CmovoGqEq),
        entry(ATTR_OS32, Opcode::CmovoGdEd),
        last_entry(ATTR_OS16, Opcode::CmovoGwEw),
    ]
}

/// `BxOpcodeTable0F41`
pub open spec fn spec_table_0f41() -> Seq<OpcodeEntry> {
    seq![
        form_opcode(ATTR_OS64, Opcode::CmovnoGqEq),
        form_opcode(ATTR_OS32, Opcode::CmovnoGdEd),
        last_opcode(ATTR_OS16, Opcode::CmovnoGwEw),
    ]
}

fn table_0f41() -> (t: Vec<OpcodeEntry>)
    ensures
        t@ == spec_table_0f41(),
{
    vec![
        entry(ATTR_OS64, Opcode::CmovnoGqEq),
        entry(ATTR_OS32, Opcode::CmovnoGdEd),
        last_entry(ATTR_OS16, Opcode::CmovnoGwEw),
    ]
}

/// `BxOpcodeTable0F42`
pub open spec fn spec_table_0f42() -> Seq<OpcodeEntry> {
    seq![
        form_opcode(ATTR_OS64, Opcode::CmovbGqEq),
        form_opcode(ATTR_OS32, Opcode::CmovbGdEd),
        last_opcode(ATTR_OS16, Opcode::CmovbGwEw),
    ]
}

fn table_0f42() -> (t: Vec<OpcodeEntry>)
    ensures
        t@ == spec_table_0f42(),
{
    vec![
        entry(ATTR_OS64, Opcode::CmovbGqEq),
        entry(ATTR_OS32, Opcode::CmovbGdEd),
        last_entry(ATTR_OS16, Opcode::CmovbGwEw),
    ]
}

/// `BxOpcodeTable0F43`
pub open spec fn spec_table_0f43() -> Seq<OpcodeEntry> {
    seq![
        form_opcode(ATTR_OS64, Opcode::CmovnbGqEq),
        form_opcode(ATTR_OS32, Opcode::CmovnbGdEd),
        last_opcode(ATTR_OS16, Opcode::CmovnbGwEw),
    ]
}

fn table_0f43() -> (t: Vec<OpcodeEntry>)
    ensures
        t@ == spec_table_0f43(),
{
    vec![
        entry(ATTR_OS64, Opcode::CmovnbGqEq),
        entry(ATTR_OS32, Opcode::CmovnbGdEd),
        last_entry(ATTR_OS16, Opcode::CmovnbGwEw),
    ]
}

/// `BxOpcodeTable0F44`
pub open spec fn spec_table_0f44() -> Seq<OpcodeEntry> {
    seq![
        form_opcode(ATTR_OS64, Opcode::CmovzGqEq),
        form_opcode(ATTR_OS32, Opcode::CmovzGdEd),
        last_opcode(ATTR_OS16, Opcode::CmovzGwEw),
    ]
}

fn table_0f44() -> (t: Vec<OpcodeEntry>)
    ensures
        t@ == spec_table_0f44(),
{
    vec![
        entry(ATTR_OS64, Opcode::CmovzGqEq),
        entry(ATTR_OS32, Opcode::CmovzGdEd),
        last_entry(ATTR_OS16, Opcode::CmovzGwEw),
    ]
}

/// `BxOpcodeTable0F45`
pub open spec fn spec_table_0f45() -> Seq<OpcodeEntry> {
    seq![
        form_opcode(ATTR_OS64, Opcode::CmovnzGqEq),
        form_opcode(ATTR_OS32, Opcode::CmovnzGdEd),
        last_opcode(ATTR_OS16, Opcode::CmovnzGwEw),
    ]
}

fn table_0f45() -> (t: Vec<OpcodeEntry>)
    ensures
        t@ == spec_table_0f45(),
{
    vec![
        entry(ATTR_OS64, Opcode::CmovnzGqEq),
        entry(ATTR_OS32, Opcode::CmovnzGdEd),
        last_entry(ATTR_OS16, Opcode::CmovnzGwEw),
    ]
}

/// `BxOpcodeTable0F46`
pub open spec fn spec_table_0f46() -> Seq<OpcodeEntry> {
    seq![
        form_opcode(ATTR_OS64, Opcode::CmovbeGqEq),
        form_opcode(ATTR_OS32, Opcode::CmovbeGdEd),
        last_opcode(ATTR_OS16, Opcode::CmovbeGwEw),
    ]
}

fn table_0f46() -> (t: Vec<OpcodeEntry>)
    ensures
        t@ == spec_table_0f46(),
{
    vec![
        entry(ATTR_OS64, Opcode::CmovbeGqEq),
        entry(ATTR_OS32, Opcode::CmovbeGdEd),
        last_entry(ATTR_OS16, Opcode::CmovbeGwEw),
    ]
}

/// `BxOpcodeTable0F47`
pub open spec fn spec_table_0f47() -> Seq<OpcodeEntry> {
    seq![
        form_opcode(ATTR_OS64, Opcode::CmovnbeGqEq),
        form_opcode(ATTR_OS32, Opcode::CmovnbeGdEd),
        last_opcode(ATTR_OS16, Opcode::CmovnbeGwEw),
    ]
}

fn table_0f47() -> (t: Vec<OpcodeEntry>)
    ensures
        t@ == spec_table_0f47(),
{
    vec![
        entry(ATTR_OS64, Opcode::CmovnbeGqEq),
        entry(ATTR_OS32, Opcode::CmovnbeGdEd),
        last_entry(ATTR_OS16, Opcode::CmovnbeGwEw),
    ]
}

/// `BxOpcodeTable0F48`
pub open spec fn spec_table_0f48() -> Seq<OpcodeEntry> {
    seq![
        form_opcode(ATTR_OS64, Opcode::CmovsGqEq),
        form_opcode(ATTR_OS32, Opcode::CmovsGdEd),
        last_opcode(ATTR_OS16, Opcode::CmovsGwEw),
    ]
}

fn table_0f48() -> (t: Vec<OpcodeEntry>)
    ensures
        t@ == spec_table_0f48(),
{
    vec![
        entry(ATTR_OS64, Opcode::CmovsGqEq),
        entry(ATTR_OS32, Opcode::CmovsGdEd),
        last_entry(ATTR_OS16, Opcode::CmovsGwEw),
    ]
}

/// `BxOpcodeTable0F49`
pub open spec fn spec_table_0f49() -> Seq<OpcodeEntry> {
    seq![
        form_opcode(ATTR_OS64, Opcode::CmovnsGqEq),
        form_opcode(ATTR_OS32, Opcode::CmovnsGdEd),
        last_opcode(ATTR_OS16, Opcode::CmovnsGwEw),
    ]
}

fn table_0f49() -> (t: Vec<OpcodeEntry>)
    ensures
        t@ == spec_table_0f49(),
{
    vec![
        entry(ATTR_OS64, Opcode::CmovnsGqEq),
        entry(ATTR_OS32, Opcode::CmovnsGdEd),
        last_entry(ATTR_OS16, Opcode::CmovnsGwEw),
    ]
}

/// `BxOpcodeTable0F4A`
pub open spec fn spec_table_0f4a() -> Seq<OpcodeEntry> {
    seq![
        form_opcode(ATTR_OS64, Opcode::CmovpGqEq),
        form_opcode(ATTR_OS32, Opcode::CmovpGdEd),
        last_opcode(ATTR_OS16, Opcode::CmovpGwEw),
    ]
}

fn table_0f4a() -> (t: Vec<OpcodeEntry>)
    ensures
        t@ == spec_table_0f4a(),
{
    vec![
        entry(ATTR_OS64, Opcode::CmovpGqEq),
        entry(ATTR_OS32, Opcode::CmovpGdEd),
        last_entry(ATTR_OS16, Opcode::CmovpGwEw),
    ]
}

/// `BxOpcodeTable0F4B`
pub open spec fn spec_table_0f4b() -> Seq<OpcodeEntry> {
    seq![
        form_opcode(ATTR_OS64, Opcode::CmovnpGqEq),
        form_opcode(ATTR_OS32, Opcode::CmovnpGdEd),
        last_opcode(ATTR_OS16, Opcode::CmovnpGwEw),
    ]
}

fn table_0f4b() -> (t: Vec<OpcodeEntry>)
    ensures
        t@ == spec_table_0f4b(),
{
    vec![
        entry(ATTR_OS64, Opcode::CmovnpGqEq),
        entry(ATTR_OS32, Opcode::CmovnpGdEd),
        last_entry(ATTR_OS16, Opcode::CmovnpGwEw),
    ]
}

/// `BxOpcodeTable0F4C`
pub open spec fn spec_table_0f4c() -> Seq<OpcodeEntry> {
    seq![
        form_opcode(ATTR_OS64, Opcode::CmovlGqEq),
        form_opcode(ATTR_OS32, Opcode::CmovlGdEd),
        last_opcode(ATTR_OS16, Opcode::CmovlGwEw),
    ]
}

fn table_0f4c() -> (t: Vec<OpcodeEntry>)
    ensures
        t@ == spec_table_0f4c(),
{
    vec![
        entry(ATTR_OS64, Opcode::CmovlGqEq),
        entry(ATTR_OS32, Opcode::CmovlGdEd),
        last_entry(ATTR_OS16, Opcode::CmovlGwEw),
    ]
}

/// `BxOpcodeTable0F4D`
pub open spec fn spec_table_0f4d() -> Seq<OpcodeEntry> {
    seq![
        form_opcode(ATTR_OS64, Opcode::CmovnlGqEq),
        form_opcode(ATTR_OS32, Opcode::CmovnlGdEd),
        last_opcode(ATTR_OS16, Opcode::CmovnlGwEw),
    ]
}

fn table_0f4d() -> (t: Vec<OpcodeEntry>)
    ensures
        t@ == spec_table_0f4d(),
{
    vec![
        entry(ATTR_OS64, Opcode::CmovnlGqEq),
        entry(ATTR_OS32, Opcode::CmovnlGdEd),
        last_entry(ATTR_OS16, Opcode::CmovnlGwEw),
    ]
}

/// `BxOpcodeTable0F4E`
pub open spec fn spec_table_0f4e() -> Seq<OpcodeEntry> {
    seq![
        form_opcode(ATTR_OS64, Opcode::CmovleGqEq),
        form_opcode(ATTR_OS32, Opcode::CmovleGdEd),
        last_opcode(ATTR_OS16, Opcode::CmovleGwEw),
    ]
}

fn table_0f4e() -> (t: Vec<OpcodeEntry>)
    ensures
        t@ == spec_table_0f4e(),
{
    vec![
        entry(ATTR_OS64, Opcode::CmovleGqEq),
        entry(ATTR_OS32, Opcode::CmovleGdEd),
        last_entry(ATTR_OS16, Opcode::CmovleGwEw),
    ]
}

/// `BxOpcodeTable0F4F`
pub open spec fn spec_table_0f4f() -> Seq<OpcodeEntry> {
    seq![
        form_opcode(ATTR_OS64, Opcode::CmovnleGqEq),
        form_opcode(ATTR_OS32, Opcode::CmovnleGdEd),
        last_opcode(ATTR_OS16, Opcode::CmovnleGwEw),
    ]
}

fn table_0f4f() -> (t: Vec<OpcodeEntry>)
    ensures
        t@ == spec_table_0f4f(),
{
    vec![
        entry(ATTR_OS64, Opcode::CmovnleGqEq),
        entry(ATTR_OS32, Opcode::CmovnleGdEd),
        last_entry(ATTR_OS16, Opcode::CmovnleGwEw),
    ]
}

/// `BxOpcodeTable0F80_32`
pub open spec fn spec_table_0f80_32() -> Seq<OpcodeEntry> {
    seq![
        form_opcode(ATTR_OS32, Opcode::JoJd),
        last_opcode(ATTR_OS16, Opcode::JoJw),
    ]
}

fn table_0f80_32() -> (t: Vec<OpcodeEntry>)
    ensures
        t@ == spec_table_0f80_32(),
{
    vec![
        entry(ATTR_OS32, Opcode::JoJd),
        last_entry(ATTR_OS16, Opcode::JoJw),
    ]
}

/// `BxOpcodeTable0F81_32`
pub open spec fn spec_table_0f81_32() -> Seq<OpcodeEntry> {
    seq![
        form_opcode(ATTR_OS32, Opcode::JnoJd),
        last_opcode(ATTR_OS16, Opcode::JnoJw),
    ]
}

fn table_0f81_32() -> (t: Vec<OpcodeEntry>)
    ensures
        t@ == spec_table_0f81_32(),
{
    vec![
        entry(ATTR_OS32, Opcode::JnoJd),
        last_entry(ATTR_OS16, Opcode::JnoJw),
    ]
}

/// `BxOpcodeTable0F82_32`
pub open spec fn spec_table_0f82_32() -> Seq<OpcodeEntry> {
    seq![
        form_opcode(ATTR_OS32, Opcode::JbJd),
        last_opcode(ATTR_OS16, Opcode::JbJw),
    ]
}

fn table_0f82_32() -> (t: Vec<OpcodeEntry>)
    ensures
        t@ == spec_table_0f82_32(),
{
    vec![
        entry(ATTR_OS32, Opcode::JbJd),
        last_entry(ATTR_OS16, Opcode::JbJw),
    ]
}

/// `BxOpcodeTable0F83_32`
pub open spec fn spec_table_0f83_32() -> Seq<OpcodeEntry> {
    seq![
        form_opcode(ATTR_OS32, Opcode::JnbJd),
        last_opcode(ATTR_OS16, Opcode::JnbJw),
    ]
}

fn table_0f83_32() -> (t: Vec<OpcodeEntry>)
    ensures
        t@ == spec_table_0f83_32(),
{
    vec![
        entry(ATTR_OS32, Opcode::JnbJd),
        last_entry(ATTR_OS16, Opcode::JnbJw),
    ]
}

/// `BxOpcodeTable0F84_32`
pub open spec fn spec_table_0f84_32() -> Seq<OpcodeEntry> {
    seq![
        form_opcode(ATTR_OS32, Opcode::JzJd),
        last_opcode(ATTR_OS16, Opcode::JzJw),
    ]
}

fn table_0f84_32() -> (t: Vec<OpcodeEntry>)
    ensures
        t@ == spec_table_0f84_32(),
{
    vec![
        entry(ATTR_OS32, Opcode::JzJd),
        last_entry(ATTR_OS16, Opcode::JzJw),
    ]
}

/// `BxOpcodeTable0F85_32`
pub open spec fn spec_table_0f85_32() -> Seq<OpcodeEntry> {
    seq![
        form_opcode(ATTR_OS32, Opcode::JnzJd),
        last_opcode(ATTR_OS16, Opcode::JnzJw),
    ]
}

fn table_0f85_32() -> (t: Vec<OpcodeEntry>)
    ensures
        t@ == spec_table_0f85_32(),
{
    vec![
        entry(ATTR_OS32, Opcode::JnzJd),
        last_entry(ATTR_OS16, Opcode::JnzJw),
    ]
}

/// `BxOpcodeTable0F86_32`
pub open spec fn spec_table_0f86_32() -> Seq<OpcodeEntry> {
    seq![
        form_opcode(ATTR_OS32, Opcode::JbeJd),
        last_opcode(ATTR_OS16, Opcode::JbeJw),
    ]
}

fn table_0f86_32() -> (t: Vec<OpcodeEntry>)
    ensures
        t@ == spec_table_0f86_32(),
{
    vec![
        entry(ATTR_OS32, Opcode::JbeJd),
        last_entry(ATTR_OS16, Opcode::JbeJw),
    ]
}

/// `BxOpcodeTable0F87_32`
pub open spec fn spec_table_0f87_32() -> Seq<OpcodeEntry> {
    seq![
        form_opcode(ATTR_OS32, Opcode::JnbeJd),
        last_opcode(ATTR_OS16, Opcode::JnbeJw),
    ]
}

fn table_0f87_32() -> (t: Vec<OpcodeEntry>)
    ensures
        t@ == spec_table_0f87_32(),
{
    vec![
        entry(ATTR_OS32, Opcode::JnbeJd),
        last_entry(ATTR_OS16, Opcode::JnbeJw),
    ]
}

/// `BxOpcodeTable0F88_32`
pub open spec fn spec_table_0f88_32() -> Seq<OpcodeEntry> {
    seq![
        form_opcode(ATTR_OS32, Opcode::JsJd),
        last_opcode(ATTR_OS16, Opcode::JsJw),
    ]
}

fn table_0f88_32() -> (t: Vec<OpcodeEntry>)
    ensures
        t@ == spec_table_0f88_32(),
{
    vec![
        entry(ATTR_OS32, Opcode::JsJd),
        last_entry(ATTR_OS16, Opcode::JsJw),
    ]
}

/// `BxOpcodeTable0F89_32`
pub open spec fn spec_table_0f89_32() -> Seq<OpcodeEntry> {
    seq![
        form_opcode(ATTR_OS32, Opcode::JnsJd),
        last_opcode(ATTR_OS16, Opcode::JnsJw),
    ]
}

fn table_0f89_32() -> (t: Vec<OpcodeEntry>)
    ensures
        t@ == spec_table_0f89_32(),
{
    vec![
        entry(ATTR_OS32, Opcode::JnsJd),
        last_entry(ATTR_OS16, Opcode::JnsJw),
    ]
}

/// `BxOpcodeTable0F8A_32`
pub open spec fn spec_table_0f8a_32() -> Seq<OpcodeEntry> {
    seq![
        form_opcode(ATTR_OS32, Opcode::JpJd),
        last_opcode(ATTR_OS16, Opcode::JpJw),
    ]
}

fn table_0f8a_32() -> (t: Vec<OpcodeEntry>)
    ensures
        t@ == spec_table_0f8a_32(),
{
    vec![
        entry(ATTR_OS32, Opcode::JpJd),
        last_entry(ATTR_OS16, Opcode::JpJw),
    ]
}

/// `BxOpcodeTable0F8B_32`
pub open spec fn spec_table_0f8b_32() -> Seq<OpcodeEntry> {
    seq![
        form_opcode(ATTR_OS32, Opcode::JnpJd),
        last_opcode(ATTR_OS16, Opcode::JnpJw),
    ]
}

fn table_0f8b_32() -> (t: Vec<OpcodeEntry>)
    ensures
        t@ == spec_table_0f8b_32(),
{
    vec![
        entry(ATTR_OS32, Opcode::JnpJd),
        last_entry(ATTR_OS16, Opcode::JnpJw),
    ]
}

/// `BxOpcodeTable0F8C_32`
pub open spec fn spec_table_0f8c_32() -> Seq<OpcodeEntry> {
    seq![
        form_opcode(ATTR_OS32, Opcode::JlJd),
        last_opcode(ATTR_OS16, Opcode::JlJw),
    ]
}

fn table_0f8c_32() -> (t: Vec<OpcodeEntry>)
    ensures
        t@ == spec_table_0f8c_32(),
{
    vec![
        entry(ATTR_OS32, Opcode::JlJd),
        last_entry(ATTR_OS16, Opcode::JlJw),
    ]
}

/// `BxOpcodeTable0F8D_32`
pub open spec fn spec_table_0f8d_32() -> Seq<OpcodeEntry> {
    seq![
        form_opcode(ATTR_OS32, Opcode::JnlJd),
        last_opcode(ATTR_OS16, Opcode::JnlJw),
    ]
}

fn table_0f8d_32() -> (t: Vec<OpcodeEntry>)
    ensures
        t@ == spec_table_0f8d_32(),
{
    vec![
        entry(ATTR_OS32, Opcode::JnlJd),
        last_entry(ATTR_OS16, Opcode::JnlJw),
    ]
}

/// `BxOpcodeTable0F8E_32`
pub open spec fn spec_table_0f8e_32() -> Seq<OpcodeEntry> {
    seq![
        form_opcode(ATTR_OS32, Opcode::JleJd),
        last_opcode(ATTR_OS16, Opcode::JleJw),
    ]
}

fn table_0f8e_32() -> (t: Vec<OpcodeEntry>)
    ensures
        t@ == spec_table_0f8e_32(),
{
    vec![
        entry(ATTR_OS32, Opcode::JleJd),
        last_entry(ATTR_OS16, Opcode::JleJw),
    ]
}

/// `BxOpcodeTable0F8F_32`
pub open spec fn spec_table_0f8f_32() -> Seq<OpcodeEntry> {
    seq![
        form_opcode(ATTR_OS32, Opcode::JnleJd),
        last_opcode(ATTR_OS16, Opcode::JnleJw),
    ]
}

fn table_0f8f_32() -> (t: Vec<OpcodeEntry>)
    ensures
        t@ == spec_table_0f8f_32(),
{
    vec![
        entry(ATTR_OS32, Opcode::JnleJd),
        last_entry(ATTR_OS16, Opcode::JnleJw),
    ]
}

/// `BxOpcodeTable0F90`
pub open spec fn spec_table_0f90() -> Seq<OpcodeEntry> {
    seq![
        last_opcode(0, Opcode::SetoEb),
    ]
}

fn table_0f90() -> (t: Vec<OpcodeEntry>)
    ensures
        t@ == spec_table_0f90(),
{
    vec![
        last_entry(0, Opcode::SetoEb),
    ]
}

/// `BxOpcodeTable0F91`
pub open spec fn spec_table_0f91() -> Seq<OpcodeEntry> {
    seq![
        last_opcode(0, Opcode::SetnoEb),
    ]
}

fn table_0f91() -> (t: Vec<OpcodeEntry>)
    ensures
        t@ == spec_table_0f91(),
{
    vec![
        last_entry(0, Opcode::SetnoEb),
    ]
}

/// `BxOpcodeTable0F92`
pub open spec fn spec_table_0f92() -> Seq<OpcodeEntry> {
    seq![
        last_opcode(0, Opcode::SetbEb),
    ]
}

fn table_0f92() -> (t: Vec<OpcodeEntry>)
    ensures
        t@ == spec_table_0f92(),
{
    vec![
        last_entry(0, Opcode::SetbEb),
    ]
}

/// `BxOpcodeTable0F93`
pub open spec fn spec_table_0f93() -> Seq<OpcodeEntry> {
    seq![
        last_opcode(0, Opcode::SetnbEb),
    ]
}

fn table_0f93() -> (t: Vec<OpcodeEntry>)
    ensures
        t@ == spec_table_0f93(),
{
    vec![
        last_entry(0, Opcode::SetnbEb),
    ]
}

/// `BxOpcodeTable0F94`
pub open spec fn spec_table_0f94() -> Seq<OpcodeEntry> {
    seq![
        last_opcode(0, Opcode::SetzEb),
    ]
}

fn table_0f94() -> (t: Vec<OpcodeEntry>)
    ensures
        t@ == spec_table_0f94(),
{
    vec![
        last_entry(0, Opcode::SetzEb),
    ]
}

/// `BxOpcodeTable0F95`
pub open spec fn spec_table_0f95() -> Seq<OpcodeEntry> {
    seq![
        last_opcode(0, Opcode::SetnzEb),
    ]
}

fn table_0f95() -> (t: Vec<OpcodeEntry>)
    ensures
        t@ == spec_table_0f95(),
{
    vec![
        last_entry(0, Opcode::SetnzEb),
    ]
}

/// `BxOpcodeTable0F96`
pub open spec fn spec_table_0f96() -> Seq<OpcodeEntry> {
    seq![
        last_opcode(0, Opcode::SetbeEb),
    ]
}

fn table_0f96() -> (t: Vec<OpcodeEntry>)
    ensures
        t@ == spec_table_0f96(),
{
    vec![
        last_entry(0, Opcode::SetbeEb),
    ]
}

/// `BxOpcodeTable0F97`
pub open spec fn spec_table_0f97() -> Seq<OpcodeEntry> {
    seq![
        last_opcode(0, Opcode::SetnbeEb),
    ]
}

fn table_0f97() -> (t: Vec<OpcodeEntry>)
    ensures
        t@ == spec_table_0f97(),
{
    vec![
        last_entry(0, Opcode::SetnbeEb),
    ]
}

/// `BxOpcodeTable0F98`
pub open spec fn spec_table_0f98() -> Seq<OpcodeEntry> {
    seq![
        last_opcode(0, Opcode::SetsEb),
    ]
}

fn table_0f98() -> (t: Vec<OpcodeEntry>)
    ensures
        t@ == spec_table_0f98(),
{
    vec![
        last_entry(0, Opcode::SetsEb),
    ]
}

/// `BxOpcodeTable0F99`
pub open spec fn spec_table_0f99() -> Seq<OpcodeEntry> {
    seq![
        last_opcode(0, Opcode::SetnsEb),
    ]
}

fn table_0f99() -> (t: Vec<OpcodeEntry>)
    ensures
        t@ == spec_table_0f99(),
{
    vec![
        last_entry(0, Opcode::SetnsEb),
    ]
}

/// `BxOpcodeTable0F9A`
pub open spec fn spec_table_0f9a() -> Seq<OpcodeEntry> {
    seq![
        last_opcode(0, Opcode::SetpEb),
    ]
}

fn table_0f9a() -> (t: Vec<OpcodeEntry>)
    ensures
        t@ == spec_table_0f9a(),
{
    vec![
        last_entry(0, Opcode::SetpEb),
    ]
}

/// `BxOpcodeTable0F9B`
pub open spec fn spec_table_0f9b() -> Seq<OpcodeEntry> {
    seq![
        last_opcode(0, Opcode::SetnpEb),
    ]
}

fn table_0f9b() -> (t: Vec<OpcodeEntry>)
    ensures
        t@ == spec_table_0f9b(),
{
    vec![
        last_entry(0, Opcode::SetnpEb),
    ]
}

/// `BxOpcodeTable0F9C`
pub open spec fn spec_table_0f9c() -> Seq<OpcodeEntry> {
    seq![
        last_opcode(0, Opcode::SetlEb),
    ]
}

fn table_0f9c() -> (t: Vec<OpcodeEntry>)
    ensures
        t@ == spec_table_0f9c(),
{
    vec![
        last_entry(0, Opcode::SetlEb),
    ]
}

/// `BxOpcodeTable0F9D`
pub open spec fn spec_table_0f9d() -> Seq<OpcodeEntry> {
    seq![
        last_opcode(0, Opcode::SetnlEb),
    ]
}

fn table_0f9d() -> (t: Vec<OpcodeEntry>)
    ensures
        t@ == spec_table_0f9d(),
{
    vec![
        last_entry(0, Opcode::SetnlEb),
    ]
}

/// `BxOpcodeTable0F9E`
pub open spec fn spec_table_0f9e() -> Seq<OpcodeEntry> {
    seq![
        last_opcode(0, Opcode::SetleEb),
    ]
}

fn table_0f9e() -> (t: Vec<OpcodeEntry>)
    ensures
        t@ == spec_table_0f9e(),
{
    vec![
        last_entry(0, Opcode::SetleEb),
    ]
}

/// `BxOpcodeTable0F9F`
pub open spec fn spec_table_0f9f() -> Seq<OpcodeEntry> {
    seq![
        last_opcode(0, Opcode::SetnleEb),
    ]
}

fn table_0f9f() -> (t: Vec<OpcodeEntry>)
    ensures
        t@ == spec_table_0f9f(),
{
    vec![
        last_entry(0, Opcode::SetnleEb),
    ]
}

/// `BxOpcodeTable0FA0`
pub open spec fn spec_table_0fa0() -> Seq<OpcodeEntry> {
    seq![
        form_opcode(ATTR_IS64 | ATTR_OS16, Opcode::PushOp16Sw),
        form_opcode(ATTR_IS64, Opcode::PushOp64Sw),
        form_opcode(ATTR_OS32, Opcode::PushOp32Sw),
        last_opcode(ATTR_OS16, Opcode::PushOp16Sw),
    ]
}

fn table_0fa0() -> (t: Vec<OpcodeEntry>)
    ensures
        t@ == spec_table_0fa0(),
{
    vec![
        entry(ATTR_IS64 | ATTR_OS16, Opcode::PushOp16Sw),
        entry(ATTR_IS64, Opcode::PushOp64Sw),
        entry(ATTR_OS32, Opcode::PushOp32Sw),
        last_entry(ATTR_OS16, Opcode::PushOp16Sw),
    ]
}

/// `BxOpcodeTable0FA1`
pub open spec fn spec_table_0fa1() -> Seq<OpcodeEntry> {
    seq![
        form_opcode(ATTR_IS64 | ATTR_OS16, Opcode::PopOp16Sw),
        form_opcode(ATTR_IS64, Opcode::PopOp64Sw),
        form_opcode(ATTR_OS32, Opcode::PopOp32Sw),
        last_opcode(ATTR_OS16, Opcode::PopOp16Sw),
    ]
}

fn table_0fa1() -> (t: Vec<OpcodeEntry>)
    ensures
        t@ == spec_table_0fa1(),
{
    vec![
        entry(ATTR_IS64 | ATTR_OS16, Opcode::PopOp16Sw),
        entry(ATTR_IS64, Opcode::PopOp64Sw),
        entry(ATTR_OS32, Opcode::PopOp32Sw),
        last_entry(ATTR_OS16, Opcode::PopOp16Sw),
    ]
}

/// `BxOpcodeTable0FA2`
pub open spec fn spec_table_0fa2() -> Seq<OpcodeEntry> {
    seq![
        last_opcode(0, Opcode::Cpuid),
    ]
}

fn table_0fa2() -> (t: Vec<OpcodeEntry>)
    ensures
        t@ == spec_table_0fa2(),
{
    vec![
        last_entry(0, Opcode::Cpuid),
    ]
}

/// `BxOpcodeTable0FA3`
pub open spec fn spec_table_0fa3() -> Seq<OpcodeEntry> {
    seq![
        form_opcode(ATTR_OS64, Opcode::BtEqGq),
        form_opcode(ATTR_OS32, Opcode::BtEdGd),
        last_opcode(ATTR_OS16, Opcode::BtEwGw),
    ]
}

fn table_0fa3() -> (t: Vec<OpcodeEntry>)
    ensures
        t@ == spec_table_0fa3(),
{
    vec![
        entry(ATTR_OS64, Opcode::BtEqGq),
        entry(ATTR_OS32, Opcode::BtEdGd),
        last_entry(ATTR_OS16, Opcode::BtEwGw),
    ]
}

/// `BxOpcodeTable0FA4`
pub open spec fn spec_table_0fa4() -> Seq<OpcodeEntry> {
    seq![
        form_opcode(ATTR_OS64, Opcode::ShldEqGqIb),
        form_opcode(ATTR_OS32, Opcode::ShldEdGdIb),
        last_opcode(ATTR_OS16, Opcode::ShldEwGwIb),
    ]
}

fn table_0fa4() -> (t: Vec<OpcodeEntry>)
    ensures
        t@ == spec_table_0fa4(),
{
    vec![
        entry(ATTR_OS64, Opcode::ShldEqGqIb),
        entry(ATTR_OS32, Opcode::ShldEdGdIb),
        last_entry(ATTR_OS16, Opcode::ShldEwGwIb),
    ]
}

/// `BxOpcodeTable0FA5`
pub open spec fn spec_table_0fa5() -> Seq<OpcodeEntry> {
    seq![
        form_opcode(ATTR_OS64, Opcode::ShldEqGq),
        form_opcode(ATTR_OS32, Opcode::ShldEdGd),
        last_opcode(ATTR_OS16, Opcode::ShldEwGw),
    ]
}

fn table_0fa5() -> (t: Vec<OpcodeEntry>)
    ensures
        t@ == spec_table_0fa5(),
{
    vec![
        entry(ATTR_OS64, Opcode::ShldEqGq),
        entry(ATTR_OS32, Opcode::ShldEdGd),
        last_entry(ATTR_OS16, Opcode::ShldEwGw),
    ]
}

/// `BxOpcodeTable0FA8`
pub open spec fn spec_table_0fa8() -> Seq<OpcodeEntry> {
    seq![
        form_opcode(ATTR_IS64 | ATTR_OS16, Opcode::PushOp16Sw),
        form_opcode(ATTR_IS64, Opcode::PushOp64Sw),
        form_opcode(ATTR_OS32, Opcode::PushOp32Sw),
        last_opcode(ATTR_OS16, Opcode::PushOp16Sw),
    ]
}

fn table_0fa8() -> (t: Vec<OpcodeEntry>)
    ensures
        t@ == spec_table_0fa8(),
{
    vec![
        entry(ATTR_IS64 | ATTR_OS16, Opcode::PushOp16Sw),
        entry(ATTR_IS64, Opcode::PushOp64Sw),
        entry(ATTR_OS32, Opcode::PushOp32Sw),
        last_entry(ATTR_OS16, Opcode::PushOp16Sw),
    ]
}

/// `BxOpcodeTable0FA9`
pub open spec fn spec_table_0fa9() -> Seq<OpcodeEntry> {
    seq![
        form_opcode(ATTR_IS64 | ATTR_OS16, Opcode::PopOp16Sw),
        form_opcode(ATTR_IS64, Opcode::PopOp64Sw),
        form_opcode(ATTR_OS32, Opcode::PopOp32Sw),
        last_opcode(ATTR_OS16, Opcode::PopOp16Sw),
    ]
}

fn table_0fa9() -> (t: Vec<OpcodeEntry>)
    ensures
        t@ == spec_table_0fa9(),
{
    vec![
        entry(ATTR_IS64 | ATTR_OS16, Opcode::PopOp16Sw),
        entry(ATTR_IS64, Opcode::PopOp64Sw),
        entry(ATTR_OS32, Opcode::PopOp32Sw),
        last_entry(ATTR_OS16, Opcode::PopOp16Sw),
    ]
}

/// `BxOpcodeTable0FAA`
pub open spec fn spec_table_0faa() -> Seq<OpcodeEntry> {
    seq![
        last_opcode(0, Opcode::Rsm),
    ]
}

fn table_0faa() -> (t: Vec<OpcodeEntry>)
    ensures
        t@ == spec_table_0faa(),
{
    vec![
        last_entry(0, Opcode::Rsm),
    ]
}

/// `BxOpcodeTable0FAB`
pub open spec fn spec_table_0fab() -> Seq<OpcodeEntry> {
    seq![
        form_opcode(ATTR_OS64, Opcode::BtsEqGq),
        form_opcode(ATTR_OS32, Opcode::BtsEdGd),
        last_opcode(ATTR_OS16, Opcode::BtsEwGw),
    ]
}

fn table_0fab() -> (t: Vec<OpcodeEntry>)
    ensures
        t@ == spec_table_0fab(),
{
    vec![
        entry(ATTR_OS64, Opcode::BtsEqGq),
        entry(ATTR_OS32, Opcode::BtsEdGd),
        last_entry(ATTR_OS16, Opcode::BtsEwGw),
    ]
}

/// `BxOpcodeTable0FAC`
pub open spec fn spec_table_0fac() -> Seq<OpcodeEntry> {
    seq![
        form_opcode(ATTR_OS64, Opcode::ShrdEqGqIb),
        form_opcode(ATTR_OS32, Opcode::ShrdEdGdIb),
        last_opcode(ATTR_OS16, Opcode::ShrdEwGwIb),
    ]
}

fn table_0fac() -> (t: Vec<OpcodeEntry>)
    ensures
        t@ == spec_table_0fac(),
{
    vec![
        entry(ATTR_OS64, Opcode::ShrdEqGqIb),
        entry(ATTR_OS32, Opcode::ShrdEdGdIb),
        last_entry(ATTR_OS16, Opcode::ShrdEwGwIb),
    ]
}

/// `BxOpcodeTable0FAD`
pub open spec fn spec_table_0fad() -> Seq<OpcodeEntry> {
    seq![
        form_opcode(ATTR_OS64, Opcode::ShrdEqGq),
        form_opcode(ATTR_OS32, Opcode::ShrdEdGd),
        last_opcode(ATTR_OS16, Opcode::ShrdEwGw),
    ]
}

fn table_0fad() -> (t: Vec<OpcodeEntry>)
    ensures
        t@ == spec_table_0fad(),
{
    vec![
        entry(ATTR_OS64, Opcode::ShrdEqGq),
        entry(ATTR_OS32, Opcode::ShrdEdGd),
        last_entry(ATTR_OS16, Opcode::ShrdEwGw),
    ]
}

/// `BxOpcodeTable0FAE`
pub open spec fn spec_table_0fae() -> Seq<OpcodeEntry> {
    seq![
        form_opcode(ATTR_NNN0 | ATTR_MOD_MEM, Opcode::Fxsave),
        form_opcode(ATTR_NNN1 | ATTR_MOD_MEM, Opcode::Fxrstor),
        form_opcode(ATTR_NNN2 | ATTR_MOD_MEM, Opcode::Ldmxcsr),
        form_opcode(ATTR_NNN3 | ATTR_MOD_MEM, Opcode::Stmxcsr),
        form_opcode(ATTR_NNN4 | ATTR_MOD_MEM, Opcode::Xsave),
        form_opcode(ATTR_NNN5 | ATTR_MOD_MEM, Opcode::Xrstor),
        form_opcode(ATTR_NNN6 | ATTR_MOD_MEM, Opcode::Xsaveopt),
        form_opcode(ATTR_NNN7 | ATTR_MOD_MEM, Opcode::Clflush),
        form_opcode(ATTR_NNN5 | ATTR_MODC0, Opcode::Lfence),
        form_opcode(ATTR_NNN6 | ATTR_MODC0, Opcode::Mfence),
        last_opcode(ATTR_NNN7 | ATTR_MODC0, Opcode::Sfence),
    ]
}

fn table_0fae() -> (t: Vec<OpcodeEntry>)
    ensures
        t@ == spec_table_0fae(),
{
    vec![
        entry(ATTR_NNN0 | ATTR_MOD_MEM, Opcode::Fxsave),
        entry(ATTR_NNN1 | ATTR_MOD_MEM, Opcode::Fxrstor),
        entry(ATTR_NNN2 | ATTR_MOD_MEM, Opcode::Ldmxcsr),
        entry(ATTR_NNN3 | ATTR_MOD_MEM, Opcode::Stmxcsr),
        entry(ATTR_NNN4 | ATTR_MOD_MEM, Opcode::Xsave),
        entry(ATTR_NNN5 | ATTR_MOD_MEM, Opcode::Xrstor),
        entry(ATTR_NNN6 | ATTR_MOD_MEM, Opcode::Xsaveopt),
        entry(ATTR_NNN7 | ATTR_MOD_MEM, Opcode::Clflush),
        entry(ATTR_NNN5 | ATTR_MODC0, Opcode::Lfence),
        entry(ATTR_NNN6 | ATTR_MODC0, Opcode::Mfence),
        last_entry(ATTR_NNN7 | ATTR_MODC0, Opcode::Sfence),
    ]
}

/// `BxOpcodeTable0FAF`
pub open spec fn spec_table_0faf() -> Seq<OpcodeEntry> {
    seq![
        form_opcode(ATTR_OS64, Opcode::ImulGqEq),
        form_opcode(ATTR_OS32, Opcode::ImulGdEd),
        last_opcode(ATTR_OS16, Opcode::ImulGwEw),
    ]
}

fn table_0faf() -> (t: Vec<OpcodeEntry>)
    ensures
        t@ == spec_table_0faf(),
{
    vec![
        entry(ATTR_OS64, Opcode::ImulGqEq),
        entry(ATTR_OS32, Opcode::ImulGdEd),
        last_entry(ATTR_OS16, Opcode::ImulGwEw),
    ]
}

/// `BxOpcodeTable0FB0`
pub open spec fn spec_table_0fb0() -> Seq<OpcodeEntry> {
    seq![
        last_opcode(0, Opcode::CmpxchgEbGb),
    ]
}

fn table_0fb0() -> (t: Vec<OpcodeEntry>)
    ensures
        t@ == spec_table_0fb0(),
{
    vec![
        last_entry(0, Opcode::CmpxchgEbGb),
    ]
}

/// `BxOpcodeTable0FB1`
pub open spec fn spec_table_0fb1() -> Seq<OpcodeEntry> {
    seq![
        form_opcode(ATTR_OS64, Opcode::CmpxchgEqGq),
        form_opcode(ATTR_OS32, Opcode::CmpxchgEdGd),
        last_opcode(ATTR_OS16, Opcode::CmpxchgEwGw),
    ]
}

fn table_0fb1() -> (t: Vec<OpcodeEntry>)
    ensures
        t@ == spec_table_0fb1(),
{
    vec![
        entry(ATTR_OS64, Opcode::CmpxchgEqGq),
        entry(ATTR_OS32, Opcode::CmpxchgEdGd),
        last_entry(ATTR_OS16, Opcode::CmpxchgEwGw),
    ]
}

/// `BxOpcodeTable0FB2`
pub open spec fn spec_table_0fb2() -> Seq<OpcodeEntry> {
    seq![
        form_opcode(ATTR_OS64 | ATTR_MOD_MEM, Opcode::LssGqMp),
        form_opcode(ATTR_OS32 | ATTR_MOD_MEM, Opcode::LssGdMp),
        last_opcode(ATTR_OS16 | ATTR_MOD_MEM, Opcode::LssGwMp),
    ]
}

fn table_0fb2() -> (t: Vec<OpcodeEntry>)
    ensures
        t@ == spec_table_0fb2(),
{
    vec![
        entry(ATTR_OS64 | ATTR_MOD_MEM, Opcode::LssGqMp),
        entry(ATTR_OS32 | ATTR_MOD_MEM, Opcode::LssGdMp),
        last_entry(ATTR_OS16 | ATTR_MOD_MEM, Opcode::LssGwMp),
    ]
}

/// `BxOpcodeTable0FB3`
pub open spec fn spec_table_0fb3() -> Seq<OpcodeEntry> {
    seq![
        form_opcode(ATTR_OS64, Opcode::BtrEqGq),
        form_opcode(ATTR_OS32, Opcode::BtrEdGd),
        last_opcode(ATTR_OS16, Opcode::BtrEwGw),
    ]
}

fn table_0fb3() -> (t: Vec<OpcodeEntry>)
    ensures
        t@ == spec_table_0fb3(),
{
    vec![
        entry(ATTR_OS64, Opcode::BtrEqGq),
        entry(ATTR_OS32, Opcode::BtrEdGd),
        last_entry(ATTR_OS16, Opcode::BtrEwGw),
    ]
}

/// `BxOpcodeTable0FB4`
pub open spec fn spec_table_0fb4() -> Seq<OpcodeEntry> {
    seq![
        form_opcode(ATTR_OS64 | ATTR_MOD_MEM, Opcode::LfsGqMp),
        form_opcode(ATTR_OS32 | ATTR_MOD_MEM, Opcode::LfsGdMp),
        last_opcode(ATTR_OS16 | ATTR_MOD_MEM, Opcode::LfsGwMp),
    ]
}

fn table_0fb4() -> (t: Vec<OpcodeEntry>)
    ensures
        t@ == spec_table_0fb4(),
{
    vec![
        entry(ATTR_OS64 | ATTR_MOD_MEM, Opcode::LfsGqMp),
        entry(ATTR_OS32 | ATTR_MOD_MEM, Opcode::LfsGdMp),
        last_entry(ATTR_OS16 | ATTR_MOD_MEM, Opcode::LfsGwMp),
    ]
}

/// `BxOpcodeTable0FB5`
pub open spec fn spec_table_0fb5() -> Seq<OpcodeEntry> {
    seq![
        form_opcode(ATTR_OS64 | ATTR_MOD_MEM, Opcode::LgsGqMp),
        form_opcode(ATTR_OS32 | ATTR_MOD_MEM, Opcode::LgsGdMp),
        last_opcode(ATTR_OS16 | ATTR_MOD_MEM, Opcode::LgsGwMp),
    ]
}

fn table_0fb5() -> (t: Vec<OpcodeEntry>)
    ensures
        t@ == spec_table_0fb5(),
{
    vec![
        entry(ATTR_OS64 | ATTR_MOD_MEM, Opcode::LgsGqMp),
        entry(ATTR_OS32 | ATTR_MOD_MEM, Opcode::LgsGdMp),
        last_entry(ATTR_OS16 | ATTR_MOD_MEM, Opcode::LgsGwMp),
    ]
}

/// `BxOpcodeTable0FB6`
pub open spec fn spec_table_0fb6() -> Seq<OpcodeEntry> {
    seq![
        form_opcode(ATTR_OS64, Opcode::MovzxGqEb),
        form_opcode(ATTR_OS32, Opcode::MovzxGdEb),
        last_opcode(ATTR_OS16, Opcode::MovzxGwEb),
    ]
}

fn table_0fb6() -> (t: Vec<OpcodeEntry>)
    ensures
        t@ == spec_table_0fb6(),
{
    vec![
        entry(ATTR_OS64, Opcode::MovzxGqEb),
        entry(ATTR_OS32, Opcode::MovzxGdEb),
        last_entry(ATTR_OS16, Opcode::MovzxGwEb),
    ]
}

/// `BxOpcodeTable0FB7`
pub open spec fn spec_table_0fb7() -> Seq<OpcodeEntry> {
    seq![
        form_opcode(ATTR_OS64, Opcode::MovzxGqEw),
        form_opcode(ATTR_OS32, Opcode::MovzxGdEw),
        last_opcode(ATTR_OS16, Opcode::MovGwEw),
    ]
}

fn table_0fb7() -> (t: Vec<OpcodeEntry>)
    ensures
        t@ == spec_table_0fb7(),
{
    vec![
        entry(ATTR_OS64, Opcode::MovzxGqEw),
        entry(ATTR_OS32, Opcode::MovzxGdEw),
        last_entry(ATTR_OS16, Opcode::MovGwEw),
    ]
}

/// `BxOpcodeTable0FB8`
pub open spec fn spec_table_0fb8() -> Seq<OpcodeEntry> {
    seq![
        form_opcode(ATTR_SSE_PREFIX_F3 | ATTR_OS64, Opcode::PopcntGqEq),
        form_opcode(ATTR_SSE_PREFIX_F3 | ATTR_OS32, Opcode::PopcntGdEd),
        last_opcode(ATTR_SSE_PREFIX_F3 | ATTR_OS16, Opcode::PopcntGwEw),
    ]
}

fn table_0fb8() -> (t: Vec<OpcodeEntry>)
    ensures
        t@ == spec_table_0fb8(),
{
    vec![
        entry(ATTR_SSE_PREFIX_F3 | ATTR_OS64, Opcode::PopcntGqEq),
        entry(ATTR_SSE_PREFIX_F3 | ATTR_OS32, Opcode::PopcntGdEd),
        last_entry(ATTR_SSE_PREFIX_F3 | ATTR_OS16, Opcode::PopcntGwEw),
    ]
}

/// `BxOpcodeTable0FB9`
pub open spec fn spec_table_0fb9() -> Seq<OpcodeEntry> {
    seq![
        last_opcode(0, Opcode::Ud1),
    ]
}

fn table_0fb9() -> (t: Vec<OpcodeEntry>)
    ensures
        t@ == spec_table_0fb9(),
{
    vec![
        last_entry(0, Opcode::Ud1),
    ]
}

/// `BxOpcodeTable0FBA`
pub open spec fn spec_table_0fba() -> Seq<OpcodeEntry> {
    seq![
        form_opcode(ATTR_NNN4 | ATTR_OS64, Opcode::BtEqIb),
        form_opcode(ATTR_NNN4 | ATTR_OS32, Opcode::BtEdIb),
        form_opcode(ATTR_NNN4 | ATTR_OS16, Opcode::BtEwIb),
        form_opcode(ATTR_NNN5 | ATTR_OS64, Opcode::BtsEqIb),
        form_opcode(ATTR_NNN5 | ATTR_OS32, Opcode::BtsEdIb),
        form_opcode(ATTR_NNN5 | ATTR_OS16, Opcode::BtsEwIb),
        form_opcode(ATTR_NNN6 | ATTR_OS64, Opcode::BtrEqIb),
        form_opcode(ATTR_NNN6 | ATTR_OS32, Opcode::BtrEdIb),
        form_opcode(ATTR_NNN6 | ATTR_OS16, Opcode::BtrEwIb),
        form_opcode(ATTR_NNN7 | ATTR_OS64, Opcode::BtcEqIb),
        form_opcode(ATTR_NNN7 | ATTR_OS32, Opcode::BtcEdIb),
        last_opcode(ATTR_NNN7 | ATTR_OS16, Opcode::BtcEwIb),
    ]
}

fn table_0fba() -> (t: Vec<OpcodeEntry>)
    ensures
        t@ == spec_table_0fba(),
{
    vec![
        entry(ATTR_NNN4 | ATTR_OS64, Opcode::BtEqIb),
        entry(ATTR_NNN4 | ATTR_OS32, Opcode::BtEdIb),
        entry(ATTR_NNN4 | ATTR_OS16, Opcode::BtEwIb),
        entry(ATTR_NNN5 | ATTR_OS64, Opcode::BtsEqIb),
        entry(ATTR_NNN5 | ATTR_OS32, Opcode::BtsEdIb),
        entry(ATTR_NNN5 | ATTR_OS16, Opcode::BtsEwIb),
        entry(ATTR_NNN6 | ATTR_OS64, Opcode::BtrEqIb),
        entry(ATTR_NNN6 | ATTR_OS32, Opcode::BtrEdIb),
        entry(ATTR_NNN6 | ATTR_OS16, Opcode::BtrEwIb),
        entry(ATTR_NNN7 | ATTR_OS64, Opcode::BtcEqIb),
        entry(ATTR_NNN7 | ATTR_OS32, Opcode::BtcEdIb),
        last_entry(ATTR_NNN7 | ATTR_OS16, Opcode::BtcEwIb),
    ]
}

/// `BxOpcodeTable0FBB`
pub open spec fn spec_table_0fbb() -> Seq<OpcodeEntry> {
    seq![
        form_opcode(ATTR_OS64, Opcode::BtcEqGq),
        form_opcode(ATTR_OS32, Opcode::BtcEdGd),
        last_opcode(ATTR_OS16, Opcode::BtcEwGw),
    ]
}

fn table_0fbb() -> (t: Vec<OpcodeEntry>)
    ensures
        t@ == spec_table_0fbb(),
{
    vec![
        entry(ATTR_OS64, Opcode::BtcEqGq),
        entry(ATTR_OS32, Opcode::BtcEdGd),
        last_entry(ATTR_OS16, Opcode::BtcEwGw),
    ]
}

/// `BxOpcodeTable0FBC`
pub open spec fn spec_table_0fbc() -> Seq<OpcodeEntry> {
    seq![
        form_opcode(ATTR_OS64, Opcode::BsfGqEq),
        form_opcode(ATTR_OS32, Opcode::BsfGdEd),
        last_opcode(ATTR_OS16, Opcode::BsfGwEw),
    ]
}

fn table_0fbc() -> (t: Vec<OpcodeEntry>)
    ensures
        t@ == spec_table_0fbc(),
{
    vec![
        entry(ATTR_OS64, Opcode::BsfGqEq),
        entry(ATTR_OS32, Opcode::BsfGdEd),
        last_entry(ATTR_OS16, Opcode::BsfGwEw),
    ]
}

/// `BxOpcodeTable0FBD`
pub open spec fn spec_table_0fbd() -> Seq<OpcodeEntry> {
    seq![
        form_opcode(ATTR_OS64, Opcode::BsrGqEq),
        form_opcode(ATTR_OS32, Opcode::BsrGdEd),
        last_opcode(ATTR_OS16, Opcode::BsrGwEw),
    ]
}

fn table_0fbd() -> (t: Vec<OpcodeEntry>)
    ensures
        t@ == spec_table_0fbd(),
{
    vec![
        entry(ATTR_OS64, Opcode::BsrGqEq),
        entry(ATTR_OS32, Opcode::BsrGdEd),
        last_entry(ATTR_OS16, Opcode::BsrGwEw),
    ]
}

/// `BxOpcodeTable0FBE`
pub open spec fn spec_table_0fbe() -> Seq<OpcodeEntry> {
    seq![
        form_opcode(ATTR_OS64, Opcode::MovsxGqEb),
        form_opcode(ATTR_OS32, Opcode::MovsxGdEb),
        last_opcode(ATTR_OS16, Opcode::MovsxGwEb),
    ]
}

fn table_0fbe() -> (t: Vec<OpcodeEntry>)
    ensures
        t@ == spec_table_0fbe(),
{
    vec![
        entry(ATTR_OS64, Opcode::MovsxGqEb),
        entry(ATTR_OS32, Opcode::MovsxGdEb),
        last_entry(ATTR_OS16, Opcode::MovsxGwEb),
    ]
}

/// `BxOpcodeTable0FBF`
pub open spec fn spec_table_0fbf() -> Seq<OpcodeEntry> {
    seq![
        form_opcode(ATTR_OS64, Opcode::MovsxGqEw),
        form_opcode(ATTR_OS32, Opcode::MovsxGdEw),
        last_opcode(ATTR_OS16, Opcode::MovGwEw),
    ]
}

fn table_0fbf() -> (t: Vec<OpcodeEntry>)
    ensures
        t@ == spec_table_0fbf(),
{
    vec![
        entry(ATTR_OS64, Opcode::MovsxGqEw),
        entry(ATTR_OS32, Opcode::MovsxGdEw),
        last_entry(ATTR_OS16, Opcode::MovGwEw),
    ]
}

/// `BxOpcodeTable0FC0`
pub open spec fn spec_table_0fc0() -> Seq<OpcodeEntry> {
    seq![
        last_opcode(0, Opcode::XaddEbGb),
    ]
}

fn table_0fc0() -> (t: Vec<OpcodeEntry>)
    ensures
        t@ == spec_table_0fc0(),
{
    vec![
        last_entry(0, Opcode::XaddEbGb),
    ]
}

/// `BxOpcodeTable0FC1`
pub open spec fn spec_table_0fc1() -> Seq<OpcodeEntry> {
    seq![
        form_opcode(ATTR_OS64, Opcode::XaddEqGq),
        form_opcode(ATTR_OS32, Opcode::XaddEdGd),
        last_opcode(ATTR_OS16, Opcode::XaddEwGw),
    ]
}

fn table_0fc1() -> (t: Vec<OpcodeEntry>)
    ensures
        t@ == spec_table_0fc1(),
{
    vec![
        entry(ATTR_OS64, Opcode::XaddEqGq),
        entry(ATTR_OS32, Opcode::XaddEdGd),
        last_entry(ATTR_OS16, Opcode::XaddEwGw),
    ]
}

/// `BxOpcodeTable0FC2`
pub open spec fn spec_table_0fc2() -> Seq<OpcodeEntry> {
    seq![
        form_opcode(ATTR_SSE_NO_PREFIX, Opcode::CmppsVpsWpsIb),
        form_opcode(ATTR_SSE_PREFIX_66, Opcode::CmppdVpdWpdIb),
        form_opcode(ATTR_SSE_PREFIX_F3, Opcode::CmpssVssWssIb),
        last_opcode(ATTR_SSE_PREFIX_F2, Opcode::CmpsdVsdWsdIb),
    ]
}

fn table_0fc2() -> (t: Vec<OpcodeEntry>)
    ensures
        t@ == spec_table_0fc2(),
{
    vec![
        entry(ATTR_SSE_NO_PREFIX, Opcode::CmppsVpsWpsIb),
        entry(ATTR_SSE_PREFIX_66, Opcode::CmppdVpdWpdIb),
        entry(ATTR_SSE_PREFIX_F3, Opcode::CmpssVssWssIb),
        last_entry(ATTR_SSE_PREFIX_F2, Opcode::CmpsdVsdWsdIb),
    ]
}

/// `BxOpcodeTable0FC3`
pub open spec fn spec_table_0fc3() -> Seq<OpcodeEntry> {
    seq![
        form_opcode(ATTR_SSE_NO_PREFIX | ATTR_MOD_MEM | ATTR_OS64, Opcode::MovntiMqGq),
        form_opcode(ATTR_IS64 | ATTR_SSE_NO_PREFIX | ATTR_MOD_MEM, Opcode::MovntiOp64MdGd),
        last_opcode(ATTR_SSE_NO_PREFIX | ATTR_MOD_MEM, Opcode::MovntiOp32MdGd),
    ]
}

fn table_0fc3() -> (t: Vec<OpcodeEntry>)
    ensures
        t@ == spec_table_0fc3(),
{
    vec![
        entry(ATTR_SSE_NO_PREFIX | ATTR_MOD_MEM | ATTR_OS64, Opcode::MovntiMqGq),
        entry(ATTR_IS64 | ATTR_SSE_NO_PREFIX | ATTR_MOD_MEM, Opcode::MovntiOp64MdGd),
        last_entry(ATTR_SSE_NO_PREFIX | ATTR_MOD_MEM, Opcode::MovntiOp32MdGd),
    ]
}

/// `BxOpcodeTable0FC4`
pub open spec fn spec_table_0fc4() -> Seq<OpcodeEntry> {
    seq![
        form_opcode(ATTR_SSE_NO_PREFIX, Opcode::PinsrwPqEwIb),
        last_opcode(ATTR_SSE_PREFIX_66, Opcode::PinsrwVdqEwIb),
    ]
}

fn table_0fc4() -> (t: Vec<OpcodeEntry>)
    ensures
        t@ == spec_table_0fc4(),
{
    vec![
        entry(ATTR_SSE_NO_PREFIX, Opcode::PinsrwPqEwIb),
        last_entry(ATTR_SSE_PREFIX_66, Opcode::PinsrwVdqEwIb),
    ]
}

/// `BxOpcodeTable0FC5`
pub open spec fn spec_table_0fc5() -> Seq<OpcodeEntry> {
    seq![
        form_opcode(ATTR_SSE_NO_PREFIX | ATTR_MODC0, Opcode::PextrwGdNqIb),
        last_opcode(ATTR_SSE_PREFIX_66 | ATTR_MODC0, Opcode::PextrwGdUdqIb),
    ]
}

fn table_0fc5() -> (t: Vec<OpcodeEntry>)
    ensures
        t@ == spec_table_0fc5(),
{
    vec![
        entry(ATTR_SSE_NO_PREFIX | ATTR_MODC0, Opcode::PextrwGdNqIb),
        last_entry(ATTR_SSE_PREFIX_66 | ATTR_MODC0, Opcode::PextrwGdUdqIb),
    ]
}

/// `BxOpcodeTable0FC6`
pub open spec fn spec_table_0fc6() -> Seq<OpcodeEntry> {
    seq![
        form_opcode(ATTR_SSE_NO_PREFIX, Opcode::ShufpsVpsWpsIb),
        last_opcode(ATTR_SSE_PREFIX_66, Opcode::ShufpdVpdWpdIb),
    ]
}

fn table_0fc6() -> (t: Vec<OpcodeEntry>)
    ensures
        t@ == spec_table_0fc6(),
{
    vec![
        entry(ATTR_SSE_NO_PREFIX, Opcode::ShufpsVpsWpsIb),
        last_entry(ATTR_SSE_PREFIX_66, Opcode::ShufpdVpdWpdIb),
    ]
}

/// `BxOpcodeTable0FC7`
pub open spec fn spec_table_0fc7() -> Seq<OpcodeEntry> {
    seq![
        form_opcode(ATTR_NNN1 | ATTR_MOD_MEM | ATTR_OS64, Opcode::CMPXCHG16B),
        last_opcode(ATTR_NNN1 | ATTR_MOD_MEM, Opcode::Cmpxchg8b),
    ]
}

fn table_0fc7() -> (t: Vec<OpcodeEntry>)
    ensures
        t@ == spec_table_0fc7(),
{
    vec![
        entry(ATTR_NNN1 | ATTR_MOD_MEM | ATTR_OS64, Opcode::CMPXCHG16B),
        last_entry(ATTR_NNN1 | ATTR_MOD_MEM, Opcode::Cmpxchg8b),
    ]
}

/// `BxOpcodeTable0FC8x0FCF`
pub open spec fn spec_table_0fc8x0fcf() -> Seq<OpcodeEntry> {
    seq![
        form_opcode(ATTR_OS64, Opcode::BswapRrx),
        form_opcode(ATTR_OS32, Opcode::BswapErx),
        last_opcode(ATTR_OS16, Opcode::BswapRx),
    ]
}

fn table_0fc8x0fcf() -> (t: Vec<OpcodeEntry>)
    ensures
        t@ == spec_table_0fc8x0fcf(),
{
    vec![
        entry(ATTR_OS64, Opcode::BswapRrx),
        entry(ATTR_OS32, Opcode::BswapErx),
        last_entry(ATTR_OS16, Opcode::BswapRx),
    ]
}

/// `BxOpcodeTable0FFF`
pub open spec fn spec_table_0fff() -> Seq<OpcodeEntry> {
    seq![
        last_opcode(0, Opcode::Ud0),
    ]
}

fn table_0fff() -> (t: Vec<OpcodeEntry>)
    ensures
        t@ == spec_table_0fff(),
{
    vec![
        last_entry(0, Opcode::Ud0),
    ]
}

/// `BxOpcodeTable0F05_64`
pub open spec fn spec_table_0f05_64() -> Seq<OpcodeEntry> {
    seq![
        last_opcode(0, Opcode::Syscall),
    ]
}

fn table_0f05_64() -> (t: Vec<OpcodeEntry>)
    ensures
        t@ == spec_table_0f05_64(),
{
    vec![
        last_entry(0, Opcode::Syscall),
    ]
}

/// `BxOpcodeTable0F07_64`
pub open spec fn spec_table_0f07_64() -> Seq<OpcodeEntry> {
    seq![
        last_opcode(0, Opcode::Sysret),
    ]
}

fn table_0f07_64() -> (t: Vec<OpcodeEntry>)
    ensures
        t@ == spec_table_0f07_64(),
{
    vec![
        last_entry(0, Opcode::Sysret),
    ]
}

/// `BxOpcodeTable0F20_64`
pub open spec fn spec_table_0f20_64() -> Seq<OpcodeEntry> {
    seq![
        form_opcode(ATTR_NNN0, Opcode::MovRqCr0),
        form_opcode(ATTR_NNN2, Opcode::MovRqCr2),
        form_opcode(ATTR_NNN3, Opcode::MovRqCr3),
        last_opcode(ATTR_NNN4, Opcode::MovRqCr4),
    ]
}

fn table_0f20_64() -> (t: Vec<OpcodeEntry>)
    ensures
        t@ == spec_table_0f20_64(),
{
    vec![
        entry(ATTR_NNN0, Opcode::MovRqCr0),
        entry(ATTR_NNN2, Opcode::MovRqCr2),
        entry(ATTR_NNN3, Opcode::MovRqCr3),
        last_entry(ATTR_NNN4, Opcode::MovRqCr4),
    ]
}

/// `BxOpcodeTable0F21_64`
pub open spec fn spec_table_0f21_64() -> Seq<OpcodeEntry> {
    seq![
        last_opcode(0, Opcode::MovRqDq),
    ]
}

fn table_0f21_64() -> (t: Vec<OpcodeEntry>)
    ensures
        t@ == spec_table_0f21_64(),
{
    vec![
        last_entry(0, Opcode::MovRqDq),
    ]
}

/// `BxOpcodeTable0F22_64`
pub open spec fn spec_table_0f22_64() -> Seq<OpcodeEntry> {
    seq![
        form_opcode(ATTR_NNN0, Opcode::MovCr0rq),
        form_opcode(ATTR_NNN2, Opcode::MovCr2rq),
        form_opcode(ATTR_NNN3, Opcode::MovCr3rq),
        last_opcode(ATTR_NNN4, Opcode::MovCr4rq),
    ]
}

fn table_0f22_64() -> (t: Vec<OpcodeEntry>)
    ensures
        t@ == spec_table_0f22_64(),
{
    vec![
        entry(ATTR_NNN0, Opcode::MovCr0rq),
        entry(ATTR_NNN2, Opcode::MovCr2rq),
        entry(ATTR_NNN3, Opcode::MovCr3rq),
        last_entry(ATTR_NNN4, Opcode::MovCr4rq),
    ]
}

/// `BxOpcodeTable0F23_64`
pub open spec fn spec_table_0f23_64() -> Seq<OpcodeEntry> {
    seq![
        last_opcode(0, Opcode::MovDqRq),
    ]
}

fn table_0f23_64() -> (t: Vec<OpcodeEntry>)
    ensures
        t@ == spec_table_0f23_64(),
{
    vec![
        last_entry(0, Opcode::MovDqRq),
    ]
}

/// `BxOpcodeTable0F80_64`
pub open spec fn spec_table_0f80_64() -> Seq<OpcodeEntry> {
    seq![
        last_opcode(0, Opcode::JoJq),
    ]
}

fn table_0f80_64() -> (t: Vec<OpcodeEntry>)
    ensures
        t@ == spec_table_0f80_64(),
{
    vec![
        last_entry(0, Opcode::JoJq),
    ]
}

/// `BxOpcodeTable0F81_64`
pub open spec fn spec_table_0f81_64() -> Seq<OpcodeEntry> {
    seq![
        last_opcode(0, Opcode::JnoJq),
    ]
}

fn table_0f81_64() -> (t: Vec<OpcodeEntry>)
    ensures
        t@ == spec_table_0f81_64(),
{
    vec![
        last_entry(0, Opcode::JnoJq),
    ]
}

/// `BxOpcodeTable0F82_64`
pub open spec fn spec_table_0f82_64() -> Seq<OpcodeEntry> {
    seq![
        last_opcode(0, Opcode::JbJq),
    ]
}

fn table_0f82_64() -> (t: Vec<OpcodeEntry>)
    ensures
        t@ == spec_table_0f82_64(),
{
    vec![
        last_entry(0, Opcode::JbJq),
    ]
}

/// `BxOpcodeTable0F83_64`
pub open spec fn spec_table_0f83_64() -> Seq<OpcodeEntry> {
    seq![
        last_opcode(0, Opcode::JnbJq),
    ]
}

fn table_0f83_64() -> (t: Vec<OpcodeEntry>)
    ensures
        t@ == spec_table_0f83_64(),
{
    vec![
        last_entry(0, Opcode::JnbJq),
    ]
}

/// `BxOpcodeTable0F84_64`
pub open spec fn spec_table_0f84_64() -> Seq<OpcodeEntry> {
    seq![
        last_opcode(0, Opcode::JzJq),
    ]
}

fn table_0f84_64() -> (t: Vec<OpcodeEntry>)
    ensures
        t@ == spec_table_0f84_64(),
{
    vec![
        last_entry(0, Opcode::JzJq),
    ]
}

/// `BxOpcodeTable0F85_64`
pub open spec fn spec_table_0f85_64() -> Seq<OpcodeEntry> {
    seq![
        last_opcode(0, Opcode::JnzJq),
    ]
}

fn table_0f85_64() -> (t: Vec<OpcodeEntry>)
    ensures
        t@ == spec_table_0f85_64(),
{
    vec![
        last_entry(0, Opcode::JnzJq),
    ]
}

/// `BxOpcodeTable0F86_64`
pub open spec fn spec_table_0f86_64() -> Seq<OpcodeEntry> {
    seq![
        last_opcode(0, Opcode::JbeJq),
    ]
}

fn table_0f86_64() -> (t: Vec<OpcodeEntry>)
    ensures
        t@ == spec_table_0f86_64(),
{
    vec![
        last_entry(0, Opcode::JbeJq),
    ]
}

/// `BxOpcodeTable0F87_64`
pub open spec fn spec_table_0f87_64() -> Seq<OpcodeEntry> {
    seq![
        last_opcode(0, Opcode::JnbeJq),
    ]
}

fn table_0f87_64() -> (t: Vec<OpcodeEntry>)
    ensures
        t@ == spec_table_0f87_64(),
{
    vec![
        last_entry(0, Opcode::JnbeJq),
    ]
}

/// `BxOpcodeTable0F88_64`
pub open spec fn spec_table_0f88_64() -> Seq<OpcodeEntry> {
    seq![
        last_opcode(0, Opcode::JsJq),
    ]
}

fn table_0f88_64() -> (t: Vec<OpcodeEntry>)
    ensures
        t@ == spec_table_0f88_64(),
{
    vec![
        last_entry(0, Opcode::JsJq),
    ]
}

/// `BxOpcodeTable0F89_64`
pub open spec fn spec_table_0f89_64() -> Seq<OpcodeEntry> {
    seq![
        last_opcode(0, Opcode::JnsJq),
    ]
}

fn table_0f89_64() -> (t: Vec<OpcodeEntry>)
    ensures
        t@ == spec_table_0f89_64(),
{
    vec![
        last_entry(0, Opcode::JnsJq),
    ]
}

/// `BxOpcodeTable0F8A_64`
pub open spec fn spec_table_0f8a_64() -> Seq<OpcodeEntry> {
    seq![
        last_opcode(0, Opcode::JpJq),
    ]
}

fn table_0f8a_64() -> (t: Vec<OpcodeEntry>)
    ensures
        t@ == spec_table_0f8a_64(),
{
    vec![
        last_entry(0, Opcode::JpJq),
    ]
}

/// `BxOpcodeTable0F8B_64`
pub open spec fn spec_table_0f8b_64() -> Seq<OpcodeEntry> {
    seq![
        last_opcode(0, Opcode::JnpJq),
    ]
}

fn table_0f8b_64() -> (t: Vec<OpcodeEntry>)
    ensures
        t@ == spec_table_0f8b_64(),
{
    vec![
        last_entry(0, Opcode::JnpJq),
    ]
}

/// `BxOpcodeTable0F8C_64`
pub open spec fn spec_table_0f8c_64() -> Seq<OpcodeEntry> {
    seq![
        last_opcode(0, Opcode::JlJq),
    ]
}

fn table_0f8c_64() -> (t: Vec<OpcodeEntry>)
    ensures
        t@ == spec_table_0f8c_64(),
{
    vec![
        last_entry(0, Opcode::JlJq),
    ]
}

/// `BxOpcodeTable0F8D_64`
pub open spec fn spec_table_0f8d_64() -> Seq<OpcodeEntry> {
    seq![
        last_opcode(0, Opcode::JnlJq),
    ]
}

fn table_0f8d_64() -> (t: Vec<OpcodeEntry>)
    ensures
        t@ == spec_table_0f8d_64(),
{
    vec![
        last_entry(0, Opcode::JnlJq),
    ]
}

/// `BxOpcodeTable0F8E_64`
pub open spec fn spec_table_0f8e_64() -> Seq<OpcodeEntry> {
    seq![
        last_opcode(0, Opcode::JleJq),
    ]
}

fn table_0f8e_64() -> (t: Vec<OpcodeEntry>)
    ensures
        t@ == spec_table_0f8e_64(),
{
    vec![
        last_entry(0, Opcode::JleJq),
    ]
}

/// `BxOpcodeTable0F8F_64`
pub open spec fn spec_table_0f8f_64() -> Seq<OpcodeEntry> {
    seq![
        last_opcode(0, Opcode::JnleJq),
    ]
}

fn table_0f8f_64() -> (t: Vec<OpcodeEntry>)
    ensures
        t@ == spec_table_0f8f_64(),
{
    vec![
        last_entry(0, Opcode::JnleJq),
    ]
}

/// `BxOpcodeTable0F3800`
pub open spec fn spec_table_0f3800() -> Seq<OpcodeEntry> {
    seq![
        form_opcode(ATTR_SSE_NO_PREFIX, Opcode::PshufbPqQq),
        last_opcode(ATTR_SSE_PREFIX_66, Opcode::PshufbVdqWdq),
    ]
}

fn table_0f3800() -> (t: Vec<OpcodeEntry>)
    ensures
        t@ == spec_table_0f3800(),
{
    vec![
        entry(ATTR_SSE_NO_PREFIX, Opcode::PshufbPqQq),
        last_entry(ATTR_SSE_PREFIX_66, Opcode::PshufbVdqWdq),
    ]
}

/// `BxOpcodeTable0F3801`
pub open spec fn spec_table_0f3801() -> Seq<OpcodeEntry> {
    seq![
        form_opcode(ATTR_SSE_NO_PREFIX, Opcode::PhaddwPqQq),
        last_opcode(ATTR_SSE_PREFIX_66, Opcode::PhaddwVdqWdq),
    ]
}

fn table_0f3801() -> (t: Vec<OpcodeEntry>)
    ensures
        t@ == spec_table_0f3801(),
{
    vec![
        entry(ATTR_SSE_NO_PREFIX, Opcode::PhaddwPqQq),
        last_entry(ATTR_SSE_PREFIX_66, Opcode::PhaddwVdqWdq),
    ]
}

/// `BxOpcodeTable0F3802`
pub open spec fn spec_table_0f3802() -> Seq<OpcodeEntry> {
    seq![
        form_opcode(ATTR_SSE_NO_PREFIX, Opcode::PhadddPqQq),
        last_opcode(ATTR_SSE_PREFIX_66, Opcode::PhadddVdqWdq),
    ]
}

fn table_0f3802() -> (t: Vec<OpcodeEntry>)
    ensures
        t@ == spec_table_0f3802(),
{
    vec![
        entry(ATTR_SSE_NO_PREFIX, Opcode::PhadddPqQq),
        last_entry(ATTR_SSE_PREFIX_66, Opcode::PhadddVdqWdq),
    ]
}

/// `BxOpcodeTable0F3803`
pub open spec fn spec_table_0f3803() -> Seq<OpcodeEntry> {
    seq![
        form_opcode(ATTR_SSE_NO_PREFIX, Opcode::PhaddswPqQq),
        last_opcode(ATTR_SSE_PREFIX_66, Opcode::PhaddswVdqWdq),
    ]
}

fn table_0f3803() -> (t: Vec<OpcodeEntry>)
    ensures
        t@ == spec_table_0f3803(),
{
    vec![
        entry(ATTR_SSE_NO_PREFIX, Opcode::PhaddswPqQq),
        last_entry(ATTR_SSE_PREFIX_66, Opcode::PhaddswVdqWdq),
    ]
}

/// `BxOpcodeTable0F3804`
pub open spec fn spec_table_0f3804() -> Seq<OpcodeEntry> {
    seq![
        form_opcode(ATTR_SSE_NO_PREFIX, Opcode::PmaddubswPqQq),
        last_opcode(ATTR_SSE_PREFIX_66, Opcode::PmaddubswVdqWdq),
    ]
}

fn table_0f3804() -> (t: Vec<OpcodeEntry>)
    ensures
        t@ == spec_table_0f3804(),
{
    vec![
        entry(ATTR_SSE_NO_PREFIX, Opcode::PmaddubswPqQq),
        last_entry(ATTR_SSE_PREFIX_66, Opcode::PmaddubswVdqWdq),
    ]
}

/// `BxOpcodeTable0F3805`
pub open spec fn spec_table_0f3805() -> Seq<OpcodeEntry> {
    seq![
        form_opcode(ATTR_SSE_NO_PREFIX, Opcode::PhsubwPqQq),
        last_opcode(ATTR_SSE_PREFIX_66, Opcode::PhsubwVdqWdq),
    ]
}

fn table_0f3805() -> (t: Vec<OpcodeEntry>)
    ensures
        t@ == spec_table_0f3805(),
{
    vec![
        entry(ATTR_SSE_NO_PREFIX, Opcode::PhsubwPqQq),
        last_entry(ATTR_SSE_PREFIX_66, Opcode::PhsubwVdqWdq),
    ]
}

/// `BxOpcodeTable0F3806`
pub open spec fn spec_table_0f3806() -> Seq<OpcodeEntry> {
    seq![
        form_opcode(ATTR_SSE_NO_PREFIX, Opcode::PhsubdPqQq),
        last_opcode(ATTR_SSE_PREFIX_66, Opcode::PhsubdVdqWdq),
    ]
}

fn table_0f3806() -> (t: Vec<OpcodeEntry>)
    ensures
        t@ == spec_table_0f3806(),
{
    vec![
        entry(ATTR_SSE_NO_PREFIX, Opcode::PhsubdPqQq),
        last_entry(ATTR_SSE_PREFIX_66, Opcode::PhsubdVdqWdq),
    ]
}

/// `BxOpcodeTable0F3807`
pub open spec fn spec_table_0f3807() -> Seq<OpcodeEntry> {
    seq![
        form_opcode(ATTR_SSE_NO_PREFIX, Opcode::PhsubswPqQq),
        last_opcode(ATTR_SSE_PREFIX_66, Opcode::PhsubswVdqWdq),
    ]
}

fn table_0f3807() -> (t: Vec<OpcodeEntry>)
    ensures
        t@ == spec_table_0f3807(),
{
    vec![
        entry(ATTR_SSE_NO_PREFIX, Opcode::PhsubswPqQq),
        last_entry(ATTR_SSE_PREFIX_66, Opcode::PhsubswVdqWdq),
    ]
}

/// `BxOpcodeTable0F3808`
pub open spec fn spec_table_0f3808() -> Seq<OpcodeEntry> {
    seq![
        form_opcode(ATTR_SSE_NO_PREFIX, Opcode::PsignbPqQq),
        last_opcode(ATTR_SSE_PREFIX_66, Opcode::PsignbVdqWdq),
    ]
}

fn table_0f3808() -> (t: Vec<OpcodeEntry>)
    ensures
        t@ == spec_table_0f3808(),
{
    vec![
        entry(ATTR_SSE_NO_PREFIX, Opcode::PsignbPqQq),
        last_entry(ATTR_SSE_PREFIX_66, Opcode::PsignbVdqWdq),
    ]
}

/// `BxOpcodeTable0F3809`
pub open spec fn spec_table_0f3809() -> Seq<OpcodeEntry> {
    seq![
        form_opcode(ATTR_SSE_NO_PREFIX, Opcode::PsignwPqQq),
        last_opcode(ATTR_SSE_PREFIX_66, Opcode::PsignwVdqWdq),
    ]
}

fn table_0f3809() -> (t: Vec<OpcodeEntry>)
    ensures
        t@ == spec_table_0f3809(),
{
    vec![
        entry(ATTR_SSE_NO_PREFIX, Opcode::PsignwPqQq),
        last_entry(ATTR_SSE_PREFIX_66, Opcode::PsignwVdqWdq),
    ]
}

/// `BxOpcodeTable0F380A`
pub open spec fn spec_table_0f380a() -> Seq<OpcodeEntry> {
    seq![
        form_opcode(ATTR_SSE_NO_PREFIX, Opcode::PsigndPqQq),
        last_opcode(ATTR_SSE_PREFIX_66, Opcode::PsigndVdqWdq),
    ]
}

fn table_0f380a() -> (t: Vec<OpcodeEntry>)
    ensures
        t@ == spec_table_0f380a(),
{
    vec![
        entry(ATTR_SSE_NO_PREFIX, Opcode::PsigndPqQq),
        last_entry(ATTR_SSE_PREFIX_66, Opcode::PsigndVdqWdq),
    ]
}

/// `BxOpcodeTable0F380B`
pub open spec fn spec_table_0f380b() -> Seq<OpcodeEntry> {
    seq![
        form_opcode(ATTR_SSE_NO_PREFIX, Opcode::PmulhrswPqQq),
        last_opcode(ATTR_SSE_PREFIX_66, Opcode::PmulhrswVdqWdq),
    ]
}

fn table_0f380b() -> (t: Vec<OpcodeEntry>)
    ensures
        t@ == spec_table_0f380b(),
{
    vec![
        entry(ATTR_SSE_NO_PREFIX, Opcode::PmulhrswPqQq),
        last_entry(ATTR_SSE_PREFIX_66, Opcode::PmulhrswVdqWdq),
    ]
}

/// `BxOpcodeTable0F381C`
pub open spec fn spec_table_0f381c() -> Seq<OpcodeEntry> {
    seq![
        form_opcode(ATTR_SSE_NO_PREFIX, Opcode::PabsbPqQq),
        last_opcode(ATTR_SSE_PREFIX_66, Opcode::PabsbVdqWdq),
    ]
}

fn table_0f381c() -> (t: Vec<OpcodeEntry>)
    ensures
        t@ == spec_table_0f381c(),
{
    vec![
        entry(ATTR_SSE_NO_PREFIX, Opcode::PabsbPqQq),
        last_entry(ATTR_SSE_PREFIX_66, Opcode::PabsbVdqWdq),
    ]
}

/// `BxOpcodeTable0F381D`
pub open spec fn spec_table_0f381d() -> Seq<OpcodeEntry> {
    seq![
        form_opcode(ATTR_SSE_NO_PREFIX, Opcode::PabswPqQq),
        last_opcode(ATTR_SSE_PREFIX_66, Opcode::PabswVdqWdq),
    ]
}

fn table_0f381d() -> (t: Vec<OpcodeEntry>)
    ensures
        t@ == spec_table_0f381d(),
{
    vec![
        entry(ATTR_SSE_NO_PREFIX, Opcode::PabswPqQq),
        last_entry(ATTR_SSE_PREFIX_66, Opcode::PabswVdqWdq),
    ]
}

/// `BxOpcodeTable0F381E`
pub open spec fn spec_table_0f381e() -> Seq<OpcodeEntry> {
    seq![
        form_opcode(ATTR_SSE_NO_PREFIX, Opcode::PabsdPqQq),
        last_opcode(ATTR_SSE_PREFIX_66, Opcode::PabsdVdqWdq),
    ]
}

fn table_0f381e() -> (t: Vec<OpcodeEntry>)
    ensures
        t@ == spec_table_0f381e(),
{
    vec![
        entry(ATTR_SSE_NO_PREFIX, Opcode::PabsdPqQq),
        last_entry(ATTR_SSE_PREFIX_66, Opcode::PabsdVdqWdq),
    ]
}

/// `BxOpcodeTable0F3A0F`
pub open spec fn spec_table_0f3a0f() -> Seq<OpcodeEntry> {
    seq![
        form_opcode(ATTR_SSE_NO_PREFIX, Opcode::PalignrPqQqIb),
        last_opcode(ATTR_SSE_PREFIX_66, Opcode::PalignrVdqWdqIb),
    ]
}

fn table_0f3a0f() -> (t: Vec<OpcodeEntry>)
    ensures
        t@ == spec_table_0f3a0f(),
{
    vec![
        entry(ATTR_SSE_NO_PREFIX, Opcode::PalignrPqQqIb),
        last_entry(ATTR_SSE_PREFIX_66, Opcode::PalignrVdqWdqIb),
    ]
}

/// Opcode table for a one-byte opcode in 16/32-bit mode.
pub open spec fn spec_opcode_table_32(b1: u8) -> Seq<OpcodeEntry> {
    match b1 {
        0x00 => spec_table_00(),
        0x01 => spec_table_01(),
        0x02 => spec_table_02(),
        0x03 => spec_table_03(),
        0x04 => spec_table_04(),
        0x05 => spec_table_05(),
        0x06 => spec_table_06(),
        0x07 => spec_table_07(),
        0x08 => spec_table_08(),
        0x09 => spec_table_09(),
        0x0A => spec_table_0a(),
        0x0B => spec_table_0b(),
        0x0C => spec_table_0c(),
        0x0D => spec_table_0d(),
        0x0E => spec_table_0e(),
        0x10 => spec_table_10(),
        0x11 => spec_table_11(),
        0x12 => spec_table_12(),
        0x13 => spec_table_13(),
        0x14 => spec_table_14(),
        0x15 => spec_table_15(),
        0x16 => spec_table_16(),
        0x17 => spec_table_17(),
        0x18 => spec_table_18(),
        0x19 => spec_table_19(),
        0x1A => spec_table_1a(),
        0x1B => spec_table_1b(),
        0x1C => spec_table_1c(),
        0x1D => spec_table_1d(),
        0x1E => spec_table_1e(),
        0x1F => spec_table_1f(),
        0x20 => spec_table_20(),
        0x21 => spec_table_21(),
        0x22 => spec_table_22(),
        0x23 => spec_table_23(),
        0x24 => spec_table_24(),
        0x25 => spec_table_25(),
        0x27 => spec_table_27(),
        0x28 => spec_table_28(),
        0x29 => spec_table_29(),
        0x2A => spec_table_2a(),
        0x2B => spec_table_2b(),
        0x2C => spec_table_2c(),
        0x2D => spec_table_2d(),
        0x2F => spec_table_2f(),
        0x30 => spec_table_30(),
        0x31 => spec_table_31(),
        0x32 => spec_table_32(),
        0x33 => spec_table_33(),
        0x34 => spec_table_34(),
        0x35 => spec_table_35(),
        0x37 => spec_table_37(),
        0x38 => spec_table_38(),
        0x39 => spec_table_39(),
        0x3A => spec_table_3a(),
        0x3B => spec_table_3b(),
        0x3C => spec_table_3c(),
        0x3D => spec_table_3d(),
        0x3F => spec_table_3f(),
        0x40 | 0x41 | 0x42 | 0x43 | 0x44 | 0x45 | 0x46 | 0x47 => spec_table_40x47(),
        0x48 | 0x49 | 0x4A | 0x4B | 0x4C | 0x4D | 0x4E | 0x4F => spec_table_48x4f(),
        0x50 | 0x51 | 0x52 | 0x53 | 0x54 | 0x55 | 0x56 | 0x57 => spec_table_50x57(),
        0x58 | 0x59 | 0x5A | 0x5B | 0x5C | 0x5D | 0x5E | 0x5F => spec_table_58x5f(),
        0x60 => spec_table_60(),
        0x61 => spec_table_61(),
        0x62 => spec_table_62(),
        0x63 => spec_table_63_32(),
        0x68 => spec_table_68(),
        0x69 => spec_table_69(),
        0x6A => spec_table_6a(),
        0x6B => spec_table_6b(),
        0x6C => spec_table_6c(),
        0x6D => spec_table_6d(),
        0x6E => spec_table_6e(),
        0x6F => spec_table_6f(),
        0x70 => spec_table_70_32(),
        0x71 => spec_table_71_32(),
        0x72 => spec_table_72_32(),
        0x73 => spec_table_73_32(),
        0x74 => spec_table_74_32(),
        0x75 => spec_table_75_32(),
        0x76 => spec_table_76_32(),
        0x77 => spec_table_77_32(),
        0x78 => spec_table_78_32(),
        0x79 => spec_table_79_32(),
        0x7A => spec_table_7a_32(),
        0x7B => spec_table_7b_32(),
        0x7C => spec_table_7c_32(),
        0x7D => spec_table_7d_32(),
        0x7E => spec_table_7e_32(),
        0x7F => spec_table_7f_32(),
        0x80 => spec_table_80(),
        0x81 => spec_table_81(),
        0x83 => spec_table_83(),
        0x84 => spec_table_84(),
        0x85 => spec_table_85(),
        0x86 => spec_table_86(),
        0x87 => spec_table_87(),
        0x88 => spec_table_88(),
        0x89 => spec_table_89(),
        0x8A => spec_table_8a(),
        0x8B => spec_table_8b(),
        0x8C => spec_table_8c(),
        0x8D => spec_table_8d(),
        0x8E => spec_table_8e(),
        0x8F => spec_table_8f(),
        0x90 | 0x91 | 0x92 | 0x93 | 0x94 | 0x95 | 0x96 | 0x97 => spec_table_90x97(),
        0x98 => spec_table_98(),
        0x99 => spec_table_99(),
        0x9A => spec_table_9a(),
        0x9B => spec_table_9b(),
        0x9C => spec_table_9c(),
        0x9D => spec_table_9d(),
        0x9E => spec_table_9e_32(),
        0x9F => spec_table_9f_32(),
        0xA0 => spec_table_a0_32(),
        0xA1 => spec_table_a1_32(),
        0xA2 => spec_table_a2_32(),
        0xA3 => spec_table_a3_32(),
        0xA4 => spec_table_a4(),
        0xA5 => spec_table_a5(),
        0xA6 => spec_table_a6(),
        0xA7 => spec_table_a7(),
        0xA8 => spec_table_a8(),
        0xA9 => spec_table_a9(),
        0xAA => spec_table_aa(),
        0xAB => spec_table_ab(),
        0xAC => spec_table_ac(),
        0xAD => spec_table_ad(),
        0xAE => spec_table_ae(),
        0xAF => spec_table_af(),
        0xB0 | 0xB1 | 0xB2 | 0xB3 | 0xB4 | 0xB5 | 0xB6 | 0xB7 => spec_table_b0xb7(),
        0xB8 | 0xB9 | 0xBA | 0xBB | 0xBC | 0xBD | 0xBE | 0xBF => spec_table_b8xbf(),
        0xC0 => spec_table_c0(),
        0xC1 => spec_table_c1(),
        0xC2 => spec_table_c2_32(),
        0xC3 => spec_table_c3_32(),
        0xC4 => spec_table_c4_32(),
        0xC5 => spec_table_c5_32(),
        0xC6 => spec_table_c6(),
        0xC7 => spec_table_c7(),
        0xC8 => spec_table_c8_32(),
        0xC9 => spec_table_c9_32(),
        0xCA => spec_table_ca(),
        0xCB => spec_table_cb(),
        0xCC => spec_table_cc(),
        0xCD => spec_table_cd(),
        0xCE => spec_table_ce(),
        0xCF => spec_table_cf_32(),
        0xD0 => spec_table_d0(),
        0xD1 => spec_table_d1(),
        0xD2 => spec_table_d2(),
        0xD3 => spec_table_d3(),
        0xD4 => spec_table_d4(),
        0xD5 => spec_table_d5(),
        0xD6 => spec_table_d6(),
        0xD7 => spec_table_d7(),
        0xE0 => spec_table_e0_32(),
        0xE1 => spec_table_e1_32(),
        0xE2 => spec_table_e2_32(),
        0xE3 => spec_table_e3_32(),
        0xE4 => spec_table_e4(),
        0xE5 => spec_table_e5(),
        0xE6 => spec_table_e6(),
        0xE7 => spec_table_e7(),
        0xE8 => spec_table_e8_32(),
        0xE9 => spec_table_e9_32(),
        0xEA => spec_table_ea_32(),
        0xEB => spec_table_eb_32(),
        0xEC => spec_table_ec(),
        0xED => spec_table_ed(),
        0xEE => spec_table_ee(),
        0xEF => spec_table_ef(),
        0xF1 => spec_table_f1(),
        0xF4 => spec_table_f4(),
        0xF5 => spec_table_f5(),
        0xF6 => spec_table_f6(),
        0xF7 => spec_table_f7(),
        0xF8 => spec_table_f8(),
        0xF9 => spec_table_f9(),
        0xFA => spec_table_fa(),
        0xFB => spec_table_fb(),
        0xFC => spec_table_fc(),
        0xFD => spec_table_fd(),
        0xFE => spec_table_fe(),
        0xFF => spec_table_ff(),
        _ => seq![],
    }
}

/// Opcode table for a one-byte opcode in 16/32-bit mode.
pub fn get_opcode_table_32(b1: u8) -> (t: Vec<OpcodeEntry>)
    ensures
        t@ == spec_opcode_table_32(b1),
{
    match b1 {
        0x00 => table_00(),
        0x01 => table_01(),
        0x02 => table_02(),
        0x03 => table_03(),
        0x04 => table_04(),
        0x05 => table_05(),
        0x06 => table_06(),
        0x07 => table_07(),
        0x08 => table_08(),
        0x09 => table_09(),
        0x0A => table_0a(),
        0x0B => table_0b(),
        0x0C => table_0c(),
        0x0D => table_0d(),
        0x0E => table_0e(),
        0x10 => table_10(),
        0x11 => table_11(),
        0x12 => table_12(),
        0x13 => table_13(),
        0x14 => table_14(),
        0x15 => table_15(),
        0x16 => table_16(),
        0x17 => table_17(),
        0x18 => table_18(),
        0x19 => table_19(),
        0x1A => table_1a(),
        0x1B => table_1b(),
        0x1C => table_1c(),
        0x1D => table_1d(),
        0x1E => table_1e(),
        0x1F => table_1f(),
        0x20 => table_20(),
        0x21 => table_21(),
        0x22 => table_22(),
        0x23 => table_23(),
        0x24 => table_24(),
        0x25 => table_25(),
        0x27 => table_27(),
        0x28 => table_28(),
        0x29 => table_29(),
        0x2A => table_2a(),
        0x2B => table_2b(),
        0x2C => table_2c(),
        0x2D => table_2d(),
        0x2F => table_2f(),
        0x30 => table_30(),
        0x31 => table_31(),
        0x32 => table_32(),
        0x33 => table_33(),
        0x34 => table_34(),
        0x35 => table_35(),
        0x37 => table_37(),
        0x38 => table_38(),
        0x39 => table_39(),
        0x3A => table_3a(),
        0x3B => table_3b(),
        0x3C => table_3c(),
        0x3D => table_3d(),
        0x3F => table_3f(),
        0x40 | 0x41 | 0x42 | 0x43 | 0x44 | 0x45 | 0x46 | 0x47 => table_40x47(),
        0x48 | 0x49 | 0x4A | 0x4B | 0x4C | 0x4D | 0x4E | 0x4F => table_48x4f(),
        0x50 | 0x51 | 0x52 | 0x53 | 0x54 | 0x55 | 0x56 | 0x57 => table_50x57(),
        0x58 | 0x59 | 0x5A | 0x5B | 0x5C | 0x5D | 0x5E | 0x5F => table_58x5f(),
        0x60 => table_60(),
        0x61 => table_61(),
        0x62 => table_62(),
        0x63 => table_63_32(),
        0x68 => table_68(),
        0x69 => table_69(),
        0x6A => table_6a(),
        0x6B => table_6b(),
        0x6C => table_6c(),
        0x6D => table_6d(),
        0x6E => table_6e(),
        0x6F => table_6f(),
        0x70 => table_70_32(),
        0x71 => table_71_32(),
        0x72 => table_72_32(),
        0x73 => table_73_32(),
        0x74 => table_74_32(),
        0x75 => table_75_32(),
        0x76 => table_76_32(),
        0x77 => table_77_32(),
        0x78 => table_78_32(),
        0x79 => table_79_32(),
        0x7A => table_7a_32(),
        0x7B => table_7b_32(),
        0x7C => table_7c_32(),
        0x7D => table_7d_32(),
        0x7E => table_7e_32(),
        0x7F => table_7f_32(),
        0x80 => table_80(),
        0x81 => table_81(),
        0x83 => table_83(),
        0x84 => table_84(),
        0x85 => table_85(),
        0x86 => table_86(),
        0x87 => table_87(),
        0x88 => table_88(),
        0x89 => table_89(),
        0x8A => table_8a(),
        0x8B => table_8b(),
        0x8C => table_8c(),
        0x8D => table_8d(),
        0x8E => table_8e(),
        0x8F => table_8f(),
        0x90 | 0x91 | 0x92 | 0x93 | 0x94 | 0x95 | 0x96 | 0x97 => table_90x97(),
        0x98 => table_98(),
        0x99 => table_99(),
        0x9A => table_9a(),
        0x9B => table_9b(),
        0x9C => table_9c(),
        0x9D => table_9d(),
        0x9E => table_9e_32(),
        0x9F => table_9f_32(),
        0xA0 => table_a0_32(),
        0xA1 => table_a1_32(),
        0xA2 => table_a2_32(),
        0xA3 => table_a3_32(),
        0xA4 => table_a4(),
        0xA5 => table_a5(),
        0xA6 => table_a6(),
        0xA7 => table_a7(),
        0xA8 => table_a8(),
        0xA9 => table_a9(),
        0xAA => table_aa(),
        0xAB => table_ab(),
        0xAC => table_ac(),
        0xAD => table_ad(),
        0xAE => table_ae(),
        0xAF => table_af(),
        0xB0 | 0xB1 | 0xB2 | 0xB3 | 0xB4 | 0xB5 | 0xB6 | 0xB7 => table_b0xb7(),
        0xB8 | 0xB9 | 0xBA | 0xBB | 0xBC | 0xBD | 0xBE | 0xBF => table_b8xbf(),
        0xC0 => table_c0(),
        0xC1 => table_c1(),
        0xC2 => table_c2_32(),
        0xC3 => table_c3_32(),
        0xC4 => table_c4_32(),
        0xC5 => table_c5_32(),
        0xC6 => table_c6(),
        0xC7 => table_c7(),
        0xC8 => table_c8_32(),
        0xC9 => table_c9_32(),
        0xCA => table_ca(),
        0xCB => table_cb(),
        0xCC => table_cc(),
        0xCD => table_cd(),
        0xCE => table_ce(),
        0xCF => table_cf_32(),
        0xD0 => table_d0(),
        0xD1 => table_d1(),
        0xD2 => table_d2(),
        0xD3 => table_d3(),
        0xD4 => table_d4(),
        0xD5 => table_d5(),
        0xD6 => table_d6(),
        0xD7 => table_d7(),
        0xE0 => table_e0_32(),
        0xE1 => table_e1_32(),
        0xE2 => table_e2_32(),
        0xE3 => table_e3_32(),
        0xE4 => table_e4(),
        0xE5 => table_e5(),
        0xE6 => table_e6(),
        0xE7 => table_e7(),
        0xE8 => table_e8_32(),
        0xE9 => table_e9_32(),
        0xEA => table_ea_32(),
        0xEB => table_eb_32(),
        0xEC => table_ec(),
        0xED => table_ed(),
        0xEE => table_ee(),
        0xEF => table_ef(),
        0xF1 => table_f1(),
        0xF4 => table_f4(),
        0xF5 => table_f5(),
        0xF6 => table_f6(),
        0xF7 => table_f7(),
        0xF8 => table_f8(),
        0xF9 => table_f9(),
        0xFA => table_fa(),
        0xFB => table_fb(),
        0xFC => table_fc(),
        0xFD => table_fd(),
        0xFE => table_fe(),
        0xFF => table_ff(),
        _ => Vec::new(),
    }
}

/// Opcode table for a one-byte opcode in 64-bit mode.
pub open spec fn spec_opcode_table_64(b1: u8) -> Seq<OpcodeEntry> {
    match b1 {
        0x00 => spec_table_00(),
        0x01 => spec_table_01(),
        0x02 => spec_table_02(),
        0x03 => spec_table_03(),
        0x04 => spec_table_04(),
        0x05 => spec_table_05(),
        0x06 => spec_table_06(),
        0x07 => spec_table_07(),
        0x08 => spec_table_08(),
        0x09 => spec_table_09(),
        0x0A => spec_table_0a(),
        0x0B => spec_table_0b(),
        0x0C => spec_table_0c(),
        0x0D => spec_table_0d(),
        0x0E => spec_table_0e(),
        0x10 => spec_table_10(),
        0x11 => spec_table_11(),
        0x12 => spec_table_12(),
        0x13 => spec_table_13(),
        0x14 => spec_table_14(),
        0x15 => spec_table_15(),
        0x16 => spec_table_16(),
        0x17 => spec_table_17(),
        0x18 => spec_table_18(),
        0x19 => spec_table_19(),
        0x1A => spec_table_1a(),
        0x1B => spec_table_1b(),
        0x1C => spec_table_1c(),
        0x1D => spec_table_1d(),
        0x1E => spec_table_1e(),
        0x1F => spec_table_1f(),
        0x20 => spec_table_20(),
        0x21 => spec_table_21(),
        0x22 => spec_table_22(),
        0x23 => spec_table_23(),
        0x24 => spec_table_24(),
        0x25 => spec_table_25(),
        0x27 => spec_table_27(),
        0x28 => spec_table_28(),
        0x29 => spec_table_29(),
        0x2A => spec_table_2a(),
        0x2B => spec_table_2b(),
        0x2C => spec_table_2c(),
        0x2D => spec_table_2d(),
        0x2F => spec_table_2f(),
        0x30 => spec_table_30(),
        0x31 => spec_table_31(),
        0x32 => spec_table_32(),
        0x33 => spec_table_33(),
        0x34 => spec_table_34(),
        0x35 => spec_table_35(),
        0x37 => spec_table_37(),
        0x38 => spec_table_38(),
        0x39 => spec_table_39(),
        0x3A => spec_table_3a(),
        0x3B => spec_table_3b(),
        0x3C => spec_table_3c(),
        0x3D => spec_table_3d(),
        0x3F => spec_table_3f(),
        0x40 | 0x41 | 0x42 | 0x43 | 0x44 | 0x45 | 0x46 | 0x47 => spec_table_40x47(),
        0x48 | 0x49 | 0x4A | 0x4B | 0x4C | 0x4D | 0x4E | 0x4F => spec_table_48x4f(),
        0x50 | 0x51 | 0x52 | 0x53 | 0x54 | 0x55 | 0x56 | 0x57 => spec_table_50x57(),
        0x58 | 0x59 | 0x5A | 0x5B | 0x5C | 0x5D | 0x5E | 0x5F => spec_table_58x5f(),
        0x60 => spec_table_60(),
        0x61 => spec_table_61(),
        0x63 => spec_table_63_64(),
        0x68 => spec_table_68(),
        0x69 => spec_table_69(),
        0x6A => spec_table_6a(),
        0x6B => spec_table_6b(),
        0x6C => spec_table_6c(),
        0x6D => spec_table_6d(),
        0x6E => spec_table_6e(),
        0x6F => spec_table_6f(),
        0x70 => spec_table_70_64(),
        0x71 => spec_table_71_64(),
        0x72 => spec_table_72_64(),
        0x73 => spec_table_73_64(),
        0x74 => spec_table_74_64(),
        0x75 => spec_table_75_64(),
        0x76 => spec_table_76_64(),
        0x77 => spec_table_77_64(),
        0x78 => spec_table_78_64(),
        0x79 => spec_table_79_64(),
        0x7A => spec_table_7a_64(),
        0x7B => spec_table_7b_64(),
        0x7C => spec_table_7c_64(),
        0x7D => spec_table_7d_64(),
        0x7E => spec_table_7e_64(),
        0x7F => spec_table_7f_64(),
        0x80 => spec_table_80(),
        0x81 => spec_table_81(),
        0x83 => spec_table_83(),
        0x84 => spec_table_84(),
        0x85 => spec_table_85(),
        0x86 => spec_table_86(),
        0x87 => spec_table_87(),
        0x88 => spec_table_88(),
        0x89 => spec_table_89(),
        0x8A => spec_table_8a(),
        0x8B => spec_table_8b(),
        0x8C => spec_table_8c(),
        0x8D => spec_table_8d(),
        0x8E => spec_table_8e(),
        0x8F => spec_table_8f(),
        0x90 => spec_table_90x97(),
        0x91 | 0x92 | 0x93 | 0x94 | 0x95 | 0x96 | 0x97 => spec_table_90x97(),
        0x98 => spec_table_98(),
        0x99 => spec_table_99(),
        0x9B => spec_table_9b(),
        0x9C => spec_table_9c(),
        0x9D => spec_table_9d(),
        0x9E => spec_table_9e_64(),
        0x9F => spec_table_9f_64(),
        0xA0 => spec_table_a0_64(),
        0xA1 => spec_table_a1_64(),
        0xA2 => spec_table_a2_64(),
        0xA3 => spec_table_a3_64(),
        0xA4 => spec_table_a4(),
        0xA5 => spec_table_a5(),
        0xA6 => spec_table_a6(),
        0xA7 => spec_table_a7(),
        0xA8 => spec_table_a8(),
        0xA9 => spec_table_a9(),
        0xAA => spec_table_aa(),
        0xAB => spec_table_ab(),
        0xAC => spec_table_ac(),
        0xAD => spec_table_ad(),
        0xAE => spec_table_ae(),
        0xAF => spec_table_af(),
        0xB0 | 0xB1 | 0xB2 | 0xB3 | 0xB4 | 0xB5 | 0xB6 | 0xB7 => spec_table_b0xb7(),
        0xB8 | 0xB9 | 0xBA | 0xBB | 0xBC | 0xBD | 0xBE | 0xBF => spec_table_b8xbf(),
        0xC0 => spec_table_c0(),
        0xC1 => spec_table_c1(),
        0xC2 => spec_table_c2_64(),
        0xC3 => spec_table_c3_64(),
        0xC6 => spec_table_c6(),
        0xC7 => spec_table_c7(),
        0xC8 => spec_table_c8_64(),
        0xC9 => spec_table_c9_64(),
        0xCA => spec_table_ca(),
        0xCB => spec_table_cb(),
        0xCC => spec_table_cc(),
        0xCD => spec_table_cd(),
        0xCF => spec_table_cf_64(),
        0xD0 => spec_table_d0(),
        0xD1 => spec_table_d1(),
        0xD2 => spec_table_d2(),
        0xD3 => spec_table_d3(),
        0xD4 => spec_table_d4(),
        0xD5 => spec_table_d5(),
        0xD6 => spec_table_d6(),
        0xD7 => spec_table_d7(),
        0xE0 => spec_table_e0_64(),
        0xE1 => spec_table_e1_64(),
        0xE2 => spec_table_e2_64(),
        0xE3 => spec_table_e3_64(),
        0xE4 => spec_table_e4(),
        0xE5 => spec_table_e5(),
        0xE6 => spec_table_e6(),
        0xE7 => spec_table_e7(),
        0xE8 => spec_table_e8_64(),
        0xE9 => spec_table_e9_64(),
        0xEB => spec_table_eb_64(),
        0xEC => spec_table_ec(),
        0xED => spec_table_ed(),
        0xEE => spec_table_ee(),
        0xEF => spec_table_ef(),
        0xF1 => spec_table_f1(),
        0xF4 => spec_table_f4(),
        0xF5 => spec_table_f5(),
        0xF6 => spec_table_f6(),
        0xF7 => spec_table_f7(),
        0xF8 => spec_table_f8(),
        0xF9 => spec_table_f9(),
        0xFA => spec_table_fa(),
        0xFB => spec_table_fb(),
        0xFC => spec_table_fc(),
        0xFD => spec_table_fd(),
        0xFE => spec_table_fe(),
        0xFF => spec_table_ff(),
        _ => seq![],
    }
}

/// Opcode table for a one-byte opcode in 64-bit mode.
pub fn get_opcode_table_64(b1: u8) -> (t: Vec<OpcodeEntry>)
    ensures
        t@ == spec_opcode_table_64(b1),
{
    match b1 {
        0x00 => table_00(),
        0x01 => table_01(),
        0x02 => table_02(),
        0x03 => table_03(),
        0x04 => table_04(),
        0x05 => table_05(),
        0x06 => table_06(),
        0x07 => table_07(),
        0x08 => table_08(),
        0x09 => table_09(),
        0x0A => table_0a(),
        0x0B => table_0b(),
        0x0C => table_0c(),
        0x0D => table_0d(),
        0x0E => table_0e(),
        0x10 => table_10(),
        0x11 => table_11(),
        0x12 => table_12(),
        0x13 => table_13(),
        0x14 => table_14(),
        0x15 => table_15(),
        0x16 => table_16(),
        0x17 => table_17(),
        0x18 => table_18(),
        0x19 => table_19(),
        0x1A => table_1a(),
        0x1B => table_1b(),
        0x1C => table_1c(),
        0x1D => table_1d(),
        0x1E => table_1e(),
        0x1F => table_1f(),
        0x20 => table_20(),
        0x21 => table_21(),
        0x22 => table_22(),
        0x23 => table_23(),
        0x24 => table_24(),
        0x25 => table_25(),
        0x27 => table_27(),
        0x28 => table_28(),
        0x29 => table_29(),
        0x2A => table_2a(),
        0x2B => table_2b(),
        0x2C => table_2c(),
        0x2D => table_2d(),
        0x2F => table_2f(),
        0x30 => table_30(),
        0x31 => table_31(),
        0x32 => table_32(),
        0x33 => table_33(),
        0x34 => table_34(),
        0x35 => table_35(),
        0x37 => table_37(),
        0x38 => table_38(),
        0x39 => table_39(),
        0x3A => table_3a(),
        0x3B => table_3b(),
        0x3C => table_3c(),
        0x3D => table_3d(),
        0x3F => table_3f(),
        0x40 | 0x41 | 0x42 | 0x43 | 0x44 | 0x45 | 0x46 | 0x47 => table_40x47(),
        0x48 | 0x49 | 0x4A | 0x4B | 0x4C | 0x4D | 0x4E | 0x4F => table_48x4f(),
        0x50 | 0x51 | 0x52 | 0x53 | 0x54 | 0x55 | 0x56 | 0x57 => table_50x57(),
        0x58 | 0x59 | 0x5A | 0x5B | 0x5C | 0x5D | 0x5E | 0x5F => table_58x5f(),
        0x60 => table_60(),
        0x61 => table_61(),
        0x63 => table_63_64(),
        0x68 => table_68(),
        0x69 => table_69(),
        0x6A => table_6a(),
        0x6B => table_6b(),
        0x6C => table_6c(),
        0x6D => table_6d(),
        0x6E => table_6e(),
        0x6F => table_6f(),
        0x70 => table_70_64(),
        0x71 => table_71_64(),
        0x72 => table_72_64(),
        0x73 => table_73_64(),
        0x74 => table_74_64(),
        0x75 => table_75_64(),
        0x76 => table_76_64(),
        0x77 => table_77_64(),
        0x78 => table_78_64(),
        0x79 => table_79_64(),
        0x7A => table_7a_64(),
        0x7B => table_7b_64(),
        0x7C => table_7c_64(),
        0x7D => table_7d_64(),
        0x7E => table_7e_64(),
        0x7F => table_7f_64(),
        0x80 => table_80(),
        0x81 => table_81(),
        0x83 => table_83(),
        0x84 => table_84(),
        0x85 => table_85(),
        0x86 => table_86(),
        0x87 => table_87(),
        0x88 => table_88(),
        0x89 => table_89(),
        0x8A => table_8a(),
        0x8B => table_8b(),
        0x8C => table_8c(),
        0x8D => table_8d(),
        0x8E => table_8e(),
        0x8F => table_8f(),
        0x90 => table_90x97(),
        0x91 | 0x92 | 0x93 | 0x94 | 0x95 | 0x96 | 0x97 => table_90x97(),
        0x98 => table_98(),
        0x99 => table_99(),
        0x9B => table_9b(),
        0x9C => table_9c(),
        0x9D => table_9d(),
        0x9E => table_9e_64(),
        0x9F => table_9f_64(),
        0xA0 => table_a0_64(),
        0xA1 => table_a1_64(),
        0xA2 => table_a2_64(),
        0xA3 => table_a3_64(),
        0xA4 => table_a4(),
        0xA5 => table_a5(),
        0xA6 => table_a6(),
        0xA7 => table_a7(),
        0xA8 => table_a8(),
        0xA9 => table_a9(),
        0xAA => table_aa(),
        0xAB => table_ab(),
        0xAC => table_ac(),
        0xAD => table_ad(),
        0xAE => table_ae(),
        0xAF => table_af(),
        0xB0 | 0xB1 | 0xB2 | 0xB3 | 0xB4 | 0xB5 | 0xB6 | 0xB7 => table_b0xb7(),
        0xB8 | 0xB9 | 0xBA | 0xBB | 0xBC | 0xBD | 0xBE | 0xBF => table_b8xbf(),
        0xC0 => table_c0(),
        0xC1 => table_c1(),
        0xC2 => table_c2_64(),
        0xC3 => table_c3_64(),
        0xC6 => table_c6(),
        0xC7 => table_c7(),
        0xC8 => table_c8_64(),
        0xC9 => table_c9_64(),
        0xCA => table_ca(),
        0xCB => table_cb(),
        0xCC => table_cc(),
        0xCD => table_cd(),
        0xCF => table_cf_64(),
        0xD0 => table_d0(),
        0xD1 => table_d1(),
        0xD2 => table_d2(),
        0xD3 => table_d3(),
        0xD4 => table_d4(),
        0xD5 => table_d5(),
        0xD6 => table_d6(),
        0xD7 => table_d7(),
        0xE0 => table_e0_64(),
        0xE1 => table_e1_64(),
        0xE2 => table_e2_64(),
        0xE3 => table_e3_64(),
        0xE4 => table_e4(),
        0xE5 => table_e5(),
        0xE6 => table_e6(),
        0xE7 => table_e7(),
        0xE8 => table_e8_64(),
        0xE9 => table_e9_64(),
        0xEB => table_eb_64(),
        0xEC => table_ec(),
        0xED => table_ed(),
        0xEE => table_ee(),
        0xEF => table_ef(),
        0xF1 => table_f1(),
        0xF4 => table_f4(),
        0xF5 => table_f5(),
        0xF6 => table_f6(),
        0xF7 => table_f7(),
        0xF8 => table_f8(),
        0xF9 => table_f9(),
        0xFA => table_fa(),
        0xFB => table_fb(),
        0xFC => table_fc(),
        0xFD => table_fd(),
        0xFE => table_fe(),
        0xFF => table_ff(),
        _ => Vec::new(),
    }
}

/// Opcode table for a two-byte opcode (0F xx) in 16/32-bit mode.
pub open spec fn spec_opcode_table_0f_32(b2: u8) -> Seq<OpcodeEntry> {
    match b2 {
        0x00 => spec_table_0f00(),
        0x01 => spec_table_0f01(),
        0x02 => spec_table_0f02(),
        0x03 => spec_table_0f03(),
        0x05 => spec_table_0f05_32(),
        0x06 => spec_table_0f06(),
        0x07 => spec_table_0f07_32(),
        0x08 => spec_table_0f08(),
        0x09 => spec_table_0f09(),
        0x0B => spec_table_0f0b(),
        0x0D => spec_table_0f0d(),
        0x0E => spec_table_0f0e(),
        0x10 => spec_table_0f10(),
        0x11 => spec_table_0f11(),
        0x12 => spec_table_0f12(),
        0x13 => spec_table_0f13(),
        0x14 => spec_table_0f14(),
        0x15 => spec_table_0f15(),
        0x16 => spec_table_0f16(),
        0x17 => spec_table_0f17(),
        0x18 => spec_table_0f18(),
        0x1E => spec_table_0f1e(),
        0x20 => spec_table_0f20_32(),
        0x21 => spec_table_0f21_32(),
        0x22 => spec_table_0f22_32(),
        0x23 => spec_table_0f23_32(),
        0x28 => spec_table_0f28(),
        0x29 => spec_table_0f29(),
        0x2A => spec_table_0f2a(),
        0x2B => spec_table_0f2b(),
        0x2C => spec_table_0f2c(),
        0x2D => spec_table_0f2d(),
        0x2E => spec_table_0f2e(),
        0x2F => spec_table_0f2f(),
        0x30 => spec_table_0f30(),
        0x31 => spec_table_0f31(),
        0x32 => spec_table_0f32(),
        0x33 => spec_table_0f33(),
        0x34 => spec_table_0f34(),
        0x35 => spec_table_0f35(),
        0x37 => spec_table_0f37(),
        0x40 => spec_table_0f40(),
        0x41 => spec_table_0f41(),
        0x42 => spec_table_0f42(),
        0x43 => spec_table_0f43(),
        0x44 => spec_table_0f44(),
        0x45 => spec_table_0f45(),
        0x46 => spec_table_0f46(),
        0x47 => spec_table_0f47(),
        0x48 => spec_table_0f48(),
        0x49 => spec_table_0f49(),
        0x4A => spec_table_0f4a(),
        0x4B => spec_table_0f4b(),
        0x4C => spec_table_0f4c(),
        0x4D => spec_table_0f4d(),
        0x4E => spec_table_0f4e(),
        0x4F => spec_table_0f4f(),
        0x80 => spec_table_0f80_32(),
        0x81 => spec_table_0f81_32(),
        0x82 => spec_table_0f82_32(),
        0x83 => spec_table_0f83_32(),
        0x84 => spec_table_0f84_32(),
        0x85 => spec_table_0f85_32(),
        0x86 => spec_table_0f86_32(),
        0x87 => spec_table_0f87_32(),
        0x88 => spec_table_0f88_32(),
        0x89 => spec_table_0f89_32(),
        0x8A => spec_table_0f8a_32(),
        0x8B => spec_table_0f8b_32(),
        0x8C => spec_table_0f8c_32(),
        0x8D => spec_table_0f8d_32(),
        0x8E => spec_table_0f8e_32(),
        0x8F => spec_table_0f8f_32(),
        0x90 => spec_table_0f90(),
        0x91 => spec_table_0f91(),
        0x92 => spec_table_0f92(),
        0x93 => spec_table_0f93(),
        0x94 => spec_table_0f94(),
        0x95 => spec_table_0f95(),
        0x96 => spec_table_0f96(),
        0x97 => spec_table_0f97(),
        0x98 => spec_table_0f98(),
        0x99 => spec_table_0f99(),
        0x9A => spec_table_0f9a(),
        0x9B => spec_table_0f9b(),
        0x9C => spec_table_0f9c(),
        0x9D => spec_table_0f9d(),
        0x9E => spec_table_0f9e(),
        0x9F => spec_table_0f9f(),
        0xA0 => spec_table_0fa0(),
        0xA1 => spec_table_0fa1(),
        0xA2 => spec_table_0fa2(),
        0xA3 => spec_table_0fa3(),
        0xA4 => spec_table_0fa4(),
        0xA5 => spec_table_0fa5(),
        0xA8 => spec_table_0fa8(),
        0xA9 => spec_table_0fa9(),
        0xAA => spec_table_0faa(),
        0xAB => spec_table_0fab(),
        0xAC => spec_table_0fac(),
        0xAD => spec_table_0fad(),
        0xAE => spec_table_0fae(),
        0xAF => spec_table_0faf(),
        0xB0 => spec_table_0fb0(),
        0xB1 => spec_table_0fb1(),
        0xB2 => spec_table_0fb2(),
        0xB3 => spec_table_0fb3(),
        0xB4 => spec_table_0fb4(),
        0xB5 => spec_table_0fb5(),
        0xB6 => spec_table_0fb6(),
        0xB7 => spec_table_0fb7(),
        0xB8 => spec_table_0fb8(),
        0xB9 => spec_table_0fb9(),
        0xBA => spec_table_0fba(),
        0xBB => spec_table_0fbb(),
        0xBC => spec_table_0fbc(),
        0xBD => spec_table_0fbd(),
        0xBE => spec_table_0fbe(),
        0xBF => spec_table_0fbf(),
        0xC0 => spec_table_0fc0(),
        0xC1 => spec_table_0fc1(),
        0xC2 => spec_table_0fc2(),
        0xC3 => spec_table_0fc3(),
        0xC4 => spec_table_0fc4(),
        0xC5 => spec_table_0fc5(),
        0xC6 => spec_table_0fc6(),
        0xC7 => spec_table_0fc7(),
        0xC8 | 0xC9 | 0xCA | 0xCB | 0xCC | 0xCD | 0xCE | 0xCF => spec_table_0fc8x0fcf(),
        0xFF => spec_table_0fff(),
        _ => seq![],
    }
}

/// Opcode table for a two-byte opcode (0F xx) in 16/32-bit mode.
pub fn get_opcode_table_0f_32(b2: u8) -> (t: Vec<OpcodeEntry>)
    ensures
        t@ == spec_opcode_table_0f_32(b2),
{
    match b2 {
        0x00 => table_0f00(),
        0x01 => table_0f01(),
        0x02 => table_0f02(),
        0x03 => table_0f03(),
        0x05 => table_0f05_32(),
        0x06 => table_0f06(),
        0x07 => table_0f07_32(),
        0x08 => table_0f08(),
        0x09 => table_0f09(),
        0x0B => table_0f0b(),
        0x0D => table_0f0d(),
        0x0E => table_0f0e(),
        0x10 => table_0f10(),
        0x11 => table_0f11(),
        0x12 => table_0f12(),
        0x13 => table_0f13(),
        0x14 => table_0f14(),
        0x15 => table_0f15(),
        0x16 => table_0f16(),
        0x17 => table_0f17(),
        0x18 => table_0f18(),
        0x1E => table_0f1e(),
        0x20 => table_0f20_32(),
        0x21 => table_0f21_32(),
        0x22 => table_0f22_32(),
        0x23 => table_0f23_32(),
        0x28 => table_0f28(),
        0x29 => table_0f29(),
        0x2A => table_0f2a(),
        0x2B => table_0f2b(),
        0x2C => table_0f2c(),
        0x2D => table_0f2d(),
        0x2E => table_0f2e(),
        0x2F => table_0f2f(),
        0x30 => table_0f30(),
        0x31 => table_0f31(),
        0x32 => table_0f32(),
        0x33 => table_0f33(),
        0x34 => table_0f34(),
        0x35 => table_0f35(),
        0x37 => table_0f37(),
        0x40 => table_0f40(),
        0x41 => table_0f41(),
        0x42 => table_0f42(),
        0x43 => table_0f43(),
        0x44 => table_0f44(),
        0x45 => table_0f45(),
        0x46 => table_0f46(),
        0x47 => table_0f47(),
        0x48 => table_0f48(),
        0x49 => table_0f49(),
        0x4A => table_0f4a(),
        0x4B => table_0f4b(),
        0x4C => table_0f4c(),
        0x4D => table_0f4d(),
        0x4E => table_0f4e(),
        0x4F => table_0f4f(),
        0x80 => table_0f80_32(),
        0x81 => table_0f81_32(),
        0x82 => table_0f82_32(),
        0x83 => table_0f83_32(),
        0x84 => table_0f84_32(),
        0x85 => table_0f85_32(),
        0x86 => table_0f86_32(),
        0x87 => table_0f87_32(),
        0x88 => table_0f88_32(),
        0x89 => table_0f89_32(),
        0x8A => table_0f8a_32(),
        0x8B => table_0f8b_32(),
        0x8C => table_0f8c_32(),
        0x8D => table_0f8d_32(),
        0x8E => table_0f8e_32(),
        0x8F => table_0f8f_32(),
        0x90 => table_0f90(),
        0x91 => table_0f91(),
        0x92 => table_0f92(),
        0x93 => table_0f93(),
        0x94 => table_0f94(),
        0x95 => table_0f95(),
        0x96 => table_0f96(),
        0x97 => table_0f97(),
        0x98 => table_0f98(),
        0x99 => table_0f99(),
        0x9A => table_0f9a(),
        0x9B => table_0f9b(),
        0x9C => table_0f9c(),
        0x9D => table_0f9d(),
        0x9E => table_0f9e(),
        0x9F => table_0f9f(),
        0xA0 => table_0fa0(),
        0xA1 => table_0fa1(),
        0xA2 => table_0fa2(),
        0xA3 => table_0fa3(),
        0xA4 => table_0fa4(),
        0xA5 => table_0fa5(),
        0xA8 => table_0fa8(),
        0xA9 => table_0fa9(),
        0xAA => table_0faa(),
        0xAB => table_0fab(),
        0xAC => table_0fac(),
        0xAD => table_0fad(),
        0xAE => table_0fae(),
        0xAF => table_0faf(),
        0xB0 => table_0fb0(),
        0xB1 => table_0fb1(),
        0xB2 => table_0fb2(),
        0xB3 => table_0fb3(),
        0xB4 => table_0fb4(),
        0xB5 => table_0fb5(),
        0xB6 => table_0fb6(),
        0xB7 => table_0fb7(),
        0xB8 => table_0fb8(),
        0xB9 => table_0fb9(),
        0xBA => table_0fba(),
        0xBB => table_0fbb(),
        0xBC => table_0fbc(),
        0xBD => table_0fbd(),
        0xBE => table_0fbe(),
        0xBF => table_0fbf(),
        0xC0 => table_0fc0(),
        0xC1 => table_0fc1(),
        0xC2 => table_0fc2(),
        0xC3 => table_0fc3(),
        0xC4 => table_0fc4(),
        0xC5 => table_0fc5(),
        0xC6 => table_0fc6(),
        0xC7 => table_0fc7(),
        0xC8 | 0xC9 | 0xCA | 0xCB | 0xCC | 0xCD | 0xCE | 0xCF => table_0fc8x0fcf(),
        0xFF => table_0fff(),
        _ => Vec::new(),
    }
}

/// Opcode table for a two-byte opcode (0F xx) in 64-bit mode.
pub open spec fn spec_opcode_table_0f_64(b2: u8) -> Seq<OpcodeEntry> {
    match b2 {
        0x00 => spec_table_0f00(),
        0x01 => spec_table_0f01(),
        0x02 => spec_table_0f02(),
        0x03 => spec_table_0f03(),
        0x05 => spec_table_0f05_64(),
        0x06 => spec_table_0f06(),
        0x07 => spec_table_0f07_64(),
        0x08 => spec_table_0f08(),
        0x09 => spec_table_0f09(),
        0x0B => spec_table_0f0b(),
        0x0D => spec_table_0f0d(),
        0x0E => spec_table_0f0e(),
        0x10 => spec_table_0f10(),
        0x11 => spec_table_0f11(),
        0x12 => spec_table_0f12(),
        0x13 => spec_table_0f13(),
        0x14 => spec_table_0f14(),
        0x15 => spec_table_0f15(),
        0x16 => spec_table_0f16(),
        0x17 => spec_table_0f17(),
        0x18 => spec_table_0f18(),
        0x1E => spec_table_0f1e(),
        0x20 => spec_table_0f20_64(),
        0x21 => spec_table_0f21_64(),
        0x22 => spec_table_0f22_64(),
        0x23 => spec_table_0f23_64(),
        0x28 => spec_table_0f28(),
        0x29 => spec_table_0f29(),
        0x2A => spec_table_0f2a(),
        0x2B => spec_table_0f2b(),
        0x2C => spec_table_0f2c(),
        0x2D => spec_table_0f2d(),
        0x2E => spec_table_0f2e(),
        0x2F => spec_table_0f2f(),
        0x30 => spec_table_0f30(),
        0x31 => spec_table_0f31(),
        0x32 => spec_table_0f32(),
        0x33 => spec_table_0f33(),
        0x34 => spec_table_0f34(),
        0x35 => spec_table_0f35(),
        0x37 => spec_table_0f37(),
        0x40 => spec_table_0f40(),
        0x41 => spec_table_0f41(),
        0x42 => spec_table_0f42(),
        0x43 => spec_table_0f43(),
        0x44 => spec_table_0f44(),
        0x45 => spec_table_0f45(),
        0x46 => spec_table_0f46(),
        0x47 => spec_table_0f47(),
        0x48 => spec_table_0f48(),
        0x49 => spec_table_0f49(),
        0x4A => spec_table_0f4a(),
        0x4B => spec_table_0f4b(),
        0x4C => spec_table_0f4c(),
        0x4D => spec_table_0f4d(),
        0x4E => spec_table_0f4e(),
        0x4F => spec_table_0f4f(),
        0x80 => spec_table_0f80_64(),
        0x81 => spec_table_0f81_64(),
        0x82 => spec_table_0f82_64(),
        0x83 => spec_table_0f83_64(),
        0x84 => spec_table_0f84_64(),
        0x85 => spec_table_0f85_64(),
        0x86 => spec_table_0f86_64(),
        0x87 => spec_table_0f87_64(),
        0x88 => spec_table_0f88_64(),
        0x89 => spec_table_0f89_64(),
        0x8A => spec_table_0f8a_64(),
        0x8B => spec_table_0f8b_64(),
        0x8C => spec_table_0f8c_64(),
        0x8D => spec_table_0f8d_64(),
        0x8E => spec_table_0f8e_64(),
        0x8F => spec_table_0f8f_64(),
        0x90 => spec_table_0f90(),
        0x91 => spec_table_0f91(),
        0x92 => spec_table_0f92(),
        0x93 => spec_table_0f93(),
        0x94 => spec_table_0f94(),
        0x95 => spec_table_0f95(),
        0x96 => spec_table_0f96(),
        0x97 => spec_table_0f97(),
        0x98 => spec_table_0f98(),
        0x99 => spec_table_0f99(),
        0x9A => spec_table_0f9a(),
        0x9B => spec_table_0f9b(),
        0x9C => spec_table_0f9c(),
        0x9D => spec_table_0f9d(),
        0x9E => spec_table_0f9e(),
        0x9F => spec_table_0f9f(),
        0xA0 => spec_table_0fa0(),
        0xA1 => spec_table_0fa1(),
        0xA2 => spec_table_0fa2(),
        0xA3 => spec_table_0fa3(),
        0xA4 => spec_table_0fa4(),
        0xA5 => spec_table_0fa5(),
        0xA8 => spec_table_0fa8(),
        0xA9 => spec_table_0fa9(),
        0xAA => spec_table_0faa(),
        0xAB => spec_table_0fab(),
        0xAC => spec_table_0fac(),
        0xAD => spec_table_0fad(),
        0xAE => spec_table_0fae(),
        0xAF => spec_table_0faf(),
        0xB0 => spec_table_0fb0(),
        0xB1 => spec_table_0fb1(),
        0xB2 => spec_table_0fb2(),
        0xB3 => spec_table_0fb3(),
        0xB4 => spec_table_0fb4(),
        0xB5 => spec_table_0fb5(),
        0xB6 => spec_table_0fb6(),
        0xB7 => spec_table_0fb7(),
        0xB8 => spec_table_0fb8(),
        0xB9 => spec_table_0fb9(),
        0xBA => spec_table_0fba(),
        0xBB => spec_table_0fbb(),
        0xBC => spec_table_0fbc(),
        0xBD => spec_table_0fbd(),
        0xBE => spec_table_0fbe(),
        0xBF => spec_table_0fbf(),
        0xC0 => spec_table_0fc0(),
        0xC1 => spec_table_0fc1(),
        0xC2 => spec_table_0fc2(),
        0xC3 => spec_table_0fc3(),
        0xC4 => spec_table_0fc4(),
        0xC5 => spec_table_0fc5(),
        0xC6 => spec_table_0fc6(),
        0xC7 => spec_table_0fc7(),
        0xC8 | 0xC9 | 0xCA | 0xCB | 0xCC | 0xCD | 0xCE | 0xCF => spec_table_0fc8x0fcf(),
        0xFF => spec_table_0fff(),
        _ => seq![],
    }
}

/// Opcode table for a two-byte opcode (0F xx) in 64-bit mode.
pub fn get_opcode_table_0f_64(b2: u8) -> (t: Vec<OpcodeEntry>)
    ensures
        t@ == spec_opcode_table_0f_64(b2),
{
    match b2 {
        0x00 => table_0f00(),
        0x01 => table_0f01(),
        0x02 => table_0f02(),
        0x03 => table_0f03(),
        0x05 => table_0f05_64(),
        0x06 => table_0f06(),
        0x07 => table_0f07_64(),
        0x08 => table_0f08(),
        0x09 => table_0f09(),
        0x0B => table_0f0b(),
        0x0D => table_0f0d(),
        0x0E => table_0f0e(),
        0x10 => table_0f10(),
        0x11 => table_0f11(),
        0x12 => table_0f12(),
        0x13 => table_0f13(),
        0x14 => table_0f14(),
        0x15 => table_0f15(),
        0x16 => table_0f16(),
        0x17 => table_0f17(),
        0x18 => table_0f18(),
        0x1E => table_0f1e(),
        0x20 => table_0f20_64(),
        0x21 => table_0f21_64(),
        0x22 => table_0f22_64(),
        0x23 => table_0f23_64(),
        0x28 => table_0f28(),
        0x29 => table_0f29(),
        0x2A => table_0f2a(),
        0x2B => table_0f2b(),
        0x2C => table_0f2c(),
        0x2D => table_0f2d(),
        0x2E => table_0f2e(),
        0x2F => table_0f2f(),
        0x30 => table_0f30(),
        0x31 => table_0f31(),
        0x32 => table_0f32(),
        0x33 => table_0f33(),
        0x34 => table_0f34(),
        0x35 => table_0f35(),
        0x37 => table_0f37(),
        0x40 => table_0f40(),
        0x41 => table_0f41(),
        0x42 => table_0f42(),
        0x43 => table_0f43(),
        0x44 => table_0f44(),
        0x45 => table_0f45(),
        0x46 => table_0f46(),
        0x47 => table_0f47(),
        0x48 => table_0f48(),
        0x49 => table_0f49(),
        0x4A => table_0f4a(),
        0x4B => table_0f4b(),
        0x4C => table_0f4c(),
        0x4D => table_0f4d(),
        0x4E => table_0f4e(),
        0x4F => table_0f4f(),
        0x80 => table_0f80_64(),
        0x81 => table_0f81_64(),
        0x82 => table_0f82_64(),
        0x83 => table_0f83_64(),
        0x84 => table_0f84_64(),
        0x85 => table_0f85_64(),
        0x86 => table_0f86_64(),
        0x87 => table_0f87_64(),
        0x88 => table_0f88_64(),
        0x89 => table_0f89_64(),
        0x8A => table_0f8a_64(),
        0x8B => table_0f8b_64(),
        0x8C => table_0f8c_64(),
        0x8D => table_0f8d_64(),
        0x8E => table_0f8e_64(),
        0x8F => table_0f8f_64(),
        0x90 => table_0f90(),
        0x91 => table_0f91(),
        0x92 => table_0f92(),
        0x93 => table_0f93(),
        0x94 => table_0f94(),
        0x95 => table_0f95(),
        0x96 => table_0f96(),
        0x97 => table_0f97(),
        0x98 => table_0f98(),
        0x99 => table_0f99(),
        0x9A => table_0f9a(),
        0x9B => table_0f9b(),
        0x9C => table_0f9c(),
        0x9D => table_0f9d(),
        0x9E => table_0f9e(),
        0x9F => table_0f9f(),
        0xA0 => table_0fa0(),
        0xA1 => table_0fa1(),
        0xA2 => table_0fa2(),
        0xA3 => table_0fa3(),
        0xA4 => table_0fa4(),
        0xA5 => table_0fa5(),
        0xA8 => table_0fa8(),
        0xA9 => table_0fa9(),
        0xAA => table_0faa(),
        0xAB => table_0fab(),
        0xAC => table_0fac(),
        0xAD => table_0fad(),
        0xAE => table_0fae(),
        0xAF => table_0faf(),
        0xB0 => table_0fb0(),
        0xB1 => table_0fb1(),
        0xB2 => table_0fb2(),
        0xB3 => table_0fb3(),
        0xB4 => table_0fb4(),
        0xB5 => table_0fb5(),
        0xB6 => table_0fb6(),
        0xB7 => table_0fb7(),
        0xB8 => table_0fb8(),
        0xB9 => table_0fb9(),
        0xBA => table_0fba(),
        0xBB => table_0fbb(),
        0xBC => table_0fbc(),
        0xBD => table_0fbd(),
        0xBE => table_0fbe(),
        0xBF => table_0fbf(),
        0xC0 => table_0fc0(),
        0xC1 => table_0fc1(),
        0xC2 => table_0fc2(),
        0xC3 => table_0fc3(),
        0xC4 => table_0fc4(),
        0xC5 => table_0fc5(),
        0xC6 => table_0fc6(),
        0xC7 => table_0fc7(),
        0xC8 | 0xC9 | 0xCA | 0xCB | 0xCC | 0xCD | 0xCE | 0xCF => table_0fc8x0fcf(),
        0xFF => table_0fff(),
        _ => Vec::new(),
    }
}

/// Opcode table for a three-byte opcode (0F 38 xx).
pub open spec fn spec_opcode_table_0f38(b3: u8) -> Seq<OpcodeEntry> {
    match b3 {
        0x00 => spec_table_0f3800(),
        0x01 => spec_table_0f3801(),
        0x02 => spec_table_0f3802(),
        0x03 => spec_table_0f3803(),
        0x04 => spec_table_0f3804(),
        0x05 => spec_table_0f3805(),
        0x06 => spec_table_0f3806(),
        0x07 => spec_table_0f3807(),
        0x08 => spec_table_0f3808(),
        0x09 => spec_table_0f3809(),
        0x0A => spec_table_0f380a(),
        0x0B => spec_table_0f380b(),
        0x1C => spec_table_0f381c(),
        0x1D => spec_table_0f381d(),
        0x1E => spec_table_0f381e(),
        _ => seq![],
    }
}

/// Opcode table for a three-byte opcode (0F 38 xx).
pub fn get_opcode_table_0f38(b3: u8) -> (t: Vec<OpcodeEntry>)
    ensures
        t@ == spec_opcode_table_0f38(b3),
{
    match b3 {
        0x00 => table_0f3800(),
        0x01 => table_0f3801(),
        0x02 => table_0f3802(),
        0x03 => table_0f3803(),
        0x04 => table_0f3804(),
        0x05 => table_0f3805(),
        0x06 => table_0f3806(),
        0x07 => table_0f3807(),
        0x08 => table_0f3808(),
        0x09 => table_0f3809(),
        0x0A => table_0f380a(),
        0x0B => table_0f380b(),
        0x1C => table_0f381c(),
        0x1D => table_0f381d(),
        0x1E => table_0f381e(),
        _ => Vec::new(),
    }
}

/// Opcode table for a three-byte opcode (0F 3A xx).
pub open spec fn spec_opcode_table_0f3a(b3: u8) -> Seq<OpcodeEntry> {
    match b3 {
        0x0F => spec_table_0f3a0f(),
        _ => seq![],
    }
}

/// Opcode table for a three-byte opcode (0F 3A xx).
pub fn get_opcode_table_0f3a(b3: u8) -> (t: Vec<OpcodeEntry>)
    ensures
        t@ == spec_opcode_table_0f3a(b3),
{
    match b3 {
        0x0F => table_0f3a0f(),
        _ => Vec::new(),
    }
}

} // verus!
