//! x87 FPU escape opcode tables (D8..DF) and the 3DNow! suffix table.
//!
//! An x87 opcode is found from its escape byte and an index: the ModRM reg
//! field (0..=7) for a memory operand, or 8 + the low six ModRM bits
//! (8..=71) for a register operand.

use vstd::prelude::*;

use crate::opcode::Opcode;

verus! {

/// The x87 opcode for escape byte `escape` (0xD8..=0xDF) and table index
/// `index`; `IaError` for an index that names no instruction.
pub open spec fn spec_fpu_opcode(escape: u8, index: usize) -> Opcode {
    match escape {
        0xD8 => spec_fpu_opcode_d8(index),
        0xD9 => spec_fpu_opcode_d9(index),
        0xDA => spec_fpu_opcode_da(index),
        0xDB => spec_fpu_opcode_db(index),
        0xDC => spec_fpu_opcode_dc(index),
        0xDD => spec_fpu_opcode_dd(index),
        0xDE => spec_fpu_opcode_de(index),
        0xDF => spec_fpu_opcode_df(index),
        _ => spec_fpu_opcode_df(index),
    }
}

/// Escape byte 0xD8.
pub open spec fn spec_fpu_opcode_d8(index: usize) -> Opcode {
    match index {
        0 => Opcode::FaddSingleReal,
        1 => Opcode::FmulSingleReal,
        2 => Opcode::FcomSingleReal,
        3 => Opcode::FcompSingleReal,
        4 => Opcode::FsubSingleReal,
        5 => Opcode::FsubrSingleReal,
        6 => Opcode::FdivSingleReal,
        7 => Opcode::FdivrSingleReal,
        8 | 9 | 10 | 11 | 12 | 13 | 14 | 15 => Opcode::FaddSt0Stj,
        16 | 17 | 18 | 19 | 20 | 21 | 22 | 23 => Opcode::FmulSt0Stj,
        24 | 25 | 26 | 27 | 28 | 29 | 30 | 31 => Opcode::FcomSti,
        32 | 33 | 34 | 35 | 36 | 37 | 38 | 39 => Opcode::FcompSti,
        40 | 41 | 42 | 43 | 44 | 45 | 46 | 47 => Opcode::FsubSt0Stj,
        48 | 49 | 50 | 51 | 52 | 53 | 54 | 55 => Opcode::FsubrSt0Stj,
        56 | 57 | 58 | 59 | 60 | 61 | 62 | 63 => Opcode::FdivSt0Stj,
        64 | 65 | 66 | 67 | 68 | 69 | 70 | 71 => Opcode::FdivrSt0Stj,
        _ => Opcode::IaError,
    }
}

fn fpu_opcode_d8(index: usize) -> (r: Opcode)
    ensures
        r == spec_fpu_opcode_d8(index),
{
    match index {
        0 => Opcode::FaddSingleReal,
        1 => Opcode::FmulSingleReal,
        2 => Opcode::FcomSingleReal,
        3 => Opcode::FcompSingleReal,
        4 => Opcode::FsubSingleReal,
        5 => Opcode::FsubrSingleReal,
        6 => Opcode::FdivSingleReal,
        7 => Opcode::FdivrSingleReal,
        8 | 9 | 10 | 11 | 12 | 13 | 14 | 15 => Opcode::FaddSt0Stj,
        16 | 17 | 18 | 19 | 20 | 21 | 22 | 23 => Opcode::FmulSt0Stj,
        24 | 25 | 26 | 27 | 28 | 29 | 30 | 31 => Opcode::FcomSti,
        32 | 33 | 34 | 35 | 36 | 37 | 38 | 39 => Opcode::FcompSti,
        40 | 41 | 42 | 43 | 44 | 45 | 46 | 47 => Opcode::FsubSt0Stj,
        48 | 49 | 50 | 51 | 52 | 53 | 54 | 55 => Opcode::FsubrSt0Stj,
        56 | 57 | 58 | 59 | 60 | 61 | 62 | 63 => Opcode::FdivSt0Stj,
        64 | 65 | 66 | 67 | 68 | 69 | 70 | 71 => Opcode::FdivrSt0Stj,
        _ => Opcode::IaError,
    }
}

/// Escape byte 0xD9.
pub open spec fn spec_fpu_opcode_d9(index: usize) -> Opcode {
    match index {
        0 => Opcode::FldSingleReal,
        2 => Opcode::FstSingleReal,
        3 => Opcode::FstpSingleReal,
        4 => Opcode::Fldenv,
        5 => Opcode::Fldcw,
        6 => Opcode::Fnstenv,
        7 => Opcode::Fnstcw,
        8 | 9 | 10 | 11 | 12 | 13 | 14 | 15 => Opcode::FldSti,
        16 | 17 | 18 | 19 | 20 | 21 | 22 | 23 => Opcode::FxchSti,
        24 => Opcode::Fnop,
        32 | 33 | 34 | 35 | 36 | 37 | 38 | 39 => Opcode::FstpSpecialSti,
        40 => Opcode::Fchs,
        41 => Opcode::Fabs,
        44 => Opcode::Ftst,
        45 => Opcode::Fxam,
        48 => Opcode::FLD1,
        49 => Opcode::Fldl2t,
        50 => Opcode::Fldl2e,
        51 => Opcode::Fldpi,
        52 => Opcode::Fldlg2,
        53 => Opcode::Fldln2,
        54 => Opcode::Fldz,
        56 => Opcode::F2XM1,
        57 => Opcode::FYL2X,
        58 => Opcode::Fptan,
        59 => Opcode::Fpatan,
        60 => Opcode::Fxtract,
        61 => Opcode::FPREM1,
        62 => Opcode::Fdecstp,
        63 => Opcode::Fincstp,
        64 => Opcode::Fprem,
        65 => Opcode::FYL2XP1,
        66 => Opcode::Fsqrt,
        67 => Opcode::Fsincos,
        68 => Opcode::Frndint,
        69 => Opcode::Fscale,
        70 => Opcode::Fsin,
        71 => Opcode::Fcos,
        _ => Opcode::IaError,
    }
}

fn fpu_opcode_d9(index: usize) -> (r: Opcode)
    ensures
        r == spec_fpu_opcode_d9(index),
{
    match index {
        0 => Opcode::FldSingleReal,
        2 => Opcode::FstSingleReal,
        3 => Opcode::FstpSingleReal,
        4 => Opcode::Fldenv,
        5 => Opcode::Fldcw,
        6 => Opcode::Fnstenv,
        7 => Opcode::Fnstcw,
        8 | 9 | 10 | 11 | 12 | 13 | 14 | 15 => Opcode::FldSti,
        16 | 17 | 18 | 19 | 20 | 21 | 22 | 23 => Opcode::FxchSti,
        24 => Opcode::Fnop,
        32 | 33 | 34 | 35 | 36 | 37 | 38 | 39 => Opcode::FstpSpecialSti,
        40 => Opcode::Fchs,
        41 => Opcode::Fabs,
        44 => Opcode::Ftst,
        45 => Opcode::Fxam,
        48 => Opcode::FLD1,
        49 => Opcode::Fldl2t,
        50 => Opcode::Fldl2e,
        51 => Opcode::Fldpi,
        52 => Opcode::Fldlg2,
        53 => Opcode::Fldln2,
        54 => Opcode::Fldz,
        56 => Opcode::F2XM1,
        57 => Opcode::FYL2X,
        58 => Opcode::Fptan,
        59 => Opcode::Fpatan,
        60 => Opcode::Fxtract,
        61 => Opcode::FPREM1,
        62 => Opcode::Fdecstp,
        63 => Opcode::Fincstp,
        64 => Opcode::Fprem,
        65 => Opcode::FYL2XP1,
        66 => Opcode::Fsqrt,
        67 => Opcode::Fsincos,
        68 => Opcode::Frndint,
        69 => Opcode::Fscale,
        70 => Opcode::Fsin,
        71 => Opcode::Fcos,
        _ => Opcode::IaError,
    }
}

/// Escape byte 0xDA.
pub open spec fn spec_fpu_opcode_da(index: usize) -> Opcode {
    match index {
        0 => Opcode::FiaddDwordInteger,
        1 => Opcode::FimulDwordInteger,
        2 => Opcode::FicomDwordInteger,
        3 => Opcode::FicompDwordInteger,
        4 => Opcode::FisubDwordInteger,
        5 => Opcode::FisubrDwordInteger,
        6 => Opcode::FidivDwordInteger,
        7 => Opcode::FidivrDwordInteger,
        8 | 9 | 10 | 11 | 12 | 13 | 14 | 15 => Opcode::FcmovbSt0Stj,
        16 | 17 | 18 | 19 | 20 | 21 | 22 | 23 => Opcode::FcmoveSt0Stj,
        24 | 25 | 26 | 27 | 28 | 29 | 30 | 31 => Opcode::FcmovbeSt0Stj,
        32 | 33 | 34 | 35 | 36 | 37 | 38 | 39 => Opcode::FcmovuSt0Stj,
        49 => Opcode::Fucompp,
        _ => Opcode::IaError,
    }
}

fn fpu_opcode_da(index: usize) -> (r: Opcode)
    ensures
        r == spec_fpu_opcode_da(index),
{
    match index {
        0 => Opcode::FiaddDwordInteger,
        1 => Opcode::FimulDwordInteger,
        2 => Opcode::FicomDwordInteger,
        3 => Opcode::FicompDwordInteger,
        4 => Opcode::FisubDwordInteger,
        5 => Opcode::FisubrDwordInteger,
        6 => Opcode::FidivDwordInteger,
        7 => Opcode::FidivrDwordInteger,
        8 | 9 | 10 | 11 | 12 | 13 | 14 | 15 => Opcode::FcmovbSt0Stj,
        16 | 17 | 18 | 19 | 20 | 21 | 22 | 23 => Opcode::FcmoveSt0Stj,
        24 | 25 | 26 | 27 | 28 | 29 | 30 | 31 => Opcode::FcmovbeSt0Stj,
        32 | 33 | 34 | 35 | 36 | 37 | 38 | 39 => Opcode::FcmovuSt0Stj,
        49 => Opcode::Fucompp,
        _ => Opcode::IaError,
    }
}

/// Escape byte 0xDB.
pub open spec fn spec_fpu_opcode_db(index: usize) -> Opcode {
    match index {
        0 => Opcode::FildDwordInteger,
        1 => Opcode::FisttpMd,
        2 => Opcode::FistDwordInteger,
        3 => Opcode::FistpDwordInteger,
        5 => Opcode::FldExtendedReal,
        7 => Opcode::FstpExtendedReal,
        8 | 9 | 10 | 11 | 12 | 13 | 14 | 15 => Opcode::FcmovnbSt0Stj,
        16 | 17 | 18 | 19 | 20 | 21 | 22 | 23 => Opcode::FcmovneSt0Stj,
        24 | 25 | 26 | 27 | 28 | 29 | 30 | 31 => Opcode::FcmovnbeSt0Stj,
        32 | 33 | 34 | 35 | 36 | 37 | 38 | 39 => Opcode::FcmovnuSt0Stj,
        40 | 41 | 44 => Opcode::Fplegacy,
        42 => Opcode::Fnclex,
        43 => Opcode::Fninit,
        48 | 49 | 50 | 51 | 52 | 53 | 54 | 55 => Opcode::FucomiSt0Stj,
        56 | 57 | 58 | 59 | 60 | 61 | 62 | 63 => Opcode::FcomiSt0Stj,
        _ => Opcode::IaError,
    }
}

fn fpu_opcode_db(index: usize) -> (r: Opcode)
    ensures
        r == spec_fpu_opcode_db(index),
{
    match index {
        0 => Opcode::FildDwordInteger,
        1 => Opcode::FisttpMd,
        2 => Opcode::FistDwordInteger,
        3 => Opcode::FistpDwordInteger,
        5 => Opcode::FldExtendedReal,
        7 => Opcode::FstpExtendedReal,
        8 | 9 | 10 | 11 | 12 | 13 | 14 | 15 => Opcode::FcmovnbSt0Stj,
        16 | 17 | 18 | 19 | 20 | 21 | 22 | 23 => Opcode::FcmovneSt0Stj,
        24 | 25 | 26 | 27 | 28 | 29 | 30 | 31 => Opcode::FcmovnbeSt0Stj,
        32 | 33 | 34 | 35 | 36 | 37 | 38 | 39 => Opcode::FcmovnuSt0Stj,
        40 | 41 | 44 => Opcode::Fplegacy,
        42 => Opcode::Fnclex,
        43 => Opcode::Fninit,
        48 | 49 | 50 | 51 | 52 | 53 | 54 | 55 => Opcode::FucomiSt0Stj,
        56 | 57 | 58 | 59 | 60 | 61 | 62 | 63 => Opcode::FcomiSt0Stj,
        _ => Opcode::IaError,
    }
}

/// Escape byte 0xDC.
pub open spec fn spec_fpu_opcode_dc(index: usize) -> Opcode {
    match index {
        0 => Opcode::FaddDoubleReal,
        1 => Opcode::FmulDoubleReal,
        2 => Opcode::FcomDoubleReal,
        3 => Opcode::FcompDoubleReal,
        4 => Opcode::FsubDoubleReal,
        5 => Opcode::FsubrDoubleReal,
        6 => Opcode::FdivDoubleReal,
        7 => Opcode::FdivrDoubleReal,
        8 | 9 | 10 | 11 | 12 | 13 | 14 | 15 => Opcode::FaddStiSt0,
        16 | 17 | 18 | 19 | 20 | 21 | 22 | 23 => Opcode::FmulStiSt0,
        24 | 25 | 26 | 27 | 28 | 29 | 30 | 31 => Opcode::FcomSti,
        32 | 33 | 34 | 35 | 36 | 37 | 38 | 39 => Opcode::FcompSti,
        40 | 41 | 42 | 43 | 44 | 45 | 46 | 47 => Opcode::FsubrStiSt0,
        48 | 49 | 50 | 51 | 52 | 53 | 54 | 55 => Opcode::FsubStiSt0,
        56 | 57 | 58 | 59 | 60 | 61 | 62 | 63 => Opcode::FdivrStiSt0,
        64 | 65 | 66 | 67 | 68 | 69 | 70 | 71 => Opcode::FdivStiSt0,
        _ => Opcode::IaError,
    }
}

fn fpu_opcode_dc(index: usize) -> (r: Opcode)
    ensures
        r == spec_fpu_opcode_dc(index),
{
    match index {
        0 => Opcode::FaddDoubleReal,
        1 => Opcode::FmulDoubleReal,
        2 => Opcode::FcomDoubleReal,
        3 => Opcode::FcompDoubleReal,
        4 => Opcode::FsubDoubleReal,
        5 => Opcode::FsubrDoubleReal,
        6 => Opcode::FdivDoubleReal,
        7 => Opcode::FdivrDoubleReal,
        8 | 9 | 10 | 11 | 12 | 13 | 14 | 15 => Opcode::FaddStiSt0,
        16 | 17 | 18 | 19 | 20 | 21 | 22 | 23 => Opcode::FmulStiSt0,
        24 | 25 | 26 | 27 | 28 | 29 | 30 | 31 => Opcode::FcomSti,
        32 | 33 | 34 | 35 | 36 | 37 | 38 | 39 => Opcode::FcompSti,
        40 | 41 | 42 | 43 | 44 | 45 | 46 | 47 => Opcode::FsubrStiSt0,
        48 | 49 | 50 | 51 | 52 | 53 | 54 | 55 => Opcode::FsubStiSt0,
        56 | 57 | 58 | 59 | 60 | 61 | 62 | 63 => Opcode::FdivrStiSt0,
        64 | 65 | 66 | 67 | 68 | 69 | 70 | 71 => Opcode::FdivStiSt0,
        _ => Opcode::IaError,
    }
}

/// Escape byte 0xDD.
pub open spec fn spec_fpu_opcode_dd(index: usize) -> Opcode {
    match index {
        0 => Opcode::FldDoubleReal,
        1 => Opcode::FisttpMq,
        2 => Opcode::FstDoubleReal,
        3 => Opcode::FstpDoubleReal,
        4 => Opcode::Frstor,
        6 => Opcode::Fnsave,
        7 => Opcode::Fnstsw,
        8 | 9 | 10 | 11 | 12 | 13 | 14 | 15 => Opcode::FfreeSti,
        16 | 17 | 18 | 19 | 20 | 21 | 22 | 23 => Opcode::FxchSti,
        24 | 25 | 26 | 27 | 28 | 29 | 30 | 31 => Opcode::FstSti,
        32 | 33 | 34 | 35 | 36 | 37 | 38 | 39 => Opcode::FstpSti,
        40 | 41 | 42 | 43 | 44 | 45 | 46 | 47 => Opcode::FucomSti,
        48 | 49 | 50 | 51 | 52 | 53 | 54 | 55 => Opcode::FucompSti,
        _ => Opcode::IaError,
    }
}

fn fpu_opcode_dd(index: usize) -> (r: Opcode)
    ensures
        r == spec_fpu_opcode_dd(index),
{
    match index {
        0 => Opcode::FldDoubleReal,
        1 => Opcode::FisttpMq,
        2 => Opcode::FstDoubleReal,
        3 => Opcode::FstpDoubleReal,
        4 => Opcode::Frstor,
        6 => Opcode::Fnsave,
        7 => Opcode::Fnstsw,
        8 | 9 | 10 | 11 | 12 | 13 | 14 | 15 => Opcode::FfreeSti,
        16 | 17 | 18 | 19 | 20 | 21 | 22 | 23 => Opcode::FxchSti,
        24 | 25 | 26 | 27 | 28 | 29 | 30 | 31 => Opcode::FstSti,
        32 | 33 | 34 | 35 | 36 | 37 | 38 | 39 => Opcode::FstpSti,
        40 | 41 | 42 | 43 | 44 | 45 | 46 | 47 => Opcode::FucomSti,
        48 | 49 | 50 | 51 | 52 | 53 | 54 | 55 => Opcode::FucompSti,
        _ => Opcode::IaError,
    }
}

/// Escape byte 0xDE.
pub open spec fn spec_fpu_opcode_de(index: usize) -> Opcode {
    match index {
        0 => Opcode::FiaddWordInteger,
        1 => Opcode::FimulWordInteger,
        2 => Opcode::FicomWordInteger,
        3 => Opcode::FicompWordInteger,
        4 => Opcode::FisubWordInteger,
        5 => Opcode::FisubrWordInteger,
        6 => Opcode::FidivWordInteger,
        7 => Opcode::FidivrWordInteger,
        8 | 9 | 10 | 11 | 12 | 13 | 14 | 15 => Opcode::FaddpStiSt0,
        16 | 17 | 18 | 19 | 20 | 21 | 22 | 23 => Opcode::FmulpStiSt0,
        24 | 25 | 26 | 27 | 28 | 29 | 30 | 31 => Opcode::FcompSti,
        33 => Opcode::Fcompp,
        40 | 41 | 42 | 43 | 44 | 45 | 46 | 47 => Opcode::FsubrpStiSt0,
        48 | 49 | 50 | 51 | 52 | 53 | 54 | 55 => Opcode::FsubpStiSt0,
        56 | 57 | 58 | 59 | 60 | 61 | 62 | 63 => Opcode::FdivrpStiSt0,
        64 | 65 | 66 | 67 | 68 | 69 | 70 | 71 => Opcode::FdivpStiSt0,
        _ => Opcode::IaError,
    }
}

fn fpu_opcode_de(index: usize) -> (r: Opcode)
    ensures
        r == spec_fpu_opcode_de(index),
{
    match index {
        0 => Opcode::FiaddWordInteger,
        1 => Opcode::FimulWordInteger,
        2 => Opcode::FicomWordInteger,
        3 => Opcode::FicompWordInteger,
        4 => Opcode::FisubWordInteger,
        5 => Opcode::FisubrWordInteger,
        6 => Opcode::FidivWordInteger,
        7 => Opcode::FidivrWordInteger,
        8 | 9 | 10 | 11 | 12 | 13 | 14 | 15 => Opcode::FaddpStiSt0,
        16 | 17 | 18 | 19 | 20 | 21 | 22 | 23 => Opcode::FmulpStiSt0,
        24 | 25 | 26 | 27 | 28 | 29 | 30 | 31 => Opcode::FcompSti,
        33 => Opcode::Fcompp,
        40 | 41 | 42 | 43 | 44 | 45 | 46 | 47 => Opcode::FsubrpStiSt0,
        48 | 49 | 50 | 51 | 52 | 53 | 54 | 55 => Opcode::FsubpStiSt0,
        56 | 57 | 58 | 59 | 60 | 61 | 62 | 63 => Opcode::FdivrpStiSt0,
        64 | 65 | 66 | 67 | 68 | 69 | 70 | 71 => Opcode::FdivpStiSt0,
        _ => Opcode::IaError,
    }
}

/// Escape byte 0xDF.
pub open spec fn spec_fpu_opcode_df(index: usize) -> Opcode {
    match index {
        0 => Opcode::FildWordInteger,
        1 => Opcode::FisttpMw,
        2 => Opcode::FistWordInteger,
        3 => Opcode::FistpWordInteger,
        4 => Opcode::FbldPackedBcd,
        5 => Opcode::FildQwordInteger,
        6 => Opcode::FbstpPackedBcd,
        7 => Opcode::FistpQwordInteger,
        8 | 9 | 10 | 11 | 12 | 13 | 14 | 15 => Opcode::FfreepSti,
        16 | 17 | 18 | 19 | 20 | 21 | 22 | 23 => Opcode::FxchSti,
        24 | 25 | 26 | 27 | 28 | 29 | 30 | 31 | 32 | 33 | 34 | 35
        | 36 | 37 | 38 | 39 => Opcode::FstpSti,
        40 => Opcode::FnstswAx,
        48 | 49 | 50 | 51 | 52 | 53 | 54 | 55 => Opcode::FucomipSt0Stj,
        56 | 57 | 58 | 59 | 60 | 61 | 62 | 63 => Opcode::FcomipSt0Stj,
        _ => Opcode::IaError,
    }
}

fn fpu_opcode_df(index: usize) -> (r: Opcode)
    ensures
        r == spec_fpu_opcode_df(index),
{
    match index {
        0 => Opcode::FildWordInteger,
        1 => Opcode::FisttpMw,
        2 => Opcode::FistWordInteger,
        3 => Opcode::FistpWordInteger,
        4 => Opcode::FbldPackedBcd,
        5 => Opcode::FildQwordInteger,
        6 => Opcode::FbstpPackedBcd,
        7 => Opcode::FistpQwordInteger,
        8 | 9 | 10 | 11 | 12 | 13 | 14 | 15 => Opcode::FfreepSti,
        16 | 17 | 18 | 19 | 20 | 21 | 22 | 23 => Opcode::FxchSti,
        24 | 25 | 26 | 27 | 28 | 29 | 30 | 31 | 32 | 33 | 34 | 35
        | 36 | 37 | 38 | 39 => Opcode::FstpSti,
        40 => Opcode::FnstswAx,
        48 | 49 | 50 | 51 | 52 | 53 | 54 | 55 => Opcode::FucomipSt0Stj,
        56 | 57 | 58 | 59 | 60 | 61 | 62 | 63 => Opcode::FcomipSt0Stj,
        _ => Opcode::IaError,
    }
}

/// Look up an x87 opcode: escape byte 0xD8..=0xDF (any other byte reads as
/// 0xDF) and table index.
pub fn fpu_opcode(escape: u8, index: usize) -> (r: Opcode)
    ensures
        r == spec_fpu_opcode(escape, index),
{
    match escape {
        0xD8 => fpu_opcode_d8(index),
        0xD9 => fpu_opcode_d9(index),
        0xDA => fpu_opcode_da(index),
        0xDB => fpu_opcode_db(index),
        0xDC => fpu_opcode_dc(index),
        0xDD => fpu_opcode_dd(index),
        0xDE => fpu_opcode_de(index),
        0xDF => fpu_opcode_df(index),
        _ => fpu_opcode_df(index),
    }
}

/// The 3DNow! opcode named by the suffix byte of `0F 0F` instructions.
pub open spec fn spec_dnow_opcode(suffix: u8) -> Opcode {
    match suffix {
        0x0C => Opcode::Pi2fwPqQq,
        0x0D => Opcode::Pi2fdPqQq,
        0x1C => Opcode::Pf2iwPqQq,
        0x1D => Opcode::Pf2idPqQq,
        0x8A => Opcode::PfnaccPqQq,
        0x8E => Opcode::PfpnaccPqQq,
        0x90 => Opcode::PfcmpgePqQq,
        0x94 => Opcode::PfminPqQq,
        0x96 => Opcode::PfrcpPqQq,
        0x97 => Opcode::PfrsqrtPqQq,
        0x9A => Opcode::PfsubPqQq,
        0x9E => Opcode::PfaddPqQq,
        0xA0 => Opcode::PfcmpgtPqQq,
        0xA4 => Opcode::PfmaxPqQq,
        0xA6 => Opcode::Pfrcpit1PqQq,
        0xA7 => Opcode::Pfrsqit1PqQq,
        0xAA => Opcode::PfsubrPqQq,
        0xAE => Opcode::PfaccPqQq,
        0xB0 => Opcode::PfcmpeqPqQq,
        0xB4 => Opcode::PfmulPqQq,
        0xB6 => Opcode::Pfrcpit2PqQq,
        0xB7 => Opcode::PmulhrwPqQq,
        0xBB => Opcode::PswapdPqQq,
        0xBF => Opcode::PavgbPqQq,
        _ => Opcode::IaError,
    }
}

/// Look up a 3DNow! opcode by its suffix byte.
pub fn dnow_opcode(suffix: u8) -> (r: Opcode)
    ensures
        r == spec_dnow_opcode(suffix),
{
    match suffix {
        0x0C => Opcode::Pi2fwPqQq,
        0x0D => Opcode::Pi2fdPqQq,
        0x1C => Opcode::Pf2iwPqQq,
        0x1D => Opcode::Pf2idPqQq,
        0x8A => Opcode::PfnaccPqQq,
        0x8E => Opcode::PfpnaccPqQq,
        0x90 => Opcode::PfcmpgePqQq,
        0x94 => Opcode::PfminPqQq,
        0x96 => Opcode::PfrcpPqQq,
        0x97 => Opcode::PfrsqrtPqQq,
        0x9A => Opcode::PfsubPqQq,
        0x9E => Opcode::PfaddPqQq,
        0xA0 => Opcode::PfcmpgtPqQq,
        0xA4 => Opcode::PfmaxPqQq,
        0xA6 => Opcode::Pfrcpit1PqQq,
        0xA7 => Opcode::Pfrsqit1PqQq,
        0xAA => Opcode::PfsubrPqQq,
        0xAE => Opcode::PfaccPqQq,
        0xB0 => Opcode::PfcmpeqPqQq,
        0xB4 => Opcode::PfmulPqQq,
        0xB6 => Opcode::Pfrcpit2PqQq,
        0xB7 => Opcode::PmulhrwPqQq,
        0xBB => Opcode::PswapdPqQq,
        0xBF => Opcode::PavgbPqQq,
        _ => Opcode::IaError,
    }
}

} // verus!
