//! The per-opcode attribute tables as the generator writes them from Bochs
//! `ia_opcodes.def` (one entry per opcode, in declaration order), checked
//! against the attribute functions of `opcode_isa`.
//!
//! Each lemma below covers a run of the generated entries that name
//! something beyond the default (a feature gate, EVEX attributes, the x87,
//! MMX, SSE or AMX state) and proves that the attribute function gives
//! exactly that entry for each of those opcodes.

use vstd::prelude::*;

use crate::opcode::Opcode;
use crate::opcode_isa::{spec_evex_flags, spec_isa_feature, spec_opcode_state, CpuState};
use crate::opmap_x87::{spec_dnow_opcode, spec_fpu_opcode};

verus! {

/// Every opcode the generated table gates on a CPU feature has that feature as its gate (entries 0..50 of 2908).
#[verifier::spinoff_prover]
#[verifier::rlimit(100)]
pub proof fn lemma_isa_entries_0()
    ensures
        spec_isa_feature(Opcode::Clflush) == 17,
        spec_isa_feature(Opcode::Clflushopt) == 18,
        spec_isa_feature(Opcode::Clwb) == 19,
        spec_isa_feature(Opcode::Clzero) == 117,
        spec_isa_feature(Opcode::MovCr4rd) == 3,
        spec_isa_feature(Opcode::MovRdCr4) == 3,
        spec_isa_feature(Opcode::Sysenter) == 16,
        spec_isa_feature(Opcode::Sysexit) == 16,
        spec_isa_feature(Opcode::Monitor) == 27,
        spec_isa_feature(Opcode::Mwait) == 27,
        spec_isa_feature(Opcode::UmonitorEq) == 28,
        spec_isa_feature(Opcode::UmonitorEd) == 28,
        spec_isa_feature(Opcode::UmwaitEd) == 28,
        spec_isa_feature(Opcode::TpauseEd) == 28,
        spec_isa_feature(Opcode::Monitorx) == 30,
        spec_isa_feature(Opcode::Mwaitx) == 30,
        spec_isa_feature(Opcode::Fwait) == 1,
        spec_isa_feature(Opcode::FldSti) == 1,
        spec_isa_feature(Opcode::FldSingleReal) == 1,
        spec_isa_feature(Opcode::FldDoubleReal) == 1,
        spec_isa_feature(Opcode::FldExtendedReal) == 1,
        spec_isa_feature(Opcode::FildWordInteger) == 1,
        spec_isa_feature(Opcode::FildDwordInteger) == 1,
        spec_isa_feature(Opcode::FildQwordInteger) == 1,
        spec_isa_feature(Opcode::FbldPackedBcd) == 1,
        spec_isa_feature(Opcode::FstSti) == 1,
        spec_isa_feature(Opcode::FstpSti) == 1,
        spec_isa_feature(Opcode::FstpSpecialSti) == 1,
        spec_isa_feature(Opcode::FstSingleReal) == 1,
        spec_isa_feature(Opcode::FstpSingleReal) == 1,
        spec_isa_feature(Opcode::FstDoubleReal) == 1,
        spec_isa_feature(Opcode::FstpDoubleReal) == 1,
        spec_isa_feature(Opcode::FstpExtendedReal) == 1,
        spec_isa_feature(Opcode::FistWordInteger) == 1,
        spec_isa_feature(Opcode::FistpWordInteger) == 1,
        spec_isa_feature(Opcode::FistDwordInteger) == 1,
        spec_isa_feature(Opcode::FistpDwordInteger) == 1,
        spec_isa_feature(Opcode::FistpQwordInteger) == 1,
        spec_isa_feature(Opcode::FbstpPackedBcd) == 1,
        spec_isa_feature(Opcode::FisttpMw) == 22,
        spec_isa_feature(Opcode::FisttpMd) == 22,
        spec_isa_feature(Opcode::FisttpMq) == 22,
        spec_isa_feature(Opcode::Fninit) == 1,
        spec_isa_feature(Opcode::Fnclex) == 1,
        spec_isa_feature(Opcode::Frstor) == 1,
        spec_isa_feature(Opcode::Fnsave) == 1,
        spec_isa_feature(Opcode::Fldenv) == 1,
        spec_isa_feature(Opcode::Fnstenv) == 1,
        spec_isa_feature(Opcode::Fldcw) == 1,
        spec_isa_feature(Opcode::Fnstcw) == 1,
{
}

/// Every opcode the generated table gates on a CPU feature has that feature as its gate (entries 50..100 of 2908).
#[verifier::spinoff_prover]
#[verifier::rlimit(100)]
pub proof fn lemma_isa_entries_1()
    ensures
        spec_isa_feature(Opcode::Fnstsw) == 1,
        spec_isa_feature(Opcode::FnstswAx) == 1,
        spec_isa_feature(Opcode::FLD1) == 1,
        spec_isa_feature(Opcode::Fldl2t) == 1,
        spec_isa_feature(Opcode::Fldl2e) == 1,
        spec_isa_feature(Opcode::Fldpi) == 1,
        spec_isa_feature(Opcode::Fldlg2) == 1,
        spec_isa_feature(Opcode::Fldln2) == 1,
        spec_isa_feature(Opcode::Fldz) == 1,
        spec_isa_feature(Opcode::FaddSt0Stj) == 1,
        spec_isa_feature(Opcode::FaddStiSt0) == 1,
        spec_isa_feature(Opcode::FaddpStiSt0) == 1,
        spec_isa_feature(Opcode::FaddSingleReal) == 1,
        spec_isa_feature(Opcode::FaddDoubleReal) == 1,
        spec_isa_feature(Opcode::FiaddWordInteger) == 1,
        spec_isa_feature(Opcode::FiaddDwordInteger) == 1,
        spec_isa_feature(Opcode::FmulSt0Stj) == 1,
        spec_isa_feature(Opcode::FmulStiSt0) == 1,
        spec_isa_feature(Opcode::FmulpStiSt0) == 1,
        spec_isa_feature(Opcode::FmulSingleReal) == 1,
        spec_isa_feature(Opcode::FmulDoubleReal) == 1,
        spec_isa_feature(Opcode::FimulWordInteger) == 1,
        spec_isa_feature(Opcode::FimulDwordInteger) == 1,
        spec_isa_feature(Opcode::FsubSt0Stj) == 1,
        spec_isa_feature(Opcode::FsubrSt0Stj) == 1,
        spec_isa_feature(Opcode::FsubStiSt0) == 1,
        spec_isa_feature(Opcode::FsubpStiSt0) == 1,
        spec_isa_feature(Opcode::FsubrStiSt0) == 1,
        spec_isa_feature(Opcode::FsubrpStiSt0) == 1,
        spec_isa_feature(Opcode::FsubSingleReal) == 1,
        spec_isa_feature(Opcode::FsubrSingleReal) == 1,
        spec_isa_feature(Opcode::FsubDoubleReal) == 1,
        spec_isa_feature(Opcode::FsubrDoubleReal) == 1,
        spec_isa_feature(Opcode::FisubWordInteger) == 1,
        spec_isa_feature(Opcode::FisubrWordInteger) == 1,
        spec_isa_feature(Opcode::FisubDwordInteger) == 1,
        spec_isa_feature(Opcode::FisubrDwordInteger) == 1,
        spec_isa_feature(Opcode::FdivSt0Stj) == 1,
        spec_isa_feature(Opcode::FdivrSt0Stj) == 1,
        spec_isa_feature(Opcode::FdivStiSt0) == 1,
        spec_isa_feature(Opcode::FdivpStiSt0) == 1,
        spec_isa_feature(Opcode::FdivrStiSt0) == 1,
        spec_isa_feature(Opcode::FdivrpStiSt0) == 1,
        spec_isa_feature(Opcode::FdivSingleReal) == 1,
        spec_isa_feature(Opcode::FdivrSingleReal) == 1,
        spec_isa_feature(Opcode::FdivDoubleReal) == 1,
        spec_isa_feature(Opcode::FdivrDoubleReal) == 1,
        spec_isa_feature(Opcode::FidivWordInteger) == 1,
        spec_isa_feature(Opcode::FidivrWordInteger) == 1,
        spec_isa_feature(Opcode::FidivDwordInteger) == 1,
{
}

/// Every opcode the generated table gates on a CPU feature has that feature as its gate (entries 100..150 of 2908).
#[verifier::spinoff_prover]
#[verifier::rlimit(100)]
pub proof fn lemma_isa_entries_2()
    ensures
        spec_isa_feature(Opcode::FidivrDwordInteger) == 1,
        spec_isa_feature(Opcode::FcomSti) == 1,
        spec_isa_feature(Opcode::FcompSti) == 1,
        spec_isa_feature(Opcode::FucomSti) == 1,
        spec_isa_feature(Opcode::FucompSti) == 1,
        spec_isa_feature(Opcode::FcomiSt0Stj) == 4,
        spec_isa_feature(Opcode::FcomipSt0Stj) == 4,
        spec_isa_feature(Opcode::FucomiSt0Stj) == 4,
        spec_isa_feature(Opcode::FucomipSt0Stj) == 4,
        spec_isa_feature(Opcode::FcomSingleReal) == 1,
        spec_isa_feature(Opcode::FcompSingleReal) == 1,
        spec_isa_feature(Opcode::FcomDoubleReal) == 1,
        spec_isa_feature(Opcode::FcompDoubleReal) == 1,
        spec_isa_feature(Opcode::FicomWordInteger) == 1,
        spec_isa_feature(Opcode::FicompWordInteger) == 1,
        spec_isa_feature(Opcode::FicomDwordInteger) == 1,
        spec_isa_feature(Opcode::FicompDwordInteger) == 1,
        spec_isa_feature(Opcode::FcmovbSt0Stj) == 4,
        spec_isa_feature(Opcode::FcmoveSt0Stj) == 4,
        spec_isa_feature(Opcode::FcmovbeSt0Stj) == 4,
        spec_isa_feature(Opcode::FcmovuSt0Stj) == 4,
        spec_isa_feature(Opcode::FcmovnbSt0Stj) == 4,
        spec_isa_feature(Opcode::FcmovneSt0Stj) == 4,
        spec_isa_feature(Opcode::FcmovnbeSt0Stj) == 4,
        spec_isa_feature(Opcode::FcmovnuSt0Stj) == 4,
        spec_isa_feature(Opcode::Fcompp) == 1,
        spec_isa_feature(Opcode::Fucompp) == 1,
        spec_isa_feature(Opcode::FxchSti) == 1,
        spec_isa_feature(Opcode::Fnop) == 1,
        spec_isa_feature(Opcode::Fplegacy) == 1,
        spec_isa_feature(Opcode::Fchs) == 1,
        spec_isa_feature(Opcode::Fabs) == 1,
        spec_isa_feature(Opcode::Ftst) == 1,
        spec_isa_feature(Opcode::Fxam) == 1,
        spec_isa_feature(Opcode::Fdecstp) == 1,
        spec_isa_feature(Opcode::Fincstp) == 1,
        spec_isa_feature(Opcode::FfreeSti) == 1,
        spec_isa_feature(Opcode::FfreepSti) == 1,
        spec_isa_feature(Opcode::F2XM1) == 1,
        spec_isa_feature(Opcode::FYL2X) == 1,
        spec_isa_feature(Opcode::Fptan) == 1,
        spec_isa_feature(Opcode::Fpatan) == 1,
        spec_isa_feature(Opcode::Fxtract) == 1,
        spec_isa_feature(Opcode::FPREM1) == 1,
        spec_isa_feature(Opcode::Fprem) == 1,
        spec_isa_feature(Opcode::FYL2XP1) == 1,
        spec_isa_feature(Opcode::Fsqrt) == 1,
        spec_isa_feature(Opcode::Fsincos) == 1,
        spec_isa_feature(Opcode::Frndint) == 1,
        spec_isa_feature(Opcode::Fscale) == 1,
{
}

/// Every opcode the generated table gates on a CPU feature has that feature as its gate (entries 150..200 of 2908).
#[verifier::spinoff_prover]
#[verifier::rlimit(100)]
pub proof fn lemma_isa_entries_3()
    ensures
        spec_isa_feature(Opcode::Fsin) == 1,
        spec_isa_feature(Opcode::Fcos) == 1,
        spec_isa_feature(Opcode::Cpuid) == 2,
        spec_isa_feature(Opcode::BswapRx) == 2,
        spec_isa_feature(Opcode::BswapErx) == 2,
        spec_isa_feature(Opcode::Invd) == 2,
        spec_isa_feature(Opcode::Wbinvd) == 2,
        spec_isa_feature(Opcode::XaddEbGb) == 2,
        spec_isa_feature(Opcode::XaddEwGw) == 2,
        spec_isa_feature(Opcode::XaddEdGd) == 2,
        spec_isa_feature(Opcode::CmpxchgEbGb) == 2,
        spec_isa_feature(Opcode::CmpxchgEwGw) == 2,
        spec_isa_feature(Opcode::CmpxchgEdGd) == 2,
        spec_isa_feature(Opcode::Cmpxchg8b) == 3,
        spec_isa_feature(Opcode::Wrmsr) == 3,
        spec_isa_feature(Opcode::Rdmsr) == 3,
        spec_isa_feature(Opcode::Rdtsc) == 3,
        spec_isa_feature(Opcode::PunpcklbwPqQd) == 5,
        spec_isa_feature(Opcode::PunpcklwdPqQd) == 5,
        spec_isa_feature(Opcode::PunpckldqPqQd) == 5,
        spec_isa_feature(Opcode::PacksswbPqQq) == 5,
        spec_isa_feature(Opcode::PcmpgtbPqQq) == 5,
        spec_isa_feature(Opcode::PcmpgtwPqQq) == 5,
        spec_isa_feature(Opcode::PcmpgtdPqQq) == 5,
        spec_isa_feature(Opcode::PackuswbPqQq) == 5,
        spec_isa_feature(Opcode::PunpckhbwPqQq) == 5,
        spec_isa_feature(Opcode::PunpckhwdPqQq) == 5,
        spec_isa_feature(Opcode::PunpckhdqPqQq) == 5,
        spec_isa_feature(Opcode::PackssdwPqQq) == 5,
        spec_isa_feature(Opcode::MovdPqEd) == 5,
        spec_isa_feature(Opcode::MovqPqQq) == 5,
        spec_isa_feature(Opcode::PcmpeqbPqQq) == 5,
        spec_isa_feature(Opcode::PcmpeqwPqQq) == 5,
        spec_isa_feature(Opcode::PcmpeqdPqQq) == 5,
        spec_isa_feature(Opcode::Emms) == 5,
        spec_isa_feature(Opcode::MovdEdPq) == 5,
        spec_isa_feature(Opcode::MovqQqPq) == 5,
        spec_isa_feature(Opcode::PsrlwPqQq) == 5,
        spec_isa_feature(Opcode::PsrldPqQq) == 5,
        spec_isa_feature(Opcode::PsrlqPqQq) == 5,
        spec_isa_feature(Opcode::PmullwPqQq) == 5,
        spec_isa_feature(Opcode::PsubusbPqQq) == 5,
        spec_isa_feature(Opcode::PsubuswPqQq) == 5,
        spec_isa_feature(Opcode::PandPqQq) == 5,
        spec_isa_feature(Opcode::PaddusbPqQq) == 5,
        spec_isa_feature(Opcode::PadduswPqQq) == 5,
        spec_isa_feature(Opcode::PandnPqQq) == 5,
        spec_isa_feature(Opcode::PsrawPqQq) == 5,
        spec_isa_feature(Opcode::PsradPqQq) == 5,
        spec_isa_feature(Opcode::PmulhwPqQq) == 5,
{
}

/// Every opcode the generated table gates on a CPU feature has that feature as its gate (entries 200..250 of 2908).
#[verifier::spinoff_prover]
#[verifier::rlimit(100)]
pub proof fn lemma_isa_entries_4()
    ensures
        spec_isa_feature(Opcode::PsubsbPqQq) == 5,
        spec_isa_feature(Opcode::PsubswPqQq) == 5,
        spec_isa_feature(Opcode::PorPqQq) == 5,
        spec_isa_feature(Opcode::PaddsbPqQq) == 5,
        spec_isa_feature(Opcode::PaddswPqQq) == 5,
        spec_isa_feature(Opcode::PxorPqQq) == 5,
        spec_isa_feature(Opcode::PsllwPqQq) == 5,
        spec_isa_feature(Opcode::PslldPqQq) == 5,
        spec_isa_feature(Opcode::PsllqPqQq) == 5,
        spec_isa_feature(Opcode::PmaddwdPqQq) == 5,
        spec_isa_feature(Opcode::PsubbPqQq) == 5,
        spec_isa_feature(Opcode::PsubwPqQq) == 5,
        spec_isa_feature(Opcode::PsubdPqQq) == 5,
        spec_isa_feature(Opcode::PaddbPqQq) == 5,
        spec_isa_feature(Opcode::PaddwPqQq) == 5,
        spec_isa_feature(Opcode::PadddPqQq) == 5,
        spec_isa_feature(Opcode::PsrlwNqIb) == 5,
        spec_isa_feature(Opcode::PsrawNqIb) == 5,
        spec_isa_feature(Opcode::PsllwNqIb) == 5,
        spec_isa_feature(Opcode::PsrldNqIb) == 5,
        spec_isa_feature(Opcode::PsradNqIb) == 5,
        spec_isa_feature(Opcode::PslldNqIb) == 5,
        spec_isa_feature(Opcode::PsrlqNqIb) == 5,
        spec_isa_feature(Opcode::PsllqNqIb) == 5,
        spec_isa_feature(Opcode::Femms) == 6,
        spec_isa_feature(Opcode::Pf2idPqQq) == 6,
        spec_isa_feature(Opcode::Pf2iwPqQq) == 7,
        spec_isa_feature(Opcode::PfaccPqQq) == 6,
        spec_isa_feature(Opcode::PfaddPqQq) == 6,
        spec_isa_feature(Opcode::PfcmpeqPqQq) == 6,
        spec_isa_feature(Opcode::PfcmpgePqQq) == 6,
        spec_isa_feature(Opcode::PfcmpgtPqQq) == 6,
        spec_isa_feature(Opcode::PfmaxPqQq) == 6,
        spec_isa_feature(Opcode::PfminPqQq) == 6,
        spec_isa_feature(Opcode::PfmulPqQq) == 6,
        spec_isa_feature(Opcode::PfnaccPqQq) == 7,
        spec_isa_feature(Opcode::PfpnaccPqQq) == 7,
        spec_isa_feature(Opcode::PfrcpPqQq) == 6,
        spec_isa_feature(Opcode::Pfrcpit1PqQq) == 6,
        spec_isa_feature(Opcode::Pfrcpit2PqQq) == 6,
        spec_isa_feature(Opcode::Pfrsqit1PqQq) == 6,
        spec_isa_feature(Opcode::PfrsqrtPqQq) == 6,
        spec_isa_feature(Opcode::PfsubPqQq) == 6,
        spec_isa_feature(Opcode::PfsubrPqQq) == 6,
        spec_isa_feature(Opcode::Pi2fdPqQq) == 6,
        spec_isa_feature(Opcode::Pi2fwPqQq) == 7,
        spec_isa_feature(Opcode::PmulhrwPqQq) == 6,
        spec_isa_feature(Opcode::PswapdPqQq) == 7,
        spec_isa_feature(Opcode::SyscallLegacy) == 15,
        spec_isa_feature(Opcode::SysretLegacy) == 15,
{
}

/// Every opcode the generated table gates on a CPU feature has that feature as its gate (entries 250..300 of 2908).
#[verifier::spinoff_prover]
#[verifier::rlimit(100)]
pub proof fn lemma_isa_entries_5()
    ensures
        spec_isa_feature(Opcode::CmovbGwEw) == 4,
        spec_isa_feature(Opcode::CmovbeGwEw) == 4,
        spec_isa_feature(Opcode::CmovlGwEw) == 4,
        spec_isa_feature(Opcode::CmovleGwEw) == 4,
        spec_isa_feature(Opcode::CmovnbGwEw) == 4,
        spec_isa_feature(Opcode::CmovnbeGwEw) == 4,
        spec_isa_feature(Opcode::CmovnlGwEw) == 4,
        spec_isa_feature(Opcode::CmovnleGwEw) == 4,
        spec_isa_feature(Opcode::CmovnoGwEw) == 4,
        spec_isa_feature(Opcode::CmovnpGwEw) == 4,
        spec_isa_feature(Opcode::CmovnsGwEw) == 4,
        spec_isa_feature(Opcode::CmovnzGwEw) == 4,
        spec_isa_feature(Opcode::CmovoGwEw) == 4,
        spec_isa_feature(Opcode::CmovpGwEw) == 4,
        spec_isa_feature(Opcode::CmovsGwEw) == 4,
        spec_isa_feature(Opcode::CmovzGwEw) == 4,
        spec_isa_feature(Opcode::CmovbGdEd) == 4,
        spec_isa_feature(Opcode::CmovbeGdEd) == 4,
        spec_isa_feature(Opcode::CmovlGdEd) == 4,
        spec_isa_feature(Opcode::CmovleGdEd) == 4,
        spec_isa_feature(Opcode::CmovnbGdEd) == 4,
        spec_isa_feature(Opcode::CmovnbeGdEd) == 4,
        spec_isa_feature(Opcode::CmovnlGdEd) == 4,
        spec_isa_feature(Opcode::CmovnleGdEd) == 4,
        spec_isa_feature(Opcode::CmovnoGdEd) == 4,
        spec_isa_feature(Opcode::CmovnpGdEd) == 4,
        spec_isa_feature(Opcode::CmovnsGdEd) == 4,
        spec_isa_feature(Opcode::CmovnzGdEd) == 4,
        spec_isa_feature(Opcode::CmovoGdEd) == 4,
        spec_isa_feature(Opcode::CmovpGdEd) == 4,
        spec_isa_feature(Opcode::CmovsGdEd) == 4,
        spec_isa_feature(Opcode::CmovzGdEd) == 4,
        spec_isa_feature(Opcode::Rdpmc) == 4,
        spec_isa_feature(Opcode::Fxsave) == 20,
        spec_isa_feature(Opcode::Fxrstor) == 20,
        spec_isa_feature(Opcode::Ldmxcsr) == 20,
        spec_isa_feature(Opcode::Stmxcsr) == 20,
        spec_isa_feature(Opcode::PrefetchMb) == 20,
        spec_isa_feature(Opcode::Prefetcht0Mb) == 20,
        spec_isa_feature(Opcode::Prefetcht1Mb) == 20,
        spec_isa_feature(Opcode::Prefetcht2Mb) == 20,
        spec_isa_feature(Opcode::PrefetchntaMb) == 20,
        spec_isa_feature(Opcode::AndpsVpsWps) == 20,
        spec_isa_feature(Opcode::OrpsVpsWps) == 20,
        spec_isa_feature(Opcode::XorpsVpsWps) == 20,
        spec_isa_feature(Opcode::AndnpsVpsWps) == 20,
        spec_isa_feature(Opcode::MovupsVpsWps) == 20,
        spec_isa_feature(Opcode::MovupsWpsVps) == 20,
        spec_isa_feature(Opcode::MovssVssWss) == 20,
        spec_isa_feature(Opcode::MovssWssVss) == 20,
{
}

/// Every opcode the generated table gates on a CPU feature has that feature as its gate (entries 300..350 of 2908).
#[verifier::spinoff_prover]
#[verifier::rlimit(100)]
pub proof fn lemma_isa_entries_6()
    ensures
        spec_isa_feature(Opcode::MovlpsVpsMq) == 20,
        spec_isa_feature(Opcode::MovhlpsVpsWps) == 20,
        spec_isa_feature(Opcode::MovlpsMqVps) == 20,
        spec_isa_feature(Opcode::MovhpsVpsMq) == 20,
        spec_isa_feature(Opcode::MovlhpsVpsWps) == 20,
        spec_isa_feature(Opcode::MovhpsMqVps) == 20,
        spec_isa_feature(Opcode::MovapsVpsWps) == 20,
        spec_isa_feature(Opcode::MovapsWpsVps) == 20,
        spec_isa_feature(Opcode::MovntpsMpsVps) == 20,
        spec_isa_feature(Opcode::Cvtpi2psVpsQq) == 20,
        spec_isa_feature(Opcode::Cvtsi2ssVssEd) == 20,
        spec_isa_feature(Opcode::Cvttps2piPqWps) == 20,
        spec_isa_feature(Opcode::Cvtps2piPqWps) == 20,
        spec_isa_feature(Opcode::Cvttss2siGdWss) == 20,
        spec_isa_feature(Opcode::Cvtss2siGdWss) == 20,
        spec_isa_feature(Opcode::UcomissVssWss) == 20,
        spec_isa_feature(Opcode::ComissVssWss) == 20,
        spec_isa_feature(Opcode::MovmskpsGdUps) == 20,
        spec_isa_feature(Opcode::MovmskpdGdUpd) == 21,
        spec_isa_feature(Opcode::RsqrtpsVpsWps) == 20,
        spec_isa_feature(Opcode::RsqrtssVssWss) == 20,
        spec_isa_feature(Opcode::RcppsVpsWps) == 20,
        spec_isa_feature(Opcode::RcpssVssWss) == 20,
        spec_isa_feature(Opcode::PshufwPqQqIb) == 20,
        spec_isa_feature(Opcode::PshuflwVdqWdqIb) == 20,
        spec_isa_feature(Opcode::PinsrwPqEwIb) == 20,
        spec_isa_feature(Opcode::PextrwGdNqIb) == 20,
        spec_isa_feature(Opcode::ShufpsVpsWpsIb) == 20,
        spec_isa_feature(Opcode::PmovmskbGdNq) == 20,
        spec_isa_feature(Opcode::PminubPqQq) == 20,
        spec_isa_feature(Opcode::PmaxubPqQq) == 20,
        spec_isa_feature(Opcode::PavgbPqQq) == 20,
        spec_isa_feature(Opcode::PavgwPqQq) == 20,
        spec_isa_feature(Opcode::PmulhuwPqQq) == 20,
        spec_isa_feature(Opcode::MovntqMqPq) == 20,
        spec_isa_feature(Opcode::PminswPqQq) == 20,
        spec_isa_feature(Opcode::PmaxswPqQq) == 20,
        spec_isa_feature(Opcode::PsadbwPqQq) == 20,
        spec_isa_feature(Opcode::MaskmovqPqNq) == 20,
        spec_isa_feature(Opcode::AddpsVpsWps) == 20,
        spec_isa_feature(Opcode::AddpdVpdWpd) == 21,
        spec_isa_feature(Opcode::AddssVssWss) == 20,
        spec_isa_feature(Opcode::AddsdVsdWsd) == 21,
        spec_isa_feature(Opcode::MulpsVpsWps) == 20,
        spec_isa_feature(Opcode::MulpdVpdWpd) == 21,
        spec_isa_feature(Opcode::MulssVssWss) == 20,
        spec_isa_feature(Opcode::MulsdVsdWsd) == 21,
        spec_isa_feature(Opcode::SubpsVpsWps) == 20,
        spec_isa_feature(Opcode::SubpdVpdWpd) == 21,
        spec_isa_feature(Opcode::SubssVssWss) == 20,
{
}

/// Every opcode the generated table gates on a CPU feature has that feature as its gate (entries 350..400 of 2908).
#[verifier::spinoff_prover]
#[verifier::rlimit(100)]
pub proof fn lemma_isa_entries_7()
    ensures
        spec_isa_feature(Opcode::SubsdVsdWsd) == 21,
        spec_isa_feature(Opcode::MinpsVpsWps) == 20,
        spec_isa_feature(Opcode::MinpdVpdWpd) == 21,
        spec_isa_feature(Opcode::MinssVssWss) == 20,
        spec_isa_feature(Opcode::MinsdVsdWsd) == 21,
        spec_isa_feature(Opcode::DivpsVpsWps) == 20,
        spec_isa_feature(Opcode::DivpdVpdWpd) == 21,
        spec_isa_feature(Opcode::DivssVssWss) == 20,
        spec_isa_feature(Opcode::DivsdVsdWsd) == 21,
        spec_isa_feature(Opcode::MaxpsVpsWps) == 20,
        spec_isa_feature(Opcode::MaxpdVpdWpd) == 21,
        spec_isa_feature(Opcode::MaxssVssWss) == 20,
        spec_isa_feature(Opcode::MaxsdVsdWsd) == 21,
        spec_isa_feature(Opcode::SqrtpsVpsWps) == 20,
        spec_isa_feature(Opcode::SqrtpdVpdWpd) == 21,
        spec_isa_feature(Opcode::SqrtssVssWss) == 20,
        spec_isa_feature(Opcode::SqrtsdVsdWsd) == 21,
        spec_isa_feature(Opcode::CmppsVpsWpsIb) == 20,
        spec_isa_feature(Opcode::CmppdVpdWpdIb) == 21,
        spec_isa_feature(Opcode::CmpssVssWssIb) == 20,
        spec_isa_feature(Opcode::CmpsdVsdWsdIb) == 21,
        spec_isa_feature(Opcode::Cvtps2pdVpdWps) == 21,
        spec_isa_feature(Opcode::Cvtpd2psVpsWpd) == 21,
        spec_isa_feature(Opcode::Cvtss2sdVsdWss) == 21,
        spec_isa_feature(Opcode::Cvtsd2ssVssWsd) == 21,
        spec_isa_feature(Opcode::MovsdVsdWsd) == 21,
        spec_isa_feature(Opcode::MovsdWsdVsd) == 21,
        spec_isa_feature(Opcode::Cvtpi2pdVpdQq) == 21,
        spec_isa_feature(Opcode::Cvtsi2sdVsdEd) == 21,
        spec_isa_feature(Opcode::Cvttpd2piPqWpd) == 21,
        spec_isa_feature(Opcode::Cvttsd2siGdWsd) == 21,
        spec_isa_feature(Opcode::Cvtpd2piPqWpd) == 21,
        spec_isa_feature(Opcode::Cvtsd2siGdWsd) == 21,
        spec_isa_feature(Opcode::UcomisdVsdWsd) == 21,
        spec_isa_feature(Opcode::ComisdVsdWsd) == 21,
        spec_isa_feature(Opcode::Cvtdq2psVpsWdq) == 21,
        spec_isa_feature(Opcode::Cvtps2dqVdqWps) == 21,
        spec_isa_feature(Opcode::Cvttps2dqVdqWps) == 21,
        spec_isa_feature(Opcode::UnpckhpdVpdWdq) == 21,
        spec_isa_feature(Opcode::UnpcklpdVpdWdq) == 21,
        spec_isa_feature(Opcode::PunpckhdqVdqWdq) == 21,
        spec_isa_feature(Opcode::PunpckldqVdqWdq) == 21,
        spec_isa_feature(Opcode::MovapdVpdWpd) == 21,
        spec_isa_feature(Opcode::MovapdWpdVpd) == 21,
        spec_isa_feature(Opcode::MovdqaVdqWdq) == 21,
        spec_isa_feature(Opcode::MovdqaWdqVdq) == 21,
        spec_isa_feature(Opcode::MovdquVdqWdq) == 21,
        spec_isa_feature(Opcode::MovdquWdqVdq) == 21,
        spec_isa_feature(Opcode::MovhpdMqVsd) == 21,
        spec_isa_feature(Opcode::MovhpdVsdMq) == 21,
{
}

/// Every opcode the generated table gates on a CPU feature has that feature as its gate (entries 400..450 of 2908).
#[verifier::spinoff_prover]
#[verifier::rlimit(100)]
pub proof fn lemma_isa_entries_8()
    ensures
        spec_isa_feature(Opcode::MovlpdMqVsd) == 21,
        spec_isa_feature(Opcode::MovlpdVsdMq) == 21,
        spec_isa_feature(Opcode::MovntdqMdqVdq) == 21,
        spec_isa_feature(Opcode::MovntpdMpdVpd) == 21,
        spec_isa_feature(Opcode::MovupdVpdWpd) == 21,
        spec_isa_feature(Opcode::MovupdWpdVpd) == 21,
        spec_isa_feature(Opcode::AndnpdVpdWpd) == 21,
        spec_isa_feature(Opcode::AndpdVpdWpd) == 21,
        spec_isa_feature(Opcode::OrpdVpdWpd) == 21,
        spec_isa_feature(Opcode::XorpdVpdWpd) == 21,
        spec_isa_feature(Opcode::PandVdqWdq) == 21,
        spec_isa_feature(Opcode::PandnVdqWdq) == 21,
        spec_isa_feature(Opcode::PorVdqWdq) == 21,
        spec_isa_feature(Opcode::PxorVdqWdq) == 21,
        spec_isa_feature(Opcode::PunpcklbwVdqWdq) == 21,
        spec_isa_feature(Opcode::PunpcklwdVdqWdq) == 21,
        spec_isa_feature(Opcode::UnpcklpsVpsWdq) == 20,
        spec_isa_feature(Opcode::UnpckhpsVpsWdq) == 20,
        spec_isa_feature(Opcode::PackuswbVdqWdq) == 21,
        spec_isa_feature(Opcode::PacksswbVdqWdq) == 21,
        spec_isa_feature(Opcode::PcmpgtbVdqWdq) == 21,
        spec_isa_feature(Opcode::PcmpgtwVdqWdq) == 21,
        spec_isa_feature(Opcode::PcmpgtdVdqWdq) == 21,
        spec_isa_feature(Opcode::PunpckhbwVdqWdq) == 21,
        spec_isa_feature(Opcode::PunpckhwdVdqWdq) == 21,
        spec_isa_feature(Opcode::PackssdwVdqWdq) == 21,
        spec_isa_feature(Opcode::PunpcklqdqVdqWdq) == 21,
        spec_isa_feature(Opcode::PunpckhqdqVdqWdq) == 21,
        spec_isa_feature(Opcode::MovdVdqEd) == 21,
        spec_isa_feature(Opcode::PshufdVdqWdqIb) == 21,
        spec_isa_feature(Opcode::PshufhwVdqWdqIb) == 21,
        spec_isa_feature(Opcode::PcmpeqbVdqWdq) == 21,
        spec_isa_feature(Opcode::PcmpeqwVdqWdq) == 21,
        spec_isa_feature(Opcode::PcmpeqdVdqWdq) == 21,
        spec_isa_feature(Opcode::MovdEdVd) == 21,
        spec_isa_feature(Opcode::MovqVqWq) == 21,
        spec_isa_feature(Opcode::MovntiOp32MdGd) == 21,
        spec_isa_feature(Opcode::PinsrwVdqEwIb) == 21,
        spec_isa_feature(Opcode::PextrwGdUdqIb) == 21,
        spec_isa_feature(Opcode::ShufpdVpdWpdIb) == 21,
        spec_isa_feature(Opcode::PsrlwVdqWdq) == 21,
        spec_isa_feature(Opcode::PsrldVdqWdq) == 21,
        spec_isa_feature(Opcode::PsrlqVdqWdq) == 21,
        spec_isa_feature(Opcode::PaddqPqQq) == 21,
        spec_isa_feature(Opcode::PsubqPqQq) == 21,
        spec_isa_feature(Opcode::PaddqVdqWdq) == 21,
        spec_isa_feature(Opcode::PmullwVdqWdq) == 21,
        spec_isa_feature(Opcode::MovqWqVq) == 21,
        spec_isa_feature(Opcode::Movdq2qPqUdq) == 21,
        spec_isa_feature(Opcode::Movq2dqVdqQq) == 21,
{
}

/// Every opcode the generated table gates on a CPU feature has that feature as its gate (entries 450..500 of 2908).
#[verifier::spinoff_prover]
#[verifier::rlimit(100)]
pub proof fn lemma_isa_entries_9()
    ensures
        spec_isa_feature(Opcode::PmovmskbGdUdq) == 21,
        spec_isa_feature(Opcode::PsubusbVdqWdq) == 21,
        spec_isa_feature(Opcode::PsubuswVdqWdq) == 21,
        spec_isa_feature(Opcode::PminubVdqWdq) == 21,
        spec_isa_feature(Opcode::PaddusbVdqWdq) == 21,
        spec_isa_feature(Opcode::PadduswVdqWdq) == 21,
        spec_isa_feature(Opcode::PmaxubVdqWdq) == 21,
        spec_isa_feature(Opcode::PavgbVdqWdq) == 21,
        spec_isa_feature(Opcode::PsrawVdqWdq) == 21,
        spec_isa_feature(Opcode::PsradVdqWdq) == 21,
        spec_isa_feature(Opcode::PavgwVdqWdq) == 21,
        spec_isa_feature(Opcode::PmulhuwVdqWdq) == 21,
        spec_isa_feature(Opcode::PmulhwVdqWdq) == 21,
        spec_isa_feature(Opcode::Cvttpd2dqVqWpd) == 21,
        spec_isa_feature(Opcode::Cvtpd2dqVqWpd) == 21,
        spec_isa_feature(Opcode::Cvtdq2pdVpdWq) == 21,
        spec_isa_feature(Opcode::PsubsbVdqWdq) == 21,
        spec_isa_feature(Opcode::PsubswVdqWdq) == 21,
        spec_isa_feature(Opcode::PminswVdqWdq) == 21,
        spec_isa_feature(Opcode::PmaxswVdqWdq) == 21,
        spec_isa_feature(Opcode::PaddsbVdqWdq) == 21,
        spec_isa_feature(Opcode::PaddswVdqWdq) == 21,
        spec_isa_feature(Opcode::PsllwVdqWdq) == 21,
        spec_isa_feature(Opcode::PslldVdqWdq) == 21,
        spec_isa_feature(Opcode::PsllqVdqWdq) == 21,
        spec_isa_feature(Opcode::PmuludqPqQq) == 21,
        spec_isa_feature(Opcode::PmuludqVdqWdq) == 21,
        spec_isa_feature(Opcode::PmaddwdVdqWdq) == 21,
        spec_isa_feature(Opcode::PsadbwVdqWdq) == 21,
        spec_isa_feature(Opcode::MaskmovdquVdqUdq) == 21,
        spec_isa_feature(Opcode::PsubbVdqWdq) == 21,
        spec_isa_feature(Opcode::PsubwVdqWdq) == 21,
        spec_isa_feature(Opcode::PsubdVdqWdq) == 21,
        spec_isa_feature(Opcode::PsubqVdqWdq) == 21,
        spec_isa_feature(Opcode::PaddbVdqWdq) == 21,
        spec_isa_feature(Opcode::PaddwVdqWdq) == 21,
        spec_isa_feature(Opcode::PadddVdqWdq) == 21,
        spec_isa_feature(Opcode::PsrlwUdqIb) == 21,
        spec_isa_feature(Opcode::PsrawUdqIb) == 21,
        spec_isa_feature(Opcode::PsllwUdqIb) == 21,
        spec_isa_feature(Opcode::PsrldUdqIb) == 21,
        spec_isa_feature(Opcode::PsradUdqIb) == 21,
        spec_isa_feature(Opcode::PslldUdqIb) == 21,
        spec_isa_feature(Opcode::PsrlqUdqIb) == 21,
        spec_isa_feature(Opcode::PsllqUdqIb) == 21,
        spec_isa_feature(Opcode::PsrldqUdqIb) == 21,
        spec_isa_feature(Opcode::PslldqUdqIb) == 21,
        spec_isa_feature(Opcode::Lfence) == 21,
        spec_isa_feature(Opcode::Sfence) == 20,
        spec_isa_feature(Opcode::Mfence) == 21,
{
}

/// Every opcode the generated table gates on a CPU feature has that feature as its gate (entries 500..550 of 2908).
#[verifier::spinoff_prover]
#[verifier::rlimit(100)]
pub proof fn lemma_isa_entries_10()
    ensures
        spec_isa_feature(Opcode::MovddupVpdWq) == 22,
        spec_isa_feature(Opcode::MovsldupVpsWps) == 22,
        spec_isa_feature(Opcode::MovshdupVpsWps) == 22,
        spec_isa_feature(Opcode::HaddpdVpdWpd) == 22,
        spec_isa_feature(Opcode::HaddpsVpsWps) == 22,
        spec_isa_feature(Opcode::HsubpdVpdWpd) == 22,
        spec_isa_feature(Opcode::HsubpsVpsWps) == 22,
        spec_isa_feature(Opcode::AddsubpdVpdWpd) == 22,
        spec_isa_feature(Opcode::AddsubpsVpsWps) == 22,
        spec_isa_feature(Opcode::LddquVdqMdq) == 22,
        spec_isa_feature(Opcode::PshufbPqQq) == 23,
        spec_isa_feature(Opcode::PhaddwPqQq) == 23,
        spec_isa_feature(Opcode::PhadddPqQq) == 23,
        spec_isa_feature(Opcode::PhaddswPqQq) == 23,
        spec_isa_feature(Opcode::PmaddubswPqQq) == 23,
        spec_isa_feature(Opcode::PhsubswPqQq) == 23,
        spec_isa_feature(Opcode::PhsubwPqQq) == 23,
        spec_isa_feature(Opcode::PhsubdPqQq) == 23,
        spec_isa_feature(Opcode::PsignbPqQq) == 23,
        spec_isa_feature(Opcode::PsignwPqQq) == 23,
        spec_isa_feature(Opcode::PsigndPqQq) == 23,
        spec_isa_feature(Opcode::PmulhrswPqQq) == 23,
        spec_isa_feature(Opcode::PabsbPqQq) == 23,
        spec_isa_feature(Opcode::PabswPqQq) == 23,
        spec_isa_feature(Opcode::PabsdPqQq) == 23,
        spec_isa_feature(Opcode::PalignrPqQqIb) == 23,
        spec_isa_feature(Opcode::PshufbVdqWdq) == 23,
        spec_isa_feature(Opcode::PhaddwVdqWdq) == 23,
        spec_isa_feature(Opcode::PhadddVdqWdq) == 23,
        spec_isa_feature(Opcode::PhaddswVdqWdq) == 23,
        spec_isa_feature(Opcode::PmaddubswVdqWdq) == 23,
        spec_isa_feature(Opcode::PhsubswVdqWdq) == 23,
        spec_isa_feature(Opcode::PhsubwVdqWdq) == 23,
        spec_isa_feature(Opcode::PhsubdVdqWdq) == 23,
        spec_isa_feature(Opcode::PsignbVdqWdq) == 23,
        spec_isa_feature(Opcode::PsignwVdqWdq) == 23,
        spec_isa_feature(Opcode::PsigndVdqWdq) == 23,
        spec_isa_feature(Opcode::PmulhrswVdqWdq) == 23,
        spec_isa_feature(Opcode::PabsbVdqWdq) == 23,
        spec_isa_feature(Opcode::PabswVdqWdq) == 23,
        spec_isa_feature(Opcode::PabsdVdqWdq) == 23,
        spec_isa_feature(Opcode::PalignrVdqWdqIb) == 23,
        spec_isa_feature(Opcode::PblendvbVdqWdq) == 24,
        spec_isa_feature(Opcode::BlendvpsVpsWps) == 24,
        spec_isa_feature(Opcode::BlendvpdVpdWpd) == 24,
        spec_isa_feature(Opcode::PmovsxbwVdqWq) == 24,
        spec_isa_feature(Opcode::PmovsxbdVdqWd) == 24,
        spec_isa_feature(Opcode::PmovsxbqVdqWw) == 24,
        spec_isa_feature(Opcode::PmovsxwdVdqWq) == 24,
        spec_isa_feature(Opcode::PmovsxwqVdqWd) == 24,
{
}

/// Every opcode the generated table gates on a CPU feature has that feature as its gate (entries 550..600 of 2908).
#[verifier::spinoff_prover]
#[verifier::rlimit(100)]
pub proof fn lemma_isa_entries_11()
    ensures
        spec_isa_feature(Opcode::PmovsxdqVdqWq) == 24,
        spec_isa_feature(Opcode::PmovzxbwVdqWq) == 24,
        spec_isa_feature(Opcode::PmovzxbdVdqWd) == 24,
        spec_isa_feature(Opcode::PmovzxbqVdqWw) == 24,
        spec_isa_feature(Opcode::PmovzxwdVdqWq) == 24,
        spec_isa_feature(Opcode::PmovzxwqVdqWd) == 24,
        spec_isa_feature(Opcode::PmovzxdqVdqWq) == 24,
        spec_isa_feature(Opcode::PtestVdqWdq) == 24,
        spec_isa_feature(Opcode::PmuldqVdqWdq) == 24,
        spec_isa_feature(Opcode::PcmpeqqVdqWdq) == 24,
        spec_isa_feature(Opcode::PackusdwVdqWdq) == 24,
        spec_isa_feature(Opcode::PminsbVdqWdq) == 24,
        spec_isa_feature(Opcode::PminsdVdqWdq) == 24,
        spec_isa_feature(Opcode::PminuwVdqWdq) == 24,
        spec_isa_feature(Opcode::PminudVdqWdq) == 24,
        spec_isa_feature(Opcode::PmaxsbVdqWdq) == 24,
        spec_isa_feature(Opcode::PmaxsdVdqWdq) == 24,
        spec_isa_feature(Opcode::PmaxuwVdqWdq) == 24,
        spec_isa_feature(Opcode::PmaxudVdqWdq) == 24,
        spec_isa_feature(Opcode::PmulldVdqWdq) == 24,
        spec_isa_feature(Opcode::PhminposuwVdqWdq) == 24,
        spec_isa_feature(Opcode::RoundpsVpsWpsIb) == 24,
        spec_isa_feature(Opcode::RoundpdVpdWpdIb) == 24,
        spec_isa_feature(Opcode::RoundssVssWssIb) == 24,
        spec_isa_feature(Opcode::RoundsdVsdWsdIb) == 24,
        spec_isa_feature(Opcode::BlendpsVpsWpsIb) == 24,
        spec_isa_feature(Opcode::BlendpdVpdWpdIb) == 24,
        spec_isa_feature(Opcode::PblendwVdqWdqIb) == 24,
        spec_isa_feature(Opcode::PextrbEdVdqIbR) == 24,
        spec_isa_feature(Opcode::PextrbMbVdqIbM) == 24,
        spec_isa_feature(Opcode::PextrwEdVdqIbR) == 24,
        spec_isa_feature(Opcode::PextrwMwVdqIbM) == 24,
        spec_isa_feature(Opcode::PextrdEdVdqIb) == 24,
        spec_isa_feature(Opcode::PextrqEqVdqIb) == 24,
        spec_isa_feature(Opcode::ExtractpsEdVpsIb) == 24,
        spec_isa_feature(Opcode::PinsrbVdqEbIb) == 24,
        spec_isa_feature(Opcode::InsertpsVpsWssIb) == 24,
        spec_isa_feature(Opcode::PinsrdVdqEdIb) == 24,
        spec_isa_feature(Opcode::PinsrqVdqEqIb) == 24,
        spec_isa_feature(Opcode::DppsVpsWpsIb) == 24,
        spec_isa_feature(Opcode::DppdVpdWpdIb) == 24,
        spec_isa_feature(Opcode::MpsadbwVdqWdqIb) == 24,
        spec_isa_feature(Opcode::MovntdqaVdqMdq) == 24,
        spec_isa_feature(Opcode::Crc32GdEb) == 25,
        spec_isa_feature(Opcode::Crc32GdEw) == 25,
        spec_isa_feature(Opcode::Crc32GdEd) == 25,
        spec_isa_feature(Opcode::Crc32GdEq) == 25,
        spec_isa_feature(Opcode::PcmpgtqVdqWdq) == 25,
        spec_isa_feature(Opcode::PcmpestrmVdqWdqIb) == 25,
        spec_isa_feature(Opcode::PcmpestriVdqWdqIb) == 25,
{
}

/// Every opcode the generated table gates on a CPU feature has that feature as its gate (entries 600..650 of 2908).
#[verifier::spinoff_prover]
#[verifier::rlimit(100)]
pub proof fn lemma_isa_entries_12()
    ensures
        spec_isa_feature(Opcode::PcmpistrmVdqWdqIb) == 25,
        spec_isa_feature(Opcode::PcmpistriVdqWdqIb) == 25,
        spec_isa_feature(Opcode::MovbeGwMw) == 44,
        spec_isa_feature(Opcode::MovbeGdMd) == 44,
        spec_isa_feature(Opcode::MovbeGqMq) == 44,
        spec_isa_feature(Opcode::MovbeMwGw) == 44,
        spec_isa_feature(Opcode::MovbeMdGd) == 44,
        spec_isa_feature(Opcode::MovbeMqGq) == 44,
        spec_isa_feature(Opcode::PopcntGwEw) == 25,
        spec_isa_feature(Opcode::PopcntGdEd) == 25,
        spec_isa_feature(Opcode::PopcntGqEq) == 25,
        spec_isa_feature(Opcode::Xrstor) == 38,
        spec_isa_feature(Opcode::Xsave) == 38,
        spec_isa_feature(Opcode::Xsavec) == 40,
        spec_isa_feature(Opcode::Xsetbv) == 38,
        spec_isa_feature(Opcode::Xgetbv) == 38,
        spec_isa_feature(Opcode::Xsaveopt) == 39,
        spec_isa_feature(Opcode::Xsaves) == 41,
        spec_isa_feature(Opcode::Xrstors) == 41,
        spec_isa_feature(Opcode::AesimcVdqWdq) == 42,
        spec_isa_feature(Opcode::AeskeygenassistVdqWdqIb) == 42,
        spec_isa_feature(Opcode::AesencVdqWdq) == 42,
        spec_isa_feature(Opcode::AesenclastVdqWdq) == 42,
        spec_isa_feature(Opcode::AesdecVdqWdq) == 42,
        spec_isa_feature(Opcode::AesdeclastVdqWdq) == 42,
        spec_isa_feature(Opcode::PclmulqdqVdqWdqIb) == 42,
        spec_isa_feature(Opcode::Sha1nexteVdqWdq) == 67,
        spec_isa_feature(Opcode::Sha1msg1VdqWdq) == 67,
        spec_isa_feature(Opcode::Sha1msg2VdqWdq) == 67,
        spec_isa_feature(Opcode::Sha256rnds2VdqWdq) == 67,
        spec_isa_feature(Opcode::Sha256msg1VdqWdq) == 67,
        spec_isa_feature(Opcode::Sha256msg2VdqWdq) == 67,
        spec_isa_feature(Opcode::Sha1rnds4VdqWdqIb) == 67,
        spec_isa_feature(Opcode::Gf2p8affineqbVdqWdqIb) == 69,
        spec_isa_feature(Opcode::Gf2p8affineinvqbVdqWdqIb) == 69,
        spec_isa_feature(Opcode::Gf2p8mulbVdqWdq) == 69,
        spec_isa_feature(Opcode::LahfLm) == 32,
        spec_isa_feature(Opcode::SahfLm) == 32,
        spec_isa_feature(Opcode::CMPXCHG16B) == 35,
        spec_isa_feature(Opcode::MovntiOp64MdGd) == 21,
        spec_isa_feature(Opcode::MovntiMqGq) == 21,
        spec_isa_feature(Opcode::RdfsbaseEd) == 45,
        spec_isa_feature(Opcode::RdgsbaseEd) == 45,
        spec_isa_feature(Opcode::RdfsbaseEq) == 45,
        spec_isa_feature(Opcode::RdgsbaseEq) == 45,
        spec_isa_feature(Opcode::WrfsbaseEd) == 45,
        spec_isa_feature(Opcode::WrgsbaseEd) == 45,
        spec_isa_feature(Opcode::WrfsbaseEq) == 45,
        spec_isa_feature(Opcode::WrgsbaseEq) == 45,
        spec_isa_feature(Opcode::Rdtscp) == 36,
{
}

/// Every opcode the generated table gates on a CPU feature has that feature as its gate (entries 650..700 of 2908).
#[verifier::spinoff_prover]
#[verifier::rlimit(100)]
pub proof fn lemma_isa_entries_13()
    ensures
        spec_isa_feature(Opcode::VmxonMq) == 60,
        spec_isa_feature(Opcode::Vmxoff) == 60,
        spec_isa_feature(Opcode::Vmcall) == 60,
        spec_isa_feature(Opcode::Vmlaunch) == 60,
        spec_isa_feature(Opcode::Vmresume) == 60,
        spec_isa_feature(Opcode::VmclearMq) == 60,
        spec_isa_feature(Opcode::VmptrldMq) == 60,
        spec_isa_feature(Opcode::VmptrstMq) == 60,
        spec_isa_feature(Opcode::VmreadEdGd) == 60,
        spec_isa_feature(Opcode::VmwriteGdEd) == 60,
        spec_isa_feature(Opcode::VmreadEqGq) == 60,
        spec_isa_feature(Opcode::VmwriteGqEq) == 60,
        spec_isa_feature(Opcode::Invept) == 60,
        spec_isa_feature(Opcode::Invvpid) == 60,
        spec_isa_feature(Opcode::Vmfunc) == 60,
        spec_isa_feature(Opcode::Getsec) == 61,
        spec_isa_feature(Opcode::Vmrun) == 59,
        spec_isa_feature(Opcode::Vmmcall) == 59,
        spec_isa_feature(Opcode::Vmload) == 59,
        spec_isa_feature(Opcode::Vmsave) == 59,
        spec_isa_feature(Opcode::Stgi) == 59,
        spec_isa_feature(Opcode::Clgi) == 59,
        spec_isa_feature(Opcode::Skinit) == 59,
        spec_isa_feature(Opcode::Invlpga) == 59,
        spec_isa_feature(Opcode::Incsspd) == 119,
        spec_isa_feature(Opcode::Incsspq) == 119,
        spec_isa_feature(Opcode::Saveprevssp) == 119,
        spec_isa_feature(Opcode::Rstorssp) == 119,
        spec_isa_feature(Opcode::Wrssd) == 119,
        spec_isa_feature(Opcode::Wrussd) == 119,
        spec_isa_feature(Opcode::Wrssq) == 119,
        spec_isa_feature(Opcode::Wrussq) == 119,
        spec_isa_feature(Opcode::Setssbsy) == 119,
        spec_isa_feature(Opcode::Clrssbsy) == 119,
        spec_isa_feature(Opcode::Invpcid) == 106,
        spec_isa_feature(Opcode::Rdpkru) == 112,
        spec_isa_feature(Opcode::Wrpkru) == 112,
        spec_isa_feature(Opcode::Clui) == 126,
        spec_isa_feature(Opcode::Stui) == 126,
        spec_isa_feature(Opcode::Testui) == 126,
        spec_isa_feature(Opcode::Uiret) == 126,
        spec_isa_feature(Opcode::SenduipiEq) == 126,
        spec_isa_feature(Opcode::RdpidEd) == 115,
        spec_isa_feature(Opcode::Serialize) == 123,
        spec_isa_feature(Opcode::Wrmsrns) == 120,
        spec_isa_feature(Opcode::Rdmsrlist) == 130,
        spec_isa_feature(Opcode::Wrmsrlist) == 130,
        spec_isa_feature(Opcode::Vzeroupper) == 46,
        spec_isa_feature(Opcode::Vzeroall) == 46,
        spec_isa_feature(Opcode::Vldmxcsr) == 46,
{
}

/// Every opcode the generated table gates on a CPU feature has that feature as its gate (entries 700..750 of 2908).
#[verifier::spinoff_prover]
#[verifier::rlimit(100)]
pub proof fn lemma_isa_entries_14()
    ensures
        spec_isa_feature(Opcode::Vstmxcsr) == 46,
        spec_isa_feature(Opcode::VmovapsVpsWps) == 46,
        spec_isa_feature(Opcode::V128VmovapsWpsVps) == 46,
        spec_isa_feature(Opcode::V256VmovapsWpsVps) == 46,
        spec_isa_feature(Opcode::VmovapdVpdWpd) == 46,
        spec_isa_feature(Opcode::V128VmovapdWpdVpd) == 46,
        spec_isa_feature(Opcode::V256VmovapdWpdVpd) == 46,
        spec_isa_feature(Opcode::VmovupsVpsWps) == 46,
        spec_isa_feature(Opcode::V128VmovupsWpsVps) == 46,
        spec_isa_feature(Opcode::V256VmovupsWpsVps) == 46,
        spec_isa_feature(Opcode::VmovupdVpdWpd) == 46,
        spec_isa_feature(Opcode::V128VmovupdWpdVpd) == 46,
        spec_isa_feature(Opcode::V256VmovupdWpdVpd) == 46,
        spec_isa_feature(Opcode::VmovdqaVdqWdq) == 46,
        spec_isa_feature(Opcode::V128VmovdqaWdqVdq) == 46,
        spec_isa_feature(Opcode::V256VmovdqaWdqVdq) == 46,
        spec_isa_feature(Opcode::VmovdquVdqWdq) == 46,
        spec_isa_feature(Opcode::V128VmovdquWdqVdq) == 46,
        spec_isa_feature(Opcode::V256VmovdquWdqVdq) == 46,
        spec_isa_feature(Opcode::V128VmovsdVsdHpdWsd) == 46,
        spec_isa_feature(Opcode::V128VmovssVssHpsWss) == 46,
        spec_isa_feature(Opcode::V128VmovsdWsdHpdVsd) == 46,
        spec_isa_feature(Opcode::V128VmovssWssHpsVss) == 46,
        spec_isa_feature(Opcode::V128VmovsdVsdWsd) == 46,
        spec_isa_feature(Opcode::V128VmovssVssWss) == 46,
        spec_isa_feature(Opcode::V128VmovsdWsdVsd) == 46,
        spec_isa_feature(Opcode::V128VmovssWssVss) == 46,
        spec_isa_feature(Opcode::V128VmovlpsVpsHpsMq) == 46,
        spec_isa_feature(Opcode::V128VmovhlpsVpsHpsWps) == 46,
        spec_isa_feature(Opcode::V128VmovhpsVpsHpsMq) == 46,
        spec_isa_feature(Opcode::V128VmovlhpsVpsHpsWps) == 46,
        spec_isa_feature(Opcode::V128VmovlpsMqVps) == 46,
        spec_isa_feature(Opcode::V128VmovhpsMqVps) == 46,
        spec_isa_feature(Opcode::V128VmovlpdMqVsd) == 46,
        spec_isa_feature(Opcode::V128VmovhpdMqVsd) == 46,
        spec_isa_feature(Opcode::V128VmovlpdVpdHpdMq) == 46,
        spec_isa_feature(Opcode::V128VmovhpdVpdHpdMq) == 46,
        spec_isa_feature(Opcode::V128VmovddupVpdWpd) == 46,
        spec_isa_feature(Opcode::V256VmovddupVpdWpd) == 46,
        spec_isa_feature(Opcode::VmovsldupVpsWps) == 46,
        spec_isa_feature(Opcode::VmovshdupVpsWps) == 46,
        spec_isa_feature(Opcode::VlddquVdqMdq) == 46,
        spec_isa_feature(Opcode::V128VmovntdqaVdqMdq) == 46,
        spec_isa_feature(Opcode::V256VmovntdqaVdqMdq) == 47,
        spec_isa_feature(Opcode::V128VmovntpsMpsVps) == 46,
        spec_isa_feature(Opcode::V256VmovntpsMpsVps) == 46,
        spec_isa_feature(Opcode::V128VmovntpdMpdVpd) == 46,
        spec_isa_feature(Opcode::V256VmovntpdMpdVpd) == 46,
        spec_isa_feature(Opcode::V128VmovntdqMdqVdq) == 46,
        spec_isa_feature(Opcode::V256VmovntdqMdqVdq) == 46,
{
}

/// Every opcode the generated table gates on a CPU feature has that feature as its gate (entries 750..800 of 2908).
#[verifier::spinoff_prover]
#[verifier::rlimit(100)]
pub proof fn lemma_isa_entries_15()
    ensures
        spec_isa_feature(Opcode::VucomissVssWss) == 46,
        spec_isa_feature(Opcode::VcomissVssWss) == 46,
        spec_isa_feature(Opcode::VucomisdVsdWsd) == 46,
        spec_isa_feature(Opcode::VcomisdVsdWsd) == 46,
        spec_isa_feature(Opcode::VrsqrtssVssHpsWss) == 46,
        spec_isa_feature(Opcode::VrsqrtpsVpsWps) == 46,
        spec_isa_feature(Opcode::VrcpssVssHpsWss) == 46,
        spec_isa_feature(Opcode::VrcppsVpsWps) == 46,
        spec_isa_feature(Opcode::VandpsVpsHpsWps) == 46,
        spec_isa_feature(Opcode::VandpdVpdHpdWpd) == 46,
        spec_isa_feature(Opcode::VandnpsVpsHpsWps) == 46,
        spec_isa_feature(Opcode::VandnpdVpdHpdWpd) == 46,
        spec_isa_feature(Opcode::VorpsVpsHpsWps) == 46,
        spec_isa_feature(Opcode::VorpdVpdHpdWpd) == 46,
        spec_isa_feature(Opcode::VxorpsVpsHpsWps) == 46,
        spec_isa_feature(Opcode::VxorpdVpdHpdWpd) == 46,
        spec_isa_feature(Opcode::V128VpshufdVdqWdqIb) == 46,
        spec_isa_feature(Opcode::V256VpshufdVdqWdqIb) == 47,
        spec_isa_feature(Opcode::V128VpshufhwVdqWdqIb) == 46,
        spec_isa_feature(Opcode::V256VpshufhwVdqWdqIb) == 47,
        spec_isa_feature(Opcode::V128VpshuflwVdqWdqIb) == 46,
        spec_isa_feature(Opcode::V256VpshuflwVdqWdqIb) == 47,
        spec_isa_feature(Opcode::VhaddpdVpdHpdWpd) == 46,
        spec_isa_feature(Opcode::VhaddpsVpsHpsWps) == 46,
        spec_isa_feature(Opcode::VhsubpdVpdHpdWpd) == 46,
        spec_isa_feature(Opcode::VhsubpsVpsHpsWps) == 46,
        spec_isa_feature(Opcode::VshufpsVpsHpsWpsIb) == 46,
        spec_isa_feature(Opcode::VshufpdVpdHpdWpdIb) == 46,
        spec_isa_feature(Opcode::VaddsubpdVpdHpdWpd) == 46,
        spec_isa_feature(Opcode::VaddsubpsVpsHpsWps) == 46,
        spec_isa_feature(Opcode::VroundpsVpsWpsIb) == 46,
        spec_isa_feature(Opcode::VroundpdVpdWpdIb) == 46,
        spec_isa_feature(Opcode::VroundsdVsdHpdWsdIb) == 46,
        spec_isa_feature(Opcode::VroundssVssHpsWssIb) == 46,
        spec_isa_feature(Opcode::VdppsVpsHpsWpsIb) == 46,
        spec_isa_feature(Opcode::VdppdVpdHpdWpdIb) == 46,
        spec_isa_feature(Opcode::VaddpsVpsHpsWps) == 46,
        spec_isa_feature(Opcode::VaddpdVpdHpdWpd) == 46,
        spec_isa_feature(Opcode::VaddssVssHpsWss) == 46,
        spec_isa_feature(Opcode::VaddsdVsdHpdWsd) == 46,
        spec_isa_feature(Opcode::VmulpsVpsHpsWps) == 46,
        spec_isa_feature(Opcode::VmulpdVpdHpdWpd) == 46,
        spec_isa_feature(Opcode::VmulssVssHpsWss) == 46,
        spec_isa_feature(Opcode::VmulsdVsdHpdWsd) == 46,
        spec_isa_feature(Opcode::VsubpsVpsHpsWps) == 46,
        spec_isa_feature(Opcode::VsubpdVpdHpdWpd) == 46,
        spec_isa_feature(Opcode::VsubssVssHpsWss) == 46,
        spec_isa_feature(Opcode::VsubsdVsdHpdWsd) == 46,
        spec_isa_feature(Opcode::VdivpsVpsHpsWps) == 46,
        spec_isa_feature(Opcode::VdivpdVpdHpdWpd) == 46,
{
}

/// Every opcode the generated table gates on a CPU feature has that feature as its gate (entries 800..850 of 2908).
#[verifier::spinoff_prover]
#[verifier::rlimit(100)]
pub proof fn lemma_isa_entries_16()
    ensures
        spec_isa_feature(Opcode::VdivssVssHpsWss) == 46,
        spec_isa_feature(Opcode::VdivsdVsdHpdWsd) == 46,
        spec_isa_feature(Opcode::VmaxpsVpsHpsWps) == 46,
        spec_isa_feature(Opcode::VmaxpdVpdHpdWpd) == 46,
        spec_isa_feature(Opcode::VmaxssVssHpsWss) == 46,
        spec_isa_feature(Opcode::VmaxsdVsdHpdWsd) == 46,
        spec_isa_feature(Opcode::VminpsVpsHpsWps) == 46,
        spec_isa_feature(Opcode::VminpdVpdHpdWpd) == 46,
        spec_isa_feature(Opcode::VminssVssHpsWss) == 46,
        spec_isa_feature(Opcode::VminsdVsdHpdWsd) == 46,
        spec_isa_feature(Opcode::VsqrtpsVpsWps) == 46,
        spec_isa_feature(Opcode::VsqrtpdVpdWpd) == 46,
        spec_isa_feature(Opcode::VsqrtssVssHpsWss) == 46,
        spec_isa_feature(Opcode::VsqrtsdVsdHpdWsd) == 46,
        spec_isa_feature(Opcode::VcmppsVpsHpsWpsIb) == 46,
        spec_isa_feature(Opcode::VcmppdVpdHpdWpdIb) == 46,
        spec_isa_feature(Opcode::VcmpssVssHpsWssIb) == 46,
        spec_isa_feature(Opcode::VcmpsdVsdHpdWsdIb) == 46,
        spec_isa_feature(Opcode::V128VpsrlwVdqHdqWdq) == 46,
        spec_isa_feature(Opcode::V256VpsrlwVdqHdqWdq) == 47,
        spec_isa_feature(Opcode::V128VpsrldVdqHdqWdq) == 46,
        spec_isa_feature(Opcode::V256VpsrldVdqHdqWdq) == 47,
        spec_isa_feature(Opcode::V128VpsrlqVdqHdqWdq) == 46,
        spec_isa_feature(Opcode::V256VpsrlqVdqHdqWdq) == 47,
        spec_isa_feature(Opcode::V128VpsrawVdqHdqWdq) == 46,
        spec_isa_feature(Opcode::V256VpsrawVdqHdqWdq) == 47,
        spec_isa_feature(Opcode::V128VpsradVdqHdqWdq) == 46,
        spec_isa_feature(Opcode::V256VpsradVdqHdqWdq) == 47,
        spec_isa_feature(Opcode::V128VpsllwVdqHdqWdq) == 46,
        spec_isa_feature(Opcode::V256VpsllwVdqHdqWdq) == 47,
        spec_isa_feature(Opcode::V128VpslldVdqHdqWdq) == 46,
        spec_isa_feature(Opcode::V256VpslldVdqHdqWdq) == 47,
        spec_isa_feature(Opcode::V128VpsllqVdqHdqWdq) == 46,
        spec_isa_feature(Opcode::V256VpsllqVdqHdqWdq) == 47,
        spec_isa_feature(Opcode::V128VpsrlwUdqIb) == 46,
        spec_isa_feature(Opcode::V256VpsrlwUdqIb) == 47,
        spec_isa_feature(Opcode::V128VpsrawUdqIb) == 46,
        spec_isa_feature(Opcode::V256VpsrawUdqIb) == 47,
        spec_isa_feature(Opcode::V128VpsllwUdqIb) == 46,
        spec_isa_feature(Opcode::V256VpsllwUdqIb) == 47,
        spec_isa_feature(Opcode::V128VpsrldUdqIb) == 46,
        spec_isa_feature(Opcode::V256VpsrldUdqIb) == 47,
        spec_isa_feature(Opcode::V128VpsradUdqIb) == 46,
        spec_isa_feature(Opcode::V256VpsradUdqIb) == 47,
        spec_isa_feature(Opcode::V128VpslldUdqIb) == 46,
        spec_isa_feature(Opcode::V256VpslldUdqIb) == 47,
        spec_isa_feature(Opcode::V128VpsrlqUdqIb) == 46,
        spec_isa_feature(Opcode::V256VpsrlqUdqIb) == 47,
        spec_isa_feature(Opcode::V128VpsllqUdqIb) == 46,
        spec_isa_feature(Opcode::V256VpsllqUdqIb) == 47,
{
}

/// Every opcode the generated table gates on a CPU feature has that feature as its gate (entries 850..900 of 2908).
#[verifier::spinoff_prover]
#[verifier::rlimit(100)]
pub proof fn lemma_isa_entries_17()
    ensures
        spec_isa_feature(Opcode::V128VpsrldqUdqIb) == 46,
        spec_isa_feature(Opcode::V256VpsrldqUdqIb) == 47,
        spec_isa_feature(Opcode::V128VpslldqUdqIb) == 46,
        spec_isa_feature(Opcode::V256VpslldqUdqIb) == 47,
        spec_isa_feature(Opcode::V128VpmovmskbGdUdq) == 46,
        spec_isa_feature(Opcode::V256VpmovmskbGdUdq) == 47,
        spec_isa_feature(Opcode::VmovmskpsGdUps) == 46,
        spec_isa_feature(Opcode::VmovmskpdGdUpd) == 46,
        spec_isa_feature(Opcode::VunpcklpdVpdHpdWpd) == 46,
        spec_isa_feature(Opcode::VunpckhpdVpdHpdWpd) == 46,
        spec_isa_feature(Opcode::VunpcklpsVpsHpsWps) == 46,
        spec_isa_feature(Opcode::VunpckhpsVpsHpsWps) == 46,
        spec_isa_feature(Opcode::V128VpunpckhdqVdqHdqWdq) == 46,
        spec_isa_feature(Opcode::V256VpunpckhdqVdqHdqWdq) == 47,
        spec_isa_feature(Opcode::V128VpunpckldqVdqHdqWdq) == 46,
        spec_isa_feature(Opcode::V256VpunpckldqVdqHdqWdq) == 47,
        spec_isa_feature(Opcode::V128VpunpcklbwVdqHdqWdq) == 46,
        spec_isa_feature(Opcode::V256VpunpcklbwVdqHdqWdq) == 47,
        spec_isa_feature(Opcode::V128VpunpcklwdVdqHdqWdq) == 46,
        spec_isa_feature(Opcode::V256VpunpcklwdVdqHdqWdq) == 47,
        spec_isa_feature(Opcode::V128VpunpckhbwVdqHdqWdq) == 46,
        spec_isa_feature(Opcode::V256VpunpckhbwVdqHdqWdq) == 47,
        spec_isa_feature(Opcode::V128VpunpckhwdVdqHdqWdq) == 46,
        spec_isa_feature(Opcode::V256VpunpckhwdVdqHdqWdq) == 47,
        spec_isa_feature(Opcode::V128VpunpcklqdqVdqHdqWdq) == 46,
        spec_isa_feature(Opcode::V256VpunpcklqdqVdqHdqWdq) == 47,
        spec_isa_feature(Opcode::V128VpunpckhqdqVdqHdqWdq) == 46,
        spec_isa_feature(Opcode::V256VpunpckhqdqVdqHdqWdq) == 47,
        spec_isa_feature(Opcode::V128VpcmpeqbVdqHdqWdq) == 46,
        spec_isa_feature(Opcode::V256VpcmpeqbVdqHdqWdq) == 47,
        spec_isa_feature(Opcode::V128VpcmpeqwVdqHdqWdq) == 46,
        spec_isa_feature(Opcode::V256VpcmpeqwVdqHdqWdq) == 47,
        spec_isa_feature(Opcode::V128VpcmpeqdVdqHdqWdq) == 46,
        spec_isa_feature(Opcode::V256VpcmpeqdVdqHdqWdq) == 47,
        spec_isa_feature(Opcode::V128VpcmpeqqVdqHdqWdq) == 46,
        spec_isa_feature(Opcode::V256VpcmpeqqVdqHdqWdq) == 47,
        spec_isa_feature(Opcode::V128VpcmpgtbVdqHdqWdq) == 46,
        spec_isa_feature(Opcode::V256VpcmpgtbVdqHdqWdq) == 47,
        spec_isa_feature(Opcode::V128VpcmpgtwVdqHdqWdq) == 46,
        spec_isa_feature(Opcode::V256VpcmpgtwVdqHdqWdq) == 47,
        spec_isa_feature(Opcode::V128VpcmpgtdVdqHdqWdq) == 46,
        spec_isa_feature(Opcode::V256VpcmpgtdVdqHdqWdq) == 47,
        spec_isa_feature(Opcode::V128VpcmpgtqVdqHdqWdq) == 46,
        spec_isa_feature(Opcode::V256VpcmpgtqVdqHdqWdq) == 47,
        spec_isa_feature(Opcode::V128VpsubsbVdqHdqWdq) == 46,
        spec_isa_feature(Opcode::V256VpsubsbVdqHdqWdq) == 47,
        spec_isa_feature(Opcode::V128VpsubswVdqHdqWdq) == 46,
        spec_isa_feature(Opcode::V256VpsubswVdqHdqWdq) == 47,
        spec_isa_feature(Opcode::V128VpaddsbVdqHdqWdq) == 46,
        spec_isa_feature(Opcode::V256VpaddsbVdqHdqWdq) == 47,
{
}

/// Every opcode the generated table gates on a CPU feature has that feature as its gate (entries 900..950 of 2908).
#[verifier::spinoff_prover]
#[verifier::rlimit(100)]
pub proof fn lemma_isa_entries_18()
    ensures
        spec_isa_feature(Opcode::V128VpaddswVdqHdqWdq) == 46,
        spec_isa_feature(Opcode::V256VpaddswVdqHdqWdq) == 47,
        spec_isa_feature(Opcode::V128VpsubusbVdqHdqWdq) == 46,
        spec_isa_feature(Opcode::V256VpsubusbVdqHdqWdq) == 47,
        spec_isa_feature(Opcode::V128VpsubuswVdqHdqWdq) == 46,
        spec_isa_feature(Opcode::V256VpsubuswVdqHdqWdq) == 47,
        spec_isa_feature(Opcode::V128VpaddusbVdqHdqWdq) == 46,
        spec_isa_feature(Opcode::V256VpaddusbVdqHdqWdq) == 47,
        spec_isa_feature(Opcode::V128VpadduswVdqHdqWdq) == 46,
        spec_isa_feature(Opcode::V256VpadduswVdqHdqWdq) == 47,
        spec_isa_feature(Opcode::V128VpavgbVdqWdq) == 46,
        spec_isa_feature(Opcode::V256VpavgbVdqWdq) == 47,
        spec_isa_feature(Opcode::V128VpavgwVdqWdq) == 46,
        spec_isa_feature(Opcode::V256VpavgwVdqWdq) == 47,
        spec_isa_feature(Opcode::V128VpandnVdqHdqWdq) == 46,
        spec_isa_feature(Opcode::V256VpandnVdqHdqWdq) == 47,
        spec_isa_feature(Opcode::V128VpandVdqHdqWdq) == 46,
        spec_isa_feature(Opcode::V256VpandVdqHdqWdq) == 47,
        spec_isa_feature(Opcode::V128VporVdqHdqWdq) == 46,
        spec_isa_feature(Opcode::V256VporVdqHdqWdq) == 47,
        spec_isa_feature(Opcode::V128VpxorVdqHdqWdq) == 46,
        spec_isa_feature(Opcode::V256VpxorVdqHdqWdq) == 47,
        spec_isa_feature(Opcode::V128VpmulhrswVdqHdqWdq) == 46,
        spec_isa_feature(Opcode::V256VpmulhrswVdqHdqWdq) == 47,
        spec_isa_feature(Opcode::V128VpmuldqVdqHdqWdq) == 46,
        spec_isa_feature(Opcode::V256VpmuldqVdqHdqWdq) == 47,
        spec_isa_feature(Opcode::V128VpmuludqVdqHdqWdq) == 46,
        spec_isa_feature(Opcode::V256VpmuludqVdqHdqWdq) == 47,
        spec_isa_feature(Opcode::V128VpmulldVdqHdqWdq) == 46,
        spec_isa_feature(Opcode::V256VpmulldVdqHdqWdq) == 47,
        spec_isa_feature(Opcode::V128VpmullwVdqHdqWdq) == 46,
        spec_isa_feature(Opcode::V256VpmullwVdqHdqWdq) == 47,
        spec_isa_feature(Opcode::V128VpmulhwVdqHdqWdq) == 46,
        spec_isa_feature(Opcode::V256VpmulhwVdqHdqWdq) == 47,
        spec_isa_feature(Opcode::V128VpmulhuwVdqHdqWdq) == 46,
        spec_isa_feature(Opcode::V256VpmulhuwVdqHdqWdq) == 47,
        spec_isa_feature(Opcode::V128VpsadbwVdqHdqWdq) == 46,
        spec_isa_feature(Opcode::V256VpsadbwVdqHdqWdq) == 47,
        spec_isa_feature(Opcode::V128VmaskmovdquVdqUdq) == 46,
        spec_isa_feature(Opcode::V128VpsubbVdqHdqWdq) == 46,
        spec_isa_feature(Opcode::V256VpsubbVdqHdqWdq) == 47,
        spec_isa_feature(Opcode::V128VpsubwVdqHdqWdq) == 46,
        spec_isa_feature(Opcode::V256VpsubwVdqHdqWdq) == 47,
        spec_isa_feature(Opcode::V128VpsubdVdqHdqWdq) == 46,
        spec_isa_feature(Opcode::V256VpsubdVdqHdqWdq) == 47,
        spec_isa_feature(Opcode::V128VpsubqVdqHdqWdq) == 46,
        spec_isa_feature(Opcode::V256VpsubqVdqHdqWdq) == 47,
        spec_isa_feature(Opcode::V128VpaddbVdqHdqWdq) == 46,
        spec_isa_feature(Opcode::V256VpaddbVdqHdqWdq) == 47,
        spec_isa_feature(Opcode::V128VpaddwVdqHdqWdq) == 46,
{
}

/// Every opcode the generated table gates on a CPU feature has that feature as its gate (entries 950..1000 of 2908).
#[verifier::spinoff_prover]
#[verifier::rlimit(100)]
pub proof fn lemma_isa_entries_19()
    ensures
        spec_isa_feature(Opcode::V256VpaddwVdqHdqWdq) == 47,
        spec_isa_feature(Opcode::V128VpadddVdqHdqWdq) == 46,
        spec_isa_feature(Opcode::V256VpadddVdqHdqWdq) == 47,
        spec_isa_feature(Opcode::V128VpaddqVdqHdqWdq) == 46,
        spec_isa_feature(Opcode::V256VpaddqVdqHdqWdq) == 47,
        spec_isa_feature(Opcode::V128VpshufbVdqHdqWdq) == 46,
        spec_isa_feature(Opcode::V256VpshufbVdqHdqWdq) == 47,
        spec_isa_feature(Opcode::V128VphaddwVdqHdqWdq) == 46,
        spec_isa_feature(Opcode::V256VphaddwVdqHdqWdq) == 47,
        spec_isa_feature(Opcode::V128VphadddVdqHdqWdq) == 46,
        spec_isa_feature(Opcode::V256VphadddVdqHdqWdq) == 47,
        spec_isa_feature(Opcode::V128VphsubwVdqHdqWdq) == 46,
        spec_isa_feature(Opcode::V256VphsubwVdqHdqWdq) == 47,
        spec_isa_feature(Opcode::V128VphsubdVdqHdqWdq) == 46,
        spec_isa_feature(Opcode::V256VphsubdVdqHdqWdq) == 47,
        spec_isa_feature(Opcode::V128VphaddswVdqHdqWdq) == 46,
        spec_isa_feature(Opcode::V256VphaddswVdqHdqWdq) == 47,
        spec_isa_feature(Opcode::V128VphsubswVdqHdqWdq) == 46,
        spec_isa_feature(Opcode::V256VphsubswVdqHdqWdq) == 47,
        spec_isa_feature(Opcode::V128VpmaddwdVdqHdqWdq) == 46,
        spec_isa_feature(Opcode::V256VpmaddwdVdqHdqWdq) == 47,
        spec_isa_feature(Opcode::V128VpmaddubswVdqHdqWdq) == 46,
        spec_isa_feature(Opcode::V256VpmaddubswVdqHdqWdq) == 47,
        spec_isa_feature(Opcode::V128VpsignbVdqHdqWdq) == 46,
        spec_isa_feature(Opcode::V256VpsignbVdqHdqWdq) == 47,
        spec_isa_feature(Opcode::V128VpsignwVdqHdqWdq) == 46,
        spec_isa_feature(Opcode::V256VpsignwVdqHdqWdq) == 47,
        spec_isa_feature(Opcode::V128VpsigndVdqHdqWdq) == 46,
        spec_isa_feature(Opcode::V256VpsigndVdqHdqWdq) == 47,
        spec_isa_feature(Opcode::VtestpsVpsWps) == 46,
        spec_isa_feature(Opcode::VtestpdVpdWpd) == 46,
        spec_isa_feature(Opcode::VptestVdqWdq) == 46,
        spec_isa_feature(Opcode::VbroadcastssVpsMss) == 46,
        spec_isa_feature(Opcode::V256VbroadcastsdVpdMsd) == 46,
        spec_isa_feature(Opcode::V256Vbroadcastf128VdqMdq) == 46,
        spec_isa_feature(Opcode::V128VpabsbVdqWdq) == 46,
        spec_isa_feature(Opcode::V256VpabsbVdqWdq) == 47,
        spec_isa_feature(Opcode::V128VpabswVdqWdq) == 46,
        spec_isa_feature(Opcode::V256VpabswVdqWdq) == 47,
        spec_isa_feature(Opcode::V128VpabsdVdqWdq) == 46,
        spec_isa_feature(Opcode::V256VpabsdVdqWdq) == 47,
        spec_isa_feature(Opcode::V128VpacksswbVdqHdqWdq) == 46,
        spec_isa_feature(Opcode::V256VpacksswbVdqHdqWdq) == 47,
        spec_isa_feature(Opcode::V128VpackuswbVdqHdqWdq) == 46,
        spec_isa_feature(Opcode::V256VpackuswbVdqHdqWdq) == 47,
        spec_isa_feature(Opcode::V128VpackusdwVdqHdqWdq) == 46,
        spec_isa_feature(Opcode::V256VpackusdwVdqHdqWdq) == 47,
        spec_isa_feature(Opcode::V128VpackssdwVdqHdqWdq) == 46,
        spec_isa_feature(Opcode::V256VpackssdwVdqHdqWdq) == 47,
        spec_isa_feature(Opcode::VmaskmovpsVpsHpsMps) == 46,
{
}

/// Every opcode the generated table gates on a CPU feature has that feature as its gate (entries 1000..1050 of 2908).
#[verifier::spinoff_prover]
#[verifier::rlimit(100)]
pub proof fn lemma_isa_entries_20()
    ensures
        spec_isa_feature(Opcode::VmaskmovpdVpdHpdMpd) == 46,
        spec_isa_feature(Opcode::VmaskmovpsMpsHpsVps) == 46,
        spec_isa_feature(Opcode::VmaskmovpdMpdHpdVpd) == 46,
        spec_isa_feature(Opcode::V128VpmovsxbwVdqWq) == 46,
        spec_isa_feature(Opcode::V128VpmovsxbdVdqWd) == 46,
        spec_isa_feature(Opcode::V128VpmovsxbqVdqWw) == 46,
        spec_isa_feature(Opcode::V128VpmovsxwdVdqWq) == 46,
        spec_isa_feature(Opcode::V128VpmovsxwqVdqWd) == 46,
        spec_isa_feature(Opcode::V128VpmovsxdqVdqWq) == 46,
        spec_isa_feature(Opcode::V128VpmovzxbwVdqWq) == 46,
        spec_isa_feature(Opcode::V128VpmovzxbdVdqWd) == 46,
        spec_isa_feature(Opcode::V128VpmovzxbqVdqWw) == 46,
        spec_isa_feature(Opcode::V128VpmovzxwdVdqWq) == 46,
        spec_isa_feature(Opcode::V128VpmovzxwqVdqWd) == 46,
        spec_isa_feature(Opcode::V128VpmovzxdqVdqWq) == 46,
        spec_isa_feature(Opcode::V128VpminsbVdqHdqWdq) == 46,
        spec_isa_feature(Opcode::V256VpminsbVdqHdqWdq) == 47,
        spec_isa_feature(Opcode::V128VpminswVdqHdqWdq) == 46,
        spec_isa_feature(Opcode::V256VpminswVdqHdqWdq) == 47,
        spec_isa_feature(Opcode::V128VpminsdVdqHdqWdq) == 46,
        spec_isa_feature(Opcode::V256VpminsdVdqHdqWdq) == 47,
        spec_isa_feature(Opcode::V128VpminubVdqHdqWdq) == 46,
        spec_isa_feature(Opcode::V256VpminubVdqHdqWdq) == 47,
        spec_isa_feature(Opcode::V128VpminuwVdqHdqWdq) == 46,
        spec_isa_feature(Opcode::V256VpminuwVdqHdqWdq) == 47,
        spec_isa_feature(Opcode::V128VpminudVdqHdqWdq) == 46,
        spec_isa_feature(Opcode::V256VpminudVdqHdqWdq) == 47,
        spec_isa_feature(Opcode::V128VpmaxsbVdqHdqWdq) == 46,
        spec_isa_feature(Opcode::V256VpmaxsbVdqHdqWdq) == 47,
        spec_isa_feature(Opcode::V128VpmaxswVdqHdqWdq) == 46,
        spec_isa_feature(Opcode::V256VpmaxswVdqHdqWdq) == 47,
        spec_isa_feature(Opcode::V128VpmaxsdVdqHdqWdq) == 46,
        spec_isa_feature(Opcode::V256VpmaxsdVdqHdqWdq) == 47,
        spec_isa_feature(Opcode::V128VpmaxubVdqHdqWdq) == 46,
        spec_isa_feature(Opcode::V256VpmaxubVdqHdqWdq) == 47,
        spec_isa_feature(Opcode::V128VpmaxuwVdqHdqWdq) == 46,
        spec_isa_feature(Opcode::V256VpmaxuwVdqHdqWdq) == 47,
        spec_isa_feature(Opcode::V128VpmaxudVdqHdqWdq) == 46,
        spec_isa_feature(Opcode::V256VpmaxudVdqHdqWdq) == 47,
        spec_isa_feature(Opcode::V128VphminposuwVdqWdq) == 46,
        spec_isa_feature(Opcode::VpermilpsVpsHpsWps) == 46,
        spec_isa_feature(Opcode::VpermilpdVpdHpdWpd) == 46,
        spec_isa_feature(Opcode::VpermilpsVpsWpsIb) == 46,
        spec_isa_feature(Opcode::VpermilpdVpdWpdIb) == 46,
        spec_isa_feature(Opcode::VblendpsVpsHpsWpsIb) == 46,
        spec_isa_feature(Opcode::VblendpdVpdHpdWpdIb) == 46,
        spec_isa_feature(Opcode::V128VpblendwVdqHdqWdqIb) == 46,
        spec_isa_feature(Opcode::V256VpblendwVdqHdqWdqIb) == 47,
        spec_isa_feature(Opcode::V128VpalignrVdqHdqWdqIb) == 46,
        spec_isa_feature(Opcode::V256VpalignrVdqHdqWdqIb) == 47,
{
}

/// Every opcode the generated table gates on a CPU feature has that feature as its gate (entries 1050..1100 of 2908).
#[verifier::spinoff_prover]
#[verifier::rlimit(100)]
pub proof fn lemma_isa_entries_21()
    ensures
        spec_isa_feature(Opcode::V128VinsertpsVpsWssIb) == 46,
        spec_isa_feature(Opcode::V128VextractpsEdVpsIb) == 46,
        spec_isa_feature(Opcode::V256Vperm2f128VdqHdqWdqIb) == 46,
        spec_isa_feature(Opcode::V256Vinsertf128VdqHdqWdqIb) == 46,
        spec_isa_feature(Opcode::V256Vextractf128WdqVdqIb) == 46,
        spec_isa_feature(Opcode::VblendvpsVpsHpsWpsIb) == 46,
        spec_isa_feature(Opcode::VblendvpdVpdHpdWpdIb) == 46,
        spec_isa_feature(Opcode::V128VpblendvbVdqHdqWdqIb) == 46,
        spec_isa_feature(Opcode::V256VpblendvbVdqHdqWdqIb) == 47,
        spec_isa_feature(Opcode::V128VmpsadbwVdqHdqWdqIb) == 46,
        spec_isa_feature(Opcode::V256VmpsadbwVdqHdqWdqIb) == 47,
        spec_isa_feature(Opcode::V128VpcmpestrmVdqWdqIb) == 46,
        spec_isa_feature(Opcode::V128VpcmpestriVdqWdqIb) == 46,
        spec_isa_feature(Opcode::V128VpcmpistrmVdqWdqIb) == 46,
        spec_isa_feature(Opcode::V128VpcmpistriVdqWdqIb) == 46,
        spec_isa_feature(Opcode::V128VaesimcVdqWdq) == 46,
        spec_isa_feature(Opcode::V128VaeskeygenassistVdqWdqIb) == 46,
        spec_isa_feature(Opcode::V128VaesencVdqHdqWdq) == 46,
        spec_isa_feature(Opcode::V128VaesenclastVdqHdqWdq) == 46,
        spec_isa_feature(Opcode::V128VaesdecVdqHdqWdq) == 46,
        spec_isa_feature(Opcode::V128VaesdeclastVdqHdqWdq) == 46,
        spec_isa_feature(Opcode::V128VpclmulqdqVdqHdqWdqIb) == 46,
        spec_isa_feature(Opcode::V256VaesencVdqHdqWdq) == 43,
        spec_isa_feature(Opcode::V256VaesenclastVdqHdqWdq) == 43,
        spec_isa_feature(Opcode::V256VaesdecVdqHdqWdq) == 43,
        spec_isa_feature(Opcode::V256VaesdeclastVdqHdqWdq) == 43,
        spec_isa_feature(Opcode::V256VpclmulqdqVdqHdqWdqIb) == 43,
        spec_isa_feature(Opcode::Vgf2p8affineqbVdqHdqWdqIb) == 69,
        spec_isa_feature(Opcode::Vgf2p8affineinvqbVdqHdqWdqIb) == 69,
        spec_isa_feature(Opcode::Vgf2p8mulbVdqHdqWdq) == 69,
        spec_isa_feature(Opcode::Vsm3msg1VdqHdqWdq) == 70,
        spec_isa_feature(Opcode::Vsm3msg2VdqHdqWdq) == 70,
        spec_isa_feature(Opcode::Vsm3rnds2VdqHdqWdqIb) == 70,
        spec_isa_feature(Opcode::Vsm4key4VdqHdqWdq) == 71,
        spec_isa_feature(Opcode::Vsm4rnds4VdqHdqWdq) == 71,
        spec_isa_feature(Opcode::Vsha512msg1VdqWdq) == 68,
        spec_isa_feature(Opcode::Vsha512msg2VdqWdq) == 68,
        spec_isa_feature(Opcode::Vsha512rnds2VdqHdqWdq) == 68,
        spec_isa_feature(Opcode::V128VmovdVdqEd) == 46,
        spec_isa_feature(Opcode::V128VmovqVdqEq) == 46,
        spec_isa_feature(Opcode::V128VmovdEdVd) == 46,
        spec_isa_feature(Opcode::V128VmovqEqVq) == 46,
        spec_isa_feature(Opcode::V128VpinsrbVdqEbIb) == 46,
        spec_isa_feature(Opcode::V128VpinsrwVdqEwIb) == 46,
        spec_isa_feature(Opcode::V128VpextrwGdUdqIb) == 46,
        spec_isa_feature(Opcode::V128VpextrbEdVdqIbR) == 46,
        spec_isa_feature(Opcode::V128VpextrbMbVdqIbM) == 46,
        spec_isa_feature(Opcode::V128VpextrwEdVdqIbR) == 46,
        spec_isa_feature(Opcode::V128VpextrwMwVdqIbM) == 46,
        spec_isa_feature(Opcode::V128VpinsrdVdqEdIb) == 46,
{
}

/// Every opcode the generated table gates on a CPU feature has that feature as its gate (entries 1100..1150 of 2908).
#[verifier::spinoff_prover]
#[verifier::rlimit(100)]
pub proof fn lemma_isa_entries_22()
    ensures
        spec_isa_feature(Opcode::V128VpinsrqVdqEqIb) == 46,
        spec_isa_feature(Opcode::V128VpextrdEdVdqIb) == 46,
        spec_isa_feature(Opcode::V128VpextrqEqVdqIb) == 46,
        spec_isa_feature(Opcode::Vcvtps2pdVpdWps) == 46,
        spec_isa_feature(Opcode::Vcvttpd2dqVdqWpd) == 46,
        spec_isa_feature(Opcode::Vcvtpd2dqVdqWpd) == 46,
        spec_isa_feature(Opcode::Vcvtdq2pdVpdWdq) == 46,
        spec_isa_feature(Opcode::Vcvtpd2psVpsWpd) == 46,
        spec_isa_feature(Opcode::Vcvtsd2ssVssWsd) == 46,
        spec_isa_feature(Opcode::Vcvtss2sdVsdWss) == 46,
        spec_isa_feature(Opcode::Vcvtdq2psVpsWdq) == 46,
        spec_isa_feature(Opcode::Vcvtps2dqVdqWps) == 46,
        spec_isa_feature(Opcode::Vcvttps2dqVdqWps) == 46,
        spec_isa_feature(Opcode::Vcvtss2siGdWss) == 46,
        spec_isa_feature(Opcode::Vcvtss2siGqWss) == 46,
        spec_isa_feature(Opcode::Vcvtsd2siGdWsd) == 46,
        spec_isa_feature(Opcode::Vcvtsd2siGqWsd) == 46,
        spec_isa_feature(Opcode::Vcvttss2siGdWss) == 46,
        spec_isa_feature(Opcode::Vcvttss2siGqWss) == 46,
        spec_isa_feature(Opcode::Vcvttsd2siGdWsd) == 46,
        spec_isa_feature(Opcode::Vcvttsd2siGqWsd) == 46,
        spec_isa_feature(Opcode::Vcvtsi2ssVssEd) == 46,
        spec_isa_feature(Opcode::Vcvtsi2ssVssEq) == 46,
        spec_isa_feature(Opcode::Vcvtsi2sdVsdEd) == 46,
        spec_isa_feature(Opcode::Vcvtsi2sdVsdEq) == 46,
        spec_isa_feature(Opcode::VmovqWqVq) == 46,
        spec_isa_feature(Opcode::VmovqVqWq) == 46,
        spec_isa_feature(Opcode::Vcvtph2psVpsWps) == 48,
        spec_isa_feature(Opcode::Vcvtps2phWpsVpsIb) == 48,
        spec_isa_feature(Opcode::V256VpmovsxbwVdqWdq) == 47,
        spec_isa_feature(Opcode::V256VpmovsxbdVdqWq) == 47,
        spec_isa_feature(Opcode::V256VpmovsxbqVdqWd) == 47,
        spec_isa_feature(Opcode::V256VpmovsxwdVdqWdq) == 47,
        spec_isa_feature(Opcode::V256VpmovsxwqVdqWq) == 47,
        spec_isa_feature(Opcode::V256VpmovsxdqVdqWdq) == 47,
        spec_isa_feature(Opcode::V256VpmovzxbwVdqWdq) == 47,
        spec_isa_feature(Opcode::V256VpmovzxbdVdqWq) == 47,
        spec_isa_feature(Opcode::V256VpmovzxbqVdqWd) == 47,
        spec_isa_feature(Opcode::V256VpmovzxwdVdqWdq) == 47,
        spec_isa_feature(Opcode::V256VpmovzxwqVdqWq) == 47,
        spec_isa_feature(Opcode::V256VpmovzxdqVdqWdq) == 47,
        spec_isa_feature(Opcode::V256Vperm2i128VdqHdqWdqIb) == 47,
        spec_isa_feature(Opcode::V256Vinserti128VdqHdqWdqIb) == 47,
        spec_isa_feature(Opcode::V256Vextracti128WdqVdqIb) == 47,
        spec_isa_feature(Opcode::V256Vbroadcasti128VdqMdq) == 47,
        spec_isa_feature(Opcode::VpbroadcastbVdqWb) == 47,
        spec_isa_feature(Opcode::VpbroadcastwVdqWw) == 47,
        spec_isa_feature(Opcode::VpbroadcastdVdqWd) == 47,
        spec_isa_feature(Opcode::VpbroadcastqVdqWq) == 47,
        spec_isa_feature(Opcode::VbroadcastssVpsWss) == 47,
{
}

/// Every opcode the generated table gates on a CPU feature has that feature as its gate (entries 1150..1200 of 2908).
#[verifier::spinoff_prover]
#[verifier::rlimit(100)]
pub proof fn lemma_isa_entries_23()
    ensures
        spec_isa_feature(Opcode::V256VbroadcastsdVpdWsd) == 47,
        spec_isa_feature(Opcode::VpblenddVdqHdqWdqIb) == 47,
        spec_isa_feature(Opcode::VmaskmovdVdqHdqMdq) == 47,
        spec_isa_feature(Opcode::VmaskmovqVdqHdqMdq) == 47,
        spec_isa_feature(Opcode::VmaskmovdMdqHdqVdq) == 47,
        spec_isa_feature(Opcode::VmaskmovqMdqHdqVdq) == 47,
        spec_isa_feature(Opcode::VgatherdpsVpsHps) == 47,
        spec_isa_feature(Opcode::VgatherdpdVpdHpd) == 47,
        spec_isa_feature(Opcode::VgatherqpsVpsHps) == 47,
        spec_isa_feature(Opcode::VgatherqpdVpdHpd) == 47,
        spec_isa_feature(Opcode::VgatherddVdqHdq) == 47,
        spec_isa_feature(Opcode::VgatherdqVdqHdq) == 47,
        spec_isa_feature(Opcode::VgatherqdVdqHdq) == 47,
        spec_isa_feature(Opcode::VgatherqqVdqHdq) == 47,
        spec_isa_feature(Opcode::VpsrlvdVdqHdqWdq) == 47,
        spec_isa_feature(Opcode::VpsrlvqVdqHdqWdq) == 47,
        spec_isa_feature(Opcode::VpsllvdVdqHdqWdq) == 47,
        spec_isa_feature(Opcode::VpsllvqVdqHdqWdq) == 47,
        spec_isa_feature(Opcode::V256VpermqVdqWdqIb) == 47,
        spec_isa_feature(Opcode::V256VpermdVdqHdqWdq) == 47,
        spec_isa_feature(Opcode::V256VpermpsVpsHpsWps) == 47,
        spec_isa_feature(Opcode::V256VpermpdVpdWpdIb) == 47,
        spec_isa_feature(Opcode::VpsravdVdqHdqWdq) == 47,
        spec_isa_feature(Opcode::Vfmadd132psVpsHpsWps) == 49,
        spec_isa_feature(Opcode::Vfmadd132pdVpdHpdWpd) == 49,
        spec_isa_feature(Opcode::Vfmadd213psVpsHpsWps) == 49,
        spec_isa_feature(Opcode::Vfmadd213pdVpdHpdWpd) == 49,
        spec_isa_feature(Opcode::Vfmadd231psVpsHpsWps) == 49,
        spec_isa_feature(Opcode::Vfmadd231pdVpdHpdWpd) == 49,
        spec_isa_feature(Opcode::Vfmadd132ssVpsHssWss) == 49,
        spec_isa_feature(Opcode::Vfmadd132sdVpdHsdWsd) == 49,
        spec_isa_feature(Opcode::Vfmadd213ssVpsHssWss) == 49,
        spec_isa_feature(Opcode::Vfmadd213sdVpdHsdWsd) == 49,
        spec_isa_feature(Opcode::Vfmadd231ssVpsHssWss) == 49,
        spec_isa_feature(Opcode::Vfmadd231sdVpdHsdWsd) == 49,
        spec_isa_feature(Opcode::Vfmaddsub132psVpsHpsWps) == 49,
        spec_isa_feature(Opcode::Vfmaddsub132pdVpdHpdWpd) == 49,
        spec_isa_feature(Opcode::Vfmaddsub213psVpsHpsWps) == 49,
        spec_isa_feature(Opcode::Vfmaddsub213pdVpdHpdWpd) == 49,
        spec_isa_feature(Opcode::Vfmaddsub231psVpsHpsWps) == 49,
        spec_isa_feature(Opcode::Vfmaddsub231pdVpdHpdWpd) == 49,
        spec_isa_feature(Opcode::Vfmsubadd132psVpsHpsWps) == 49,
        spec_isa_feature(Opcode::Vfmsubadd132pdVpdHpdWpd) == 49,
        spec_isa_feature(Opcode::Vfmsubadd213psVpsHpsWps) == 49,
        spec_isa_feature(Opcode::Vfmsubadd213pdVpdHpdWpd) == 49,
        spec_isa_feature(Opcode::Vfmsubadd231psVpsHpsWps) == 49,
        spec_isa_feature(Opcode::Vfmsubadd231pdVpdHpdWpd) == 49,
        spec_isa_feature(Opcode::Vfmsub132psVpsHpsWps) == 49,
        spec_isa_feature(Opcode::Vfmsub132pdVpdHpdWpd) == 49,
        spec_isa_feature(Opcode::Vfmsub213psVpsHpsWps) == 49,
{
}

/// Every opcode the generated table gates on a CPU feature has that feature as its gate (entries 1200..1250 of 2908).
#[verifier::spinoff_prover]
#[verifier::rlimit(100)]
pub proof fn lemma_isa_entries_24()
    ensures
        spec_isa_feature(Opcode::Vfmsub213pdVpdHpdWpd) == 49,
        spec_isa_feature(Opcode::Vfmsub231psVpsHpsWps) == 49,
        spec_isa_feature(Opcode::Vfmsub231pdVpdHpdWpd) == 49,
        spec_isa_feature(Opcode::Vfmsub132ssVpsHssWss) == 49,
        spec_isa_feature(Opcode::Vfmsub132sdVpdHsdWsd) == 49,
        spec_isa_feature(Opcode::Vfmsub213ssVpsHssWss) == 49,
        spec_isa_feature(Opcode::Vfmsub213sdVpdHsdWsd) == 49,
        spec_isa_feature(Opcode::Vfmsub231ssVpsHssWss) == 49,
        spec_isa_feature(Opcode::Vfmsub231sdVpdHsdWsd) == 49,
        spec_isa_feature(Opcode::Vfnmadd132psVpsHpsWps) == 49,
        spec_isa_feature(Opcode::Vfnmadd132pdVpdHpdWpd) == 49,
        spec_isa_feature(Opcode::Vfnmadd213psVpsHpsWps) == 49,
        spec_isa_feature(Opcode::Vfnmadd213pdVpdHpdWpd) == 49,
        spec_isa_feature(Opcode::Vfnmadd231psVpsHpsWps) == 49,
        spec_isa_feature(Opcode::Vfnmadd231pdVpdHpdWpd) == 49,
        spec_isa_feature(Opcode::Vfnmadd132ssVpsHssWss) == 49,
        spec_isa_feature(Opcode::Vfnmadd132sdVpdHsdWsd) == 49,
        spec_isa_feature(Opcode::Vfnmadd213ssVpsHssWss) == 49,
        spec_isa_feature(Opcode::Vfnmadd213sdVpdHsdWsd) == 49,
        spec_isa_feature(Opcode::Vfnmadd231ssVpsHssWss) == 49,
        spec_isa_feature(Opcode::Vfnmadd231sdVpdHsdWsd) == 49,
        spec_isa_feature(Opcode::Vfnmsub132psVpsHpsWps) == 49,
        spec_isa_feature(Opcode::Vfnmsub132pdVpdHpdWpd) == 49,
        spec_isa_feature(Opcode::Vfnmsub213psVpsHpsWps) == 49,
        spec_isa_feature(Opcode::Vfnmsub213pdVpdHpdWpd) == 49,
        spec_isa_feature(Opcode::Vfnmsub231psVpsHpsWps) == 49,
        spec_isa_feature(Opcode::Vfnmsub231pdVpdHpdWpd) == 49,
        spec_isa_feature(Opcode::Vfnmsub132ssVpsHssWss) == 49,
        spec_isa_feature(Opcode::Vfnmsub132sdVpdHsdWsd) == 49,
        spec_isa_feature(Opcode::Vfnmsub213ssVpsHssWss) == 49,
        spec_isa_feature(Opcode::Vfnmsub213sdVpdHsdWsd) == 49,
        spec_isa_feature(Opcode::Vfnmsub231ssVpsHssWss) == 49,
        spec_isa_feature(Opcode::Vfnmsub231sdVpdHsdWsd) == 49,
        spec_isa_feature(Opcode::VpdpbusdVdqHdqWdq) == 73,
        spec_isa_feature(Opcode::VpdpbusdsVdqHdqWdq) == 73,
        spec_isa_feature(Opcode::VpdpwssdVdqHdqWdq) == 73,
        spec_isa_feature(Opcode::VpdpwssdsVdqHdqWdq) == 73,
        spec_isa_feature(Opcode::Vpmadd52luqVdqHdqWdq) == 72,
        spec_isa_feature(Opcode::Vpmadd52huqVdqHdqWdq) == 72,
        spec_isa_feature(Opcode::VpdpbssdVdqHdqWdq) == 74,
        spec_isa_feature(Opcode::VpdpbssdsVdqHdqWdq) == 74,
        spec_isa_feature(Opcode::VpdpbsudVdqHdqWdq) == 74,
        spec_isa_feature(Opcode::VpdpbsudsVdqHdqWdq) == 74,
        spec_isa_feature(Opcode::VpdpbuudVdqHdqWdq) == 74,
        spec_isa_feature(Opcode::VpdpbuudsVdqHdqWdq) == 74,
        spec_isa_feature(Opcode::VpdpwsudVdqHdqWdq) == 75,
        spec_isa_feature(Opcode::VpdpwsudsVdqHdqWdq) == 75,
        spec_isa_feature(Opcode::VpdpwusdVdqHdqWdq) == 75,
        spec_isa_feature(Opcode::VpdpwusdsVdqHdqWdq) == 75,
        spec_isa_feature(Opcode::VpdpwuudVdqHdqWdq) == 75,
{
}

/// Every opcode the generated table gates on a CPU feature has that feature as its gate (entries 1250..1300 of 2908).
#[verifier::spinoff_prover]
#[verifier::rlimit(100)]
pub proof fn lemma_isa_entries_25()
    ensures
        spec_isa_feature(Opcode::VpdpwuudsVdqHdqWdq) == 75,
        spec_isa_feature(Opcode::Vbcstnebf162psVpsWw) == 76,
        spec_isa_feature(Opcode::Vbcstnesh2psVpsWsh) == 76,
        spec_isa_feature(Opcode::Vcvtneeph2psVpsWph) == 76,
        spec_isa_feature(Opcode::Vcvtneoph2psVpsWph) == 76,
        spec_isa_feature(Opcode::Vcvtneebf162psVpsWph) == 76,
        spec_isa_feature(Opcode::Vcvtneobf162psVpsWph) == 76,
        spec_isa_feature(Opcode::Vcvtneps2bf16VphWps) == 76,
        spec_isa_feature(Opcode::AndnGdBdEd) == 54,
        spec_isa_feature(Opcode::AndnGqBqEq) == 54,
        spec_isa_feature(Opcode::BlsiBdEd) == 54,
        spec_isa_feature(Opcode::BlsiBqEq) == 54,
        spec_isa_feature(Opcode::BlsmskBdEd) == 54,
        spec_isa_feature(Opcode::BlsmskBqEq) == 54,
        spec_isa_feature(Opcode::BlsrBdEd) == 54,
        spec_isa_feature(Opcode::BlsrBqEq) == 54,
        spec_isa_feature(Opcode::BextrGdEdBd) == 54,
        spec_isa_feature(Opcode::BextrGqEqBq) == 54,
        spec_isa_feature(Opcode::MulxGdBdEd) == 55,
        spec_isa_feature(Opcode::MulxGqBqEq) == 55,
        spec_isa_feature(Opcode::RorxGdEdIb) == 55,
        spec_isa_feature(Opcode::RorxGqEqIb) == 55,
        spec_isa_feature(Opcode::ShlxGdEdBd) == 55,
        spec_isa_feature(Opcode::ShlxGqEqBq) == 55,
        spec_isa_feature(Opcode::ShrxGdEdBd) == 55,
        spec_isa_feature(Opcode::ShrxGqEqBq) == 55,
        spec_isa_feature(Opcode::SarxGdEdBd) == 55,
        spec_isa_feature(Opcode::SarxGqEqBq) == 55,
        spec_isa_feature(Opcode::BzhiGdBdEd) == 55,
        spec_isa_feature(Opcode::BzhiGqBqEq) == 55,
        spec_isa_feature(Opcode::PextGdBdEd) == 55,
        spec_isa_feature(Opcode::PextGqBqEq) == 55,
        spec_isa_feature(Opcode::PdepGdBdEd) == 55,
        spec_isa_feature(Opcode::PdepGqBqEq) == 55,
        spec_isa_feature(Opcode::CmpbexaddEdGdBd) == 122,
        spec_isa_feature(Opcode::CmpbexaddEqGqBq) == 122,
        spec_isa_feature(Opcode::CmpbxaddEdGdBd) == 122,
        spec_isa_feature(Opcode::CmpbxaddEqGqBq) == 122,
        spec_isa_feature(Opcode::CmplexaddEdGdBd) == 122,
        spec_isa_feature(Opcode::CmplexaddEqGqBq) == 122,
        spec_isa_feature(Opcode::CmplxaddEdGdBd) == 122,
        spec_isa_feature(Opcode::CmplxaddEqGqBq) == 122,
        spec_isa_feature(Opcode::CmpnbexaddEdGdBd) == 122,
        spec_isa_feature(Opcode::CmpnbexaddEqGqBq) == 122,
        spec_isa_feature(Opcode::CmpnbxaddEdGdBd) == 122,
        spec_isa_feature(Opcode::CmpnbxaddEqGqBq) == 122,
        spec_isa_feature(Opcode::CmpnlexaddEdGdBd) == 122,
        spec_isa_feature(Opcode::CmpnlexaddEqGqBq) == 122,
        spec_isa_feature(Opcode::CmpnlxaddEdGdBd) == 122,
        spec_isa_feature(Opcode::CmpnlxaddEqGqBq) == 122,
{
}

/// Every opcode the generated table gates on a CPU feature has that feature as its gate (entries 1300..1350 of 2908).
#[verifier::spinoff_prover]
#[verifier::rlimit(100)]
pub proof fn lemma_isa_entries_26()
    ensures
        spec_isa_feature(Opcode::CmpnoxaddEdGdBd) == 122,
        spec_isa_feature(Opcode::CmpnoxaddEqGqBq) == 122,
        spec_isa_feature(Opcode::CmpnpxaddEdGdBd) == 122,
        spec_isa_feature(Opcode::CmpnpxaddEqGqBq) == 122,
        spec_isa_feature(Opcode::CmpnsxaddEdGdBd) == 122,
        spec_isa_feature(Opcode::CmpnsxaddEqGqBq) == 122,
        spec_isa_feature(Opcode::CmpnzxaddEdGdBd) == 122,
        spec_isa_feature(Opcode::CmpnzxaddEqGqBq) == 122,
        spec_isa_feature(Opcode::CmpoxaddEdGdBd) == 122,
        spec_isa_feature(Opcode::CmpoxaddEqGqBq) == 122,
        spec_isa_feature(Opcode::CmppxaddEdGdBd) == 122,
        spec_isa_feature(Opcode::CmppxaddEqGqBq) == 122,
        spec_isa_feature(Opcode::CmpsxaddEdGdBd) == 122,
        spec_isa_feature(Opcode::CmpsxaddEqGqBq) == 122,
        spec_isa_feature(Opcode::CmpzxaddEdGdBd) == 122,
        spec_isa_feature(Opcode::CmpzxaddEqGqBq) == 122,
        spec_isa_feature(Opcode::VfmaddsubpsVpsHpsVibWps) == 56,
        spec_isa_feature(Opcode::VfmaddsubpsVpsHpsWpsVib) == 56,
        spec_isa_feature(Opcode::VfmaddsubpdVpdHpdVibWpd) == 56,
        spec_isa_feature(Opcode::VfmaddsubpdVpdHpdWpdVib) == 56,
        spec_isa_feature(Opcode::VfmsubaddpsVpsHpsVibWps) == 56,
        spec_isa_feature(Opcode::VfmsubaddpsVpsHpsWpsVib) == 56,
        spec_isa_feature(Opcode::VfmsubaddpdVpdHpdVibWpd) == 56,
        spec_isa_feature(Opcode::VfmsubaddpdVpdHpdWpdVib) == 56,
        spec_isa_feature(Opcode::VfmaddpsVpsHpsVibWps) == 56,
        spec_isa_feature(Opcode::VfmaddpsVpsHpsWpsVib) == 56,
        spec_isa_feature(Opcode::VfmaddpdVpdHpdVibWpd) == 56,
        spec_isa_feature(Opcode::VfmaddpdVpdHpdWpdVib) == 56,
        spec_isa_feature(Opcode::VfmaddssVssHssVibWss) == 56,
        spec_isa_feature(Opcode::VfmaddssVssHssWssVib) == 56,
        spec_isa_feature(Opcode::VfmaddsdVsdHsdVibWsd) == 56,
        spec_isa_feature(Opcode::VfmaddsdVsdHsdWsdVib) == 56,
        spec_isa_feature(Opcode::VfmsubpsVpsHpsVibWps) == 56,
        spec_isa_feature(Opcode::VfmsubpsVpsHpsWpsVib) == 56,
        spec_isa_feature(Opcode::VfmsubpdVpdHpdVibWpd) == 56,
        spec_isa_feature(Opcode::VfmsubpdVpdHpdWpdVib) == 56,
        spec_isa_feature(Opcode::VfmsubssVssHssVibWss) == 56,
        spec_isa_feature(Opcode::VfmsubssVssHssWssVib) == 56,
        spec_isa_feature(Opcode::VfmsubsdVsdHsdVibWsd) == 56,
        spec_isa_feature(Opcode::VfmsubsdVsdHsdWsdVib) == 56,
        spec_isa_feature(Opcode::VfnmaddpsVpsHpsVibWps) == 56,
        spec_isa_feature(Opcode::VfnmaddpsVpsHpsWpsVib) == 56,
        spec_isa_feature(Opcode::VfnmaddpdVpdHpdVibWpd) == 56,
        spec_isa_feature(Opcode::VfnmaddpdVpdHpdWpdVib) == 56,
        spec_isa_feature(Opcode::VfnmaddssVssHssVibWss) == 56,
        spec_isa_feature(Opcode::VfnmaddssVssHssWssVib) == 56,
        spec_isa_feature(Opcode::VfnmaddsdVsdHsdVibWsd) == 56,
        spec_isa_feature(Opcode::VfnmaddsdVsdHsdWsdVib) == 56,
        spec_isa_feature(Opcode::VfnmsubpsVpsHpsVibWps) == 56,
        spec_isa_feature(Opcode::VfnmsubpsVpsHpsWpsVib) == 56,
{
}

/// Every opcode the generated table gates on a CPU feature has that feature as its gate (entries 1350..1400 of 2908).
#[verifier::spinoff_prover]
#[verifier::rlimit(100)]
pub proof fn lemma_isa_entries_27()
    ensures
        spec_isa_feature(Opcode::VfnmsubpdVpdHpdVibWpd) == 56,
        spec_isa_feature(Opcode::VfnmsubpdVpdHpdWpdVib) == 56,
        spec_isa_feature(Opcode::VfnmsubssVssHssVibWss) == 56,
        spec_isa_feature(Opcode::VfnmsubssVssHssWssVib) == 56,
        spec_isa_feature(Opcode::VfnmsubsdVsdHsdVibWsd) == 56,
        spec_isa_feature(Opcode::VfnmsubsdVsdHsdWsdVib) == 56,
        spec_isa_feature(Opcode::VpcmovVdqHdqVibWdq) == 57,
        spec_isa_feature(Opcode::VpcmovVdqHdqWdqVib) == 57,
        spec_isa_feature(Opcode::VppermVdqHdqVibWdq) == 57,
        spec_isa_feature(Opcode::VppermVdqHdqWdqVib) == 57,
        spec_isa_feature(Opcode::Vpermil2psVdqHdqVibWdq) == 57,
        spec_isa_feature(Opcode::Vpermil2psVdqHdqWdqVib) == 57,
        spec_isa_feature(Opcode::Vpermil2pdVdqHdqVibWdq) == 57,
        spec_isa_feature(Opcode::Vpermil2pdVdqHdqWdqVib) == 57,
        spec_isa_feature(Opcode::VpshabVdqHdqWdq) == 57,
        spec_isa_feature(Opcode::VpshabVdqWdqHdq) == 57,
        spec_isa_feature(Opcode::VpshawVdqHdqWdq) == 57,
        spec_isa_feature(Opcode::VpshawVdqWdqHdq) == 57,
        spec_isa_feature(Opcode::VpshadVdqHdqWdq) == 57,
        spec_isa_feature(Opcode::VpshadVdqWdqHdq) == 57,
        spec_isa_feature(Opcode::VpshaqVdqHdqWdq) == 57,
        spec_isa_feature(Opcode::VpshaqVdqWdqHdq) == 57,
        spec_isa_feature(Opcode::VprotbVdqHdqWdq) == 57,
        spec_isa_feature(Opcode::VprotbVdqWdqHdq) == 57,
        spec_isa_feature(Opcode::VprotwVdqHdqWdq) == 57,
        spec_isa_feature(Opcode::VprotwVdqWdqHdq) == 57,
        spec_isa_feature(Opcode::VprotdVdqHdqWdq) == 57,
        spec_isa_feature(Opcode::VprotdVdqWdqHdq) == 57,
        spec_isa_feature(Opcode::VprotqVdqHdqWdq) == 57,
        spec_isa_feature(Opcode::VprotqVdqWdqHdq) == 57,
        spec_isa_feature(Opcode::VpshlbVdqHdqWdq) == 57,
        spec_isa_feature(Opcode::VpshlbVdqWdqHdq) == 57,
        spec_isa_feature(Opcode::VpshlwVdqHdqWdq) == 57,
        spec_isa_feature(Opcode::VpshlwVdqWdqHdq) == 57,
        spec_isa_feature(Opcode::VpshldVdqHdqWdq) == 57,
        spec_isa_feature(Opcode::VpshldVdqWdqHdq) == 57,
        spec_isa_feature(Opcode::VpshlqVdqHdqWdq) == 57,
        spec_isa_feature(Opcode::VpshlqVdqWdqHdq) == 57,
        spec_isa_feature(Opcode::VpmacsswwVdqHdqWdqVib) == 57,
        spec_isa_feature(Opcode::VpmacsswdVdqHdqWdqVib) == 57,
        spec_isa_feature(Opcode::VpmacssdqlVdqHdqWdqVib) == 57,
        spec_isa_feature(Opcode::VpmacssddVdqHdqWdqVib) == 57,
        spec_isa_feature(Opcode::VpmacssdqhVdqHdqWdqVib) == 57,
        spec_isa_feature(Opcode::VpmacswwVdqHdqWdqVib) == 57,
        spec_isa_feature(Opcode::VpmacswdVdqHdqWdqVib) == 57,
        spec_isa_feature(Opcode::VpmacsdqlVdqHdqWdqVib) == 57,
        spec_isa_feature(Opcode::VpmacsddVdqHdqWdqVib) == 57,
        spec_isa_feature(Opcode::VpmacsdqhVdqHdqWdqVib) == 57,
        spec_isa_feature(Opcode::VpmadcsswdVdqHdqWdqVib) == 57,
        spec_isa_feature(Opcode::VpmadcswdVdqHdqWdqVib) == 57,
{
}

/// Every opcode the generated table gates on a CPU feature has that feature as its gate (entries 1400..1450 of 2908).
#[verifier::spinoff_prover]
#[verifier::rlimit(100)]
pub proof fn lemma_isa_entries_28()
    ensures
        spec_isa_feature(Opcode::VprotbVdqWdqIb) == 57,
        spec_isa_feature(Opcode::VprotwVdqWdqIb) == 57,
        spec_isa_feature(Opcode::VprotdVdqWdqIb) == 57,
        spec_isa_feature(Opcode::VprotqVdqWdqIb) == 57,
        spec_isa_feature(Opcode::VpcombVdqHdqWdqIb) == 57,
        spec_isa_feature(Opcode::VpcomwVdqHdqWdqIb) == 57,
        spec_isa_feature(Opcode::VpcomdVdqHdqWdqIb) == 57,
        spec_isa_feature(Opcode::VpcomqVdqHdqWdqIb) == 57,
        spec_isa_feature(Opcode::VpcomubVdqHdqWdqIb) == 57,
        spec_isa_feature(Opcode::VpcomuwVdqHdqWdqIb) == 57,
        spec_isa_feature(Opcode::VpcomudVdqHdqWdqIb) == 57,
        spec_isa_feature(Opcode::VpcomuqVdqHdqWdqIb) == 57,
        spec_isa_feature(Opcode::VfrczpsVpsWps) == 57,
        spec_isa_feature(Opcode::VfrczpdVpdWpd) == 57,
        spec_isa_feature(Opcode::VfrczssVssWss) == 57,
        spec_isa_feature(Opcode::VfrczsdVsdWsd) == 57,
        spec_isa_feature(Opcode::VphaddbwVdqWdq) == 57,
        spec_isa_feature(Opcode::VphaddbdVdqWdq) == 57,
        spec_isa_feature(Opcode::VphaddbqVdqWdq) == 57,
        spec_isa_feature(Opcode::VphaddwdVdqWdq) == 57,
        spec_isa_feature(Opcode::VphaddwqVdqWdq) == 57,
        spec_isa_feature(Opcode::VphadddqVdqWdq) == 57,
        spec_isa_feature(Opcode::VphaddubwVdqWdq) == 57,
        spec_isa_feature(Opcode::VphaddubdVdqWdq) == 57,
        spec_isa_feature(Opcode::VphaddubqVdqWdq) == 57,
        spec_isa_feature(Opcode::VphadduwdVdqWdq) == 57,
        spec_isa_feature(Opcode::VphadduwqVdqWdq) == 57,
        spec_isa_feature(Opcode::VphaddudqVdqWdq) == 57,
        spec_isa_feature(Opcode::VphsubbwVdqWdq) == 57,
        spec_isa_feature(Opcode::VphsubwdVdqWdq) == 57,
        spec_isa_feature(Opcode::VphsubdqVdqWdq) == 57,
        spec_isa_feature(Opcode::BextrGdEdId) == 58,
        spec_isa_feature(Opcode::BextrGqEqId) == 58,
        spec_isa_feature(Opcode::BlcfillBdEd) == 58,
        spec_isa_feature(Opcode::BlcfillBqEq) == 58,
        spec_isa_feature(Opcode::BlciBdEd) == 58,
        spec_isa_feature(Opcode::BlciBqEq) == 58,
        spec_isa_feature(Opcode::BlcicBdEd) == 58,
        spec_isa_feature(Opcode::BlcicBqEq) == 58,
        spec_isa_feature(Opcode::BlcmskBdEd) == 58,
        spec_isa_feature(Opcode::BlcmskBqEq) == 58,
        spec_isa_feature(Opcode::BlcsBdEd) == 58,
        spec_isa_feature(Opcode::BlcsBqEq) == 58,
        spec_isa_feature(Opcode::BlsfillBdEd) == 58,
        spec_isa_feature(Opcode::BlsfillBqEq) == 58,
        spec_isa_feature(Opcode::BlsicBdEd) == 58,
        spec_isa_feature(Opcode::BlsicBqEq) == 58,
        spec_isa_feature(Opcode::T1mskcBdEd) == 58,
        spec_isa_feature(Opcode::T1mskcBqEq) == 58,
        spec_isa_feature(Opcode::TzmskBdEd) == 58,
{
}

/// Every opcode the generated table gates on a CPU feature has that feature as its gate (entries 1450..1500 of 2908).
#[verifier::spinoff_prover]
#[verifier::rlimit(100)]
pub proof fn lemma_isa_entries_29()
    ensures
        spec_isa_feature(Opcode::TzmskBqEq) == 58,
        spec_isa_feature(Opcode::TzcntGwEw) == 54,
        spec_isa_feature(Opcode::TzcntGdEd) == 54,
        spec_isa_feature(Opcode::TzcntGqEq) == 54,
        spec_isa_feature(Opcode::LzcntGwEw) == 53,
        spec_isa_feature(Opcode::LzcntGdEd) == 53,
        spec_isa_feature(Opcode::LzcntGqEq) == 53,
        spec_isa_feature(Opcode::MovntssMssVss) == 50,
        spec_isa_feature(Opcode::MovntsdMsdVsd) == 50,
        spec_isa_feature(Opcode::ExtrqUdqIbIb) == 50,
        spec_isa_feature(Opcode::ExtrqVdqUq) == 50,
        spec_isa_feature(Opcode::InsertqVdqUqIbIb) == 50,
        spec_isa_feature(Opcode::InsertqVdqUdq) == 50,
        spec_isa_feature(Opcode::AdcxGdEd) == 64,
        spec_isa_feature(Opcode::AdoxGdEd) == 64,
        spec_isa_feature(Opcode::AdcxGqEq) == 64,
        spec_isa_feature(Opcode::AdoxGqEq) == 64,
        spec_isa_feature(Opcode::Stac) == 65,
        spec_isa_feature(Opcode::Clac) == 65,
        spec_isa_feature(Opcode::RdrandEw) == 62,
        spec_isa_feature(Opcode::RdrandEd) == 62,
        spec_isa_feature(Opcode::RdrandEq) == 62,
        spec_isa_feature(Opcode::RdseedEw) == 63,
        spec_isa_feature(Opcode::RdseedEd) == 63,
        spec_isa_feature(Opcode::RdseedEq) == 63,
        spec_isa_feature(Opcode::MovdiriMdGd) == 128,
        spec_isa_feature(Opcode::MovdiriMqGq) == 128,
        spec_isa_feature(Opcode::Movdir64bGdMdq) == 129,
        spec_isa_feature(Opcode::Movdir64bGqMdq) == 129,
        spec_isa_feature(Opcode::AaddEdGd) == 131,
        spec_isa_feature(Opcode::AandEdGd) == 131,
        spec_isa_feature(Opcode::AorEdGd) == 131,
        spec_isa_feature(Opcode::AxorEdGd) == 131,
        spec_isa_feature(Opcode::AaddEqGq) == 131,
        spec_isa_feature(Opcode::AandEqGq) == 131,
        spec_isa_feature(Opcode::AorEqGq) == 131,
        spec_isa_feature(Opcode::AxorEqGq) == 131,
        spec_isa_feature(Opcode::Ldtilecfg) == 90,
        spec_isa_feature(Opcode::Sttilecfg) == 90,
        spec_isa_feature(Opcode::TileloaddTnnnMdq) == 90,
        spec_isa_feature(Opcode::Tileloaddt1TnnnMdq) == 90,
        spec_isa_feature(Opcode::TileloaddrsTnnnMdq) == 97,
        spec_isa_feature(Opcode::Tileloaddrst1TnnnMdq) == 97,
        spec_isa_feature(Opcode::TilestoredMdqTnnn) == 90,
        spec_isa_feature(Opcode::Tilerelease) == 90,
        spec_isa_feature(Opcode::TilezeroTnnn) == 90,
        spec_isa_feature(Opcode::TdpbssdTnnnTrmTreg) == 91,
        spec_isa_feature(Opcode::TdpbsudTnnnTrmTreg) == 91,
        spec_isa_feature(Opcode::TdpbusdTnnnTrmTreg) == 91,
        spec_isa_feature(Opcode::TdpbuudTnnnTrmTreg) == 91,
{
}

/// Every opcode the generated table gates on a CPU feature has that feature as its gate (entries 1500..1550 of 2908).
#[verifier::spinoff_prover]
#[verifier::rlimit(100)]
pub proof fn lemma_isa_entries_30()
    ensures
        spec_isa_feature(Opcode::Tdpbf16psTnnnTrmTreg) == 92,
        spec_isa_feature(Opcode::Tdpfp16psTnnnTrmTreg) == 93,
        spec_isa_feature(Opcode::Tcmmrlfp16psTnnnTrmTreg) == 96,
        spec_isa_feature(Opcode::Tcmmimfp16psTnnnTrmTreg) == 96,
        spec_isa_feature(Opcode::Tdpbf8psTnnnTrmTreg) == 95,
        spec_isa_feature(Opcode::Tdphf8psTnnnTrmTreg) == 95,
        spec_isa_feature(Opcode::Tdpbhf8psTnnnTrmTreg) == 95,
        spec_isa_feature(Opcode::Tdphbf8psTnnnTrmTreg) == 95,
        spec_isa_feature(Opcode::KaddwKgwKhwKew) == 78,
        spec_isa_feature(Opcode::KaddqKgqKhqKeq) == 79,
        spec_isa_feature(Opcode::KaddbKgbKhbKeb) == 78,
        spec_isa_feature(Opcode::KadddKgdKhdKed) == 79,
        spec_isa_feature(Opcode::KandwKgwKhwKew) == 77,
        spec_isa_feature(Opcode::KandqKgqKhqKeq) == 79,
        spec_isa_feature(Opcode::KandbKgbKhbKeb) == 78,
        spec_isa_feature(Opcode::KanddKgdKhdKed) == 79,
        spec_isa_feature(Opcode::KandnwKgwKhwKew) == 77,
        spec_isa_feature(Opcode::KandnqKgqKhqKeq) == 79,
        spec_isa_feature(Opcode::KandnbKgbKhbKeb) == 78,
        spec_isa_feature(Opcode::KandndKgdKhdKed) == 79,
        spec_isa_feature(Opcode::KmovwKgwKew) == 77,
        spec_isa_feature(Opcode::KmovqKgqKeq) == 79,
        spec_isa_feature(Opcode::KmovbKgbKeb) == 78,
        spec_isa_feature(Opcode::KmovdKgdKed) == 79,
        spec_isa_feature(Opcode::KmovwKewKgw) == 77,
        spec_isa_feature(Opcode::KmovqKeqKgq) == 79,
        spec_isa_feature(Opcode::KmovbKebKgb) == 78,
        spec_isa_feature(Opcode::KmovdKedKgd) == 79,
        spec_isa_feature(Opcode::KmovbGdKeb) == 78,
        spec_isa_feature(Opcode::KmovwGdKew) == 77,
        spec_isa_feature(Opcode::KmovdGdKed) == 79,
        spec_isa_feature(Opcode::KmovqGqKeq) == 79,
        spec_isa_feature(Opcode::KmovbKgbEb) == 78,
        spec_isa_feature(Opcode::KmovwKgwEw) == 77,
        spec_isa_feature(Opcode::KmovdKgdEd) == 79,
        spec_isa_feature(Opcode::KmovqKgqEq) == 79,
        spec_isa_feature(Opcode::KunpckbwKgwKhbKeb) == 77,
        spec_isa_feature(Opcode::KunpckwdKgdKhwKew) == 79,
        spec_isa_feature(Opcode::KunpckdqKgqKhdKed) == 79,
        spec_isa_feature(Opcode::KnotwKgwKew) == 77,
        spec_isa_feature(Opcode::KnotqKgqKeq) == 79,
        spec_isa_feature(Opcode::KnotbKgbKeb) == 78,
        spec_isa_feature(Opcode::KnotdKgdKed) == 79,
        spec_isa_feature(Opcode::KorwKgwKhwKew) == 77,
        spec_isa_feature(Opcode::KorqKgqKhqKeq) == 79,
        spec_isa_feature(Opcode::KorbKgbKhbKeb) == 78,
        spec_isa_feature(Opcode::KordKgdKhdKed) == 79,
        spec_isa_feature(Opcode::KortestwKgwKew) == 77,
        spec_isa_feature(Opcode::KortestqKgqKeq) == 79,
        spec_isa_feature(Opcode::KortestbKgbKeb) == 78,
{
}

/// Every opcode the generated table gates on a CPU feature has that feature as its gate (entries 1550..1600 of 2908).
#[verifier::spinoff_prover]
#[verifier::rlimit(100)]
pub proof fn lemma_isa_entries_31()
    ensures
        spec_isa_feature(Opcode::KortestdKgdKed) == 79,
        spec_isa_feature(Opcode::KshiftlbKgbKebIb) == 78,
        spec_isa_feature(Opcode::KshiftlwKgwKewIb) == 77,
        spec_isa_feature(Opcode::KshiftldKgdKedIb) == 79,
        spec_isa_feature(Opcode::KshiftlqKgqKeqIb) == 79,
        spec_isa_feature(Opcode::KshiftrbKgbKebIb) == 78,
        spec_isa_feature(Opcode::KshiftrwKgwKewIb) == 77,
        spec_isa_feature(Opcode::KshiftrdKgdKedIb) == 79,
        spec_isa_feature(Opcode::KshiftrqKgqKeqIb) == 79,
        spec_isa_feature(Opcode::KxnorwKgwKhwKew) == 77,
        spec_isa_feature(Opcode::KxnorqKgqKhqKeq) == 79,
        spec_isa_feature(Opcode::KxnorbKgbKhbKeb) == 78,
        spec_isa_feature(Opcode::KxnordKgdKhdKed) == 79,
        spec_isa_feature(Opcode::KxorwKgwKhwKew) == 77,
        spec_isa_feature(Opcode::KxorqKgqKhqKeq) == 79,
        spec_isa_feature(Opcode::KxorbKgbKhbKeb) == 78,
        spec_isa_feature(Opcode::KxordKgdKhdKed) == 79,
        spec_isa_feature(Opcode::KtestwKgwKew) == 78,
        spec_isa_feature(Opcode::KtestqKgqKeq) == 79,
        spec_isa_feature(Opcode::KtestbKgbKeb) == 78,
        spec_isa_feature(Opcode::KtestdKgdKed) == 79,
        spec_isa_feature(Opcode::RdmsrEqId) == 121,
        spec_isa_feature(Opcode::WrmsrnsIdEq) == 121,
        spec_isa_feature(Opcode::MovrsGbEb) == 132,
        spec_isa_feature(Opcode::MovrsGwEw) == 132,
        spec_isa_feature(Opcode::MovrsGdEd) == 132,
        spec_isa_feature(Opcode::MovrsGqEq) == 132,
        spec_isa_feature(Opcode::Erets) == 133,
        spec_isa_feature(Opcode::Eretu) == 133,
        spec_isa_feature(Opcode::LkgsEw) == 133,
        spec_isa_feature(Opcode::EvexVaddpsVpsHpsWps) == 77,
        spec_isa_feature(Opcode::EvexVaddpdVpdHpdWpd) == 77,
        spec_isa_feature(Opcode::EvexVaddssVssHpsWss) == 77,
        spec_isa_feature(Opcode::EvexVaddsdVsdHpdWsd) == 77,
        spec_isa_feature(Opcode::EvexVaddpsVpsHpsWpsKmask) == 77,
        spec_isa_feature(Opcode::EvexVaddpdVpdHpdWpdKmask) == 77,
        spec_isa_feature(Opcode::EvexVaddssVssHpsWssKmask) == 77,
        spec_isa_feature(Opcode::EvexVaddsdVsdHpdWsdKmask) == 77,
        spec_isa_feature(Opcode::EvexVsubpsVpsHpsWps) == 77,
        spec_isa_feature(Opcode::EvexVsubpdVpdHpdWpd) == 77,
        spec_isa_feature(Opcode::EvexVsubssVssHpsWss) == 77,
        spec_isa_feature(Opcode::EvexVsubsdVsdHpdWsd) == 77,
        spec_isa_feature(Opcode::EvexVsubpsVpsHpsWpsKmask) == 77,
        spec_isa_feature(Opcode::EvexVsubpdVpdHpdWpdKmask) == 77,
        spec_isa_feature(Opcode::EvexVsubssVssHpsWssKmask) == 77,
        spec_isa_feature(Opcode::EvexVsubsdVsdHpdWsdKmask) == 77,
        spec_isa_feature(Opcode::EvexVmulpsVpsHpsWps) == 77,
        spec_isa_feature(Opcode::EvexVmulpdVpdHpdWpd) == 77,
        spec_isa_feature(Opcode::EvexVmulssVssHpsWss) == 77,
        spec_isa_feature(Opcode::EvexVmulsdVsdHpdWsd) == 77,
{
}

/// Every opcode the generated table gates on a CPU feature has that feature as its gate (entries 1600..1650 of 2908).
#[verifier::spinoff_prover]
#[verifier::rlimit(100)]
pub proof fn lemma_isa_entries_32()
    ensures
        spec_isa_feature(Opcode::EvexVmulpsVpsHpsWpsKmask) == 77,
        spec_isa_feature(Opcode::EvexVmulpdVpdHpdWpdKmask) == 77,
        spec_isa_feature(Opcode::EvexVmulssVssHpsWssKmask) == 77,
        spec_isa_feature(Opcode::EvexVmulsdVsdHpdWsdKmask) == 77,
        spec_isa_feature(Opcode::EvexVdivpsVpsHpsWps) == 77,
        spec_isa_feature(Opcode::EvexVdivpdVpdHpdWpd) == 77,
        spec_isa_feature(Opcode::EvexVdivssVssHpsWss) == 77,
        spec_isa_feature(Opcode::EvexVdivsdVsdHpdWsd) == 77,
        spec_isa_feature(Opcode::EvexVdivpsVpsHpsWpsKmask) == 77,
        spec_isa_feature(Opcode::EvexVdivpdVpdHpdWpdKmask) == 77,
        spec_isa_feature(Opcode::EvexVdivssVssHpsWssKmask) == 77,
        spec_isa_feature(Opcode::EvexVdivsdVsdHpdWsdKmask) == 77,
        spec_isa_feature(Opcode::EvexVminpsVpsHpsWps) == 77,
        spec_isa_feature(Opcode::EvexVminpdVpdHpdWpd) == 77,
        spec_isa_feature(Opcode::EvexVminssVssHpsWss) == 77,
        spec_isa_feature(Opcode::EvexVminsdVsdHpdWsd) == 77,
        spec_isa_feature(Opcode::EvexVminpsVpsHpsWpsKmask) == 77,
        spec_isa_feature(Opcode::EvexVminpdVpdHpdWpdKmask) == 77,
        spec_isa_feature(Opcode::EvexVminssVssHpsWssKmask) == 77,
        spec_isa_feature(Opcode::EvexVminsdVsdHpdWsdKmask) == 77,
        spec_isa_feature(Opcode::EvexVmaxpsVpsHpsWps) == 77,
        spec_isa_feature(Opcode::EvexVmaxpdVpdHpdWpd) == 77,
        spec_isa_feature(Opcode::EvexVmaxssVssHpsWss) == 77,
        spec_isa_feature(Opcode::EvexVmaxsdVsdHpdWsd) == 77,
        spec_isa_feature(Opcode::EvexVmaxpsVpsHpsWpsKmask) == 77,
        spec_isa_feature(Opcode::EvexVmaxpdVpdHpdWpdKmask) == 77,
        spec_isa_feature(Opcode::EvexVmaxssVssHpsWssKmask) == 77,
        spec_isa_feature(Opcode::EvexVmaxsdVsdHpdWsdKmask) == 77,
        spec_isa_feature(Opcode::EvexVsqrtpsVpsWps) == 77,
        spec_isa_feature(Opcode::EvexVsqrtpdVpdWpd) == 77,
        spec_isa_feature(Opcode::EvexVsqrtssVssHpsWss) == 77,
        spec_isa_feature(Opcode::EvexVsqrtsdVsdHpdWsd) == 77,
        spec_isa_feature(Opcode::EvexVsqrtpsVpsWpsKmask) == 77,
        spec_isa_feature(Opcode::EvexVsqrtpdVpdWpdKmask) == 77,
        spec_isa_feature(Opcode::EvexVsqrtssVssHpsWssKmask) == 77,
        spec_isa_feature(Opcode::EvexVsqrtsdVsdHpdWsdKmask) == 77,
        spec_isa_feature(Opcode::EvexVcmppsKgwHpsWpsIb) == 77,
        spec_isa_feature(Opcode::EvexVcmppdKgbHpdWpdIb) == 77,
        spec_isa_feature(Opcode::EvexVcmpssKgbHssWssIb) == 77,
        spec_isa_feature(Opcode::EvexVcmpsdKgbHsdWsdIb) == 77,
        spec_isa_feature(Opcode::EvexVrndscalepsVpsWpsIbKmask) == 77,
        spec_isa_feature(Opcode::EvexVrndscalepdVpdWpdIbKmask) == 77,
        spec_isa_feature(Opcode::EvexVrndscalessVssHpsWssIbKmask) == 77,
        spec_isa_feature(Opcode::EvexVrndscalesdVsdHpdWsdIbKmask) == 77,
        spec_isa_feature(Opcode::EvexVunpcklpsVpsHpsWps) == 77,
        spec_isa_feature(Opcode::EvexVunpcklpdVpdHpdWpd) == 77,
        spec_isa_feature(Opcode::EvexVunpcklpsVpsHpsWpsKmask) == 77,
        spec_isa_feature(Opcode::EvexVunpcklpdVpdHpdWpdKmask) == 77,
        spec_isa_feature(Opcode::EvexVunpckhpsVpsHpsWps) == 77,
        spec_isa_feature(Opcode::EvexVunpckhpdVpdHpdWpd) == 77,
{
}

/// Every opcode the generated table gates on a CPU feature has that feature as its gate (entries 1650..1700 of 2908).
#[verifier::spinoff_prover]
#[verifier::rlimit(100)]
pub proof fn lemma_isa_entries_33()
    ensures
        spec_isa_feature(Opcode::EvexVunpckhpsVpsHpsWpsKmask) == 77,
        spec_isa_feature(Opcode::EvexVunpckhpdVpdHpdWpdKmask) == 77,
        spec_isa_feature(Opcode::EvexVpunpckldqVdqHdqWdq) == 77,
        spec_isa_feature(Opcode::EvexVpunpcklqdqVdqHdqWdq) == 77,
        spec_isa_feature(Opcode::EvexVpunpckldqVdqHdqWdqKmask) == 77,
        spec_isa_feature(Opcode::EvexVpunpcklqdqVdqHdqWdqKmask) == 77,
        spec_isa_feature(Opcode::EvexVpunpckhdqVdqHdqWdq) == 77,
        spec_isa_feature(Opcode::EvexVpunpckhqdqVdqHdqWdq) == 77,
        spec_isa_feature(Opcode::EvexVpunpckhdqVdqHdqWdqKmask) == 77,
        spec_isa_feature(Opcode::EvexVpunpckhqdqVdqHdqWdqKmask) == 77,
        spec_isa_feature(Opcode::EvexVpmuldqVdqHdqWdq) == 77,
        spec_isa_feature(Opcode::EvexVpmuludqVdqHdqWdq) == 77,
        spec_isa_feature(Opcode::EvexVpmuldqVdqHdqWdqKmask) == 77,
        spec_isa_feature(Opcode::EvexVpmuludqVdqHdqWdqKmask) == 77,
        spec_isa_feature(Opcode::EvexVucomissVssWss) == 77,
        spec_isa_feature(Opcode::EvexVcomissVssWss) == 77,
        spec_isa_feature(Opcode::EvexVucomisdVsdWsd) == 77,
        spec_isa_feature(Opcode::EvexVcomisdVsdWsd) == 77,
        spec_isa_feature(Opcode::EvexVcvtss2sdVsdWss) == 77,
        spec_isa_feature(Opcode::EvexVcvtsd2ssVssWsd) == 77,
        spec_isa_feature(Opcode::EvexVcvtps2pdVpdWps) == 77,
        spec_isa_feature(Opcode::EvexVcvtpd2psVpsWpd) == 77,
        spec_isa_feature(Opcode::EvexVcvtss2sdVsdWssKmask) == 77,
        spec_isa_feature(Opcode::EvexVcvtsd2ssVssWsdKmask) == 77,
        spec_isa_feature(Opcode::EvexVcvtps2pdVpdWpsKmask) == 77,
        spec_isa_feature(Opcode::EvexVcvtpd2psVpsWpdKmask) == 77,
        spec_isa_feature(Opcode::EvexVcvtps2dqVdqWps) == 77,
        spec_isa_feature(Opcode::EvexVcvtps2dqVdqWpsKmask) == 77,
        spec_isa_feature(Opcode::EvexVcvttps2dqVdqWps) == 77,
        spec_isa_feature(Opcode::EvexVcvttps2dqVdqWpsKmask) == 77,
        spec_isa_feature(Opcode::EvexVcvtpd2dqVdqWpd) == 77,
        spec_isa_feature(Opcode::EvexVcvtpd2dqVdqWpdKmask) == 77,
        spec_isa_feature(Opcode::EvexVcvttpd2dqVdqWpd) == 77,
        spec_isa_feature(Opcode::EvexVcvttpd2dqVdqWpdKmask) == 77,
        spec_isa_feature(Opcode::EvexVcvtph2psVpsWps) == 77,
        spec_isa_feature(Opcode::EvexVcvtph2psVpsWpsKmask) == 77,
        spec_isa_feature(Opcode::EvexVcvtps2phWpsVpsIb) == 77,
        spec_isa_feature(Opcode::EvexVcvtps2phWpsVpsIbKmask) == 77,
        spec_isa_feature(Opcode::EvexVcvtneps2bf16VphWpsKmask) == 88,
        spec_isa_feature(Opcode::EvexVcvtne2ps2bf16VphHpsWpsKmask) == 88,
        spec_isa_feature(Opcode::EvexVdpbf16psVpsHdqWdqKmask) == 88,
        spec_isa_feature(Opcode::EvexVmovapsVpsWps) == 77,
        spec_isa_feature(Opcode::EvexVmovapsVpsWpsKmask) == 77,
        spec_isa_feature(Opcode::EvexVmovapsWpsVps) == 77,
        spec_isa_feature(Opcode::EvexVmovapsWpsVpsKmask) == 77,
        spec_isa_feature(Opcode::EvexVmovapdVpdWpd) == 77,
        spec_isa_feature(Opcode::EvexVmovapdVpdWpdKmask) == 77,
        spec_isa_feature(Opcode::EvexVmovapdWpdVpd) == 77,
        spec_isa_feature(Opcode::EvexVmovapdWpdVpdKmask) == 77,
        spec_isa_feature(Opcode::EvexVmovupsVpsWps) == 77,
{
}

/// Every opcode the generated table gates on a CPU feature has that feature as its gate (entries 1700..1750 of 2908).
#[verifier::spinoff_prover]
#[verifier::rlimit(100)]
pub proof fn lemma_isa_entries_34()
    ensures
        spec_isa_feature(Opcode::EvexVmovupsVpsWpsKmask) == 77,
        spec_isa_feature(Opcode::EvexVmovupsWpsVps) == 77,
        spec_isa_feature(Opcode::EvexVmovupsWpsVpsKmask) == 77,
        spec_isa_feature(Opcode::EvexVmovupdVpdWpd) == 77,
        spec_isa_feature(Opcode::EvexVmovupdVpdWpdKmask) == 77,
        spec_isa_feature(Opcode::EvexVmovupdWpdVpd) == 77,
        spec_isa_feature(Opcode::EvexVmovupdWpdVpdKmask) == 77,
        spec_isa_feature(Opcode::EvexVmovsdVsdHpdWsd) == 77,
        spec_isa_feature(Opcode::EvexVmovssVssHpsWss) == 77,
        spec_isa_feature(Opcode::EvexVmovsdWsdHpdVsd) == 77,
        spec_isa_feature(Opcode::EvexVmovssWssHpsVss) == 77,
        spec_isa_feature(Opcode::EvexVmovsdVsdWsd) == 77,
        spec_isa_feature(Opcode::EvexVmovssVssWss) == 77,
        spec_isa_feature(Opcode::EvexVmovsdWsdVsd) == 77,
        spec_isa_feature(Opcode::EvexVmovssWssVss) == 77,
        spec_isa_feature(Opcode::EvexVmovsdVsdHpdWsdKmask) == 77,
        spec_isa_feature(Opcode::EvexVmovssVssHpsWssKmask) == 77,
        spec_isa_feature(Opcode::EvexVmovsdWsdHpdVsdKmask) == 77,
        spec_isa_feature(Opcode::EvexVmovssWssHpsVssKmask) == 77,
        spec_isa_feature(Opcode::EvexVmovsdVsdWsdKmask) == 77,
        spec_isa_feature(Opcode::EvexVmovssVssWssKmask) == 77,
        spec_isa_feature(Opcode::EvexVmovsdWsdVsdKmask) == 77,
        spec_isa_feature(Opcode::EvexVmovssWssVssKmask) == 77,
        spec_isa_feature(Opcode::EvexVpabsbVdqWdq) == 79,
        spec_isa_feature(Opcode::EvexVpabswVdqWdq) == 79,
        spec_isa_feature(Opcode::EvexVpabsdVdqWdq) == 77,
        spec_isa_feature(Opcode::EvexVpabsqVdqWdq) == 77,
        spec_isa_feature(Opcode::EvexVpabsbVdqWdqKmask) == 79,
        spec_isa_feature(Opcode::EvexVpabswVdqWdqKmask) == 79,
        spec_isa_feature(Opcode::EvexVpabsdVdqWdqKmask) == 77,
        spec_isa_feature(Opcode::EvexVpabsqVdqWdqKmask) == 77,
        spec_isa_feature(Opcode::EvexVmovntdqaVdqMdq) == 77,
        spec_isa_feature(Opcode::EvexVmovntpsMpsVps) == 77,
        spec_isa_feature(Opcode::EvexVmovntpdMpdVpd) == 77,
        spec_isa_feature(Opcode::EvexVmovntdqMdqVdq) == 77,
        spec_isa_feature(Opcode::EvexVpcmpeqbKgqHdqWdq) == 79,
        spec_isa_feature(Opcode::EvexVpcmpeqwKgdHdqWdq) == 79,
        spec_isa_feature(Opcode::EvexVpcmpgtbKgqHdqWdq) == 79,
        spec_isa_feature(Opcode::EvexVpcmpgtwKgdHdqWdq) == 79,
        spec_isa_feature(Opcode::EvexVpcmpeqdKgwHdqWdq) == 77,
        spec_isa_feature(Opcode::EvexVpcmpeqqKgbHdqWdq) == 77,
        spec_isa_feature(Opcode::EvexVpcmpgtdKgwHdqWdq) == 77,
        spec_isa_feature(Opcode::EvexVpcmpgtqKgbHdqWdq) == 77,
        spec_isa_feature(Opcode::EvexVpsrlwVdqHdqWdq) == 79,
        spec_isa_feature(Opcode::EvexVpsrlwVdqHdqWdqKmask) == 79,
        spec_isa_feature(Opcode::EvexVpsrawVdqHdqWdq) == 79,
        spec_isa_feature(Opcode::EvexVpsrawVdqHdqWdqKmask) == 79,
        spec_isa_feature(Opcode::EvexVpsllwVdqHdqWdq) == 79,
        spec_isa_feature(Opcode::EvexVpsllwVdqHdqWdqKmask) == 79,
        spec_isa_feature(Opcode::EvexVpsrlwUdqIb) == 79,
{
}

/// Every opcode the generated table gates on a CPU feature has that feature as its gate (entries 1750..1800 of 2908).
#[verifier::spinoff_prover]
#[verifier::rlimit(100)]
pub proof fn lemma_isa_entries_35()
    ensures
        spec_isa_feature(Opcode::EvexVpsrlwUdqIbKmask) == 79,
        spec_isa_feature(Opcode::EvexVpsllwUdqIb) == 79,
        spec_isa_feature(Opcode::EvexVpsllwUdqIbKmask) == 79,
        spec_isa_feature(Opcode::EvexVpsrawUdqIb) == 79,
        spec_isa_feature(Opcode::EvexVpsrawUdqIbKmask) == 79,
        spec_isa_feature(Opcode::EvexVpsrldVdqHdqWdq) == 77,
        spec_isa_feature(Opcode::EvexVpsrlqVdqHdqWdq) == 77,
        spec_isa_feature(Opcode::EvexVpsrldVdqHdqWdqKmask) == 77,
        spec_isa_feature(Opcode::EvexVpsrlqVdqHdqWdqKmask) == 77,
        spec_isa_feature(Opcode::EvexVpslldVdqHdqWdq) == 77,
        spec_isa_feature(Opcode::EvexVpsllqVdqHdqWdq) == 77,
        spec_isa_feature(Opcode::EvexVpslldVdqHdqWdqKmask) == 77,
        spec_isa_feature(Opcode::EvexVpsllqVdqHdqWdqKmask) == 77,
        spec_isa_feature(Opcode::EvexVpsrldUdqIb) == 77,
        spec_isa_feature(Opcode::EvexVpsrldUdqIbKmask) == 77,
        spec_isa_feature(Opcode::EvexVpsrlqUdqIb) == 77,
        spec_isa_feature(Opcode::EvexVpsrlqUdqIbKmask) == 77,
        spec_isa_feature(Opcode::EvexVpslldUdqIb) == 77,
        spec_isa_feature(Opcode::EvexVpslldUdqIbKmask) == 77,
        spec_isa_feature(Opcode::EvexVpsllqUdqIb) == 77,
        spec_isa_feature(Opcode::EvexVpsllqUdqIbKmask) == 77,
        spec_isa_feature(Opcode::EvexVpshufbVdqHdqWdq) == 79,
        spec_isa_feature(Opcode::EvexVpshufbVdqHdqWdqKmask) == 79,
        spec_isa_feature(Opcode::EvexVpermqVdqWdqIbKmask) == 77,
        spec_isa_feature(Opcode::EvexVpermpdVpdWpdIbKmask) == 77,
        spec_isa_feature(Opcode::EvexVshufpsVpsHpsWpsIb) == 77,
        spec_isa_feature(Opcode::EvexVshufpdVpdHpdWpdIb) == 77,
        spec_isa_feature(Opcode::EvexVshufpsVpsHpsWpsIbKmask) == 77,
        spec_isa_feature(Opcode::EvexVshufpdVpdHpdWpdIbKmask) == 77,
        spec_isa_feature(Opcode::EvexVpermilpsVpsHpsWps) == 77,
        spec_isa_feature(Opcode::EvexVpermilpdVpdHpdWpd) == 77,
        spec_isa_feature(Opcode::EvexVpermilpsVpsHpsWpsKmask) == 77,
        spec_isa_feature(Opcode::EvexVpermilpdVpdHpdWpdKmask) == 77,
        spec_isa_feature(Opcode::EvexVpermilpsVpsWpsIb) == 77,
        spec_isa_feature(Opcode::EvexVpermilpdVpdWpdIb) == 77,
        spec_isa_feature(Opcode::EvexVpermilpsVpsWpsIbKmask) == 77,
        spec_isa_feature(Opcode::EvexVpermilpdVpdWpdIbKmask) == 77,
        spec_isa_feature(Opcode::EvexVpshufdVdqWdqIb) == 77,
        spec_isa_feature(Opcode::EvexVpshufdVdqWdqIbKmask) == 77,
        spec_isa_feature(Opcode::EvexVpshuflwVdqWdqIb) == 79,
        spec_isa_feature(Opcode::EvexVpshuflwVdqWdqIbKmask) == 79,
        spec_isa_feature(Opcode::EvexVpshufhwVdqWdqIb) == 79,
        spec_isa_feature(Opcode::EvexVpshufhwVdqWdqIbKmask) == 79,
        spec_isa_feature(Opcode::EvexVpbroadcastbVdqEb) == 79,
        spec_isa_feature(Opcode::EvexVpbroadcastbVdqEbKmask) == 79,
        spec_isa_feature(Opcode::EvexVpbroadcastwVdqEw) == 79,
        spec_isa_feature(Opcode::EvexVpbroadcastwVdqEwKmask) == 79,
        spec_isa_feature(Opcode::EvexVpbroadcastdVdqEd) == 77,
        spec_isa_feature(Opcode::EvexVpbroadcastdVdqEdKmask) == 77,
        spec_isa_feature(Opcode::EvexVpbroadcastqVdqEq) == 77,
{
}

/// Every opcode the generated table gates on a CPU feature has that feature as its gate (entries 1800..1850 of 2908).
#[verifier::spinoff_prover]
#[verifier::rlimit(100)]
pub proof fn lemma_isa_entries_36()
    ensures
        spec_isa_feature(Opcode::EvexVpbroadcastqVdqEqKmask) == 77,
        spec_isa_feature(Opcode::EvexVpbroadcastbVdqWb) == 79,
        spec_isa_feature(Opcode::EvexVpbroadcastbVdqWbKmask) == 79,
        spec_isa_feature(Opcode::EvexVpbroadcastwVdqWw) == 79,
        spec_isa_feature(Opcode::EvexVpbroadcastwVdqWwKmask) == 79,
        spec_isa_feature(Opcode::EvexVpbroadcastdVdqWd) == 77,
        spec_isa_feature(Opcode::EvexVpbroadcastdVdqWdKmask) == 77,
        spec_isa_feature(Opcode::EvexVpbroadcastqVdqWq) == 77,
        spec_isa_feature(Opcode::EvexVpbroadcastqVdqWqKmask) == 77,
        spec_isa_feature(Opcode::EvexVbroadcastssVpsWss) == 77,
        spec_isa_feature(Opcode::EvexVbroadcastssVpsWssKmask) == 77,
        spec_isa_feature(Opcode::EvexVbroadcastsdVpdWsd) == 77,
        spec_isa_feature(Opcode::EvexVbroadcastsdVpdWsdKmask) == 77,
        spec_isa_feature(Opcode::EvexVmovqWqVq) == 77,
        spec_isa_feature(Opcode::EvexVmovqVqWq) == 77,
        spec_isa_feature(Opcode::EvexVinsertpsVpsWssIb) == 77,
        spec_isa_feature(Opcode::EvexVextractpsEdVpsIb) == 77,
        spec_isa_feature(Opcode::EvexVmovlpsVpsHpsMq) == 77,
        spec_isa_feature(Opcode::EvexVmovhlpsVpsHpsWps) == 77,
        spec_isa_feature(Opcode::EvexVmovhpsVpsHpsMq) == 77,
        spec_isa_feature(Opcode::EvexVmovlhpsVpsHpsWps) == 77,
        spec_isa_feature(Opcode::EvexVmovlpsMqVps) == 77,
        spec_isa_feature(Opcode::EvexVmovhpsMqVps) == 77,
        spec_isa_feature(Opcode::EvexVmovlpdMqVsd) == 77,
        spec_isa_feature(Opcode::EvexVmovhpdMqVsd) == 77,
        spec_isa_feature(Opcode::EvexVmovlpdVpdHpdMq) == 77,
        spec_isa_feature(Opcode::EvexVmovhpdVpdHpdMq) == 77,
        spec_isa_feature(Opcode::EvexVmovddupVpdWpd) == 77,
        spec_isa_feature(Opcode::EvexVmovsldupVpsWps) == 77,
        spec_isa_feature(Opcode::EvexVmovshdupVpsWps) == 77,
        spec_isa_feature(Opcode::EvexVmovddupVpdWpdKmask) == 77,
        spec_isa_feature(Opcode::EvexVmovsldupVpsWpsKmask) == 77,
        spec_isa_feature(Opcode::EvexVmovshdupVpsWpsKmask) == 77,
        spec_isa_feature(Opcode::EvexVpmovqbWdqVdq) == 77,
        spec_isa_feature(Opcode::EvexVpmovdbWdqVdq) == 77,
        spec_isa_feature(Opcode::EvexVpmovwbWdqVdq) == 79,
        spec_isa_feature(Opcode::EvexVpmovdwWdqVdq) == 77,
        spec_isa_feature(Opcode::EvexVpmovqwWdqVdq) == 77,
        spec_isa_feature(Opcode::EvexVpmovqdWdqVdq) == 77,
        spec_isa_feature(Opcode::EvexVpmovqbWdqVdqKmask) == 77,
        spec_isa_feature(Opcode::EvexVpmovdbWdqVdqKmask) == 77,
        spec_isa_feature(Opcode::EvexVpmovwbWdqVdqKmask) == 79,
        spec_isa_feature(Opcode::EvexVpmovdwWdqVdqKmask) == 77,
        spec_isa_feature(Opcode::EvexVpmovqwWdqVdqKmask) == 77,
        spec_isa_feature(Opcode::EvexVpmovqdWdqVdqKmask) == 77,
        spec_isa_feature(Opcode::EvexVpmovusqbWdqVdq) == 77,
        spec_isa_feature(Opcode::EvexVpmovusdbWdqVdq) == 77,
        spec_isa_feature(Opcode::EvexVpmovuswbWdqVdq) == 79,
        spec_isa_feature(Opcode::EvexVpmovusdwWdqVdq) == 77,
        spec_isa_feature(Opcode::EvexVpmovusqwWdqVdq) == 77,
{
}

/// Every opcode the generated table gates on a CPU feature has that feature as its gate (entries 1850..1900 of 2908).
#[verifier::spinoff_prover]
#[verifier::rlimit(100)]
pub proof fn lemma_isa_entries_37()
    ensures
        spec_isa_feature(Opcode::EvexVpmovusqdWdqVdq) == 77,
        spec_isa_feature(Opcode::EvexVpmovusqbWdqVdqKmask) == 77,
        spec_isa_feature(Opcode::EvexVpmovusdbWdqVdqKmask) == 77,
        spec_isa_feature(Opcode::EvexVpmovuswbWdqVdqKmask) == 79,
        spec_isa_feature(Opcode::EvexVpmovusdwWdqVdqKmask) == 77,
        spec_isa_feature(Opcode::EvexVpmovusqwWdqVdqKmask) == 77,
        spec_isa_feature(Opcode::EvexVpmovusqdWdqVdqKmask) == 77,
        spec_isa_feature(Opcode::EvexVpmovsqbWdqVdq) == 77,
        spec_isa_feature(Opcode::EvexVpmovsdbWdqVdq) == 77,
        spec_isa_feature(Opcode::EvexVpmovswbWdqVdq) == 79,
        spec_isa_feature(Opcode::EvexVpmovsdwWdqVdq) == 77,
        spec_isa_feature(Opcode::EvexVpmovsqwWdqVdq) == 77,
        spec_isa_feature(Opcode::EvexVpmovsqdWdqVdq) == 77,
        spec_isa_feature(Opcode::EvexVpmovsqbWdqVdqKmask) == 77,
        spec_isa_feature(Opcode::EvexVpmovsdbWdqVdqKmask) == 77,
        spec_isa_feature(Opcode::EvexVpmovswbWdqVdqKmask) == 79,
        spec_isa_feature(Opcode::EvexVpmovsdwWdqVdqKmask) == 77,
        spec_isa_feature(Opcode::EvexVpmovsqwWdqVdqKmask) == 77,
        spec_isa_feature(Opcode::EvexVpmovsqdWdqVdqKmask) == 77,
        spec_isa_feature(Opcode::EvexVpmovsxbwVdqWdq) == 79,
        spec_isa_feature(Opcode::EvexVpmovsxbdVdqWdq) == 77,
        spec_isa_feature(Opcode::EvexVpmovsxbqVdqWdq) == 77,
        spec_isa_feature(Opcode::EvexVpmovsxwdVdqWdq) == 77,
        spec_isa_feature(Opcode::EvexVpmovsxwqVdqWdq) == 77,
        spec_isa_feature(Opcode::EvexVpmovsxdqVdqWdq) == 77,
        spec_isa_feature(Opcode::EvexVpmovsxbwVdqWdqKmask) == 79,
        spec_isa_feature(Opcode::EvexVpmovsxbdVdqWdqKmask) == 77,
        spec_isa_feature(Opcode::EvexVpmovsxbqVdqWdqKmask) == 77,
        spec_isa_feature(Opcode::EvexVpmovsxwdVdqWdqKmask) == 77,
        spec_isa_feature(Opcode::EvexVpmovsxwqVdqWdqKmask) == 77,
        spec_isa_feature(Opcode::EvexVpmovsxdqVdqWdqKmask) == 77,
        spec_isa_feature(Opcode::EvexVpmovzxbwVdqWdq) == 79,
        spec_isa_feature(Opcode::EvexVpmovzxbdVdqWdq) == 77,
        spec_isa_feature(Opcode::EvexVpmovzxbqVdqWdq) == 77,
        spec_isa_feature(Opcode::EvexVpmovzxwdVdqWdq) == 77,
        spec_isa_feature(Opcode::EvexVpmovzxwqVdqWdq) == 77,
        spec_isa_feature(Opcode::EvexVpmovzxdqVdqWdq) == 77,
        spec_isa_feature(Opcode::EvexVpmovzxbwVdqWdqKmask) == 79,
        spec_isa_feature(Opcode::EvexVpmovzxbdVdqWdqKmask) == 77,
        spec_isa_feature(Opcode::EvexVpmovzxbqVdqWdqKmask) == 77,
        spec_isa_feature(Opcode::EvexVpmovzxwdVdqWdqKmask) == 77,
        spec_isa_feature(Opcode::EvexVpmovzxwqVdqWdqKmask) == 77,
        spec_isa_feature(Opcode::EvexVpmovzxdqVdqWdqKmask) == 77,
        spec_isa_feature(Opcode::EvexVpsubbVdqHdqWdq) == 79,
        spec_isa_feature(Opcode::EvexVpsubsbVdqHdqWdq) == 79,
        spec_isa_feature(Opcode::EvexVpsubusbVdqHdqWdq) == 79,
        spec_isa_feature(Opcode::EvexVpsubwVdqHdqWdq) == 79,
        spec_isa_feature(Opcode::EvexVpsubswVdqHdqWdq) == 79,
        spec_isa_feature(Opcode::EvexVpsubuswVdqHdqWdq) == 79,
        spec_isa_feature(Opcode::EvexVpaddbVdqHdqWdq) == 79,
{
}

/// Every opcode the generated table gates on a CPU feature has that feature as its gate (entries 1900..1950 of 2908).
#[verifier::spinoff_prover]
#[verifier::rlimit(100)]
pub proof fn lemma_isa_entries_38()
    ensures
        spec_isa_feature(Opcode::EvexVpaddsbVdqHdqWdq) == 79,
        spec_isa_feature(Opcode::EvexVpaddusbVdqHdqWdq) == 79,
        spec_isa_feature(Opcode::EvexVpaddwVdqHdqWdq) == 79,
        spec_isa_feature(Opcode::EvexVpaddswVdqHdqWdq) == 79,
        spec_isa_feature(Opcode::EvexVpadduswVdqHdqWdq) == 79,
        spec_isa_feature(Opcode::EvexVpsubbVdqHdqWdqKmask) == 79,
        spec_isa_feature(Opcode::EvexVpsubsbVdqHdqWdqKmask) == 79,
        spec_isa_feature(Opcode::EvexVpsubusbVdqHdqWdqKmask) == 79,
        spec_isa_feature(Opcode::EvexVpsubwVdqHdqWdqKmask) == 79,
        spec_isa_feature(Opcode::EvexVpsubswVdqHdqWdqKmask) == 79,
        spec_isa_feature(Opcode::EvexVpsubuswVdqHdqWdqKmask) == 79,
        spec_isa_feature(Opcode::EvexVpaddbVdqHdqWdqKmask) == 79,
        spec_isa_feature(Opcode::EvexVpaddsbVdqHdqWdqKmask) == 79,
        spec_isa_feature(Opcode::EvexVpaddusbVdqHdqWdqKmask) == 79,
        spec_isa_feature(Opcode::EvexVpaddwVdqHdqWdqKmask) == 79,
        spec_isa_feature(Opcode::EvexVpaddswVdqHdqWdqKmask) == 79,
        spec_isa_feature(Opcode::EvexVpadduswVdqHdqWdqKmask) == 79,
        spec_isa_feature(Opcode::EvexVpminsbVdqHdqWdq) == 79,
        spec_isa_feature(Opcode::EvexVpminubVdqHdqWdq) == 79,
        spec_isa_feature(Opcode::EvexVpmaxubVdqHdqWdq) == 79,
        spec_isa_feature(Opcode::EvexVpmaxsbVdqHdqWdq) == 79,
        spec_isa_feature(Opcode::EvexVpminswVdqHdqWdq) == 79,
        spec_isa_feature(Opcode::EvexVpminuwVdqHdqWdq) == 79,
        spec_isa_feature(Opcode::EvexVpmaxswVdqHdqWdq) == 79,
        spec_isa_feature(Opcode::EvexVpmaxuwVdqHdqWdq) == 79,
        spec_isa_feature(Opcode::EvexVpminsbVdqHdqWdqKmask) == 79,
        spec_isa_feature(Opcode::EvexVpminubVdqHdqWdqKmask) == 79,
        spec_isa_feature(Opcode::EvexVpmaxubVdqHdqWdqKmask) == 79,
        spec_isa_feature(Opcode::EvexVpmaxsbVdqHdqWdqKmask) == 79,
        spec_isa_feature(Opcode::EvexVpminswVdqHdqWdqKmask) == 79,
        spec_isa_feature(Opcode::EvexVpminuwVdqHdqWdqKmask) == 79,
        spec_isa_feature(Opcode::EvexVpmaxswVdqHdqWdqKmask) == 79,
        spec_isa_feature(Opcode::EvexVpmaxuwVdqHdqWdqKmask) == 79,
        spec_isa_feature(Opcode::EvexVpacksswbVdqHdqWdq) == 79,
        spec_isa_feature(Opcode::EvexVpacksswbVdqHdqWdqKmask) == 79,
        spec_isa_feature(Opcode::EvexVpackuswbVdqHdqWdq) == 79,
        spec_isa_feature(Opcode::EvexVpackuswbVdqHdqWdqKmask) == 79,
        spec_isa_feature(Opcode::EvexVpackssdwVdqHdqWdq) == 79,
        spec_isa_feature(Opcode::EvexVpackssdwVdqHdqWdqKmask) == 79,
        spec_isa_feature(Opcode::EvexVpackusdwVdqHdqWdq) == 79,
        spec_isa_feature(Opcode::EvexVpackusdwVdqHdqWdqKmask) == 79,
        spec_isa_feature(Opcode::EvexVpunpcklbwVdqHdqWdq) == 79,
        spec_isa_feature(Opcode::EvexVpunpckhbwVdqHdqWdq) == 79,
        spec_isa_feature(Opcode::EvexVpunpcklbwVdqHdqWdqKmask) == 79,
        spec_isa_feature(Opcode::EvexVpunpckhbwVdqHdqWdqKmask) == 79,
        spec_isa_feature(Opcode::EvexVpunpcklwdVdqHdqWdq) == 79,
        spec_isa_feature(Opcode::EvexVpunpckhwdVdqHdqWdq) == 79,
        spec_isa_feature(Opcode::EvexVpunpcklwdVdqHdqWdqKmask) == 79,
        spec_isa_feature(Opcode::EvexVpunpckhwdVdqHdqWdqKmask) == 79,
        spec_isa_feature(Opcode::EvexVpavgbVdqHdqWdq) == 79,
{
}

/// Every opcode the generated table gates on a CPU feature has that feature as its gate (entries 1950..2000 of 2908).
#[verifier::spinoff_prover]
#[verifier::rlimit(100)]
pub proof fn lemma_isa_entries_39()
    ensures
        spec_isa_feature(Opcode::EvexVpavgwVdqHdqWdq) == 79,
        spec_isa_feature(Opcode::EvexVpavgbVdqHdqWdqKmask) == 79,
        spec_isa_feature(Opcode::EvexVpavgwVdqHdqWdqKmask) == 79,
        spec_isa_feature(Opcode::EvexVpmaddubswVdqHdqWdq) == 79,
        spec_isa_feature(Opcode::EvexVpmaddubswVdqHdqWdqKmask) == 79,
        spec_isa_feature(Opcode::EvexVpmullwVdqHdqWdq) == 79,
        spec_isa_feature(Opcode::EvexVpmulhwVdqHdqWdq) == 79,
        spec_isa_feature(Opcode::EvexVpmulhuwVdqHdqWdq) == 79,
        spec_isa_feature(Opcode::EvexVpmulhrswVdqHdqWdq) == 79,
        spec_isa_feature(Opcode::EvexVpmullwVdqHdqWdqKmask) == 79,
        spec_isa_feature(Opcode::EvexVpmulhwVdqHdqWdqKmask) == 79,
        spec_isa_feature(Opcode::EvexVpmulhuwVdqHdqWdqKmask) == 79,
        spec_isa_feature(Opcode::EvexVpmulhrswVdqHdqWdqKmask) == 79,
        spec_isa_feature(Opcode::EvexVpsrldqUdqIb) == 79,
        spec_isa_feature(Opcode::EvexVpslldqUdqIb) == 79,
        spec_isa_feature(Opcode::EvexVpsadbwVdqHdqWdq) == 79,
        spec_isa_feature(Opcode::EvexVpmaddwdVdqHdqWdq) == 79,
        spec_isa_feature(Opcode::EvexVpmaddwdVdqHdqWdqKmask) == 79,
        spec_isa_feature(Opcode::EvexVpmadd52luqVdqHdqWdq) == 83,
        spec_isa_feature(Opcode::EvexVpmadd52luqVdqHdqWdqKmask) == 83,
        spec_isa_feature(Opcode::EvexVpmadd52huqVdqHdqWdq) == 83,
        spec_isa_feature(Opcode::EvexVpmadd52huqVdqHdqWdqKmask) == 83,
        spec_isa_feature(Opcode::EvexVpmultishiftqbVdqHdqWdqKmask) == 81,
        spec_isa_feature(Opcode::EvexVpermbVdqHdqWdqKmask) == 81,
        spec_isa_feature(Opcode::EvexVpermwVdqHdqWdqKmask) == 79,
        spec_isa_feature(Opcode::EvexVpermt2bVdqHdqWdqKmask) == 81,
        spec_isa_feature(Opcode::EvexVpermt2wVdqHdqWdqKmask) == 79,
        spec_isa_feature(Opcode::EvexVpermi2bVdqHdqWdqKmask) == 81,
        spec_isa_feature(Opcode::EvexVpermi2wVdqHdqWdqKmask) == 79,
        spec_isa_feature(Opcode::EvexVinsertf32x4VpsHpsWpsIb) == 77,
        spec_isa_feature(Opcode::EvexVinsertf64x2VpdHpdWpdIb) == 78,
        spec_isa_feature(Opcode::EvexVinsertf32x4VpsHpsWpsIbKmask) == 77,
        spec_isa_feature(Opcode::EvexVinsertf64x2VpdHpdWpdIbKmask) == 78,
        spec_isa_feature(Opcode::EvexVinsertf32x8VpsHpsWpsIb) == 78,
        spec_isa_feature(Opcode::EvexVinsertf64x4VpdHpdWpdIb) == 77,
        spec_isa_feature(Opcode::EvexVinsertf32x8VpsHpsWpsIbKmask) == 78,
        spec_isa_feature(Opcode::EvexVinsertf64x4VpdHpdWpdIbKmask) == 77,
        spec_isa_feature(Opcode::EvexVinserti32x4VdqHdqWdqIb) == 77,
        spec_isa_feature(Opcode::EvexVinserti64x2VdqHdqWdqIb) == 78,
        spec_isa_feature(Opcode::EvexVinserti32x4VdqHdqWdqIbKmask) == 77,
        spec_isa_feature(Opcode::EvexVinserti64x2VdqHdqWdqIbKmask) == 78,
        spec_isa_feature(Opcode::EvexVinserti32x8VdqHdqWdqIb) == 78,
        spec_isa_feature(Opcode::EvexVinserti64x4VdqHdqWdqIb) == 77,
        spec_isa_feature(Opcode::EvexVinserti32x8VdqHdqWdqIbKmask) == 78,
        spec_isa_feature(Opcode::EvexVinserti64x4VdqHdqWdqIbKmask) == 77,
        spec_isa_feature(Opcode::EvexVextractf32x4WpsVpsIb) == 77,
        spec_isa_feature(Opcode::EvexVextractf64x2WpdVpdIb) == 78,
        spec_isa_feature(Opcode::EvexVextractf32x4WpsVpsIbKmask) == 77,
        spec_isa_feature(Opcode::EvexVextractf64x2WpdVpdIbKmask) == 78,
        spec_isa_feature(Opcode::EvexVextractf32x8WpsVpsIb) == 78,
{
}

/// Every opcode the generated table gates on a CPU feature has that feature as its gate (entries 2000..2050 of 2908).
#[verifier::spinoff_prover]
#[verifier::rlimit(100)]
pub proof fn lemma_isa_entries_40()
    ensures
        spec_isa_feature(Opcode::EvexVextractf64x4WpdVpdIb) == 77,
        spec_isa_feature(Opcode::EvexVextractf32x8WpsVpsIbKmask) == 78,
        spec_isa_feature(Opcode::EvexVextractf64x4WpdVpdIbKmask) == 77,
        spec_isa_feature(Opcode::EvexVextracti32x4WdqVdqIb) == 77,
        spec_isa_feature(Opcode::EvexVextracti64x2WdqVdqIb) == 78,
        spec_isa_feature(Opcode::EvexVextracti32x4WdqVdqIbKmask) == 77,
        spec_isa_feature(Opcode::EvexVextracti64x2WdqVdqIbKmask) == 78,
        spec_isa_feature(Opcode::EvexVextracti32x8WdqVdqIb) == 78,
        spec_isa_feature(Opcode::EvexVextracti64x4WdqVdqIb) == 77,
        spec_isa_feature(Opcode::EvexVextracti32x8WdqVdqIbKmask) == 78,
        spec_isa_feature(Opcode::EvexVextracti64x4WdqVdqIbKmask) == 77,
        spec_isa_feature(Opcode::EvexVbroadcastf32x2VpsWq) == 78,
        spec_isa_feature(Opcode::EvexVbroadcastf32x2VpsWqKmask) == 78,
        spec_isa_feature(Opcode::EvexVbroadcasti32x2VdqWq) == 78,
        spec_isa_feature(Opcode::EvexVbroadcasti32x2VdqWqKmask) == 78,
        spec_isa_feature(Opcode::EvexVbroadcastf32x4VpsWps) == 77,
        spec_isa_feature(Opcode::EvexVbroadcastf64x2VpdWpd) == 78,
        spec_isa_feature(Opcode::EvexVbroadcastf32x4VpsWpsKmask) == 77,
        spec_isa_feature(Opcode::EvexVbroadcastf64x2VpdWpdKmask) == 78,
        spec_isa_feature(Opcode::EvexVbroadcastf32x8VpsWps) == 78,
        spec_isa_feature(Opcode::EvexVbroadcastf64x4VpdWpd) == 77,
        spec_isa_feature(Opcode::EvexVbroadcastf32x8VpsWpsKmask) == 78,
        spec_isa_feature(Opcode::EvexVbroadcastf64x4VpdWpdKmask) == 77,
        spec_isa_feature(Opcode::EvexVbroadcasti32x4VdqWdq) == 77,
        spec_isa_feature(Opcode::EvexVbroadcasti64x2VdqWdq) == 78,
        spec_isa_feature(Opcode::EvexVbroadcasti32x4VdqWdqKmask) == 77,
        spec_isa_feature(Opcode::EvexVbroadcasti64x2VdqWdqKmask) == 78,
        spec_isa_feature(Opcode::EvexVbroadcasti32x8VdqWdq) == 78,
        spec_isa_feature(Opcode::EvexVbroadcasti64x4VdqWdq) == 77,
        spec_isa_feature(Opcode::EvexVbroadcasti32x8VdqWdqKmask) == 78,
        spec_isa_feature(Opcode::EvexVbroadcasti64x4VdqWdqKmask) == 77,
        spec_isa_feature(Opcode::EvexVpmulldVdqHdqWdq) == 77,
        spec_isa_feature(Opcode::EvexVpmullqVdqHdqWdq) == 78,
        spec_isa_feature(Opcode::EvexVpmulldVdqHdqWdqKmask) == 77,
        spec_isa_feature(Opcode::EvexVpmullqVdqHdqWdqKmask) == 78,
        spec_isa_feature(Opcode::EvexVpadddVdqHdqWdq) == 77,
        spec_isa_feature(Opcode::EvexVpaddqVdqHdqWdq) == 77,
        spec_isa_feature(Opcode::EvexVpadddVdqHdqWdqKmask) == 77,
        spec_isa_feature(Opcode::EvexVpaddqVdqHdqWdqKmask) == 77,
        spec_isa_feature(Opcode::EvexVpsubdVdqHdqWdq) == 77,
        spec_isa_feature(Opcode::EvexVpsubqVdqHdqWdq) == 77,
        spec_isa_feature(Opcode::EvexVpsubdVdqHdqWdqKmask) == 77,
        spec_isa_feature(Opcode::EvexVpsubqVdqHdqWdqKmask) == 77,
        spec_isa_feature(Opcode::EvexVpanddVdqHdqWdq) == 77,
        spec_isa_feature(Opcode::EvexVpandqVdqHdqWdq) == 77,
        spec_isa_feature(Opcode::EvexVpanddVdqHdqWdqKmask) == 77,
        spec_isa_feature(Opcode::EvexVpandqVdqHdqWdqKmask) == 77,
        spec_isa_feature(Opcode::EvexVpandndVdqHdqWdq) == 77,
        spec_isa_feature(Opcode::EvexVpandnqVdqHdqWdq) == 77,
        spec_isa_feature(Opcode::EvexVpandndVdqHdqWdqKmask) == 77,
{
}

/// Every opcode the generated table gates on a CPU feature has that feature as its gate (entries 2050..2100 of 2908).
#[verifier::spinoff_prover]
#[verifier::rlimit(100)]
pub proof fn lemma_isa_entries_41()
    ensures
        spec_isa_feature(Opcode::EvexVpandnqVdqHdqWdqKmask) == 77,
        spec_isa_feature(Opcode::EvexVpordVdqHdqWdq) == 77,
        spec_isa_feature(Opcode::EvexVporqVdqHdqWdq) == 77,
        spec_isa_feature(Opcode::EvexVpordVdqHdqWdqKmask) == 77,
        spec_isa_feature(Opcode::EvexVporqVdqHdqWdqKmask) == 77,
        spec_isa_feature(Opcode::EvexVpxordVdqHdqWdq) == 77,
        spec_isa_feature(Opcode::EvexVpxorqVdqHdqWdq) == 77,
        spec_isa_feature(Opcode::EvexVpxordVdqHdqWdqKmask) == 77,
        spec_isa_feature(Opcode::EvexVpxorqVdqHdqWdqKmask) == 77,
        spec_isa_feature(Opcode::EvexVandpsVpsHpsWps) == 78,
        spec_isa_feature(Opcode::EvexVandpdVpdHpdWpd) == 78,
        spec_isa_feature(Opcode::EvexVandpsVpsHpsWpsKmask) == 78,
        spec_isa_feature(Opcode::EvexVandpdVpdHpdWpdKmask) == 78,
        spec_isa_feature(Opcode::EvexVandnpsVpsHpsWps) == 78,
        spec_isa_feature(Opcode::EvexVandnpdVpdHpdWpd) == 78,
        spec_isa_feature(Opcode::EvexVandnpsVpsHpsWpsKmask) == 78,
        spec_isa_feature(Opcode::EvexVandnpdVpdHpdWpdKmask) == 78,
        spec_isa_feature(Opcode::EvexVorpsVpsHpsWps) == 78,
        spec_isa_feature(Opcode::EvexVorpdVpdHpdWpd) == 78,
        spec_isa_feature(Opcode::EvexVorpsVpsHpsWpsKmask) == 78,
        spec_isa_feature(Opcode::EvexVorpdVpdHpdWpdKmask) == 78,
        spec_isa_feature(Opcode::EvexVxorpsVpsHpsWps) == 78,
        spec_isa_feature(Opcode::EvexVxorpdVpdHpdWpd) == 78,
        spec_isa_feature(Opcode::EvexVxorpsVpsHpsWpsKmask) == 78,
        spec_isa_feature(Opcode::EvexVxorpdVpdHpdWpdKmask) == 78,
        spec_isa_feature(Opcode::EvexVpmaxsdVdqHdqWdq) == 77,
        spec_isa_feature(Opcode::EvexVpmaxsqVdqHdqWdq) == 77,
        spec_isa_feature(Opcode::EvexVpmaxsdVdqHdqWdqKmask) == 77,
        spec_isa_feature(Opcode::EvexVpmaxsqVdqHdqWdqKmask) == 77,
        spec_isa_feature(Opcode::EvexVpmaxudVdqHdqWdq) == 77,
        spec_isa_feature(Opcode::EvexVpmaxuqVdqHdqWdq) == 77,
        spec_isa_feature(Opcode::EvexVpmaxudVdqHdqWdqKmask) == 77,
        spec_isa_feature(Opcode::EvexVpmaxuqVdqHdqWdqKmask) == 77,
        spec_isa_feature(Opcode::EvexVpminsdVdqHdqWdq) == 77,
        spec_isa_feature(Opcode::EvexVpminsqVdqHdqWdq) == 77,
        spec_isa_feature(Opcode::EvexVpminsdVdqHdqWdqKmask) == 77,
        spec_isa_feature(Opcode::EvexVpminsqVdqHdqWdqKmask) == 77,
        spec_isa_feature(Opcode::EvexVpminudVdqHdqWdq) == 77,
        spec_isa_feature(Opcode::EvexVpminuqVdqHdqWdq) == 77,
        spec_isa_feature(Opcode::EvexVpminudVdqHdqWdqKmask) == 77,
        spec_isa_feature(Opcode::EvexVpminuqVdqHdqWdqKmask) == 77,
        spec_isa_feature(Opcode::EvexValigndVdqHdqWdqIbKmask) == 77,
        spec_isa_feature(Opcode::EvexValignqVdqHdqWdqIbKmask) == 77,
        spec_isa_feature(Opcode::EvexVpalignrVdqHdqWdqIb) == 79,
        spec_isa_feature(Opcode::EvexVpalignrVdqHdqWdqIbKmask) == 79,
        spec_isa_feature(Opcode::EvexVdbpsadbwVdqHdqWdqIbKmask) == 79,
        spec_isa_feature(Opcode::EvexVpsrlvwVdqHdqWdq) == 79,
        spec_isa_feature(Opcode::EvexVpsrlvdVdqHdqWdq) == 77,
        spec_isa_feature(Opcode::EvexVpsrlvqVdqHdqWdq) == 77,
        spec_isa_feature(Opcode::EvexVpsravwVdqHdqWdq) == 79,
{
}

/// Every opcode the generated table gates on a CPU feature has that feature as its gate (entries 2100..2150 of 2908).
#[verifier::spinoff_prover]
#[verifier::rlimit(100)]
pub proof fn lemma_isa_entries_42()
    ensures
        spec_isa_feature(Opcode::EvexVpsravdVdqHdqWdq) == 77,
        spec_isa_feature(Opcode::EvexVpsravqVdqHdqWdq) == 77,
        spec_isa_feature(Opcode::EvexVpsllvwVdqHdqWdq) == 79,
        spec_isa_feature(Opcode::EvexVpsllvdVdqHdqWdq) == 77,
        spec_isa_feature(Opcode::EvexVpsllvqVdqHdqWdq) == 77,
        spec_isa_feature(Opcode::EvexVprolvdVdqHdqWdq) == 77,
        spec_isa_feature(Opcode::EvexVprolvqVdqHdqWdq) == 77,
        spec_isa_feature(Opcode::EvexVprorvdVdqHdqWdq) == 77,
        spec_isa_feature(Opcode::EvexVprorvqVdqHdqWdq) == 77,
        spec_isa_feature(Opcode::EvexVpsrlvwVdqHdqWdqKmask) == 79,
        spec_isa_feature(Opcode::EvexVpsrlvdVdqHdqWdqKmask) == 77,
        spec_isa_feature(Opcode::EvexVpsrlvqVdqHdqWdqKmask) == 77,
        spec_isa_feature(Opcode::EvexVpsravwVdqHdqWdqKmask) == 79,
        spec_isa_feature(Opcode::EvexVpsravdVdqHdqWdqKmask) == 77,
        spec_isa_feature(Opcode::EvexVpsravqVdqHdqWdqKmask) == 77,
        spec_isa_feature(Opcode::EvexVpsllvwVdqHdqWdqKmask) == 79,
        spec_isa_feature(Opcode::EvexVpsllvdVdqHdqWdqKmask) == 77,
        spec_isa_feature(Opcode::EvexVpsllvqVdqHdqWdqKmask) == 77,
        spec_isa_feature(Opcode::EvexVprolvdVdqHdqWdqKmask) == 77,
        spec_isa_feature(Opcode::EvexVprolvqVdqHdqWdqKmask) == 77,
        spec_isa_feature(Opcode::EvexVprorvdVdqHdqWdqKmask) == 77,
        spec_isa_feature(Opcode::EvexVprorvqVdqHdqWdqKmask) == 77,
        spec_isa_feature(Opcode::EvexVpsradVdqHdqWdq) == 77,
        spec_isa_feature(Opcode::EvexVpsraqVdqHdqWdq) == 77,
        spec_isa_feature(Opcode::EvexVpsradVdqHdqWdqKmask) == 77,
        spec_isa_feature(Opcode::EvexVpsraqVdqHdqWdqKmask) == 77,
        spec_isa_feature(Opcode::EvexVpsradUdqIb) == 77,
        spec_isa_feature(Opcode::EvexVpsraqUdqIb) == 77,
        spec_isa_feature(Opcode::EvexVprordUdqIb) == 77,
        spec_isa_feature(Opcode::EvexVprorqUdqIb) == 77,
        spec_isa_feature(Opcode::EvexVproldUdqIb) == 77,
        spec_isa_feature(Opcode::EvexVprolqUdqIb) == 77,
        spec_isa_feature(Opcode::EvexVpsradUdqIbKmask) == 77,
        spec_isa_feature(Opcode::EvexVpsraqUdqIbKmask) == 77,
        spec_isa_feature(Opcode::EvexVprordUdqIbKmask) == 77,
        spec_isa_feature(Opcode::EvexVprorqUdqIbKmask) == 77,
        spec_isa_feature(Opcode::EvexVproldUdqIbKmask) == 77,
        spec_isa_feature(Opcode::EvexVprolqUdqIbKmask) == 77,
        spec_isa_feature(Opcode::EvexVmovdqu8VdqWdq) == 79,
        spec_isa_feature(Opcode::EvexVmovdqu16VdqWdq) == 79,
        spec_isa_feature(Opcode::EvexVmovdqu8VdqWdqKmask) == 79,
        spec_isa_feature(Opcode::EvexVmovdqu16VdqWdqKmask) == 79,
        spec_isa_feature(Opcode::EvexVmovdqu8WdqVdq) == 79,
        spec_isa_feature(Opcode::EvexVmovdqu16WdqVdq) == 79,
        spec_isa_feature(Opcode::EvexVmovdqu8WdqVdqKmask) == 79,
        spec_isa_feature(Opcode::EvexVmovdqu16WdqVdqKmask) == 79,
        spec_isa_feature(Opcode::EvexVmovdqu32VdqWdq) == 77,
        spec_isa_feature(Opcode::EvexVmovdqu64VdqWdq) == 77,
        spec_isa_feature(Opcode::EvexVmovdqu32VdqWdqKmask) == 77,
        spec_isa_feature(Opcode::EvexVmovdqu64VdqWdqKmask) == 77,
{
}

/// Every opcode the generated table gates on a CPU feature has that feature as its gate (entries 2150..2200 of 2908).
#[verifier::spinoff_prover]
#[verifier::rlimit(100)]
pub proof fn lemma_isa_entries_43()
    ensures
        spec_isa_feature(Opcode::EvexVmovdqu32WdqVdq) == 77,
        spec_isa_feature(Opcode::EvexVmovdqu64WdqVdq) == 77,
        spec_isa_feature(Opcode::EvexVmovdqu32WdqVdqKmask) == 77,
        spec_isa_feature(Opcode::EvexVmovdqu64WdqVdqKmask) == 77,
        spec_isa_feature(Opcode::EvexVmovdqa32VdqWdq) == 77,
        spec_isa_feature(Opcode::EvexVmovdqa64VdqWdq) == 77,
        spec_isa_feature(Opcode::EvexVmovdqa32VdqWdqKmask) == 77,
        spec_isa_feature(Opcode::EvexVmovdqa64VdqWdqKmask) == 77,
        spec_isa_feature(Opcode::EvexVmovdqa32WdqVdq) == 77,
        spec_isa_feature(Opcode::EvexVmovdqa64WdqVdq) == 77,
        spec_isa_feature(Opcode::EvexVmovdqa32WdqVdqKmask) == 77,
        spec_isa_feature(Opcode::EvexVmovdqa64WdqVdqKmask) == 77,
        spec_isa_feature(Opcode::EvexVrangepsVpsHpsWpsIbKmask) == 78,
        spec_isa_feature(Opcode::EvexVrangepdVpdHpdWpdIbKmask) == 78,
        spec_isa_feature(Opcode::EvexVrangessVssHpsWssIbKmask) == 78,
        spec_isa_feature(Opcode::EvexVrangesdVsdHpdWsdIbKmask) == 78,
        spec_isa_feature(Opcode::EvexVgetexppsVpsWps) == 77,
        spec_isa_feature(Opcode::EvexVgetexppdVpdWpd) == 77,
        spec_isa_feature(Opcode::EvexVgetexpssVssHpsWss) == 77,
        spec_isa_feature(Opcode::EvexVgetexpsdVsdHpdWsd) == 77,
        spec_isa_feature(Opcode::EvexVgetexppsVpsWpsKmask) == 77,
        spec_isa_feature(Opcode::EvexVgetexppdVpdWpdKmask) == 77,
        spec_isa_feature(Opcode::EvexVgetexpssVssHpsWssKmask) == 77,
        spec_isa_feature(Opcode::EvexVgetexpsdVsdHpdWsdKmask) == 77,
        spec_isa_feature(Opcode::EvexVgetmantpsVpsWpsIbKmask) == 77,
        spec_isa_feature(Opcode::EvexVgetmantpdVpdWpdIbKmask) == 77,
        spec_isa_feature(Opcode::EvexVgetmantssVssHpsWssIbKmask) == 77,
        spec_isa_feature(Opcode::EvexVgetmantsdVsdHpdWsdIbKmask) == 77,
        spec_isa_feature(Opcode::EvexVscalefpsVpsHpsWps) == 77,
        spec_isa_feature(Opcode::EvexVscalefpdVpdHpdWpd) == 77,
        spec_isa_feature(Opcode::EvexVscalefssVssHpsWss) == 77,
        spec_isa_feature(Opcode::EvexVscalefsdVsdHpdWsd) == 77,
        spec_isa_feature(Opcode::EvexVscalefpsVpsHpsWpsKmask) == 77,
        spec_isa_feature(Opcode::EvexVscalefpdVpdHpdWpdKmask) == 77,
        spec_isa_feature(Opcode::EvexVscalefssVssHpsWssKmask) == 77,
        spec_isa_feature(Opcode::EvexVscalefsdVsdHpdWsdKmask) == 77,
        spec_isa_feature(Opcode::EvexVrcp14psVpsWpsKmask) == 77,
        spec_isa_feature(Opcode::EvexVrcp14pdVpdWpdKmask) == 77,
        spec_isa_feature(Opcode::EvexVrcp14ssVssHpsWssKmask) == 77,
        spec_isa_feature(Opcode::EvexVrcp14sdVsdHpdWsdKmask) == 77,
        spec_isa_feature(Opcode::EvexVrsqrt14psVpsWpsKmask) == 77,
        spec_isa_feature(Opcode::EvexVrsqrt14pdVpdWpdKmask) == 77,
        spec_isa_feature(Opcode::EvexVrsqrt14ssVssHpsWssKmask) == 77,
        spec_isa_feature(Opcode::EvexVrsqrt14sdVsdHpdWsdKmask) == 77,
        spec_isa_feature(Opcode::EvexVcvtps2uqqVdqWps) == 78,
        spec_isa_feature(Opcode::EvexVcvtpd2uqqVdqWpd) == 78,
        spec_isa_feature(Opcode::EvexVcvtps2uqqVdqWpsKmask) == 78,
        spec_isa_feature(Opcode::EvexVcvtpd2uqqVdqWpdKmask) == 78,
        spec_isa_feature(Opcode::EvexVcvttps2uqqVdqWps) == 78,
        spec_isa_feature(Opcode::EvexVcvttps2uqqVdqWpsKmask) == 78,
{
}

/// Every opcode the generated table gates on a CPU feature has that feature as its gate (entries 2200..2250 of 2908).
#[verifier::spinoff_prover]
#[verifier::rlimit(100)]
pub proof fn lemma_isa_entries_44()
    ensures
        spec_isa_feature(Opcode::EvexVcvttpd2uqqVdqWpd) == 78,
        spec_isa_feature(Opcode::EvexVcvttpd2uqqVdqWpdKmask) == 78,
        spec_isa_feature(Opcode::EvexVcvtps2qqVdqWps) == 78,
        spec_isa_feature(Opcode::EvexVcvtps2qqVdqWpsKmask) == 78,
        spec_isa_feature(Opcode::EvexVcvtpd2qqVdqWpd) == 78,
        spec_isa_feature(Opcode::EvexVcvtpd2qqVdqWpdKmask) == 78,
        spec_isa_feature(Opcode::EvexVcvttps2qqVdqWps) == 78,
        spec_isa_feature(Opcode::EvexVcvttps2qqVdqWpsKmask) == 78,
        spec_isa_feature(Opcode::EvexVcvttpd2qqVdqWpd) == 78,
        spec_isa_feature(Opcode::EvexVcvttpd2qqVdqWpdKmask) == 78,
        spec_isa_feature(Opcode::EvexVcvttps2udqVdqWps) == 77,
        spec_isa_feature(Opcode::EvexVcvttpd2udqVdqWpd) == 77,
        spec_isa_feature(Opcode::EvexVcvttps2udqVdqWpsKmask) == 77,
        spec_isa_feature(Opcode::EvexVcvttpd2udqVdqWpdKmask) == 77,
        spec_isa_feature(Opcode::EvexVcvtps2udqVdqWps) == 77,
        spec_isa_feature(Opcode::EvexVcvtpd2udqVdqWpd) == 77,
        spec_isa_feature(Opcode::EvexVcvtps2udqVdqWpsKmask) == 77,
        spec_isa_feature(Opcode::EvexVcvtpd2udqVdqWpdKmask) == 77,
        spec_isa_feature(Opcode::EvexVcvtudq2pdVpdWdq) == 77,
        spec_isa_feature(Opcode::EvexVcvtudq2pdVpdWdqKmask) == 77,
        spec_isa_feature(Opcode::EvexVcvtuqq2pdVpdWdq) == 78,
        spec_isa_feature(Opcode::EvexVcvtuqq2pdVpdWdqKmask) == 78,
        spec_isa_feature(Opcode::EvexVcvtudq2psVpsWdq) == 77,
        spec_isa_feature(Opcode::EvexVcvtudq2psVpsWdqKmask) == 77,
        spec_isa_feature(Opcode::EvexVcvtuqq2psVpsWdq) == 78,
        spec_isa_feature(Opcode::EvexVcvtuqq2psVpsWdqKmask) == 78,
        spec_isa_feature(Opcode::EvexVcvtdq2pdVpdWdq) == 77,
        spec_isa_feature(Opcode::EvexVcvtdq2pdVpdWdqKmask) == 77,
        spec_isa_feature(Opcode::EvexVcvtqq2pdVpdWdq) == 78,
        spec_isa_feature(Opcode::EvexVcvtqq2pdVpdWdqKmask) == 78,
        spec_isa_feature(Opcode::EvexVcvtdq2psVpsWdq) == 77,
        spec_isa_feature(Opcode::EvexVcvtdq2psVpsWdqKmask) == 77,
        spec_isa_feature(Opcode::EvexVcvtqq2psVpsWdq) == 78,
        spec_isa_feature(Opcode::EvexVcvtqq2psVpsWdqKmask) == 78,
        spec_isa_feature(Opcode::EvexVfmadd132psVpsHpsWps) == 77,
        spec_isa_feature(Opcode::EvexVfmadd132pdVpdHpdWpd) == 77,
        spec_isa_feature(Opcode::EvexVfmadd213psVpsHpsWps) == 77,
        spec_isa_feature(Opcode::EvexVfmadd213pdVpdHpdWpd) == 77,
        spec_isa_feature(Opcode::EvexVfmadd231psVpsHpsWps) == 77,
        spec_isa_feature(Opcode::EvexVfmadd231pdVpdHpdWpd) == 77,
        spec_isa_feature(Opcode::EvexVfmadd132psVpsHpsWpsKmask) == 77,
        spec_isa_feature(Opcode::EvexVfmadd132pdVpdHpdWpdKmask) == 77,
        spec_isa_feature(Opcode::EvexVfmadd213psVpsHpsWpsKmask) == 77,
        spec_isa_feature(Opcode::EvexVfmadd213pdVpdHpdWpdKmask) == 77,
        spec_isa_feature(Opcode::EvexVfmadd231psVpsHpsWpsKmask) == 77,
        spec_isa_feature(Opcode::EvexVfmadd231pdVpdHpdWpdKmask) == 77,
        spec_isa_feature(Opcode::EvexVfmadd132ssVpsHssWss) == 77,
        spec_isa_feature(Opcode::EvexVfmadd132sdVpdHsdWsd) == 77,
        spec_isa_feature(Opcode::EvexVfmadd213ssVpsHssWss) == 77,
        spec_isa_feature(Opcode::EvexVfmadd213sdVpdHsdWsd) == 77,
{
}

/// Every opcode the generated table gates on a CPU feature has that feature as its gate (entries 2250..2300 of 2908).
#[verifier::spinoff_prover]
#[verifier::rlimit(100)]
pub proof fn lemma_isa_entries_45()
    ensures
        spec_isa_feature(Opcode::EvexVfmadd231ssVpsHssWss) == 77,
        spec_isa_feature(Opcode::EvexVfmadd231sdVpdHsdWsd) == 77,
        spec_isa_feature(Opcode::EvexVfmadd132ssVpsHssWssKmask) == 77,
        spec_isa_feature(Opcode::EvexVfmadd132sdVpdHsdWsdKmask) == 77,
        spec_isa_feature(Opcode::EvexVfmadd213ssVpsHssWssKmask) == 77,
        spec_isa_feature(Opcode::EvexVfmadd213sdVpdHsdWsdKmask) == 77,
        spec_isa_feature(Opcode::EvexVfmadd231ssVpsHssWssKmask) == 77,
        spec_isa_feature(Opcode::EvexVfmadd231sdVpdHsdWsdKmask) == 77,
        spec_isa_feature(Opcode::EvexVfmaddsub132psVpsHpsWps) == 77,
        spec_isa_feature(Opcode::EvexVfmaddsub132pdVpdHpdWpd) == 77,
        spec_isa_feature(Opcode::EvexVfmaddsub213psVpsHpsWps) == 77,
        spec_isa_feature(Opcode::EvexVfmaddsub213pdVpdHpdWpd) == 77,
        spec_isa_feature(Opcode::EvexVfmaddsub231psVpsHpsWps) == 77,
        spec_isa_feature(Opcode::EvexVfmaddsub231pdVpdHpdWpd) == 77,
        spec_isa_feature(Opcode::EvexVfmaddsub132psVpsHpsWpsKmask) == 77,
        spec_isa_feature(Opcode::EvexVfmaddsub132pdVpdHpdWpdKmask) == 77,
        spec_isa_feature(Opcode::EvexVfmaddsub213psVpsHpsWpsKmask) == 77,
        spec_isa_feature(Opcode::EvexVfmaddsub213pdVpdHpdWpdKmask) == 77,
        spec_isa_feature(Opcode::EvexVfmaddsub231psVpsHpsWpsKmask) == 77,
        spec_isa_feature(Opcode::EvexVfmaddsub231pdVpdHpdWpdKmask) == 77,
        spec_isa_feature(Opcode::EvexVfmsubadd132psVpsHpsWps) == 77,
        spec_isa_feature(Opcode::EvexVfmsubadd132pdVpdHpdWpd) == 77,
        spec_isa_feature(Opcode::EvexVfmsubadd213psVpsHpsWps) == 77,
        spec_isa_feature(Opcode::EvexVfmsubadd213pdVpdHpdWpd) == 77,
        spec_isa_feature(Opcode::EvexVfmsubadd231psVpsHpsWps) == 77,
        spec_isa_feature(Opcode::EvexVfmsubadd231pdVpdHpdWpd) == 77,
        spec_isa_feature(Opcode::EvexVfmsubadd132psVpsHpsWpsKmask) == 77,
        spec_isa_feature(Opcode::EvexVfmsubadd132pdVpdHpdWpdKmask) == 77,
        spec_isa_feature(Opcode::EvexVfmsubadd213psVpsHpsWpsKmask) == 77,
        spec_isa_feature(Opcode::EvexVfmsubadd213pdVpdHpdWpdKmask) == 77,
        spec_isa_feature(Opcode::EvexVfmsubadd231psVpsHpsWpsKmask) == 77,
        spec_isa_feature(Opcode::EvexVfmsubadd231pdVpdHpdWpdKmask) == 77,
        spec_isa_feature(Opcode::EvexVfmsub132psVpsHpsWps) == 77,
        spec_isa_feature(Opcode::EvexVfmsub132pdVpdHpdWpd) == 77,
        spec_isa_feature(Opcode::EvexVfmsub213psVpsHpsWps) == 77,
        spec_isa_feature(Opcode::EvexVfmsub213pdVpdHpdWpd) == 77,
        spec_isa_feature(Opcode::EvexVfmsub231psVpsHpsWps) == 77,
        spec_isa_feature(Opcode::EvexVfmsub231pdVpdHpdWpd) == 77,
        spec_isa_feature(Opcode::EvexVfmsub132psVpsHpsWpsKmask) == 77,
        spec_isa_feature(Opcode::EvexVfmsub132pdVpdHpdWpdKmask) == 77,
        spec_isa_feature(Opcode::EvexVfmsub213psVpsHpsWpsKmask) == 77,
        spec_isa_feature(Opcode::EvexVfmsub213pdVpdHpdWpdKmask) == 77,
        spec_isa_feature(Opcode::EvexVfmsub231psVpsHpsWpsKmask) == 77,
        spec_isa_feature(Opcode::EvexVfmsub231pdVpdHpdWpdKmask) == 77,
        spec_isa_feature(Opcode::EvexVfmsub132ssVpsHssWss) == 77,
        spec_isa_feature(Opcode::EvexVfmsub132sdVpdHsdWsd) == 77,
        spec_isa_feature(Opcode::EvexVfmsub213ssVpsHssWss) == 77,
        spec_isa_feature(Opcode::EvexVfmsub213sdVpdHsdWsd) == 77,
        spec_isa_feature(Opcode::EvexVfmsub231ssVpsHssWss) == 77,
        spec_isa_feature(Opcode::EvexVfmsub231sdVpdHsdWsd) == 77,
{
}

/// Every opcode the generated table gates on a CPU feature has that feature as its gate (entries 2300..2350 of 2908).
#[verifier::spinoff_prover]
#[verifier::rlimit(100)]
pub proof fn lemma_isa_entries_46()
    ensures
        spec_isa_feature(Opcode::EvexVfmsub132ssVpsHssWssKmask) == 77,
        spec_isa_feature(Opcode::EvexVfmsub132sdVpdHsdWsdKmask) == 77,
        spec_isa_feature(Opcode::EvexVfmsub213ssVpsHssWssKmask) == 77,
        spec_isa_feature(Opcode::EvexVfmsub213sdVpdHsdWsdKmask) == 77,
        spec_isa_feature(Opcode::EvexVfmsub231ssVpsHssWssKmask) == 77,
        spec_isa_feature(Opcode::EvexVfmsub231sdVpdHsdWsdKmask) == 77,
        spec_isa_feature(Opcode::EvexVfnmadd132psVpsHpsWps) == 77,
        spec_isa_feature(Opcode::EvexVfnmadd132pdVpdHpdWpd) == 77,
        spec_isa_feature(Opcode::EvexVfnmadd213psVpsHpsWps) == 77,
        spec_isa_feature(Opcode::EvexVfnmadd213pdVpdHpdWpd) == 77,
        spec_isa_feature(Opcode::EvexVfnmadd231psVpsHpsWps) == 77,
        spec_isa_feature(Opcode::EvexVfnmadd231pdVpdHpdWpd) == 77,
        spec_isa_feature(Opcode::EvexVfnmadd132psVpsHpsWpsKmask) == 77,
        spec_isa_feature(Opcode::EvexVfnmadd132pdVpdHpdWpdKmask) == 77,
        spec_isa_feature(Opcode::EvexVfnmadd213psVpsHpsWpsKmask) == 77,
        spec_isa_feature(Opcode::EvexVfnmadd213pdVpdHpdWpdKmask) == 77,
        spec_isa_feature(Opcode::EvexVfnmadd231psVpsHpsWpsKmask) == 77,
        spec_isa_feature(Opcode::EvexVfnmadd231pdVpdHpdWpdKmask) == 77,
        spec_isa_feature(Opcode::EvexVfnmadd132ssVpsHssWss) == 77,
        spec_isa_feature(Opcode::EvexVfnmadd132sdVpdHsdWsd) == 77,
        spec_isa_feature(Opcode::EvexVfnmadd213ssVpsHssWss) == 77,
        spec_isa_feature(Opcode::EvexVfnmadd213sdVpdHsdWsd) == 77,
        spec_isa_feature(Opcode::EvexVfnmadd231ssVpsHssWss) == 77,
        spec_isa_feature(Opcode::EvexVfnmadd231sdVpdHsdWsd) == 77,
        spec_isa_feature(Opcode::EvexVfnmadd132ssVpsHssWssKmask) == 77,
        spec_isa_feature(Opcode::EvexVfnmadd132sdVpdHsdWsdKmask) == 77,
        spec_isa_feature(Opcode::EvexVfnmadd213ssVpsHssWssKmask) == 77,
        spec_isa_feature(Opcode::EvexVfnmadd213sdVpdHsdWsdKmask) == 77,
        spec_isa_feature(Opcode::EvexVfnmadd231ssVpsHssWssKmask) == 77,
        spec_isa_feature(Opcode::EvexVfnmadd231sdVpdHsdWsdKmask) == 77,
        spec_isa_feature(Opcode::EvexVfnmsub132psVpsHpsWps) == 77,
        spec_isa_feature(Opcode::EvexVfnmsub132pdVpdHpdWpd) == 77,
        spec_isa_feature(Opcode::EvexVfnmsub213psVpsHpsWps) == 77,
        spec_isa_feature(Opcode::EvexVfnmsub213pdVpdHpdWpd) == 77,
        spec_isa_feature(Opcode::EvexVfnmsub231psVpsHpsWps) == 77,
        spec_isa_feature(Opcode::EvexVfnmsub231pdVpdHpdWpd) == 77,
        spec_isa_feature(Opcode::EvexVfnmsub132psVpsHpsWpsKmask) == 77,
        spec_isa_feature(Opcode::EvexVfnmsub132pdVpdHpdWpdKmask) == 77,
        spec_isa_feature(Opcode::EvexVfnmsub213psVpsHpsWpsKmask) == 77,
        spec_isa_feature(Opcode::EvexVfnmsub213pdVpdHpdWpdKmask) == 77,
        spec_isa_feature(Opcode::EvexVfnmsub231psVpsHpsWpsKmask) == 77,
        spec_isa_feature(Opcode::EvexVfnmsub231pdVpdHpdWpdKmask) == 77,
        spec_isa_feature(Opcode::EvexVfnmsub132ssVpsHssWss) == 77,
        spec_isa_feature(Opcode::EvexVfnmsub132sdVpdHsdWsd) == 77,
        spec_isa_feature(Opcode::EvexVfnmsub213ssVpsHssWss) == 77,
        spec_isa_feature(Opcode::EvexVfnmsub213sdVpdHsdWsd) == 77,
        spec_isa_feature(Opcode::EvexVfnmsub231ssVpsHssWss) == 77,
        spec_isa_feature(Opcode::EvexVfnmsub231sdVpdHsdWsd) == 77,
        spec_isa_feature(Opcode::EvexVfnmsub132ssVpsHssWssKmask) == 77,
        spec_isa_feature(Opcode::EvexVfnmsub132sdVpdHsdWsdKmask) == 77,
{
}

/// Every opcode the generated table gates on a CPU feature has that feature as its gate (entries 2350..2400 of 2908).
#[verifier::spinoff_prover]
#[verifier::rlimit(100)]
pub proof fn lemma_isa_entries_47()
    ensures
        spec_isa_feature(Opcode::EvexVfnmsub213ssVpsHssWssKmask) == 77,
        spec_isa_feature(Opcode::EvexVfnmsub213sdVpdHsdWsdKmask) == 77,
        spec_isa_feature(Opcode::EvexVfnmsub231ssVpsHssWssKmask) == 77,
        spec_isa_feature(Opcode::EvexVfnmsub231sdVpdHsdWsdKmask) == 77,
        spec_isa_feature(Opcode::EvexVpcmpbKgqHdqWdqIb) == 77,
        spec_isa_feature(Opcode::EvexVpcmpwKgdHdqWdqIb) == 77,
        spec_isa_feature(Opcode::EvexVpcmpubKgqHdqWdqIb) == 77,
        spec_isa_feature(Opcode::EvexVpcmpuwKgdHdqWdqIb) == 77,
        spec_isa_feature(Opcode::EvexVpcmpdKgwHdqWdqIb) == 77,
        spec_isa_feature(Opcode::EvexVpcmpqKgbHdqWdqIb) == 77,
        spec_isa_feature(Opcode::EvexVpcmpudKgwHdqWdqIb) == 77,
        spec_isa_feature(Opcode::EvexVpcmpuqKgbHdqWdqIb) == 77,
        spec_isa_feature(Opcode::EvexVptestmbKgqHdqWdq) == 79,
        spec_isa_feature(Opcode::EvexVptestmwKgdHdqWdq) == 79,
        spec_isa_feature(Opcode::EvexVptestnmbKgqHdqWdq) == 79,
        spec_isa_feature(Opcode::EvexVptestnmwKgdHdqWdq) == 79,
        spec_isa_feature(Opcode::EvexVptestmdKgwHdqWdq) == 77,
        spec_isa_feature(Opcode::EvexVptestmqKgbHdqWdq) == 77,
        spec_isa_feature(Opcode::EvexVptestnmdKgwHdqWdq) == 77,
        spec_isa_feature(Opcode::EvexVptestnmqKgbHdqWdq) == 77,
        spec_isa_feature(Opcode::EvexVpternlogdVdqHdqWdqIb) == 77,
        spec_isa_feature(Opcode::EvexVpternlogqVdqHdqWdqIb) == 77,
        spec_isa_feature(Opcode::EvexVpternlogdVdqHdqWdqIbKmask) == 77,
        spec_isa_feature(Opcode::EvexVpternlogqVdqHdqWdqIbKmask) == 77,
        spec_isa_feature(Opcode::EvexVgatherdpsVpsVsib) == 77,
        spec_isa_feature(Opcode::EvexVgatherdpdVpdVsib) == 77,
        spec_isa_feature(Opcode::EvexVgatherqpsVpsVsib) == 77,
        spec_isa_feature(Opcode::EvexVgatherqpdVpdVsib) == 77,
        spec_isa_feature(Opcode::EvexVgatherddVdqVsib) == 77,
        spec_isa_feature(Opcode::EvexVgatherdqVdqVsib) == 77,
        spec_isa_feature(Opcode::EvexVgatherqdVdqVsib) == 77,
        spec_isa_feature(Opcode::EvexVgatherqqVdqVsib) == 77,
        spec_isa_feature(Opcode::EvexVscatterdpsVsibVps) == 77,
        spec_isa_feature(Opcode::EvexVscatterdpdVsibVpd) == 77,
        spec_isa_feature(Opcode::EvexVscatterqpsVsibVps) == 77,
        spec_isa_feature(Opcode::EvexVscatterqpdVsibVpd) == 77,
        spec_isa_feature(Opcode::EvexVscatterddVsibVdq) == 77,
        spec_isa_feature(Opcode::EvexVscatterdqVsibVdq) == 77,
        spec_isa_feature(Opcode::EvexVscatterqdVsibVdq) == 77,
        spec_isa_feature(Opcode::EvexVscatterqqVsibVdq) == 77,
        spec_isa_feature(Opcode::EvexVblendmpsVpsHpsWps) == 77,
        spec_isa_feature(Opcode::EvexVblendmpdVpdHpdWpd) == 77,
        spec_isa_feature(Opcode::EvexVpblendmdVdqHdqWdq) == 77,
        spec_isa_feature(Opcode::EvexVpblendmqVdqHdqWdq) == 77,
        spec_isa_feature(Opcode::EvexVpblendmbVdqHdqWdq) == 79,
        spec_isa_feature(Opcode::EvexVpblendmwVdqHdqWdq) == 79,
        spec_isa_feature(Opcode::EvexVshufi32x4VdqHdqWdqIbKmask) == 77,
        spec_isa_feature(Opcode::EvexVshufi64x2VdqHdqWdqIbKmask) == 77,
        spec_isa_feature(Opcode::EvexVshuff32x4VpsHpsWpsIbKmask) == 77,
        spec_isa_feature(Opcode::EvexVshuff64x2VpdHpdWpdIbKmask) == 77,
{
}

/// Every opcode the generated table gates on a CPU feature has that feature as its gate (entries 2400..2450 of 2908).
#[verifier::spinoff_prover]
#[verifier::rlimit(100)]
pub proof fn lemma_isa_entries_48()
    ensures
        spec_isa_feature(Opcode::EvexVexpandpsVpsWps) == 77,
        spec_isa_feature(Opcode::EvexVexpandpdVpdWpd) == 77,
        spec_isa_feature(Opcode::EvexVexpandpsVpsWpsKmask) == 77,
        spec_isa_feature(Opcode::EvexVexpandpdVpdWpdKmask) == 77,
        spec_isa_feature(Opcode::EvexVcompresspsWpsVps) == 77,
        spec_isa_feature(Opcode::EvexVcompresspdWpdVpd) == 77,
        spec_isa_feature(Opcode::EvexVcompresspsWpsVpsKmask) == 77,
        spec_isa_feature(Opcode::EvexVcompresspdWpdVpdKmask) == 77,
        spec_isa_feature(Opcode::EvexVpexpandbVdqWdq) == 82,
        spec_isa_feature(Opcode::EvexVpexpandwVdqWdq) == 82,
        spec_isa_feature(Opcode::EvexVpexpandbVdqWdqKmask) == 82,
        spec_isa_feature(Opcode::EvexVpexpandwVdqWdqKmask) == 82,
        spec_isa_feature(Opcode::EvexVpexpanddVdqWdq) == 77,
        spec_isa_feature(Opcode::EvexVpexpandqVdqWdq) == 77,
        spec_isa_feature(Opcode::EvexVpexpanddVdqWdqKmask) == 77,
        spec_isa_feature(Opcode::EvexVpexpandqVdqWdqKmask) == 77,
        spec_isa_feature(Opcode::EvexVpcompressbWdqVdq) == 82,
        spec_isa_feature(Opcode::EvexVpcompresswWdqVdq) == 82,
        spec_isa_feature(Opcode::EvexVpcompressbWdqVdqKmask) == 82,
        spec_isa_feature(Opcode::EvexVpcompresswWdqVdqKmask) == 82,
        spec_isa_feature(Opcode::EvexVpcompressdWdqVdq) == 77,
        spec_isa_feature(Opcode::EvexVpcompressqWdqVdq) == 77,
        spec_isa_feature(Opcode::EvexVpcompressdWdqVdqKmask) == 77,
        spec_isa_feature(Opcode::EvexVpcompressqWdqVdqKmask) == 77,
        spec_isa_feature(Opcode::EvexVfixupimmssVssHssWssIbKmask) == 77,
        spec_isa_feature(Opcode::EvexVfixupimmsdVsdHsdWsdIbKmask) == 77,
        spec_isa_feature(Opcode::EvexVfixupimmpsVpsHpsWpsIb) == 77,
        spec_isa_feature(Opcode::EvexVfixupimmpdVpdHpdWpdIb) == 77,
        spec_isa_feature(Opcode::EvexVfixupimmpsVpsHpsWpsIbKmask) == 77,
        spec_isa_feature(Opcode::EvexVfixupimmpdVpdHpdWpdIbKmask) == 77,
        spec_isa_feature(Opcode::EvexVfpclasspsKgwWpsIbKmask) == 78,
        spec_isa_feature(Opcode::EvexVfpclasspdKgbWpdIbKmask) == 78,
        spec_isa_feature(Opcode::EvexVfpclassssKgbWssIbKmask) == 78,
        spec_isa_feature(Opcode::EvexVfpclasssdKgbWsdIbKmask) == 78,
        spec_isa_feature(Opcode::EvexVreducepsVpsWpsIbKmask) == 78,
        spec_isa_feature(Opcode::EvexVreducepdVpdWpdIbKmask) == 78,
        spec_isa_feature(Opcode::EvexVreducessVssHpsWssIbKmask) == 78,
        spec_isa_feature(Opcode::EvexVreducesdVsdHpdWsdIbKmask) == 78,
        spec_isa_feature(Opcode::EvexVpermt2dVdqHdqWdqKmask) == 77,
        spec_isa_feature(Opcode::EvexVpermt2qVdqHdqWdqKmask) == 77,
        spec_isa_feature(Opcode::EvexVpermi2dVdqHdqWdqKmask) == 77,
        spec_isa_feature(Opcode::EvexVpermi2qVdqHdqWdqKmask) == 77,
        spec_isa_feature(Opcode::EvexVpermt2psVpsHpsWpsKmask) == 77,
        spec_isa_feature(Opcode::EvexVpermt2pdVpdHpdWpdKmask) == 77,
        spec_isa_feature(Opcode::EvexVpermi2psVpsHpsWpsKmask) == 77,
        spec_isa_feature(Opcode::EvexVpermi2pdVpdHpdWpdKmask) == 77,
        spec_isa_feature(Opcode::EvexVpermdVdqHdqWdqKmask) == 77,
        spec_isa_feature(Opcode::EvexVpermqVdqHdqWdqKmask) == 77,
        spec_isa_feature(Opcode::EvexVpermpsVpsHpsWpsKmask) == 77,
        spec_isa_feature(Opcode::EvexVpermpdVpdHpdWpdKmask) == 77,
{
}

/// Every opcode the generated table gates on a CPU feature has that feature as its gate (entries 2450..2500 of 2908).
#[verifier::spinoff_prover]
#[verifier::rlimit(100)]
pub proof fn lemma_isa_entries_49()
    ensures
        spec_isa_feature(Opcode::EvexVpconflictdVdqWdqKmask) == 80,
        spec_isa_feature(Opcode::EvexVpconflictqVdqWdqKmask) == 80,
        spec_isa_feature(Opcode::EvexVplzcntdVdqWdqKmask) == 80,
        spec_isa_feature(Opcode::EvexVplzcntqVdqWdqKmask) == 80,
        spec_isa_feature(Opcode::EvexVpmovm2bVdqKeq) == 79,
        spec_isa_feature(Opcode::EvexVpmovm2wVdqKed) == 79,
        spec_isa_feature(Opcode::EvexVpmovm2dVdqKew) == 78,
        spec_isa_feature(Opcode::EvexVpmovm2qVdqKeb) == 78,
        spec_isa_feature(Opcode::EvexVpmovb2mKgqWdq) == 79,
        spec_isa_feature(Opcode::EvexVpmovw2mKgdWdq) == 79,
        spec_isa_feature(Opcode::EvexVpmovd2mKgwWdq) == 78,
        spec_isa_feature(Opcode::EvexVpmovq2mKgbWdq) == 78,
        spec_isa_feature(Opcode::EvexVpopcntbVdqWdqKmask) == 86,
        spec_isa_feature(Opcode::EvexVpopcntwVdqWdqKmask) == 86,
        spec_isa_feature(Opcode::EvexVpopcntdVdqWdqKmask) == 84,
        spec_isa_feature(Opcode::EvexVpopcntqVdqWdqKmask) == 84,
        spec_isa_feature(Opcode::EvexVpshrddVdqHdqWdqIbKmask) == 82,
        spec_isa_feature(Opcode::EvexVpshrdqVdqHdqWdqIbKmask) == 82,
        spec_isa_feature(Opcode::EvexVpshrdvdVdqHdqWdqKmask) == 82,
        spec_isa_feature(Opcode::EvexVpshrdvqVdqHdqWdqKmask) == 82,
        spec_isa_feature(Opcode::EvexVpshlddVdqHdqWdqIbKmask) == 82,
        spec_isa_feature(Opcode::EvexVpshldqVdqHdqWdqIbKmask) == 82,
        spec_isa_feature(Opcode::EvexVpshldvdVdqHdqWdqKmask) == 82,
        spec_isa_feature(Opcode::EvexVpshldvqVdqHdqWdqKmask) == 82,
        spec_isa_feature(Opcode::EvexVcvtss2siGdWss) == 77,
        spec_isa_feature(Opcode::EvexVcvtss2siGqWss) == 77,
        spec_isa_feature(Opcode::EvexVcvtsd2siGdWsd) == 77,
        spec_isa_feature(Opcode::EvexVcvtsd2siGqWsd) == 77,
        spec_isa_feature(Opcode::EvexVcvttss2siGdWss) == 77,
        spec_isa_feature(Opcode::EvexVcvttss2siGqWss) == 77,
        spec_isa_feature(Opcode::EvexVcvttsd2siGdWsd) == 77,
        spec_isa_feature(Opcode::EvexVcvttsd2siGqWsd) == 77,
        spec_isa_feature(Opcode::EvexVmovdVdqEd) == 77,
        spec_isa_feature(Opcode::EvexVmovqVdqEq) == 77,
        spec_isa_feature(Opcode::EvexVmovdEdVd) == 77,
        spec_isa_feature(Opcode::EvexVmovqEqVq) == 77,
        spec_isa_feature(Opcode::EvexVcvtsi2ssVssEd) == 77,
        spec_isa_feature(Opcode::EvexVcvtsi2ssVssEq) == 77,
        spec_isa_feature(Opcode::EvexVcvtsi2sdVsdEd) == 77,
        spec_isa_feature(Opcode::EvexVcvtsi2sdVsdEq) == 77,
        spec_isa_feature(Opcode::EvexVcvtusi2ssVssEd) == 77,
        spec_isa_feature(Opcode::EvexVcvtusi2ssVssEq) == 77,
        spec_isa_feature(Opcode::EvexVcvtusi2sdVsdEd) == 77,
        spec_isa_feature(Opcode::EvexVcvtusi2sdVsdEq) == 77,
        spec_isa_feature(Opcode::EvexVcvtss2usiGdWss) == 77,
        spec_isa_feature(Opcode::EvexVcvtss2usiGqWss) == 77,
        spec_isa_feature(Opcode::EvexVcvtsd2usiGdWsd) == 77,
        spec_isa_feature(Opcode::EvexVcvtsd2usiGqWsd) == 77,
        spec_isa_feature(Opcode::EvexVcvttss2usiGdWss) == 77,
        spec_isa_feature(Opcode::EvexVcvttss2usiGqWss) == 77,
{
}

/// Every opcode the generated table gates on a CPU feature has that feature as its gate (entries 2500..2550 of 2908).
#[verifier::spinoff_prover]
#[verifier::rlimit(100)]
pub proof fn lemma_isa_entries_50()
    ensures
        spec_isa_feature(Opcode::EvexVcvttsd2usiGdWsd) == 77,
        spec_isa_feature(Opcode::EvexVcvttsd2usiGqWsd) == 77,
        spec_isa_feature(Opcode::EvexVpinsrbVdqEbIb) == 79,
        spec_isa_feature(Opcode::EvexVpinsrwVdqEwIb) == 79,
        spec_isa_feature(Opcode::EvexVpextrwGdUdqIb) == 79,
        spec_isa_feature(Opcode::EvexVpextrbEdVdqIbR) == 79,
        spec_isa_feature(Opcode::EvexVpextrbMbVdqIbM) == 79,
        spec_isa_feature(Opcode::EvexVpextrwEdVdqIbR) == 79,
        spec_isa_feature(Opcode::EvexVpextrwMwVdqIbM) == 79,
        spec_isa_feature(Opcode::EvexVpinsrdVdqEdIb) == 78,
        spec_isa_feature(Opcode::EvexVpinsrqVdqEqIb) == 78,
        spec_isa_feature(Opcode::EvexVpextrdEdVdqIb) == 78,
        spec_isa_feature(Opcode::EvexVpextrqEqVdqIb) == 78,
        spec_isa_feature(Opcode::EvexVpbroadcastmb2qVdqKeb) == 77,
        spec_isa_feature(Opcode::EvexVpbroadcastmw2dVdqKew) == 77,
        spec_isa_feature(Opcode::EvexVpdpbusdVdqHdqWdq) == 85,
        spec_isa_feature(Opcode::EvexVpdpbusdsVdqHdqWdq) == 85,
        spec_isa_feature(Opcode::EvexVpdpwssdVdqHdqWdq) == 85,
        spec_isa_feature(Opcode::EvexVpdpwssdsVdqHdqWdq) == 85,
        spec_isa_feature(Opcode::EvexVpdpbusdVdqHdqWdqKmask) == 85,
        spec_isa_feature(Opcode::EvexVpdpbusdsVdqHdqWdqKmask) == 85,
        spec_isa_feature(Opcode::EvexVpdpwssdVdqHdqWdqKmask) == 85,
        spec_isa_feature(Opcode::EvexVpdpwssdsVdqHdqWdqKmask) == 85,
        spec_isa_feature(Opcode::EvexVpshufbitqmbKgqHdqWdqKmask) == 86,
        spec_isa_feature(Opcode::EvexVp2intersectdKgqHdqWdq) == 87,
        spec_isa_feature(Opcode::EvexVp2intersectqKgqHdqWdq) == 87,
        spec_isa_feature(Opcode::EvexVpshrdwVdqHdqWdqIbKmask) == 82,
        spec_isa_feature(Opcode::EvexVpshrdvwVdqHdqWdqKmask) == 82,
        spec_isa_feature(Opcode::EvexVpshldwVdqHdqWdqIbKmask) == 82,
        spec_isa_feature(Opcode::EvexVpshldvwVdqHdqWdqKmask) == 82,
        spec_isa_feature(Opcode::EvexVaddshVshHphWsh) == 89,
        spec_isa_feature(Opcode::EvexVaddshVshHphWshKmask) == 89,
        spec_isa_feature(Opcode::EvexVsubshVshHphWsh) == 89,
        spec_isa_feature(Opcode::EvexVsubshVshHphWshKmask) == 89,
        spec_isa_feature(Opcode::EvexVmulshVshHphWsh) == 89,
        spec_isa_feature(Opcode::EvexVmulshVshHphWshKmask) == 89,
        spec_isa_feature(Opcode::EvexVdivshVshHphWsh) == 89,
        spec_isa_feature(Opcode::EvexVdivshVshHphWshKmask) == 89,
        spec_isa_feature(Opcode::EvexVminshVshHphWsh) == 89,
        spec_isa_feature(Opcode::EvexVminshVshHphWshKmask) == 89,
        spec_isa_feature(Opcode::EvexVmaxshVshHphWsh) == 89,
        spec_isa_feature(Opcode::EvexVmaxshVshHphWshKmask) == 89,
        spec_isa_feature(Opcode::EvexVscalefshVshHphWsh) == 89,
        spec_isa_feature(Opcode::EvexVscalefshVshHphWshKmask) == 89,
        spec_isa_feature(Opcode::EvexVaddphVphHphWph) == 89,
        spec_isa_feature(Opcode::EvexVaddphVphHphWphKmask) == 89,
        spec_isa_feature(Opcode::EvexVsubphVphHphWph) == 89,
        spec_isa_feature(Opcode::EvexVsubphVphHphWphKmask) == 89,
        spec_isa_feature(Opcode::EvexVmulphVphHphWph) == 89,
        spec_isa_feature(Opcode::EvexVmulphVphHphWphKmask) == 89,
{
}

/// Every opcode the generated table gates on a CPU feature has that feature as its gate (entries 2550..2600 of 2908).
#[verifier::spinoff_prover]
#[verifier::rlimit(100)]
pub proof fn lemma_isa_entries_51()
    ensures
        spec_isa_feature(Opcode::EvexVdivphVphHphWph) == 89,
        spec_isa_feature(Opcode::EvexVdivphVphHphWphKmask) == 89,
        spec_isa_feature(Opcode::EvexVminphVphHphWph) == 89,
        spec_isa_feature(Opcode::EvexVminphVphHphWphKmask) == 89,
        spec_isa_feature(Opcode::EvexVmaxphVphHphWph) == 89,
        spec_isa_feature(Opcode::EvexVmaxphVphHphWphKmask) == 89,
        spec_isa_feature(Opcode::EvexVscalefphVphHphWph) == 89,
        spec_isa_feature(Opcode::EvexVscalefphVphHphWphKmask) == 89,
        spec_isa_feature(Opcode::EvexVfmadd132shVphHshWsh) == 89,
        spec_isa_feature(Opcode::EvexVfmadd132shVphHshWshKmask) == 89,
        spec_isa_feature(Opcode::EvexVfmadd213shVphHshWsh) == 89,
        spec_isa_feature(Opcode::EvexVfmadd213shVphHshWshKmask) == 89,
        spec_isa_feature(Opcode::EvexVfmadd231shVphHshWsh) == 89,
        spec_isa_feature(Opcode::EvexVfmadd231shVphHshWshKmask) == 89,
        spec_isa_feature(Opcode::EvexVfnmadd132shVphHshWsh) == 89,
        spec_isa_feature(Opcode::EvexVfnmadd132shVphHshWshKmask) == 89,
        spec_isa_feature(Opcode::EvexVfnmadd213shVphHshWsh) == 89,
        spec_isa_feature(Opcode::EvexVfnmadd213shVphHshWshKmask) == 89,
        spec_isa_feature(Opcode::EvexVfnmadd231shVphHshWsh) == 89,
        spec_isa_feature(Opcode::EvexVfnmadd231shVphHshWshKmask) == 89,
        spec_isa_feature(Opcode::EvexVfmsub132shVphHshWsh) == 89,
        spec_isa_feature(Opcode::EvexVfmsub132shVphHshWshKmask) == 89,
        spec_isa_feature(Opcode::EvexVfmsub213shVphHshWsh) == 89,
        spec_isa_feature(Opcode::EvexVfmsub213shVphHshWshKmask) == 89,
        spec_isa_feature(Opcode::EvexVfmsub231shVphHshWsh) == 89,
        spec_isa_feature(Opcode::EvexVfmsub231shVphHshWshKmask) == 89,
        spec_isa_feature(Opcode::EvexVfnmsub132shVphHshWsh) == 89,
        spec_isa_feature(Opcode::EvexVfnmsub132shVphHshWshKmask) == 89,
        spec_isa_feature(Opcode::EvexVfnmsub213shVphHshWsh) == 89,
        spec_isa_feature(Opcode::EvexVfnmsub213shVphHshWshKmask) == 89,
        spec_isa_feature(Opcode::EvexVfnmsub231shVphHshWsh) == 89,
        spec_isa_feature(Opcode::EvexVfnmsub231shVphHshWshKmask) == 89,
        spec_isa_feature(Opcode::EvexVfmadd132phVphHphWph) == 89,
        spec_isa_feature(Opcode::EvexVfmadd132phVphHphWphKmask) == 89,
        spec_isa_feature(Opcode::EvexVfmadd213phVphHphWph) == 89,
        spec_isa_feature(Opcode::EvexVfmadd213phVphHphWphKmask) == 89,
        spec_isa_feature(Opcode::EvexVfmadd231phVphHphWph) == 89,
        spec_isa_feature(Opcode::EvexVfmadd231phVphHphWphKmask) == 89,
        spec_isa_feature(Opcode::EvexVfnmadd132phVphHphWph) == 89,
        spec_isa_feature(Opcode::EvexVfnmadd132phVphHphWphKmask) == 89,
        spec_isa_feature(Opcode::EvexVfnmadd213phVphHphWph) == 89,
        spec_isa_feature(Opcode::EvexVfnmadd213phVphHphWphKmask) == 89,
        spec_isa_feature(Opcode::EvexVfnmadd231phVphHphWph) == 89,
        spec_isa_feature(Opcode::EvexVfnmadd231phVphHphWphKmask) == 89,
        spec_isa_feature(Opcode::EvexVfmsub132phVphHphWph) == 89,
        spec_isa_feature(Opcode::EvexVfmsub132phVphHphWphKmask) == 89,
        spec_isa_feature(Opcode::EvexVfmsub213phVphHphWph) == 89,
        spec_isa_feature(Opcode::EvexVfmsub213phVphHphWphKmask) == 89,
        spec_isa_feature(Opcode::EvexVfmsub231phVphHphWph) == 89,
        spec_isa_feature(Opcode::EvexVfmsub231phVphHphWphKmask) == 89,
{
}

/// Every opcode the generated table gates on a CPU feature has that feature as its gate (entries 2600..2650 of 2908).
#[verifier::spinoff_prover]
#[verifier::rlimit(100)]
pub proof fn lemma_isa_entries_52()
    ensures
        spec_isa_feature(Opcode::EvexVfnmsub132phVphHphWph) == 89,
        spec_isa_feature(Opcode::EvexVfnmsub132phVphHphWphKmask) == 89,
        spec_isa_feature(Opcode::EvexVfnmsub213phVphHphWph) == 89,
        spec_isa_feature(Opcode::EvexVfnmsub213phVphHphWphKmask) == 89,
        spec_isa_feature(Opcode::EvexVfnmsub231phVphHphWph) == 89,
        spec_isa_feature(Opcode::EvexVfnmsub231phVphHphWphKmask) == 89,
        spec_isa_feature(Opcode::EvexVfmaddsub132phVphHphWph) == 89,
        spec_isa_feature(Opcode::EvexVfmaddsub132phVphHphWphKmask) == 89,
        spec_isa_feature(Opcode::EvexVfmaddsub213phVphHphWph) == 89,
        spec_isa_feature(Opcode::EvexVfmaddsub213phVphHphWphKmask) == 89,
        spec_isa_feature(Opcode::EvexVfmaddsub231phVphHphWph) == 89,
        spec_isa_feature(Opcode::EvexVfmaddsub231phVphHphWphKmask) == 89,
        spec_isa_feature(Opcode::EvexVfmsubadd132phVphHphWph) == 89,
        spec_isa_feature(Opcode::EvexVfmsubadd132phVphHphWphKmask) == 89,
        spec_isa_feature(Opcode::EvexVfmsubadd213phVphHphWph) == 89,
        spec_isa_feature(Opcode::EvexVfmsubadd213phVphHphWphKmask) == 89,
        spec_isa_feature(Opcode::EvexVfmsubadd231phVphHphWph) == 89,
        spec_isa_feature(Opcode::EvexVfmsubadd231phVphHphWphKmask) == 89,
        spec_isa_feature(Opcode::EvexVfpclassphKgdWphIbKmask) == 89,
        spec_isa_feature(Opcode::EvexVfpclassshKgbWshIbKmask) == 89,
        spec_isa_feature(Opcode::EvexVucomishVshWsh) == 89,
        spec_isa_feature(Opcode::EvexVcomishVshWsh) == 89,
        spec_isa_feature(Opcode::EvexVcmpphKgdHphWphIb) == 89,
        spec_isa_feature(Opcode::EvexVcmpshKgbHshWshIb) == 89,
        spec_isa_feature(Opcode::EvexVsqrtphVphWph) == 89,
        spec_isa_feature(Opcode::EvexVsqrtphVphWphKmask) == 89,
        spec_isa_feature(Opcode::EvexVsqrtshVshHphWsh) == 89,
        spec_isa_feature(Opcode::EvexVsqrtshVshHphWshKmask) == 89,
        spec_isa_feature(Opcode::EvexVgetexpphVphWph) == 89,
        spec_isa_feature(Opcode::EvexVgetexpphVphWphKmask) == 89,
        spec_isa_feature(Opcode::EvexVgetexpshVshHphWsh) == 89,
        spec_isa_feature(Opcode::EvexVgetexpshVshHphWshKmask) == 89,
        spec_isa_feature(Opcode::EvexVmovshVshWsh) == 89,
        spec_isa_feature(Opcode::EvexVmovshWshVsh) == 89,
        spec_isa_feature(Opcode::EvexVmovshVshWshKmask) == 89,
        spec_isa_feature(Opcode::EvexVmovshWshVshKmask) == 89,
        spec_isa_feature(Opcode::EvexVmovshVshHphWsh) == 89,
        spec_isa_feature(Opcode::EvexVmovshWshHphVsh) == 89,
        spec_isa_feature(Opcode::EvexVmovshVshHphWshKmask) == 89,
        spec_isa_feature(Opcode::EvexVmovshWshHphVshKmask) == 89,
        spec_isa_feature(Opcode::EvexVmovwVshEw) == 89,
        spec_isa_feature(Opcode::EvexVmovwEdVsh) == 89,
        spec_isa_feature(Opcode::EvexVcvtph2uwVdqWps) == 89,
        spec_isa_feature(Opcode::EvexVcvtph2uwVdqWpsKmask) == 89,
        spec_isa_feature(Opcode::EvexVcvtph2wVdqWps) == 89,
        spec_isa_feature(Opcode::EvexVcvtph2wVdqWpsKmask) == 89,
        spec_isa_feature(Opcode::EvexVcvttph2uwVdqWps) == 89,
        spec_isa_feature(Opcode::EvexVcvttph2uwVdqWpsKmask) == 89,
        spec_isa_feature(Opcode::EvexVcvttph2wVdqWps) == 89,
        spec_isa_feature(Opcode::EvexVcvttph2wVdqWpsKmask) == 89,
{
}

/// Every opcode the generated table gates on a CPU feature has that feature as its gate (entries 2650..2700 of 2908).
#[verifier::spinoff_prover]
#[verifier::rlimit(100)]
pub proof fn lemma_isa_entries_53()
    ensures
        spec_isa_feature(Opcode::EvexVcvtuw2phVphWdq) == 89,
        spec_isa_feature(Opcode::EvexVcvtuw2phVphWdqKmask) == 89,
        spec_isa_feature(Opcode::EvexVcvtw2phVphWdq) == 89,
        spec_isa_feature(Opcode::EvexVcvtw2phVphWdqKmask) == 89,
        spec_isa_feature(Opcode::EvexVcvtph2psxVpsWph) == 89,
        spec_isa_feature(Opcode::EvexVcvtph2psxVpsWphKmask) == 89,
        spec_isa_feature(Opcode::EvexVcvtph2dqVdqWph) == 89,
        spec_isa_feature(Opcode::EvexVcvtph2dqVdqWphKmask) == 89,
        spec_isa_feature(Opcode::EvexVcvtph2udqVdqWph) == 89,
        spec_isa_feature(Opcode::EvexVcvtph2udqVdqWphKmask) == 89,
        spec_isa_feature(Opcode::EvexVcvttph2dqVdqWph) == 89,
        spec_isa_feature(Opcode::EvexVcvttph2dqVdqWphKmask) == 89,
        spec_isa_feature(Opcode::EvexVcvttph2udqVdqWph) == 89,
        spec_isa_feature(Opcode::EvexVcvttph2udqVdqWphKmask) == 89,
        spec_isa_feature(Opcode::EvexVcvtph2pdVpdWph) == 89,
        spec_isa_feature(Opcode::EvexVcvtph2pdVpdWphKmask) == 89,
        spec_isa_feature(Opcode::EvexVcvtph2qqVdqWph) == 89,
        spec_isa_feature(Opcode::EvexVcvtph2qqVdqWphKmask) == 89,
        spec_isa_feature(Opcode::EvexVcvtph2uqqVdqWph) == 89,
        spec_isa_feature(Opcode::EvexVcvtph2uqqVdqWphKmask) == 89,
        spec_isa_feature(Opcode::EvexVcvttph2qqVdqWph) == 89,
        spec_isa_feature(Opcode::EvexVcvttph2qqVdqWphKmask) == 89,
        spec_isa_feature(Opcode::EvexVcvttph2uqqVdqWph) == 89,
        spec_isa_feature(Opcode::EvexVcvttph2uqqVdqWphKmask) == 89,
        spec_isa_feature(Opcode::EvexVcvtps2phxVphWdq) == 89,
        spec_isa_feature(Opcode::EvexVcvtps2phxVphWdqKmask) == 89,
        spec_isa_feature(Opcode::EvexVcvtdq2phVphWdq) == 89,
        spec_isa_feature(Opcode::EvexVcvtdq2phVphWdqKmask) == 89,
        spec_isa_feature(Opcode::EvexVcvtudq2phVphWdq) == 89,
        spec_isa_feature(Opcode::EvexVcvtudq2phVphWdqKmask) == 89,
        spec_isa_feature(Opcode::EvexVcvtpd2phVphWdq) == 89,
        spec_isa_feature(Opcode::EvexVcvtpd2phVphWdqKmask) == 89,
        spec_isa_feature(Opcode::EvexVcvtqq2phVphWdq) == 89,
        spec_isa_feature(Opcode::EvexVcvtqq2phVphWdqKmask) == 89,
        spec_isa_feature(Opcode::EvexVcvtuqq2phVphWdq) == 89,
        spec_isa_feature(Opcode::EvexVcvtuqq2phVphWdqKmask) == 89,
        spec_isa_feature(Opcode::EvexVcvtsh2ssVssWsh) == 89,
        spec_isa_feature(Opcode::EvexVcvtsh2ssVssWshKmask) == 89,
        spec_isa_feature(Opcode::EvexVcvtsh2sdVsdWsh) == 89,
        spec_isa_feature(Opcode::EvexVcvtsh2sdVsdWshKmask) == 89,
        spec_isa_feature(Opcode::EvexVcvtss2shVssWsh) == 89,
        spec_isa_feature(Opcode::EvexVcvtss2shVssWshKmask) == 89,
        spec_isa_feature(Opcode::EvexVcvtsd2shVssWsh) == 89,
        spec_isa_feature(Opcode::EvexVcvtsd2shVssWshKmask) == 89,
        spec_isa_feature(Opcode::EvexVcvtsh2siGdWss) == 89,
        spec_isa_feature(Opcode::EvexVcvtsh2siGqWss) == 89,
        spec_isa_feature(Opcode::EvexVcvtsh2usiGdWss) == 89,
        spec_isa_feature(Opcode::EvexVcvtsh2usiGqWss) == 89,
        spec_isa_feature(Opcode::EvexVcvttsh2siGdWss) == 89,
        spec_isa_feature(Opcode::EvexVcvttsh2siGqWss) == 89,
{
}

/// Every opcode the generated table gates on a CPU feature has that feature as its gate (entries 2700..2750 of 2908).
#[verifier::spinoff_prover]
#[verifier::rlimit(100)]
pub proof fn lemma_isa_entries_54()
    ensures
        spec_isa_feature(Opcode::EvexVcvttsh2usiGdWss) == 89,
        spec_isa_feature(Opcode::EvexVcvttsh2usiGqWss) == 89,
        spec_isa_feature(Opcode::EvexVcvtsi2shVshEd) == 89,
        spec_isa_feature(Opcode::EvexVcvtsi2shVshEq) == 89,
        spec_isa_feature(Opcode::EvexVcvtusi2shVshEd) == 89,
        spec_isa_feature(Opcode::EvexVcvtusi2shVshEq) == 89,
        spec_isa_feature(Opcode::EvexVgetmantphVphWphIbKmask) == 89,
        spec_isa_feature(Opcode::EvexVgetmantshVshHphWshIbKmask) == 89,
        spec_isa_feature(Opcode::EvexVreducephVphWphIbKmask) == 89,
        spec_isa_feature(Opcode::EvexVreduceshVshHphWshIbKmask) == 89,
        spec_isa_feature(Opcode::EvexVrndscalephVphWphIbKmask) == 89,
        spec_isa_feature(Opcode::EvexVrndscaleshVshHphWshIbKmask) == 89,
        spec_isa_feature(Opcode::EvexVrcpphVphWphKmask) == 89,
        spec_isa_feature(Opcode::EvexVrcpshVshHphWshKmask) == 89,
        spec_isa_feature(Opcode::EvexVrsqrtphVphWphKmask) == 89,
        spec_isa_feature(Opcode::EvexVrsqrtshVshHphWshKmask) == 89,
        spec_isa_feature(Opcode::EvexVfmulcshVshHphWshKmask) == 89,
        spec_isa_feature(Opcode::EvexVfcmulcshVshHphWshKmask) == 89,
        spec_isa_feature(Opcode::EvexVfmulcphVphHphWphKmask) == 89,
        spec_isa_feature(Opcode::EvexVfcmulcphVphHphWphKmask) == 89,
        spec_isa_feature(Opcode::EvexVfmaddcshVshHphWshKmask) == 89,
        spec_isa_feature(Opcode::EvexVfcmaddcshVshHphWshKmask) == 89,
        spec_isa_feature(Opcode::EvexVfmaddcphVphHphWphKmask) == 89,
        spec_isa_feature(Opcode::EvexVfcmaddcphVphHphWphKmask) == 89,
        spec_isa_feature(Opcode::EvexVaesencVdqHdqWdq) == 43,
        spec_isa_feature(Opcode::EvexVaesenclastVdqHdqWdq) == 43,
        spec_isa_feature(Opcode::EvexVaesdecVdqHdqWdq) == 43,
        spec_isa_feature(Opcode::EvexVaesdeclastVdqHdqWdq) == 43,
        spec_isa_feature(Opcode::EvexVpclmulqdqVdqHdqWdqIb) == 43,
        spec_isa_feature(Opcode::EvexVgf2p8affineqbVdqHdqWdqIbKmask) == 69,
        spec_isa_feature(Opcode::EvexVgf2p8affineinvqbVdqHdqWdqIbKmask) == 69,
        spec_isa_feature(Opcode::EvexVgf2p8mulbVdqHdqWdqKmask) == 69,
        spec_isa_feature(Opcode::EvexVsm4key4VdqHdqWdq) == 71,
        spec_isa_feature(Opcode::EvexVsm4rnds4VdqHdqWdq) == 71,
        spec_isa_feature(Opcode::EvexVucomxssVssWss) == 100,
        spec_isa_feature(Opcode::EvexVcomxssVssWss) == 100,
        spec_isa_feature(Opcode::EvexVucomxsdVsdWsd) == 100,
        spec_isa_feature(Opcode::EvexVcomxsdVsdWsd) == 100,
        spec_isa_feature(Opcode::EvexVucomxshVshWsh) == 100,
        spec_isa_feature(Opcode::EvexVcomxshVshWsh) == 100,
        spec_isa_feature(Opcode::EvexVpdpbssdVdqHdqWdq) == 100,
        spec_isa_feature(Opcode::EvexVpdpbssdsVdqHdqWdq) == 100,
        spec_isa_feature(Opcode::EvexVpdpbsudVdqHdqWdq) == 100,
        spec_isa_feature(Opcode::EvexVpdpbsudsVdqHdqWdq) == 100,
        spec_isa_feature(Opcode::EvexVpdpbuudVdqHdqWdq) == 100,
        spec_isa_feature(Opcode::EvexVpdpbuudsVdqHdqWdq) == 100,
        spec_isa_feature(Opcode::EvexVpdpbssdVdqHdqWdqKmask) == 100,
        spec_isa_feature(Opcode::EvexVpdpbssdsVdqHdqWdqKmask) == 100,
        spec_isa_feature(Opcode::EvexVpdpbsudVdqHdqWdqKmask) == 100,
        spec_isa_feature(Opcode::EvexVpdpbsudsVdqHdqWdqKmask) == 100,
{
}

/// Every opcode the generated table gates on a CPU feature has that feature as its gate (entries 2750..2800 of 2908).
#[verifier::spinoff_prover]
#[verifier::rlimit(100)]
pub proof fn lemma_isa_entries_55()
    ensures
        spec_isa_feature(Opcode::EvexVpdpbuudVdqHdqWdqKmask) == 100,
        spec_isa_feature(Opcode::EvexVpdpbuudsVdqHdqWdqKmask) == 100,
        spec_isa_feature(Opcode::EvexVpdpwsudVdqHdqWdq) == 100,
        spec_isa_feature(Opcode::EvexVpdpwsudsVdqHdqWdq) == 100,
        spec_isa_feature(Opcode::EvexVpdpwusdVdqHdqWdq) == 100,
        spec_isa_feature(Opcode::EvexVpdpwusdsVdqHdqWdq) == 100,
        spec_isa_feature(Opcode::EvexVpdpwuudVdqHdqWdq) == 100,
        spec_isa_feature(Opcode::EvexVpdpwuudsVdqHdqWdq) == 100,
        spec_isa_feature(Opcode::EvexVpdpwsudVdqHdqWdqKmask) == 100,
        spec_isa_feature(Opcode::EvexVpdpwsudsVdqHdqWdqKmask) == 100,
        spec_isa_feature(Opcode::EvexVpdpwusdVdqHdqWdqKmask) == 100,
        spec_isa_feature(Opcode::EvexVpdpwusdsVdqHdqWdqKmask) == 100,
        spec_isa_feature(Opcode::EvexVpdpwuudVdqHdqWdqKmask) == 100,
        spec_isa_feature(Opcode::EvexVpdpwuudsVdqHdqWdqKmask) == 100,
        spec_isa_feature(Opcode::EvexVmpsadbwVdqHdqWdqIb) == 100,
        spec_isa_feature(Opcode::EvexVmpsadbwVdqHdqWdqIbKmask) == 100,
        spec_isa_feature(Opcode::EvexVdpphpsVpsHdqWdqKmask) == 100,
        spec_isa_feature(Opcode::EvexVaddbf16VphHphWph) == 100,
        spec_isa_feature(Opcode::EvexVaddbf16VphHphWphKmask) == 100,
        spec_isa_feature(Opcode::EvexVsubbf16VphHphWph) == 100,
        spec_isa_feature(Opcode::EvexVsubbf16VphHphWphKmask) == 100,
        spec_isa_feature(Opcode::EvexVdivbf16VphHphWph) == 100,
        spec_isa_feature(Opcode::EvexVdivbf16VphHphWphKmask) == 100,
        spec_isa_feature(Opcode::EvexVmulbf16VphHphWph) == 100,
        spec_isa_feature(Opcode::EvexVmulbf16VphHphWphKmask) == 100,
        spec_isa_feature(Opcode::EvexVscalefpbf16VphHphWph) == 100,
        spec_isa_feature(Opcode::EvexVscalefpbf16VphHphWphKmask) == 100,
        spec_isa_feature(Opcode::EvexVsqrtbf16VphWph) == 100,
        spec_isa_feature(Opcode::EvexVsqrtbf16VphWphKmask) == 100,
        spec_isa_feature(Opcode::EvexVgetexppbf16VphWph) == 100,
        spec_isa_feature(Opcode::EvexVgetexppbf16VphWphKmask) == 100,
        spec_isa_feature(Opcode::EvexVfmadd132bf16VphHphWph) == 100,
        spec_isa_feature(Opcode::EvexVfmadd132bf16VphHphWphKmask) == 100,
        spec_isa_feature(Opcode::EvexVfmadd213bf16VphHphWph) == 100,
        spec_isa_feature(Opcode::EvexVfmadd213bf16VphHphWphKmask) == 100,
        spec_isa_feature(Opcode::EvexVfmadd231bf16VphHphWph) == 100,
        spec_isa_feature(Opcode::EvexVfmadd231bf16VphHphWphKmask) == 100,
        spec_isa_feature(Opcode::EvexVfmsub132bf16VphHphWph) == 100,
        spec_isa_feature(Opcode::EvexVfmsub132bf16VphHphWphKmask) == 100,
        spec_isa_feature(Opcode::EvexVfmsub213bf16VphHphWph) == 100,
        spec_isa_feature(Opcode::EvexVfmsub213bf16VphHphWphKmask) == 100,
        spec_isa_feature(Opcode::EvexVfmsub231bf16VphHphWph) == 100,
        spec_isa_feature(Opcode::EvexVfmsub231bf16VphHphWphKmask) == 100,
        spec_isa_feature(Opcode::EvexVfnmadd132bf16VphHphWph) == 100,
        spec_isa_feature(Opcode::EvexVfnmadd132bf16VphHphWphKmask) == 100,
        spec_isa_feature(Opcode::EvexVfnmadd213bf16VphHphWph) == 100,
        spec_isa_feature(Opcode::EvexVfnmadd213bf16VphHphWphKmask) == 100,
        spec_isa_feature(Opcode::EvexVfnmadd231bf16VphHphWph) == 100,
        spec_isa_feature(Opcode::EvexVfnmadd231bf16VphHphWphKmask) == 100,
        spec_isa_feature(Opcode::EvexVfnmsub132bf16VphHphWph) == 100,
{
}

/// Every opcode the generated table gates on a CPU feature has that feature as its gate (entries 2800..2850 of 2908).
#[verifier::spinoff_prover]
#[verifier::rlimit(100)]
pub proof fn lemma_isa_entries_56()
    ensures
        spec_isa_feature(Opcode::EvexVfnmsub132bf16VphHphWphKmask) == 100,
        spec_isa_feature(Opcode::EvexVfnmsub213bf16VphHphWph) == 100,
        spec_isa_feature(Opcode::EvexVfnmsub213bf16VphHphWphKmask) == 100,
        spec_isa_feature(Opcode::EvexVfnmsub231bf16VphHphWph) == 100,
        spec_isa_feature(Opcode::EvexVfnmsub231bf16VphHphWphKmask) == 100,
        spec_isa_feature(Opcode::EvexVfpclasspbf16KgdWphIbKmask) == 100,
        spec_isa_feature(Opcode::EvexVcmppbf16KgdHphWphIb) == 100,
        spec_isa_feature(Opcode::EvexVcomisbf16VshWsh) == 100,
        spec_isa_feature(Opcode::EvexVgetmantpbf16VphWphIbKmask) == 100,
        spec_isa_feature(Opcode::EvexVreducebf16VphWphIbKmask) == 100,
        spec_isa_feature(Opcode::EvexVrndscalebf16VphWphIbKmask) == 100,
        spec_isa_feature(Opcode::EvexVrcppbf16VphWph) == 100,
        spec_isa_feature(Opcode::EvexVrcppbf16VphWphKmask) == 100,
        spec_isa_feature(Opcode::EvexVrsqrtpbf16VphWph) == 100,
        spec_isa_feature(Opcode::EvexVrsqrtpbf16VphWphKmask) == 100,
        spec_isa_feature(Opcode::EvexVminmaxpsVpsHpsWpsIbKmask) == 100,
        spec_isa_feature(Opcode::EvexVminmaxssVssHpsWssIbKmask) == 100,
        spec_isa_feature(Opcode::EvexVminmaxpdVpdHpdWpdIbKmask) == 100,
        spec_isa_feature(Opcode::EvexVminmaxsdVsdHpdWsdIbKmask) == 100,
        spec_isa_feature(Opcode::EvexVminmaxphVphHphWphIbKmask) == 100,
        spec_isa_feature(Opcode::EvexVminmaxshVshHphWshIbKmask) == 100,
        spec_isa_feature(Opcode::EvexVminmaxbf16VphHphWphIbKmask) == 100,
        spec_isa_feature(Opcode::EvexVcvt2ps2phxVphHpsWpsKmask) == 100,
        spec_isa_feature(Opcode::EvexVcvttps2qqsVdqWps) == 100,
        spec_isa_feature(Opcode::EvexVcvttps2qqsVdqWpsKmask) == 100,
        spec_isa_feature(Opcode::EvexVcvttpd2qqsVdqWpd) == 100,
        spec_isa_feature(Opcode::EvexVcvttpd2qqsVdqWpdKmask) == 100,
        spec_isa_feature(Opcode::EvexVcvttps2uqqsVdqWps) == 100,
        spec_isa_feature(Opcode::EvexVcvttps2uqqsVdqWpsKmask) == 100,
        spec_isa_feature(Opcode::EvexVcvttpd2uqqsVdqWpd) == 100,
        spec_isa_feature(Opcode::EvexVcvttpd2uqqsVdqWpdKmask) == 100,
        spec_isa_feature(Opcode::EvexVcvttps2dqsVdqWps) == 100,
        spec_isa_feature(Opcode::EvexVcvttps2dqsVdqWpsKmask) == 100,
        spec_isa_feature(Opcode::EvexVcvttpd2dqsVdqWpd) == 100,
        spec_isa_feature(Opcode::EvexVcvttpd2dqsVdqWpdKmask) == 100,
        spec_isa_feature(Opcode::EvexVcvttps2udqsVdqWps) == 100,
        spec_isa_feature(Opcode::EvexVcvttpd2udqsVdqWpd) == 100,
        spec_isa_feature(Opcode::EvexVcvttps2udqsVdqWpsKmask) == 100,
        spec_isa_feature(Opcode::EvexVcvttpd2udqsVdqWpdKmask) == 100,
        spec_isa_feature(Opcode::EvexVcvttss2sisGdWss) == 100,
        spec_isa_feature(Opcode::EvexVcvttss2sisGqWss) == 100,
        spec_isa_feature(Opcode::EvexVcvttsd2sisGdWsd) == 100,
        spec_isa_feature(Opcode::EvexVcvttsd2sisGqWsd) == 100,
        spec_isa_feature(Opcode::EvexVcvttss2usisGdWss) == 100,
        spec_isa_feature(Opcode::EvexVcvttss2usisGqWss) == 100,
        spec_isa_feature(Opcode::EvexVcvttsd2usisGdWsd) == 100,
        spec_isa_feature(Opcode::EvexVcvttsd2usisGqWsd) == 100,
        spec_isa_feature(Opcode::EvexVmovwVshWsh) == 100,
        spec_isa_feature(Opcode::EvexVmovwWshVsh) == 100,
        spec_isa_feature(Opcode::EvexVmovdVdWd) == 100,
{
}

/// Every opcode the generated table gates on a CPU feature has that feature as its gate (entries 2850..2900 of 2908).
#[verifier::spinoff_prover]
#[verifier::rlimit(100)]
pub proof fn lemma_isa_entries_57()
    ensures
        spec_isa_feature(Opcode::EvexVmovdWdVd) == 100,
        spec_isa_feature(Opcode::EvexVcvthf82phVphWf8Kmask) == 100,
        spec_isa_feature(Opcode::EvexVcvtph2bf8Vf8hdqWphKmask) == 100,
        spec_isa_feature(Opcode::EvexVcvtph2bf8sVf8hdqWphKmask) == 100,
        spec_isa_feature(Opcode::EvexVcvt2ph2bf8Vf8hdqWphKmask) == 100,
        spec_isa_feature(Opcode::EvexVcvt2ph2bf8sVf8hdqWphKmask) == 100,
        spec_isa_feature(Opcode::EvexVcvtbiasph2bf8Vf8hdqWphKmask) == 100,
        spec_isa_feature(Opcode::EvexVcvtbiasph2bf8sVf8hdqWphKmask) == 100,
        spec_isa_feature(Opcode::EvexVcvtph2hf8Vf8hdqWphKmask) == 100,
        spec_isa_feature(Opcode::EvexVcvtph2hf8sVf8hdqWphKmask) == 100,
        spec_isa_feature(Opcode::EvexVcvt2ph2hf8Vf8hdqWphKmask) == 100,
        spec_isa_feature(Opcode::EvexVcvt2ph2hf8sVf8hdqWphKmask) == 100,
        spec_isa_feature(Opcode::EvexVcvtbiasph2hf8Vf8hdqWphKmask) == 100,
        spec_isa_feature(Opcode::EvexVcvtbiasph2hf8sVf8hdqWphKmask) == 100,
        spec_isa_feature(Opcode::EvexVcvtbf162ibsV8bWph) == 100,
        spec_isa_feature(Opcode::EvexVcvtbf162ibsV8bWphKmask) == 100,
        spec_isa_feature(Opcode::EvexVcvtbf162iubsV8bWph) == 100,
        spec_isa_feature(Opcode::EvexVcvtbf162iubsV8bWphKmask) == 100,
        spec_isa_feature(Opcode::EvexVcvttbf162ibsV8bWph) == 100,
        spec_isa_feature(Opcode::EvexVcvttbf162ibsV8bWphKmask) == 100,
        spec_isa_feature(Opcode::EvexVcvttbf162iubsV8bWph) == 100,
        spec_isa_feature(Opcode::EvexVcvttbf162iubsV8bWphKmask) == 100,
        spec_isa_feature(Opcode::EvexVcvtph2ibsV8bWph) == 100,
        spec_isa_feature(Opcode::EvexVcvtph2ibsV8bWphKmask) == 100,
        spec_isa_feature(Opcode::EvexVcvtph2iubsV8bWph) == 100,
        spec_isa_feature(Opcode::EvexVcvtph2iubsV8bWphKmask) == 100,
        spec_isa_feature(Opcode::EvexVcvttph2ibsV8bWph) == 100,
        spec_isa_feature(Opcode::EvexVcvttph2ibsV8bWphKmask) == 100,
        spec_isa_feature(Opcode::EvexVcvttph2iubsV8bWph) == 100,
        spec_isa_feature(Opcode::EvexVcvttph2iubsV8bWphKmask) == 100,
        spec_isa_feature(Opcode::EvexVcvtps2ibsV8bWps) == 100,
        spec_isa_feature(Opcode::EvexVcvtps2ibsV8bWpsKmask) == 100,
        spec_isa_feature(Opcode::EvexVcvtps2iubsV8bWps) == 100,
        spec_isa_feature(Opcode::EvexVcvtps2iubsV8bWpsKmask) == 100,
        spec_isa_feature(Opcode::EvexVcvttps2ibsV8bWps) == 100,
        spec_isa_feature(Opcode::EvexVcvttps2ibsV8bWpsKmask) == 100,
        spec_isa_feature(Opcode::EvexVcvttps2iubsV8bWps) == 100,
        spec_isa_feature(Opcode::EvexVcvttps2iubsV8bWpsKmask) == 100,
        spec_isa_feature(Opcode::EvexTilemovrowVdqTrmIb) == 98,
        spec_isa_feature(Opcode::EvexTilemovrowVdqTrmBd) == 98,
        spec_isa_feature(Opcode::EvexTcvtrowd2psVpsTrmIb) == 98,
        spec_isa_feature(Opcode::EvexTcvtrowd2psVpsTrmBd) == 98,
        spec_isa_feature(Opcode::EvexTcvtrowps2phlVphTrmIb) == 98,
        spec_isa_feature(Opcode::EvexTcvtrowps2phlVphTrmBd) == 98,
        spec_isa_feature(Opcode::EvexTcvtrowps2phhVphTrmIb) == 98,
        spec_isa_feature(Opcode::EvexTcvtrowps2phhVphTrmBd) == 98,
        spec_isa_feature(Opcode::EvexTcvtrowps2bf16lVphTrmIb) == 98,
        spec_isa_feature(Opcode::EvexTcvtrowps2bf16lVphTrmBd) == 98,
        spec_isa_feature(Opcode::EvexTcvtrowps2bf16hVphTrmIb) == 98,
        spec_isa_feature(Opcode::EvexTcvtrowps2bf16hVphTrmBd) == 98,
{
}

/// Every opcode the generated table gates on a CPU feature has that feature as its gate (entries 2900..2908 of 2908).
#[verifier::spinoff_prover]
#[verifier::rlimit(100)]
pub proof fn lemma_isa_entries_58()
    ensures
        spec_isa_feature(Opcode::EvexVmovrsbVdqWdq) == 101,
        spec_isa_feature(Opcode::EvexVmovrsbVdqWdqKmask) == 101,
        spec_isa_feature(Opcode::EvexVmovrswVdqWdq) == 101,
        spec_isa_feature(Opcode::EvexVmovrswVdqWdqKmask) == 101,
        spec_isa_feature(Opcode::EvexVmovrsdVdqWdq) == 101,
        spec_isa_feature(Opcode::EvexVmovrsdVdqWdqKmask) == 101,
        spec_isa_feature(Opcode::EvexVmovrsqVdqWdq) == 101,
        spec_isa_feature(Opcode::EvexVmovrsqVdqWdqKmask) == 101,
{
}

/// Every opcode the generated table gives EVEX attributes has exactly those attributes (entries 0..50 of 1328).
#[verifier::spinoff_prover]
#[verifier::rlimit(100)]
pub proof fn lemma_evex_entries_0()
    ensures
        spec_evex_flags(Opcode::EvexVaddpsVpsHpsWps) == 0x080,
        spec_evex_flags(Opcode::EvexVaddpdVpdHpdWpd) == 0x080,
        spec_evex_flags(Opcode::EvexVaddssVssHpsWss) == 0x280,
        spec_evex_flags(Opcode::EvexVaddsdVsdHpdWsd) == 0x280,
        spec_evex_flags(Opcode::EvexVaddpsVpsHpsWpsKmask) == 0x080,
        spec_evex_flags(Opcode::EvexVaddpdVpdHpdWpdKmask) == 0x080,
        spec_evex_flags(Opcode::EvexVaddssVssHpsWssKmask) == 0x280,
        spec_evex_flags(Opcode::EvexVaddsdVsdHpdWsdKmask) == 0x280,
        spec_evex_flags(Opcode::EvexVsubpsVpsHpsWps) == 0x080,
        spec_evex_flags(Opcode::EvexVsubpdVpdHpdWpd) == 0x080,
        spec_evex_flags(Opcode::EvexVsubssVssHpsWss) == 0x280,
        spec_evex_flags(Opcode::EvexVsubsdVsdHpdWsd) == 0x280,
        spec_evex_flags(Opcode::EvexVsubpsVpsHpsWpsKmask) == 0x080,
        spec_evex_flags(Opcode::EvexVsubpdVpdHpdWpdKmask) == 0x080,
        spec_evex_flags(Opcode::EvexVsubssVssHpsWssKmask) == 0x280,
        spec_evex_flags(Opcode::EvexVsubsdVsdHpdWsdKmask) == 0x280,
        spec_evex_flags(Opcode::EvexVmulpsVpsHpsWps) == 0x080,
        spec_evex_flags(Opcode::EvexVmulpdVpdHpdWpd) == 0x080,
        spec_evex_flags(Opcode::EvexVmulssVssHpsWss) == 0x280,
        spec_evex_flags(Opcode::EvexVmulsdVsdHpdWsd) == 0x280,
        spec_evex_flags(Opcode::EvexVmulpsVpsHpsWpsKmask) == 0x080,
        spec_evex_flags(Opcode::EvexVmulpdVpdHpdWpdKmask) == 0x080,
        spec_evex_flags(Opcode::EvexVmulssVssHpsWssKmask) == 0x280,
        spec_evex_flags(Opcode::EvexVmulsdVsdHpdWsdKmask) == 0x280,
        spec_evex_flags(Opcode::EvexVdivpsVpsHpsWps) == 0x080,
        spec_evex_flags(Opcode::EvexVdivpdVpdHpdWpd) == 0x080,
        spec_evex_flags(Opcode::EvexVdivssVssHpsWss) == 0x280,
        spec_evex_flags(Opcode::EvexVdivsdVsdHpdWsd) == 0x280,
        spec_evex_flags(Opcode::EvexVdivpsVpsHpsWpsKmask) == 0x080,
        spec_evex_flags(Opcode::EvexVdivpdVpdHpdWpdKmask) == 0x080,
        spec_evex_flags(Opcode::EvexVdivssVssHpsWssKmask) == 0x280,
        spec_evex_flags(Opcode::EvexVdivsdVsdHpdWsdKmask) == 0x280,
        spec_evex_flags(Opcode::EvexVminpsVpsHpsWps) == 0x080,
        spec_evex_flags(Opcode::EvexVminpdVpdHpdWpd) == 0x080,
        spec_evex_flags(Opcode::EvexVminssVssHpsWss) == 0x280,
        spec_evex_flags(Opcode::EvexVminsdVsdHpdWsd) == 0x280,
        spec_evex_flags(Opcode::EvexVminpsVpsHpsWpsKmask) == 0x080,
        spec_evex_flags(Opcode::EvexVminpdVpdHpdWpdKmask) == 0x080,
        spec_evex_flags(Opcode::EvexVminssVssHpsWssKmask) == 0x280,
        spec_evex_flags(Opcode::EvexVminsdVsdHpdWsdKmask) == 0x280,
        spec_evex_flags(Opcode::EvexVmaxpsVpsHpsWps) == 0x080,
        spec_evex_flags(Opcode::EvexVmaxpdVpdHpdWpd) == 0x080,
        spec_evex_flags(Opcode::EvexVmaxssVssHpsWss) == 0x280,
        spec_evex_flags(Opcode::EvexVmaxsdVsdHpdWsd) == 0x280,
        spec_evex_flags(Opcode::EvexVmaxpsVpsHpsWpsKmask) == 0x080,
        spec_evex_flags(Opcode::EvexVmaxpdVpdHpdWpdKmask) == 0x080,
        spec_evex_flags(Opcode::EvexVmaxssVssHpsWssKmask) == 0x280,
        spec_evex_flags(Opcode::EvexVmaxsdVsdHpdWsdKmask) == 0x280,
        spec_evex_flags(Opcode::EvexVsqrtpsVpsWps) == 0x080,
        spec_evex_flags(Opcode::EvexVsqrtpdVpdWpd) == 0x080,
{
}

/// Every opcode the generated table gives EVEX attributes has exactly those attributes (entries 50..100 of 1328).
#[verifier::spinoff_prover]
#[verifier::rlimit(100)]
pub proof fn lemma_evex_entries_1()
    ensures
        spec_evex_flags(Opcode::EvexVsqrtssVssHpsWss) == 0x280,
        spec_evex_flags(Opcode::EvexVsqrtsdVsdHpdWsd) == 0x280,
        spec_evex_flags(Opcode::EvexVsqrtpsVpsWpsKmask) == 0x080,
        spec_evex_flags(Opcode::EvexVsqrtpdVpdWpdKmask) == 0x080,
        spec_evex_flags(Opcode::EvexVsqrtssVssHpsWssKmask) == 0x280,
        spec_evex_flags(Opcode::EvexVsqrtsdVsdHpdWsdKmask) == 0x280,
        spec_evex_flags(Opcode::EvexVcmppsKgwHpsWpsIb) == 0x080,
        spec_evex_flags(Opcode::EvexVcmppdKgbHpdWpdIb) == 0x080,
        spec_evex_flags(Opcode::EvexVcmpssKgbHssWssIb) == 0x280,
        spec_evex_flags(Opcode::EvexVcmpsdKgbHsdWsdIb) == 0x280,
        spec_evex_flags(Opcode::EvexVrndscalepsVpsWpsIbKmask) == 0x080,
        spec_evex_flags(Opcode::EvexVrndscalepdVpdWpdIbKmask) == 0x080,
        spec_evex_flags(Opcode::EvexVrndscalessVssHpsWssIbKmask) == 0x280,
        spec_evex_flags(Opcode::EvexVrndscalesdVsdHpdWsdIbKmask) == 0x280,
        spec_evex_flags(Opcode::EvexVunpcklpsVpsHpsWps) == 0x180,
        spec_evex_flags(Opcode::EvexVunpcklpdVpdHpdWpd) == 0x180,
        spec_evex_flags(Opcode::EvexVunpcklpsVpsHpsWpsKmask) == 0x180,
        spec_evex_flags(Opcode::EvexVunpcklpdVpdHpdWpdKmask) == 0x180,
        spec_evex_flags(Opcode::EvexVunpckhpsVpsHpsWps) == 0x180,
        spec_evex_flags(Opcode::EvexVunpckhpdVpdHpdWpd) == 0x180,
        spec_evex_flags(Opcode::EvexVunpckhpsVpsHpsWpsKmask) == 0x180,
        spec_evex_flags(Opcode::EvexVunpckhpdVpdHpdWpdKmask) == 0x180,
        spec_evex_flags(Opcode::EvexVpunpckldqVdqHdqWdq) == 0x180,
        spec_evex_flags(Opcode::EvexVpunpcklqdqVdqHdqWdq) == 0x180,
        spec_evex_flags(Opcode::EvexVpunpckldqVdqHdqWdqKmask) == 0x180,
        spec_evex_flags(Opcode::EvexVpunpcklqdqVdqHdqWdqKmask) == 0x180,
        spec_evex_flags(Opcode::EvexVpunpckhdqVdqHdqWdq) == 0x180,
        spec_evex_flags(Opcode::EvexVpunpckhqdqVdqHdqWdq) == 0x180,
        spec_evex_flags(Opcode::EvexVpunpckhdqVdqHdqWdqKmask) == 0x180,
        spec_evex_flags(Opcode::EvexVpunpckhqdqVdqHdqWdqKmask) == 0x180,
        spec_evex_flags(Opcode::EvexVpmuldqVdqHdqWdq) == 0x180,
        spec_evex_flags(Opcode::EvexVpmuludqVdqHdqWdq) == 0x180,
        spec_evex_flags(Opcode::EvexVpmuldqVdqHdqWdqKmask) == 0x180,
        spec_evex_flags(Opcode::EvexVpmuludqVdqHdqWdqKmask) == 0x180,
        spec_evex_flags(Opcode::EvexVucomissVssWss) == 0x280,
        spec_evex_flags(Opcode::EvexVcomissVssWss) == 0x280,
        spec_evex_flags(Opcode::EvexVucomisdVsdWsd) == 0x280,
        spec_evex_flags(Opcode::EvexVcomisdVsdWsd) == 0x280,
        spec_evex_flags(Opcode::EvexVcvtss2sdVsdWss) == 0x280,
        spec_evex_flags(Opcode::EvexVcvtsd2ssVssWsd) == 0x280,
        spec_evex_flags(Opcode::EvexVcvtps2pdVpdWps) == 0x080,
        spec_evex_flags(Opcode::EvexVcvtpd2psVpsWpd) == 0x080,
        spec_evex_flags(Opcode::EvexVcvtss2sdVsdWssKmask) == 0x280,
        spec_evex_flags(Opcode::EvexVcvtsd2ssVssWsdKmask) == 0x280,
        spec_evex_flags(Opcode::EvexVcvtps2pdVpdWpsKmask) == 0x080,
        spec_evex_flags(Opcode::EvexVcvtpd2psVpsWpdKmask) == 0x080,
        spec_evex_flags(Opcode::EvexVcvtps2dqVdqWps) == 0x080,
        spec_evex_flags(Opcode::EvexVcvtps2dqVdqWpsKmask) == 0x080,
        spec_evex_flags(Opcode::EvexVcvttps2dqVdqWps) == 0x080,
        spec_evex_flags(Opcode::EvexVcvttps2dqVdqWpsKmask) == 0x080,
{
}

/// Every opcode the generated table gives EVEX attributes has exactly those attributes (entries 100..150 of 1328).
#[verifier::spinoff_prover]
#[verifier::rlimit(100)]
pub proof fn lemma_evex_entries_2()
    ensures
        spec_evex_flags(Opcode::EvexVcvtpd2dqVdqWpd) == 0x080,
        spec_evex_flags(Opcode::EvexVcvtpd2dqVdqWpdKmask) == 0x080,
        spec_evex_flags(Opcode::EvexVcvttpd2dqVdqWpd) == 0x080,
        spec_evex_flags(Opcode::EvexVcvttpd2dqVdqWpdKmask) == 0x080,
        spec_evex_flags(Opcode::EvexVcvtph2psVpsWps) == 0x280,
        spec_evex_flags(Opcode::EvexVcvtph2psVpsWpsKmask) == 0x280,
        spec_evex_flags(Opcode::EvexVcvtps2phWpsVpsIb) == 0x280,
        spec_evex_flags(Opcode::EvexVcvtps2phWpsVpsIbKmask) == 0x280,
        spec_evex_flags(Opcode::EvexVcvtneps2bf16VphWpsKmask) == 0x180,
        spec_evex_flags(Opcode::EvexVcvtne2ps2bf16VphHpsWpsKmask) == 0x180,
        spec_evex_flags(Opcode::EvexVdpbf16psVpsHdqWdqKmask) == 0x180,
        spec_evex_flags(Opcode::EvexVmovapsVpsWps) == 0x380,
        spec_evex_flags(Opcode::EvexVmovapsVpsWpsKmask) == 0x380,
        spec_evex_flags(Opcode::EvexVmovapsWpsVps) == 0x380,
        spec_evex_flags(Opcode::EvexVmovapsWpsVpsKmask) == 0x380,
        spec_evex_flags(Opcode::EvexVmovapdVpdWpd) == 0x380,
        spec_evex_flags(Opcode::EvexVmovapdVpdWpdKmask) == 0x380,
        spec_evex_flags(Opcode::EvexVmovapdWpdVpd) == 0x380,
        spec_evex_flags(Opcode::EvexVmovapdWpdVpdKmask) == 0x380,
        spec_evex_flags(Opcode::EvexVmovupsVpsWps) == 0x380,
        spec_evex_flags(Opcode::EvexVmovupsVpsWpsKmask) == 0x380,
        spec_evex_flags(Opcode::EvexVmovupsWpsVps) == 0x380,
        spec_evex_flags(Opcode::EvexVmovupsWpsVpsKmask) == 0x380,
        spec_evex_flags(Opcode::EvexVmovupdVpdWpd) == 0x380,
        spec_evex_flags(Opcode::EvexVmovupdVpdWpdKmask) == 0x380,
        spec_evex_flags(Opcode::EvexVmovupdWpdVpd) == 0x380,
        spec_evex_flags(Opcode::EvexVmovupdWpdVpdKmask) == 0x380,
        spec_evex_flags(Opcode::EvexVmovsdVsdHpdWsd) == 0x180,
        spec_evex_flags(Opcode::EvexVmovssVssHpsWss) == 0x180,
        spec_evex_flags(Opcode::EvexVmovsdWsdHpdVsd) == 0x180,
        spec_evex_flags(Opcode::EvexVmovssWssHpsVss) == 0x180,
        spec_evex_flags(Opcode::EvexVmovsdVsdWsd) == 0x280,
        spec_evex_flags(Opcode::EvexVmovssVssWss) == 0x280,
        spec_evex_flags(Opcode::EvexVmovsdWsdVsd) == 0x280,
        spec_evex_flags(Opcode::EvexVmovssWssVss) == 0x280,
        spec_evex_flags(Opcode::EvexVmovsdVsdHpdWsdKmask) == 0x180,
        spec_evex_flags(Opcode::EvexVmovssVssHpsWssKmask) == 0x180,
        spec_evex_flags(Opcode::EvexVmovsdWsdHpdVsdKmask) == 0x180,
        spec_evex_flags(Opcode::EvexVmovssWssHpsVssKmask) == 0x180,
        spec_evex_flags(Opcode::EvexVmovsdVsdWsdKmask) == 0x280,
        spec_evex_flags(Opcode::EvexVmovssVssWssKmask) == 0x280,
        spec_evex_flags(Opcode::EvexVmovsdWsdVsdKmask) == 0x280,
        spec_evex_flags(Opcode::EvexVmovssWssVssKmask) == 0x280,
        spec_evex_flags(Opcode::EvexVpabsbVdqWdq) == 0x380,
        spec_evex_flags(Opcode::EvexVpabswVdqWdq) == 0x380,
        spec_evex_flags(Opcode::EvexVpabsdVdqWdq) == 0x180,
        spec_evex_flags(Opcode::EvexVpabsqVdqWdq) == 0x180,
        spec_evex_flags(Opcode::EvexVpabsbVdqWdqKmask) == 0x380,
        spec_evex_flags(Opcode::EvexVpabswVdqWdqKmask) == 0x380,
        spec_evex_flags(Opcode::EvexVpabsdVdqWdqKmask) == 0x180,
{
}

/// Every opcode the generated table gives EVEX attributes has exactly those attributes (entries 150..200 of 1328).
#[verifier::spinoff_prover]
#[verifier::rlimit(100)]
pub proof fn lemma_evex_entries_3()
    ensures
        spec_evex_flags(Opcode::EvexVpabsqVdqWdqKmask) == 0x180,
        spec_evex_flags(Opcode::EvexVmovntdqaVdqMdq) == 0x280,
        spec_evex_flags(Opcode::EvexVmovntpsMpsVps) == 0x280,
        spec_evex_flags(Opcode::EvexVmovntpdMpdVpd) == 0x280,
        spec_evex_flags(Opcode::EvexVmovntdqMdqVdq) == 0x280,
        spec_evex_flags(Opcode::EvexVpcmpeqbKgqHdqWdq) == 0x380,
        spec_evex_flags(Opcode::EvexVpcmpeqwKgdHdqWdq) == 0x380,
        spec_evex_flags(Opcode::EvexVpcmpgtbKgqHdqWdq) == 0x380,
        spec_evex_flags(Opcode::EvexVpcmpgtwKgdHdqWdq) == 0x380,
        spec_evex_flags(Opcode::EvexVpcmpeqdKgwHdqWdq) == 0x180,
        spec_evex_flags(Opcode::EvexVpcmpeqqKgbHdqWdq) == 0x180,
        spec_evex_flags(Opcode::EvexVpcmpgtdKgwHdqWdq) == 0x180,
        spec_evex_flags(Opcode::EvexVpcmpgtqKgbHdqWdq) == 0x180,
        spec_evex_flags(Opcode::EvexVpsrlwVdqHdqWdq) == 0x380,
        spec_evex_flags(Opcode::EvexVpsrlwVdqHdqWdqKmask) == 0x380,
        spec_evex_flags(Opcode::EvexVpsrawVdqHdqWdq) == 0x380,
        spec_evex_flags(Opcode::EvexVpsrawVdqHdqWdqKmask) == 0x380,
        spec_evex_flags(Opcode::EvexVpsllwVdqHdqWdq) == 0x380,
        spec_evex_flags(Opcode::EvexVpsllwVdqHdqWdqKmask) == 0x380,
        spec_evex_flags(Opcode::EvexVpsrlwUdqIb) == 0x380,
        spec_evex_flags(Opcode::EvexVpsrlwUdqIbKmask) == 0x380,
        spec_evex_flags(Opcode::EvexVpsllwUdqIb) == 0x380,
        spec_evex_flags(Opcode::EvexVpsllwUdqIbKmask) == 0x380,
        spec_evex_flags(Opcode::EvexVpsrawUdqIb) == 0x380,
        spec_evex_flags(Opcode::EvexVpsrawUdqIbKmask) == 0x380,
        spec_evex_flags(Opcode::EvexVpsrldVdqHdqWdq) == 0x380,
        spec_evex_flags(Opcode::EvexVpsrlqVdqHdqWdq) == 0x380,
        spec_evex_flags(Opcode::EvexVpsrldVdqHdqWdqKmask) == 0x380,
        spec_evex_flags(Opcode::EvexVpsrlqVdqHdqWdqKmask) == 0x380,
        spec_evex_flags(Opcode::EvexVpslldVdqHdqWdq) == 0x380,
        spec_evex_flags(Opcode::EvexVpsllqVdqHdqWdq) == 0x380,
        spec_evex_flags(Opcode::EvexVpslldVdqHdqWdqKmask) == 0x380,
        spec_evex_flags(Opcode::EvexVpsllqVdqHdqWdqKmask) == 0x380,
        spec_evex_flags(Opcode::EvexVpsrldUdqIb) == 0x180,
        spec_evex_flags(Opcode::EvexVpsrldUdqIbKmask) == 0x180,
        spec_evex_flags(Opcode::EvexVpsrlqUdqIb) == 0x180,
        spec_evex_flags(Opcode::EvexVpsrlqUdqIbKmask) == 0x180,
        spec_evex_flags(Opcode::EvexVpslldUdqIb) == 0x180,
        spec_evex_flags(Opcode::EvexVpslldUdqIbKmask) == 0x180,
        spec_evex_flags(Opcode::EvexVpsllqUdqIb) == 0x180,
        spec_evex_flags(Opcode::EvexVpsllqUdqIbKmask) == 0x180,
        spec_evex_flags(Opcode::EvexVpshufbVdqHdqWdq) == 0x380,
        spec_evex_flags(Opcode::EvexVpshufbVdqHdqWdqKmask) == 0x380,
        spec_evex_flags(Opcode::EvexVpermqVdqWdqIbKmask) == 0x180,
        spec_evex_flags(Opcode::EvexVpermpdVpdWpdIbKmask) == 0x180,
        spec_evex_flags(Opcode::EvexVshufpsVpsHpsWpsIb) == 0x180,
        spec_evex_flags(Opcode::EvexVshufpdVpdHpdWpdIb) == 0x180,
        spec_evex_flags(Opcode::EvexVshufpsVpsHpsWpsIbKmask) == 0x180,
        spec_evex_flags(Opcode::EvexVshufpdVpdHpdWpdIbKmask) == 0x180,
        spec_evex_flags(Opcode::EvexVpermilpsVpsHpsWps) == 0x180,
{
}

/// Every opcode the generated table gives EVEX attributes has exactly those attributes (entries 200..250 of 1328).
#[verifier::spinoff_prover]
#[verifier::rlimit(100)]
pub proof fn lemma_evex_entries_4()
    ensures
        spec_evex_flags(Opcode::EvexVpermilpdVpdHpdWpd) == 0x180,
        spec_evex_flags(Opcode::EvexVpermilpsVpsHpsWpsKmask) == 0x180,
        spec_evex_flags(Opcode::EvexVpermilpdVpdHpdWpdKmask) == 0x180,
        spec_evex_flags(Opcode::EvexVpermilpsVpsWpsIb) == 0x180,
        spec_evex_flags(Opcode::EvexVpermilpdVpdWpdIb) == 0x180,
        spec_evex_flags(Opcode::EvexVpermilpsVpsWpsIbKmask) == 0x180,
        spec_evex_flags(Opcode::EvexVpermilpdVpdWpdIbKmask) == 0x180,
        spec_evex_flags(Opcode::EvexVpshufdVdqWdqIb) == 0x180,
        spec_evex_flags(Opcode::EvexVpshufdVdqWdqIbKmask) == 0x180,
        spec_evex_flags(Opcode::EvexVpshuflwVdqWdqIb) == 0x380,
        spec_evex_flags(Opcode::EvexVpshuflwVdqWdqIbKmask) == 0x380,
        spec_evex_flags(Opcode::EvexVpshufhwVdqWdqIb) == 0x380,
        spec_evex_flags(Opcode::EvexVpshufhwVdqWdqIbKmask) == 0x380,
        spec_evex_flags(Opcode::EvexVpbroadcastbVdqEb) == 0x380,
        spec_evex_flags(Opcode::EvexVpbroadcastbVdqEbKmask) == 0x380,
        spec_evex_flags(Opcode::EvexVpbroadcastwVdqEw) == 0x380,
        spec_evex_flags(Opcode::EvexVpbroadcastwVdqEwKmask) == 0x380,
        spec_evex_flags(Opcode::EvexVpbroadcastdVdqEd) == 0x380,
        spec_evex_flags(Opcode::EvexVpbroadcastdVdqEdKmask) == 0x380,
        spec_evex_flags(Opcode::EvexVpbroadcastqVdqEq) == 0x380,
        spec_evex_flags(Opcode::EvexVpbroadcastqVdqEqKmask) == 0x380,
        spec_evex_flags(Opcode::EvexVpbroadcastbVdqWb) == 0x380,
        spec_evex_flags(Opcode::EvexVpbroadcastbVdqWbKmask) == 0x380,
        spec_evex_flags(Opcode::EvexVpbroadcastwVdqWw) == 0x380,
        spec_evex_flags(Opcode::EvexVpbroadcastwVdqWwKmask) == 0x380,
        spec_evex_flags(Opcode::EvexVpbroadcastdVdqWd) == 0x380,
        spec_evex_flags(Opcode::EvexVpbroadcastdVdqWdKmask) == 0x380,
        spec_evex_flags(Opcode::EvexVpbroadcastqVdqWq) == 0x380,
        spec_evex_flags(Opcode::EvexVpbroadcastqVdqWqKmask) == 0x380,
        spec_evex_flags(Opcode::EvexVbroadcastssVpsWss) == 0x380,
        spec_evex_flags(Opcode::EvexVbroadcastssVpsWssKmask) == 0x380,
        spec_evex_flags(Opcode::EvexVbroadcastsdVpdWsd) == 0x380,
        spec_evex_flags(Opcode::EvexVbroadcastsdVpdWsdKmask) == 0x380,
        spec_evex_flags(Opcode::EvexVmovqWqVq) == 0x380,
        spec_evex_flags(Opcode::EvexVmovqVqWq) == 0x380,
        spec_evex_flags(Opcode::EvexVinsertpsVpsWssIb) == 0x380,
        spec_evex_flags(Opcode::EvexVextractpsEdVpsIb) == 0x380,
        spec_evex_flags(Opcode::EvexVmovlpsVpsHpsMq) == 0x380,
        spec_evex_flags(Opcode::EvexVmovhlpsVpsHpsWps) == 0x380,
        spec_evex_flags(Opcode::EvexVmovhpsVpsHpsMq) == 0x380,
        spec_evex_flags(Opcode::EvexVmovlhpsVpsHpsWps) == 0x380,
        spec_evex_flags(Opcode::EvexVmovlpsMqVps) == 0x380,
        spec_evex_flags(Opcode::EvexVmovhpsMqVps) == 0x380,
        spec_evex_flags(Opcode::EvexVmovlpdMqVsd) == 0x380,
        spec_evex_flags(Opcode::EvexVmovhpdMqVsd) == 0x380,
        spec_evex_flags(Opcode::EvexVmovlpdVpdHpdMq) == 0x380,
        spec_evex_flags(Opcode::EvexVmovhpdVpdHpdMq) == 0x380,
        spec_evex_flags(Opcode::EvexVmovddupVpdWpd) == 0x380,
        spec_evex_flags(Opcode::EvexVmovsldupVpsWps) == 0x380,
        spec_evex_flags(Opcode::EvexVmovshdupVpsWps) == 0x380,
{
}

/// Every opcode the generated table gives EVEX attributes has exactly those attributes (entries 250..300 of 1328).
#[verifier::spinoff_prover]
#[verifier::rlimit(100)]
pub proof fn lemma_evex_entries_5()
    ensures
        spec_evex_flags(Opcode::EvexVmovddupVpdWpdKmask) == 0x380,
        spec_evex_flags(Opcode::EvexVmovsldupVpsWpsKmask) == 0x380,
        spec_evex_flags(Opcode::EvexVmovshdupVpsWpsKmask) == 0x380,
        spec_evex_flags(Opcode::EvexVpmovqbWdqVdq) == 0x380,
        spec_evex_flags(Opcode::EvexVpmovdbWdqVdq) == 0x380,
        spec_evex_flags(Opcode::EvexVpmovwbWdqVdq) == 0x380,
        spec_evex_flags(Opcode::EvexVpmovdwWdqVdq) == 0x380,
        spec_evex_flags(Opcode::EvexVpmovqwWdqVdq) == 0x380,
        spec_evex_flags(Opcode::EvexVpmovqdWdqVdq) == 0x380,
        spec_evex_flags(Opcode::EvexVpmovqbWdqVdqKmask) == 0x380,
        spec_evex_flags(Opcode::EvexVpmovdbWdqVdqKmask) == 0x380,
        spec_evex_flags(Opcode::EvexVpmovwbWdqVdqKmask) == 0x380,
        spec_evex_flags(Opcode::EvexVpmovdwWdqVdqKmask) == 0x380,
        spec_evex_flags(Opcode::EvexVpmovqwWdqVdqKmask) == 0x380,
        spec_evex_flags(Opcode::EvexVpmovqdWdqVdqKmask) == 0x380,
        spec_evex_flags(Opcode::EvexVpmovusqbWdqVdq) == 0x380,
        spec_evex_flags(Opcode::EvexVpmovusdbWdqVdq) == 0x380,
        spec_evex_flags(Opcode::EvexVpmovuswbWdqVdq) == 0x380,
        spec_evex_flags(Opcode::EvexVpmovusdwWdqVdq) == 0x380,
        spec_evex_flags(Opcode::EvexVpmovusqwWdqVdq) == 0x380,
        spec_evex_flags(Opcode::EvexVpmovusqdWdqVdq) == 0x380,
        spec_evex_flags(Opcode::EvexVpmovusqbWdqVdqKmask) == 0x380,
        spec_evex_flags(Opcode::EvexVpmovusdbWdqVdqKmask) == 0x380,
        spec_evex_flags(Opcode::EvexVpmovuswbWdqVdqKmask) == 0x380,
        spec_evex_flags(Opcode::EvexVpmovusdwWdqVdqKmask) == 0x380,
        spec_evex_flags(Opcode::EvexVpmovusqwWdqVdqKmask) == 0x380,
        spec_evex_flags(Opcode::EvexVpmovusqdWdqVdqKmask) == 0x380,
        spec_evex_flags(Opcode::EvexVpmovsqbWdqVdq) == 0x380,
        spec_evex_flags(Opcode::EvexVpmovsdbWdqVdq) == 0x380,
        spec_evex_flags(Opcode::EvexVpmovswbWdqVdq) == 0x380,
        spec_evex_flags(Opcode::EvexVpmovsdwWdqVdq) == 0x380,
        spec_evex_flags(Opcode::EvexVpmovsqwWdqVdq) == 0x380,
        spec_evex_flags(Opcode::EvexVpmovsqdWdqVdq) == 0x380,
        spec_evex_flags(Opcode::EvexVpmovsqbWdqVdqKmask) == 0x380,
        spec_evex_flags(Opcode::EvexVpmovsdbWdqVdqKmask) == 0x380,
        spec_evex_flags(Opcode::EvexVpmovswbWdqVdqKmask) == 0x380,
        spec_evex_flags(Opcode::EvexVpmovsdwWdqVdqKmask) == 0x380,
        spec_evex_flags(Opcode::EvexVpmovsqwWdqVdqKmask) == 0x380,
        spec_evex_flags(Opcode::EvexVpmovsqdWdqVdqKmask) == 0x380,
        spec_evex_flags(Opcode::EvexVpmovsxbwVdqWdq) == 0x380,
        spec_evex_flags(Opcode::EvexVpmovsxbdVdqWdq) == 0x380,
        spec_evex_flags(Opcode::EvexVpmovsxbqVdqWdq) == 0x380,
        spec_evex_flags(Opcode::EvexVpmovsxwdVdqWdq) == 0x380,
        spec_evex_flags(Opcode::EvexVpmovsxwqVdqWdq) == 0x380,
        spec_evex_flags(Opcode::EvexVpmovsxdqVdqWdq) == 0x380,
        spec_evex_flags(Opcode::EvexVpmovsxbwVdqWdqKmask) == 0x380,
        spec_evex_flags(Opcode::EvexVpmovsxbdVdqWdqKmask) == 0x380,
        spec_evex_flags(Opcode::EvexVpmovsxbqVdqWdqKmask) == 0x380,
        spec_evex_flags(Opcode::EvexVpmovsxwdVdqWdqKmask) == 0x380,
        spec_evex_flags(Opcode::EvexVpmovsxwqVdqWdqKmask) == 0x380,
{
}

/// Every opcode the generated table gives EVEX attributes has exactly those attributes (entries 300..350 of 1328).
#[verifier::spinoff_prover]
#[verifier::rlimit(100)]
pub proof fn lemma_evex_entries_6()
    ensures
        spec_evex_flags(Opcode::EvexVpmovsxdqVdqWdqKmask) == 0x380,
        spec_evex_flags(Opcode::EvexVpmovzxbwVdqWdq) == 0x380,
        spec_evex_flags(Opcode::EvexVpmovzxbdVdqWdq) == 0x380,
        spec_evex_flags(Opcode::EvexVpmovzxbqVdqWdq) == 0x380,
        spec_evex_flags(Opcode::EvexVpmovzxwdVdqWdq) == 0x380,
        spec_evex_flags(Opcode::EvexVpmovzxwqVdqWdq) == 0x380,
        spec_evex_flags(Opcode::EvexVpmovzxdqVdqWdq) == 0x380,
        spec_evex_flags(Opcode::EvexVpmovzxbwVdqWdqKmask) == 0x380,
        spec_evex_flags(Opcode::EvexVpmovzxbdVdqWdqKmask) == 0x380,
        spec_evex_flags(Opcode::EvexVpmovzxbqVdqWdqKmask) == 0x380,
        spec_evex_flags(Opcode::EvexVpmovzxwdVdqWdqKmask) == 0x380,
        spec_evex_flags(Opcode::EvexVpmovzxwqVdqWdqKmask) == 0x380,
        spec_evex_flags(Opcode::EvexVpmovzxdqVdqWdqKmask) == 0x380,
        spec_evex_flags(Opcode::EvexVpsubbVdqHdqWdq) == 0x380,
        spec_evex_flags(Opcode::EvexVpsubsbVdqHdqWdq) == 0x380,
        spec_evex_flags(Opcode::EvexVpsubusbVdqHdqWdq) == 0x380,
        spec_evex_flags(Opcode::EvexVpsubwVdqHdqWdq) == 0x380,
        spec_evex_flags(Opcode::EvexVpsubswVdqHdqWdq) == 0x380,
        spec_evex_flags(Opcode::EvexVpsubuswVdqHdqWdq) == 0x380,
        spec_evex_flags(Opcode::EvexVpaddbVdqHdqWdq) == 0x380,
        spec_evex_flags(Opcode::EvexVpaddsbVdqHdqWdq) == 0x380,
        spec_evex_flags(Opcode::EvexVpaddusbVdqHdqWdq) == 0x380,
        spec_evex_flags(Opcode::EvexVpaddwVdqHdqWdq) == 0x380,
        spec_evex_flags(Opcode::EvexVpaddswVdqHdqWdq) == 0x380,
        spec_evex_flags(Opcode::EvexVpadduswVdqHdqWdq) == 0x380,
        spec_evex_flags(Opcode::EvexVpsubbVdqHdqWdqKmask) == 0x380,
        spec_evex_flags(Opcode::EvexVpsubsbVdqHdqWdqKmask) == 0x380,
        spec_evex_flags(Opcode::EvexVpsubusbVdqHdqWdqKmask) == 0x380,
        spec_evex_flags(Opcode::EvexVpsubwVdqHdqWdqKmask) == 0x380,
        spec_evex_flags(Opcode::EvexVpsubswVdqHdqWdqKmask) == 0x380,
        spec_evex_flags(Opcode::EvexVpsubuswVdqHdqWdqKmask) == 0x380,
        spec_evex_flags(Opcode::EvexVpaddbVdqHdqWdqKmask) == 0x380,
        spec_evex_flags(Opcode::EvexVpaddsbVdqHdqWdqKmask) == 0x380,
        spec_evex_flags(Opcode::EvexVpaddusbVdqHdqWdqKmask) == 0x380,
        spec_evex_flags(Opcode::EvexVpaddwVdqHdqWdqKmask) == 0x380,
        spec_evex_flags(Opcode::EvexVpaddswVdqHdqWdqKmask) == 0x380,
        spec_evex_flags(Opcode::EvexVpadduswVdqHdqWdqKmask) == 0x380,
        spec_evex_flags(Opcode::EvexVpminsbVdqHdqWdq) == 0x380,
        spec_evex_flags(Opcode::EvexVpminubVdqHdqWdq) == 0x380,
        spec_evex_flags(Opcode::EvexVpmaxubVdqHdqWdq) == 0x380,
        spec_evex_flags(Opcode::EvexVpmaxsbVdqHdqWdq) == 0x380,
        spec_evex_flags(Opcode::EvexVpminswVdqHdqWdq) == 0x380,
        spec_evex_flags(Opcode::EvexVpminuwVdqHdqWdq) == 0x380,
        spec_evex_flags(Opcode::EvexVpmaxswVdqHdqWdq) == 0x380,
        spec_evex_flags(Opcode::EvexVpmaxuwVdqHdqWdq) == 0x380,
        spec_evex_flags(Opcode::EvexVpminsbVdqHdqWdqKmask) == 0x380,
        spec_evex_flags(Opcode::EvexVpminubVdqHdqWdqKmask) == 0x380,
        spec_evex_flags(Opcode::EvexVpmaxubVdqHdqWdqKmask) == 0x380,
        spec_evex_flags(Opcode::EvexVpmaxsbVdqHdqWdqKmask) == 0x380,
        spec_evex_flags(Opcode::EvexVpminswVdqHdqWdqKmask) == 0x380,
{
}

/// Every opcode the generated table gives EVEX attributes has exactly those attributes (entries 350..400 of 1328).
#[verifier::spinoff_prover]
#[verifier::rlimit(100)]
pub proof fn lemma_evex_entries_7()
    ensures
        spec_evex_flags(Opcode::EvexVpminuwVdqHdqWdqKmask) == 0x380,
        spec_evex_flags(Opcode::EvexVpmaxswVdqHdqWdqKmask) == 0x380,
        spec_evex_flags(Opcode::EvexVpmaxuwVdqHdqWdqKmask) == 0x380,
        spec_evex_flags(Opcode::EvexVpacksswbVdqHdqWdq) == 0x380,
        spec_evex_flags(Opcode::EvexVpacksswbVdqHdqWdqKmask) == 0x380,
        spec_evex_flags(Opcode::EvexVpackuswbVdqHdqWdq) == 0x380,
        spec_evex_flags(Opcode::EvexVpackuswbVdqHdqWdqKmask) == 0x380,
        spec_evex_flags(Opcode::EvexVpackssdwVdqHdqWdq) == 0x180,
        spec_evex_flags(Opcode::EvexVpackssdwVdqHdqWdqKmask) == 0x180,
        spec_evex_flags(Opcode::EvexVpackusdwVdqHdqWdq) == 0x180,
        spec_evex_flags(Opcode::EvexVpackusdwVdqHdqWdqKmask) == 0x180,
        spec_evex_flags(Opcode::EvexVpunpcklbwVdqHdqWdq) == 0x380,
        spec_evex_flags(Opcode::EvexVpunpckhbwVdqHdqWdq) == 0x380,
        spec_evex_flags(Opcode::EvexVpunpcklbwVdqHdqWdqKmask) == 0x380,
        spec_evex_flags(Opcode::EvexVpunpckhbwVdqHdqWdqKmask) == 0x380,
        spec_evex_flags(Opcode::EvexVpunpcklwdVdqHdqWdq) == 0x380,
        spec_evex_flags(Opcode::EvexVpunpckhwdVdqHdqWdq) == 0x380,
        spec_evex_flags(Opcode::EvexVpunpcklwdVdqHdqWdqKmask) == 0x380,
        spec_evex_flags(Opcode::EvexVpunpckhwdVdqHdqWdqKmask) == 0x380,
        spec_evex_flags(Opcode::EvexVpavgbVdqHdqWdq) == 0x380,
        spec_evex_flags(Opcode::EvexVpavgwVdqHdqWdq) == 0x380,
        spec_evex_flags(Opcode::EvexVpavgbVdqHdqWdqKmask) == 0x380,
        spec_evex_flags(Opcode::EvexVpavgwVdqHdqWdqKmask) == 0x380,
        spec_evex_flags(Opcode::EvexVpmaddubswVdqHdqWdq) == 0x380,
        spec_evex_flags(Opcode::EvexVpmaddubswVdqHdqWdqKmask) == 0x380,
        spec_evex_flags(Opcode::EvexVpmullwVdqHdqWdq) == 0x380,
        spec_evex_flags(Opcode::EvexVpmulhwVdqHdqWdq) == 0x380,
        spec_evex_flags(Opcode::EvexVpmulhuwVdqHdqWdq) == 0x380,
        spec_evex_flags(Opcode::EvexVpmulhrswVdqHdqWdq) == 0x380,
        spec_evex_flags(Opcode::EvexVpmullwVdqHdqWdqKmask) == 0x380,
        spec_evex_flags(Opcode::EvexVpmulhwVdqHdqWdqKmask) == 0x380,
        spec_evex_flags(Opcode::EvexVpmulhuwVdqHdqWdqKmask) == 0x380,
        spec_evex_flags(Opcode::EvexVpmulhrswVdqHdqWdqKmask) == 0x380,
        spec_evex_flags(Opcode::EvexVpsrldqUdqIb) == 0x380,
        spec_evex_flags(Opcode::EvexVpslldqUdqIb) == 0x380,
        spec_evex_flags(Opcode::EvexVpsadbwVdqHdqWdq) == 0x380,
        spec_evex_flags(Opcode::EvexVpmaddwdVdqHdqWdq) == 0x380,
        spec_evex_flags(Opcode::EvexVpmaddwdVdqHdqWdqKmask) == 0x380,
        spec_evex_flags(Opcode::EvexVpmadd52luqVdqHdqWdq) == 0x180,
        spec_evex_flags(Opcode::EvexVpmadd52luqVdqHdqWdqKmask) == 0x180,
        spec_evex_flags(Opcode::EvexVpmadd52huqVdqHdqWdq) == 0x180,
        spec_evex_flags(Opcode::EvexVpmadd52huqVdqHdqWdqKmask) == 0x180,
        spec_evex_flags(Opcode::EvexVpmultishiftqbVdqHdqWdqKmask) == 0x180,
        spec_evex_flags(Opcode::EvexVpermbVdqHdqWdqKmask) == 0x380,
        spec_evex_flags(Opcode::EvexVpermwVdqHdqWdqKmask) == 0x380,
        spec_evex_flags(Opcode::EvexVpermt2bVdqHdqWdqKmask) == 0x380,
        spec_evex_flags(Opcode::EvexVpermt2wVdqHdqWdqKmask) == 0x380,
        spec_evex_flags(Opcode::EvexVpermi2bVdqHdqWdqKmask) == 0x380,
        spec_evex_flags(Opcode::EvexVpermi2wVdqHdqWdqKmask) == 0x380,
        spec_evex_flags(Opcode::EvexVinsertf32x4VpsHpsWpsIb) == 0x380,
{
}

/// Every opcode the generated table gives EVEX attributes has exactly those attributes (entries 400..450 of 1328).
#[verifier::spinoff_prover]
#[verifier::rlimit(100)]
pub proof fn lemma_evex_entries_8()
    ensures
        spec_evex_flags(Opcode::EvexVinsertf64x2VpdHpdWpdIb) == 0x380,
        spec_evex_flags(Opcode::EvexVinsertf32x4VpsHpsWpsIbKmask) == 0x380,
        spec_evex_flags(Opcode::EvexVinsertf64x2VpdHpdWpdIbKmask) == 0x380,
        spec_evex_flags(Opcode::EvexVinsertf32x8VpsHpsWpsIb) == 0x380,
        spec_evex_flags(Opcode::EvexVinsertf64x4VpdHpdWpdIb) == 0x380,
        spec_evex_flags(Opcode::EvexVinsertf32x8VpsHpsWpsIbKmask) == 0x380,
        spec_evex_flags(Opcode::EvexVinsertf64x4VpdHpdWpdIbKmask) == 0x380,
        spec_evex_flags(Opcode::EvexVinserti32x4VdqHdqWdqIb) == 0x380,
        spec_evex_flags(Opcode::EvexVinserti64x2VdqHdqWdqIb) == 0x380,
        spec_evex_flags(Opcode::EvexVinserti32x4VdqHdqWdqIbKmask) == 0x380,
        spec_evex_flags(Opcode::EvexVinserti64x2VdqHdqWdqIbKmask) == 0x380,
        spec_evex_flags(Opcode::EvexVinserti32x8VdqHdqWdqIb) == 0x380,
        spec_evex_flags(Opcode::EvexVinserti64x4VdqHdqWdqIb) == 0x380,
        spec_evex_flags(Opcode::EvexVinserti32x8VdqHdqWdqIbKmask) == 0x380,
        spec_evex_flags(Opcode::EvexVinserti64x4VdqHdqWdqIbKmask) == 0x380,
        spec_evex_flags(Opcode::EvexVextractf32x4WpsVpsIb) == 0x380,
        spec_evex_flags(Opcode::EvexVextractf64x2WpdVpdIb) == 0x380,
        spec_evex_flags(Opcode::EvexVextractf32x4WpsVpsIbKmask) == 0x380,
        spec_evex_flags(Opcode::EvexVextractf64x2WpdVpdIbKmask) == 0x380,
        spec_evex_flags(Opcode::EvexVextractf32x8WpsVpsIb) == 0x380,
        spec_evex_flags(Opcode::EvexVextractf64x4WpdVpdIb) == 0x380,
        spec_evex_flags(Opcode::EvexVextractf32x8WpsVpsIbKmask) == 0x380,
        spec_evex_flags(Opcode::EvexVextractf64x4WpdVpdIbKmask) == 0x380,
        spec_evex_flags(Opcode::EvexVextracti32x4WdqVdqIb) == 0x380,
        spec_evex_flags(Opcode::EvexVextracti64x2WdqVdqIb) == 0x380,
        spec_evex_flags(Opcode::EvexVextracti32x4WdqVdqIbKmask) == 0x380,
        spec_evex_flags(Opcode::EvexVextracti64x2WdqVdqIbKmask) == 0x380,
        spec_evex_flags(Opcode::EvexVextracti32x8WdqVdqIb) == 0x380,
        spec_evex_flags(Opcode::EvexVextracti64x4WdqVdqIb) == 0x380,
        spec_evex_flags(Opcode::EvexVextracti32x8WdqVdqIbKmask) == 0x380,
        spec_evex_flags(Opcode::EvexVextracti64x4WdqVdqIbKmask) == 0x380,
        spec_evex_flags(Opcode::EvexVbroadcastf32x2VpsWq) == 0x380,
        spec_evex_flags(Opcode::EvexVbroadcastf32x2VpsWqKmask) == 0x380,
        spec_evex_flags(Opcode::EvexVbroadcasti32x2VdqWq) == 0x380,
        spec_evex_flags(Opcode::EvexVbroadcasti32x2VdqWqKmask) == 0x380,
        spec_evex_flags(Opcode::EvexVbroadcastf32x4VpsWps) == 0x380,
        spec_evex_flags(Opcode::EvexVbroadcastf64x2VpdWpd) == 0x380,
        spec_evex_flags(Opcode::EvexVbroadcastf32x4VpsWpsKmask) == 0x380,
        spec_evex_flags(Opcode::EvexVbroadcastf64x2VpdWpdKmask) == 0x380,
        spec_evex_flags(Opcode::EvexVbroadcastf32x8VpsWps) == 0x380,
        spec_evex_flags(Opcode::EvexVbroadcastf64x4VpdWpd) == 0x380,
        spec_evex_flags(Opcode::EvexVbroadcastf32x8VpsWpsKmask) == 0x380,
        spec_evex_flags(Opcode::EvexVbroadcastf64x4VpdWpdKmask) == 0x380,
        spec_evex_flags(Opcode::EvexVbroadcasti32x4VdqWdq) == 0x380,
        spec_evex_flags(Opcode::EvexVbroadcasti64x2VdqWdq) == 0x380,
        spec_evex_flags(Opcode::EvexVbroadcasti32x4VdqWdqKmask) == 0x380,
        spec_evex_flags(Opcode::EvexVbroadcasti64x2VdqWdqKmask) == 0x380,
        spec_evex_flags(Opcode::EvexVbroadcasti32x8VdqWdq) == 0x380,
        spec_evex_flags(Opcode::EvexVbroadcasti64x4VdqWdq) == 0x380,
        spec_evex_flags(Opcode::EvexVbroadcasti32x8VdqWdqKmask) == 0x380,
{
}

/// Every opcode the generated table gives EVEX attributes has exactly those attributes (entries 450..500 of 1328).
#[verifier::spinoff_prover]
#[verifier::rlimit(100)]
pub proof fn lemma_evex_entries_9()
    ensures
        spec_evex_flags(Opcode::EvexVbroadcasti64x4VdqWdqKmask) == 0x380,
        spec_evex_flags(Opcode::EvexVpmulldVdqHdqWdq) == 0x180,
        spec_evex_flags(Opcode::EvexVpmullqVdqHdqWdq) == 0x180,
        spec_evex_flags(Opcode::EvexVpmulldVdqHdqWdqKmask) == 0x180,
        spec_evex_flags(Opcode::EvexVpmullqVdqHdqWdqKmask) == 0x180,
        spec_evex_flags(Opcode::EvexVpadddVdqHdqWdq) == 0x180,
        spec_evex_flags(Opcode::EvexVpaddqVdqHdqWdq) == 0x180,
        spec_evex_flags(Opcode::EvexVpadddVdqHdqWdqKmask) == 0x180,
        spec_evex_flags(Opcode::EvexVpaddqVdqHdqWdqKmask) == 0x180,
        spec_evex_flags(Opcode::EvexVpsubdVdqHdqWdq) == 0x180,
        spec_evex_flags(Opcode::EvexVpsubqVdqHdqWdq) == 0x180,
        spec_evex_flags(Opcode::EvexVpsubdVdqHdqWdqKmask) == 0x180,
        spec_evex_flags(Opcode::EvexVpsubqVdqHdqWdqKmask) == 0x180,
        spec_evex_flags(Opcode::EvexVpanddVdqHdqWdq) == 0x180,
        spec_evex_flags(Opcode::EvexVpandqVdqHdqWdq) == 0x180,
        spec_evex_flags(Opcode::EvexVpanddVdqHdqWdqKmask) == 0x180,
        spec_evex_flags(Opcode::EvexVpandqVdqHdqWdqKmask) == 0x180,
        spec_evex_flags(Opcode::EvexVpandndVdqHdqWdq) == 0x180,
        spec_evex_flags(Opcode::EvexVpandnqVdqHdqWdq) == 0x180,
        spec_evex_flags(Opcode::EvexVpandndVdqHdqWdqKmask) == 0x180,
        spec_evex_flags(Opcode::EvexVpandnqVdqHdqWdqKmask) == 0x180,
        spec_evex_flags(Opcode::EvexVpordVdqHdqWdq) == 0x180,
        spec_evex_flags(Opcode::EvexVporqVdqHdqWdq) == 0x180,
        spec_evex_flags(Opcode::EvexVpordVdqHdqWdqKmask) == 0x180,
        spec_evex_flags(Opcode::EvexVporqVdqHdqWdqKmask) == 0x180,
        spec_evex_flags(Opcode::EvexVpxordVdqHdqWdq) == 0x180,
        spec_evex_flags(Opcode::EvexVpxorqVdqHdqWdq) == 0x180,
        spec_evex_flags(Opcode::EvexVpxordVdqHdqWdqKmask) == 0x180,
        spec_evex_flags(Opcode::EvexVpxorqVdqHdqWdqKmask) == 0x180,
        spec_evex_flags(Opcode::EvexVandpsVpsHpsWps) == 0x180,
        spec_evex_flags(Opcode::EvexVandpdVpdHpdWpd) == 0x180,
        spec_evex_flags(Opcode::EvexVandpsVpsHpsWpsKmask) == 0x180,
        spec_evex_flags(Opcode::EvexVandpdVpdHpdWpdKmask) == 0x180,
        spec_evex_flags(Opcode::EvexVandnpsVpsHpsWps) == 0x180,
        spec_evex_flags(Opcode::EvexVandnpdVpdHpdWpd) == 0x180,
        spec_evex_flags(Opcode::EvexVandnpsVpsHpsWpsKmask) == 0x180,
        spec_evex_flags(Opcode::EvexVandnpdVpdHpdWpdKmask) == 0x180,
        spec_evex_flags(Opcode::EvexVorpsVpsHpsWps) == 0x180,
        spec_evex_flags(Opcode::EvexVorpdVpdHpdWpd) == 0x180,
        spec_evex_flags(Opcode::EvexVorpsVpsHpsWpsKmask) == 0x180,
        spec_evex_flags(Opcode::EvexVorpdVpdHpdWpdKmask) == 0x180,
        spec_evex_flags(Opcode::EvexVxorpsVpsHpsWps) == 0x180,
        spec_evex_flags(Opcode::EvexVxorpdVpdHpdWpd) == 0x180,
        spec_evex_flags(Opcode::EvexVxorpsVpsHpsWpsKmask) == 0x180,
        spec_evex_flags(Opcode::EvexVxorpdVpdHpdWpdKmask) == 0x180,
        spec_evex_flags(Opcode::EvexVpmaxsdVdqHdqWdq) == 0x180,
        spec_evex_flags(Opcode::EvexVpmaxsqVdqHdqWdq) == 0x180,
        spec_evex_flags(Opcode::EvexVpmaxsdVdqHdqWdqKmask) == 0x180,
        spec_evex_flags(Opcode::EvexVpmaxsqVdqHdqWdqKmask) == 0x180,
        spec_evex_flags(Opcode::EvexVpmaxudVdqHdqWdq) == 0x180,
{
}

/// Every opcode the generated table gives EVEX attributes has exactly those attributes (entries 500..550 of 1328).
#[verifier::spinoff_prover]
#[verifier::rlimit(100)]
pub proof fn lemma_evex_entries_10()
    ensures
        spec_evex_flags(Opcode::EvexVpmaxuqVdqHdqWdq) == 0x180,
        spec_evex_flags(Opcode::EvexVpmaxudVdqHdqWdqKmask) == 0x180,
        spec_evex_flags(Opcode::EvexVpmaxuqVdqHdqWdqKmask) == 0x180,
        spec_evex_flags(Opcode::EvexVpminsdVdqHdqWdq) == 0x180,
        spec_evex_flags(Opcode::EvexVpminsqVdqHdqWdq) == 0x180,
        spec_evex_flags(Opcode::EvexVpminsdVdqHdqWdqKmask) == 0x180,
        spec_evex_flags(Opcode::EvexVpminsqVdqHdqWdqKmask) == 0x180,
        spec_evex_flags(Opcode::EvexVpminudVdqHdqWdq) == 0x180,
        spec_evex_flags(Opcode::EvexVpminuqVdqHdqWdq) == 0x180,
        spec_evex_flags(Opcode::EvexVpminudVdqHdqWdqKmask) == 0x180,
        spec_evex_flags(Opcode::EvexVpminuqVdqHdqWdqKmask) == 0x180,
        spec_evex_flags(Opcode::EvexValigndVdqHdqWdqIbKmask) == 0x180,
        spec_evex_flags(Opcode::EvexValignqVdqHdqWdqIbKmask) == 0x180,
        spec_evex_flags(Opcode::EvexVpalignrVdqHdqWdqIb) == 0x380,
        spec_evex_flags(Opcode::EvexVpalignrVdqHdqWdqIbKmask) == 0x380,
        spec_evex_flags(Opcode::EvexVdbpsadbwVdqHdqWdqIbKmask) == 0x380,
        spec_evex_flags(Opcode::EvexVpsrlvwVdqHdqWdq) == 0x380,
        spec_evex_flags(Opcode::EvexVpsrlvdVdqHdqWdq) == 0x180,
        spec_evex_flags(Opcode::EvexVpsrlvqVdqHdqWdq) == 0x180,
        spec_evex_flags(Opcode::EvexVpsravwVdqHdqWdq) == 0x380,
        spec_evex_flags(Opcode::EvexVpsravdVdqHdqWdq) == 0x180,
        spec_evex_flags(Opcode::EvexVpsravqVdqHdqWdq) == 0x180,
        spec_evex_flags(Opcode::EvexVpsllvwVdqHdqWdq) == 0x380,
        spec_evex_flags(Opcode::EvexVpsllvdVdqHdqWdq) == 0x180,
        spec_evex_flags(Opcode::EvexVpsllvqVdqHdqWdq) == 0x180,
        spec_evex_flags(Opcode::EvexVprolvdVdqHdqWdq) == 0x180,
        spec_evex_flags(Opcode::EvexVprolvqVdqHdqWdq) == 0x180,
        spec_evex_flags(Opcode::EvexVprorvdVdqHdqWdq) == 0x180,
        spec_evex_flags(Opcode::EvexVprorvqVdqHdqWdq) == 0x180,
        spec_evex_flags(Opcode::EvexVpsrlvwVdqHdqWdqKmask) == 0x380,
        spec_evex_flags(Opcode::EvexVpsrlvdVdqHdqWdqKmask) == 0x180,
        spec_evex_flags(Opcode::EvexVpsrlvqVdqHdqWdqKmask) == 0x180,
        spec_evex_flags(Opcode::EvexVpsravwVdqHdqWdqKmask) == 0x380,
        spec_evex_flags(Opcode::EvexVpsravdVdqHdqWdqKmask) == 0x180,
        spec_evex_flags(Opcode::EvexVpsravqVdqHdqWdqKmask) == 0x180,
        spec_evex_flags(Opcode::EvexVpsllvwVdqHdqWdqKmask) == 0x380,
        spec_evex_flags(Opcode::EvexVpsllvdVdqHdqWdqKmask) == 0x180,
        spec_evex_flags(Opcode::EvexVpsllvqVdqHdqWdqKmask) == 0x180,
        spec_evex_flags(Opcode::EvexVprolvdVdqHdqWdqKmask) == 0x180,
        spec_evex_flags(Opcode::EvexVprolvqVdqHdqWdqKmask) == 0x180,
        spec_evex_flags(Opcode::EvexVprorvdVdqHdqWdqKmask) == 0x180,
        spec_evex_flags(Opcode::EvexVprorvqVdqHdqWdqKmask) == 0x180,
        spec_evex_flags(Opcode::EvexVpsradVdqHdqWdq) == 0x380,
        spec_evex_flags(Opcode::EvexVpsraqVdqHdqWdq) == 0x380,
        spec_evex_flags(Opcode::EvexVpsradVdqHdqWdqKmask) == 0x380,
        spec_evex_flags(Opcode::EvexVpsraqVdqHdqWdqKmask) == 0x380,
        spec_evex_flags(Opcode::EvexVpsradUdqIb) == 0x180,
        spec_evex_flags(Opcode::EvexVpsraqUdqIb) == 0x180,
        spec_evex_flags(Opcode::EvexVprordUdqIb) == 0x180,
        spec_evex_flags(Opcode::EvexVprorqUdqIb) == 0x180,
{
}

/// Every opcode the generated table gives EVEX attributes has exactly those attributes (entries 550..600 of 1328).
#[verifier::spinoff_prover]
#[verifier::rlimit(100)]
pub proof fn lemma_evex_entries_11()
    ensures
        spec_evex_flags(Opcode::EvexVproldUdqIb) == 0x180,
        spec_evex_flags(Opcode::EvexVprolqUdqIb) == 0x180,
        spec_evex_flags(Opcode::EvexVpsradUdqIbKmask) == 0x180,
        spec_evex_flags(Opcode::EvexVpsraqUdqIbKmask) == 0x180,
        spec_evex_flags(Opcode::EvexVprordUdqIbKmask) == 0x180,
        spec_evex_flags(Opcode::EvexVprorqUdqIbKmask) == 0x180,
        spec_evex_flags(Opcode::EvexVproldUdqIbKmask) == 0x180,
        spec_evex_flags(Opcode::EvexVprolqUdqIbKmask) == 0x180,
        spec_evex_flags(Opcode::EvexVmovdqu8VdqWdq) == 0x380,
        spec_evex_flags(Opcode::EvexVmovdqu16VdqWdq) == 0x380,
        spec_evex_flags(Opcode::EvexVmovdqu8VdqWdqKmask) == 0x380,
        spec_evex_flags(Opcode::EvexVmovdqu16VdqWdqKmask) == 0x380,
        spec_evex_flags(Opcode::EvexVmovdqu8WdqVdq) == 0x380,
        spec_evex_flags(Opcode::EvexVmovdqu16WdqVdq) == 0x380,
        spec_evex_flags(Opcode::EvexVmovdqu8WdqVdqKmask) == 0x380,
        spec_evex_flags(Opcode::EvexVmovdqu16WdqVdqKmask) == 0x380,
        spec_evex_flags(Opcode::EvexVmovdqu32VdqWdq) == 0x380,
        spec_evex_flags(Opcode::EvexVmovdqu64VdqWdq) == 0x380,
        spec_evex_flags(Opcode::EvexVmovdqu32VdqWdqKmask) == 0x380,
        spec_evex_flags(Opcode::EvexVmovdqu64VdqWdqKmask) == 0x380,
        spec_evex_flags(Opcode::EvexVmovdqu32WdqVdq) == 0x380,
        spec_evex_flags(Opcode::EvexVmovdqu64WdqVdq) == 0x380,
        spec_evex_flags(Opcode::EvexVmovdqu32WdqVdqKmask) == 0x380,
        spec_evex_flags(Opcode::EvexVmovdqu64WdqVdqKmask) == 0x380,
        spec_evex_flags(Opcode::EvexVmovdqa32VdqWdq) == 0x380,
        spec_evex_flags(Opcode::EvexVmovdqa64VdqWdq) == 0x380,
        spec_evex_flags(Opcode::EvexVmovdqa32VdqWdqKmask) == 0x380,
        spec_evex_flags(Opcode::EvexVmovdqa64VdqWdqKmask) == 0x380,
        spec_evex_flags(Opcode::EvexVmovdqa32WdqVdq) == 0x380,
        spec_evex_flags(Opcode::EvexVmovdqa64WdqVdq) == 0x380,
        spec_evex_flags(Opcode::EvexVmovdqa32WdqVdqKmask) == 0x380,
        spec_evex_flags(Opcode::EvexVmovdqa64WdqVdqKmask) == 0x380,
        spec_evex_flags(Opcode::EvexVrangepsVpsHpsWpsIbKmask) == 0x080,
        spec_evex_flags(Opcode::EvexVrangepdVpdHpdWpdIbKmask) == 0x080,
        spec_evex_flags(Opcode::EvexVrangessVssHpsWssIbKmask) == 0x280,
        spec_evex_flags(Opcode::EvexVrangesdVsdHpdWsdIbKmask) == 0x280,
        spec_evex_flags(Opcode::EvexVgetexppsVpsWps) == 0x080,
        spec_evex_flags(Opcode::EvexVgetexppdVpdWpd) == 0x080,
        spec_evex_flags(Opcode::EvexVgetexpssVssHpsWss) == 0x280,
        spec_evex_flags(Opcode::EvexVgetexpsdVsdHpdWsd) == 0x280,
        spec_evex_flags(Opcode::EvexVgetexppsVpsWpsKmask) == 0x080,
        spec_evex_flags(Opcode::EvexVgetexppdVpdWpdKmask) == 0x080,
        spec_evex_flags(Opcode::EvexVgetexpssVssHpsWssKmask) == 0x280,
        spec_evex_flags(Opcode::EvexVgetexpsdVsdHpdWsdKmask) == 0x280,
        spec_evex_flags(Opcode::EvexVgetmantpsVpsWpsIbKmask) == 0x080,
        spec_evex_flags(Opcode::EvexVgetmantpdVpdWpdIbKmask) == 0x080,
        spec_evex_flags(Opcode::EvexVgetmantssVssHpsWssIbKmask) == 0x280,
        spec_evex_flags(Opcode::EvexVgetmantsdVsdHpdWsdIbKmask) == 0x280,
        spec_evex_flags(Opcode::EvexVscalefpsVpsHpsWps) == 0x080,
        spec_evex_flags(Opcode::EvexVscalefpdVpdHpdWpd) == 0x080,
{
}

/// Every opcode the generated table gives EVEX attributes has exactly those attributes (entries 600..650 of 1328).
#[verifier::spinoff_prover]
#[verifier::rlimit(100)]
pub proof fn lemma_evex_entries_12()
    ensures
        spec_evex_flags(Opcode::EvexVscalefssVssHpsWss) == 0x280,
        spec_evex_flags(Opcode::EvexVscalefsdVsdHpdWsd) == 0x280,
        spec_evex_flags(Opcode::EvexVscalefpsVpsHpsWpsKmask) == 0x080,
        spec_evex_flags(Opcode::EvexVscalefpdVpdHpdWpdKmask) == 0x080,
        spec_evex_flags(Opcode::EvexVscalefssVssHpsWssKmask) == 0x280,
        spec_evex_flags(Opcode::EvexVscalefsdVsdHpdWsdKmask) == 0x280,
        spec_evex_flags(Opcode::EvexVrcp14psVpsWpsKmask) == 0x180,
        spec_evex_flags(Opcode::EvexVrcp14pdVpdWpdKmask) == 0x180,
        spec_evex_flags(Opcode::EvexVrcp14ssVssHpsWssKmask) == 0x380,
        spec_evex_flags(Opcode::EvexVrcp14sdVsdHpdWsdKmask) == 0x380,
        spec_evex_flags(Opcode::EvexVrsqrt14psVpsWpsKmask) == 0x180,
        spec_evex_flags(Opcode::EvexVrsqrt14pdVpdWpdKmask) == 0x180,
        spec_evex_flags(Opcode::EvexVrsqrt14ssVssHpsWssKmask) == 0x380,
        spec_evex_flags(Opcode::EvexVrsqrt14sdVsdHpdWsdKmask) == 0x380,
        spec_evex_flags(Opcode::EvexVcvtps2uqqVdqWps) == 0x080,
        spec_evex_flags(Opcode::EvexVcvtpd2uqqVdqWpd) == 0x080,
        spec_evex_flags(Opcode::EvexVcvtps2uqqVdqWpsKmask) == 0x080,
        spec_evex_flags(Opcode::EvexVcvtpd2uqqVdqWpdKmask) == 0x080,
        spec_evex_flags(Opcode::EvexVcvttps2uqqVdqWps) == 0x080,
        spec_evex_flags(Opcode::EvexVcvttps2uqqVdqWpsKmask) == 0x080,
        spec_evex_flags(Opcode::EvexVcvttpd2uqqVdqWpd) == 0x080,
        spec_evex_flags(Opcode::EvexVcvttpd2uqqVdqWpdKmask) == 0x080,
        spec_evex_flags(Opcode::EvexVcvtps2qqVdqWps) == 0x080,
        spec_evex_flags(Opcode::EvexVcvtps2qqVdqWpsKmask) == 0x080,
        spec_evex_flags(Opcode::EvexVcvtpd2qqVdqWpd) == 0x080,
        spec_evex_flags(Opcode::EvexVcvtpd2qqVdqWpdKmask) == 0x080,
        spec_evex_flags(Opcode::EvexVcvttps2qqVdqWps) == 0x080,
        spec_evex_flags(Opcode::EvexVcvttps2qqVdqWpsKmask) == 0x080,
        spec_evex_flags(Opcode::EvexVcvttpd2qqVdqWpd) == 0x080,
        spec_evex_flags(Opcode::EvexVcvttpd2qqVdqWpdKmask) == 0x080,
        spec_evex_flags(Opcode::EvexVcvttps2udqVdqWps) == 0x080,
        spec_evex_flags(Opcode::EvexVcvttpd2udqVdqWpd) == 0x080,
        spec_evex_flags(Opcode::EvexVcvttps2udqVdqWpsKmask) == 0x080,
        spec_evex_flags(Opcode::EvexVcvttpd2udqVdqWpdKmask) == 0x080,
        spec_evex_flags(Opcode::EvexVcvtps2udqVdqWps) == 0x080,
        spec_evex_flags(Opcode::EvexVcvtpd2udqVdqWpd) == 0x080,
        spec_evex_flags(Opcode::EvexVcvtps2udqVdqWpsKmask) == 0x080,
        spec_evex_flags(Opcode::EvexVcvtpd2udqVdqWpdKmask) == 0x080,
        spec_evex_flags(Opcode::EvexVcvtudq2pdVpdWdq) == 0x080,
        spec_evex_flags(Opcode::EvexVcvtudq2pdVpdWdqKmask) == 0x080,
        spec_evex_flags(Opcode::EvexVcvtuqq2pdVpdWdq) == 0x080,
        spec_evex_flags(Opcode::EvexVcvtuqq2pdVpdWdqKmask) == 0x080,
        spec_evex_flags(Opcode::EvexVcvtudq2psVpsWdq) == 0x080,
        spec_evex_flags(Opcode::EvexVcvtudq2psVpsWdqKmask) == 0x080,
        spec_evex_flags(Opcode::EvexVcvtuqq2psVpsWdq) == 0x080,
        spec_evex_flags(Opcode::EvexVcvtuqq2psVpsWdqKmask) == 0x080,
        spec_evex_flags(Opcode::EvexVcvtdq2pdVpdWdq) == 0x080,
        spec_evex_flags(Opcode::EvexVcvtdq2pdVpdWdqKmask) == 0x080,
        spec_evex_flags(Opcode::EvexVcvtqq2pdVpdWdq) == 0x080,
        spec_evex_flags(Opcode::EvexVcvtqq2pdVpdWdqKmask) == 0x080,
{
}

/// Every opcode the generated table gives EVEX attributes has exactly those attributes (entries 650..700 of 1328).
#[verifier::spinoff_prover]
#[verifier::rlimit(100)]
pub proof fn lemma_evex_entries_13()
    ensures
        spec_evex_flags(Opcode::EvexVcvtdq2psVpsWdq) == 0x080,
        spec_evex_flags(Opcode::EvexVcvtdq2psVpsWdqKmask) == 0x080,
        spec_evex_flags(Opcode::EvexVcvtqq2psVpsWdq) == 0x080,
        spec_evex_flags(Opcode::EvexVcvtqq2psVpsWdqKmask) == 0x080,
        spec_evex_flags(Opcode::EvexVfmadd132psVpsHpsWps) == 0x080,
        spec_evex_flags(Opcode::EvexVfmadd132pdVpdHpdWpd) == 0x080,
        spec_evex_flags(Opcode::EvexVfmadd213psVpsHpsWps) == 0x080,
        spec_evex_flags(Opcode::EvexVfmadd213pdVpdHpdWpd) == 0x080,
        spec_evex_flags(Opcode::EvexVfmadd231psVpsHpsWps) == 0x080,
        spec_evex_flags(Opcode::EvexVfmadd231pdVpdHpdWpd) == 0x080,
        spec_evex_flags(Opcode::EvexVfmadd132psVpsHpsWpsKmask) == 0x080,
        spec_evex_flags(Opcode::EvexVfmadd132pdVpdHpdWpdKmask) == 0x080,
        spec_evex_flags(Opcode::EvexVfmadd213psVpsHpsWpsKmask) == 0x080,
        spec_evex_flags(Opcode::EvexVfmadd213pdVpdHpdWpdKmask) == 0x080,
        spec_evex_flags(Opcode::EvexVfmadd231psVpsHpsWpsKmask) == 0x080,
        spec_evex_flags(Opcode::EvexVfmadd231pdVpdHpdWpdKmask) == 0x080,
        spec_evex_flags(Opcode::EvexVfmadd132ssVpsHssWss) == 0x280,
        spec_evex_flags(Opcode::EvexVfmadd132sdVpdHsdWsd) == 0x280,
        spec_evex_flags(Opcode::EvexVfmadd213ssVpsHssWss) == 0x280,
        spec_evex_flags(Opcode::EvexVfmadd213sdVpdHsdWsd) == 0x280,
        spec_evex_flags(Opcode::EvexVfmadd231ssVpsHssWss) == 0x280,
        spec_evex_flags(Opcode::EvexVfmadd231sdVpdHsdWsd) == 0x280,
        spec_evex_flags(Opcode::EvexVfmadd132ssVpsHssWssKmask) == 0x280,
        spec_evex_flags(Opcode::EvexVfmadd132sdVpdHsdWsdKmask) == 0x280,
        spec_evex_flags(Opcode::EvexVfmadd213ssVpsHssWssKmask) == 0x280,
        spec_evex_flags(Opcode::EvexVfmadd213sdVpdHsdWsdKmask) == 0x280,
        spec_evex_flags(Opcode::EvexVfmadd231ssVpsHssWssKmask) == 0x280,
        spec_evex_flags(Opcode::EvexVfmadd231sdVpdHsdWsdKmask) == 0x280,
        spec_evex_flags(Opcode::EvexVfmaddsub132psVpsHpsWps) == 0x080,
        spec_evex_flags(Opcode::EvexVfmaddsub132pdVpdHpdWpd) == 0x080,
        spec_evex_flags(Opcode::EvexVfmaddsub213psVpsHpsWps) == 0x080,
        spec_evex_flags(Opcode::EvexVfmaddsub213pdVpdHpdWpd) == 0x080,
        spec_evex_flags(Opcode::EvexVfmaddsub231psVpsHpsWps) == 0x080,
        spec_evex_flags(Opcode::EvexVfmaddsub231pdVpdHpdWpd) == 0x080,
        spec_evex_flags(Opcode::EvexVfmaddsub132psVpsHpsWpsKmask) == 0x080,
        spec_evex_flags(Opcode::EvexVfmaddsub132pdVpdHpdWpdKmask) == 0x080,
        spec_evex_flags(Opcode::EvexVfmaddsub213psVpsHpsWpsKmask) == 0x080,
        spec_evex_flags(Opcode::EvexVfmaddsub213pdVpdHpdWpdKmask) == 0x080,
        spec_evex_flags(Opcode::EvexVfmaddsub231psVpsHpsWpsKmask) == 0x080,
        spec_evex_flags(Opcode::EvexVfmaddsub231pdVpdHpdWpdKmask) == 0x080,
        spec_evex_flags(Opcode::EvexVfmsubadd132psVpsHpsWps) == 0x080,
        spec_evex_flags(Opcode::EvexVfmsubadd132pdVpdHpdWpd) == 0x080,
        spec_evex_flags(Opcode::EvexVfmsubadd213psVpsHpsWps) == 0x080,
        spec_evex_flags(Opcode::EvexVfmsubadd213pdVpdHpdWpd) == 0x080,
        spec_evex_flags(Opcode::EvexVfmsubadd231psVpsHpsWps) == 0x080,
        spec_evex_flags(Opcode::EvexVfmsubadd231pdVpdHpdWpd) == 0x080,
        spec_evex_flags(Opcode::EvexVfmsubadd132psVpsHpsWpsKmask) == 0x080,
        spec_evex_flags(Opcode::EvexVfmsubadd132pdVpdHpdWpdKmask) == 0x080,
        spec_evex_flags(Opcode::EvexVfmsubadd213psVpsHpsWpsKmask) == 0x080,
        spec_evex_flags(Opcode::EvexVfmsubadd213pdVpdHpdWpdKmask) == 0x080,
{
}

/// Every opcode the generated table gives EVEX attributes has exactly those attributes (entries 700..750 of 1328).
#[verifier::spinoff_prover]
#[verifier::rlimit(100)]
pub proof fn lemma_evex_entries_14()
    ensures
        spec_evex_flags(Opcode::EvexVfmsubadd231psVpsHpsWpsKmask) == 0x080,
        spec_evex_flags(Opcode::EvexVfmsubadd231pdVpdHpdWpdKmask) == 0x080,
        spec_evex_flags(Opcode::EvexVfmsub132psVpsHpsWps) == 0x080,
        spec_evex_flags(Opcode::EvexVfmsub132pdVpdHpdWpd) == 0x080,
        spec_evex_flags(Opcode::EvexVfmsub213psVpsHpsWps) == 0x080,
        spec_evex_flags(Opcode::EvexVfmsub213pdVpdHpdWpd) == 0x080,
        spec_evex_flags(Opcode::EvexVfmsub231psVpsHpsWps) == 0x080,
        spec_evex_flags(Opcode::EvexVfmsub231pdVpdHpdWpd) == 0x080,
        spec_evex_flags(Opcode::EvexVfmsub132psVpsHpsWpsKmask) == 0x080,
        spec_evex_flags(Opcode::EvexVfmsub132pdVpdHpdWpdKmask) == 0x080,
        spec_evex_flags(Opcode::EvexVfmsub213psVpsHpsWpsKmask) == 0x080,
        spec_evex_flags(Opcode::EvexVfmsub213pdVpdHpdWpdKmask) == 0x080,
        spec_evex_flags(Opcode::EvexVfmsub231psVpsHpsWpsKmask) == 0x080,
        spec_evex_flags(Opcode::EvexVfmsub231pdVpdHpdWpdKmask) == 0x080,
        spec_evex_flags(Opcode::EvexVfmsub132ssVpsHssWss) == 0x280,
        spec_evex_flags(Opcode::EvexVfmsub132sdVpdHsdWsd) == 0x280,
        spec_evex_flags(Opcode::EvexVfmsub213ssVpsHssWss) == 0x280,
        spec_evex_flags(Opcode::EvexVfmsub213sdVpdHsdWsd) == 0x280,
        spec_evex_flags(Opcode::EvexVfmsub231ssVpsHssWss) == 0x280,
        spec_evex_flags(Opcode::EvexVfmsub231sdVpdHsdWsd) == 0x280,
        spec_evex_flags(Opcode::EvexVfmsub132ssVpsHssWssKmask) == 0x280,
        spec_evex_flags(Opcode::EvexVfmsub132sdVpdHsdWsdKmask) == 0x280,
        spec_evex_flags(Opcode::EvexVfmsub213ssVpsHssWssKmask) == 0x280,
        spec_evex_flags(Opcode::EvexVfmsub213sdVpdHsdWsdKmask) == 0x280,
        spec_evex_flags(Opcode::EvexVfmsub231ssVpsHssWssKmask) == 0x280,
        spec_evex_flags(Opcode::EvexVfmsub231sdVpdHsdWsdKmask) == 0x280,
        spec_evex_flags(Opcode::EvexVfnmadd132psVpsHpsWps) == 0x080,
        spec_evex_flags(Opcode::EvexVfnmadd132pdVpdHpdWpd) == 0x080,
        spec_evex_flags(Opcode::EvexVfnmadd213psVpsHpsWps) == 0x080,
        spec_evex_flags(Opcode::EvexVfnmadd213pdVpdHpdWpd) == 0x080,
        spec_evex_flags(Opcode::EvexVfnmadd231psVpsHpsWps) == 0x080,
        spec_evex_flags(Opcode::EvexVfnmadd231pdVpdHpdWpd) == 0x080,
        spec_evex_flags(Opcode::EvexVfnmadd132psVpsHpsWpsKmask) == 0x080,
        spec_evex_flags(Opcode::EvexVfnmadd132pdVpdHpdWpdKmask) == 0x080,
        spec_evex_flags(Opcode::EvexVfnmadd213psVpsHpsWpsKmask) == 0x080,
        spec_evex_flags(Opcode::EvexVfnmadd213pdVpdHpdWpdKmask) == 0x080,
        spec_evex_flags(Opcode::EvexVfnmadd231psVpsHpsWpsKmask) == 0x080,
        spec_evex_flags(Opcode::EvexVfnmadd231pdVpdHpdWpdKmask) == 0x080,
        spec_evex_flags(Opcode::EvexVfnmadd132ssVpsHssWss) == 0x280,
        spec_evex_flags(Opcode::EvexVfnmadd132sdVpdHsdWsd) == 0x280,
        spec_evex_flags(Opcode::EvexVfnmadd213ssVpsHssWss) == 0x280,
        spec_evex_flags(Opcode::EvexVfnmadd213sdVpdHsdWsd) == 0x280,
        spec_evex_flags(Opcode::EvexVfnmadd231ssVpsHssWss) == 0x280,
        spec_evex_flags(Opcode::EvexVfnmadd231sdVpdHsdWsd) == 0x280,
        spec_evex_flags(Opcode::EvexVfnmadd132ssVpsHssWssKmask) == 0x280,
        spec_evex_flags(Opcode::EvexVfnmadd132sdVpdHsdWsdKmask) == 0x280,
        spec_evex_flags(Opcode::EvexVfnmadd213ssVpsHssWssKmask) == 0x280,
        spec_evex_flags(Opcode::EvexVfnmadd213sdVpdHsdWsdKmask) == 0x280,
        spec_evex_flags(Opcode::EvexVfnmadd231ssVpsHssWssKmask) == 0x280,
        spec_evex_flags(Opcode::EvexVfnmadd231sdVpdHsdWsdKmask) == 0x280,
{
}

/// Every opcode the generated table gives EVEX attributes has exactly those attributes (entries 750..800 of 1328).
#[verifier::spinoff_prover]
#[verifier::rlimit(100)]
pub proof fn lemma_evex_entries_15()
    ensures
        spec_evex_flags(Opcode::EvexVfnmsub132psVpsHpsWps) == 0x080,
        spec_evex_flags(Opcode::EvexVfnmsub132pdVpdHpdWpd) == 0x080,
        spec_evex_flags(Opcode::EvexVfnmsub213psVpsHpsWps) == 0x080,
        spec_evex_flags(Opcode::EvexVfnmsub213pdVpdHpdWpd) == 0x080,
        spec_evex_flags(Opcode::EvexVfnmsub231psVpsHpsWps) == 0x080,
        spec_evex_flags(Opcode::EvexVfnmsub231pdVpdHpdWpd) == 0x080,
        spec_evex_flags(Opcode::EvexVfnmsub132psVpsHpsWpsKmask) == 0x080,
        spec_evex_flags(Opcode::EvexVfnmsub132pdVpdHpdWpdKmask) == 0x080,
        spec_evex_flags(Opcode::EvexVfnmsub213psVpsHpsWpsKmask) == 0x080,
        spec_evex_flags(Opcode::EvexVfnmsub213pdVpdHpdWpdKmask) == 0x080,
        spec_evex_flags(Opcode::EvexVfnmsub231psVpsHpsWpsKmask) == 0x080,
        spec_evex_flags(Opcode::EvexVfnmsub231pdVpdHpdWpdKmask) == 0x080,
        spec_evex_flags(Opcode::EvexVfnmsub132ssVpsHssWss) == 0x280,
        spec_evex_flags(Opcode::EvexVfnmsub132sdVpdHsdWsd) == 0x280,
        spec_evex_flags(Opcode::EvexVfnmsub213ssVpsHssWss) == 0x280,
        spec_evex_flags(Opcode::EvexVfnmsub213sdVpdHsdWsd) == 0x280,
        spec_evex_flags(Opcode::EvexVfnmsub231ssVpsHssWss) == 0x280,
        spec_evex_flags(Opcode::EvexVfnmsub231sdVpdHsdWsd) == 0x280,
        spec_evex_flags(Opcode::EvexVfnmsub132ssVpsHssWssKmask) == 0x280,
        spec_evex_flags(Opcode::EvexVfnmsub132sdVpdHsdWsdKmask) == 0x280,
        spec_evex_flags(Opcode::EvexVfnmsub213ssVpsHssWssKmask) == 0x280,
        spec_evex_flags(Opcode::EvexVfnmsub213sdVpdHsdWsdKmask) == 0x280,
        spec_evex_flags(Opcode::EvexVfnmsub231ssVpsHssWssKmask) == 0x280,
        spec_evex_flags(Opcode::EvexVfnmsub231sdVpdHsdWsdKmask) == 0x280,
        spec_evex_flags(Opcode::EvexVpcmpbKgqHdqWdqIb) == 0x380,
        spec_evex_flags(Opcode::EvexVpcmpwKgdHdqWdqIb) == 0x380,
        spec_evex_flags(Opcode::EvexVpcmpubKgqHdqWdqIb) == 0x380,
        spec_evex_flags(Opcode::EvexVpcmpuwKgdHdqWdqIb) == 0x380,
        spec_evex_flags(Opcode::EvexVpcmpdKgwHdqWdqIb) == 0x180,
        spec_evex_flags(Opcode::EvexVpcmpqKgbHdqWdqIb) == 0x180,
        spec_evex_flags(Opcode::EvexVpcmpudKgwHdqWdqIb) == 0x180,
        spec_evex_flags(Opcode::EvexVpcmpuqKgbHdqWdqIb) == 0x180,
        spec_evex_flags(Opcode::EvexVptestmbKgqHdqWdq) == 0x380,
        spec_evex_flags(Opcode::EvexVptestmwKgdHdqWdq) == 0x380,
        spec_evex_flags(Opcode::EvexVptestnmbKgqHdqWdq) == 0x380,
        spec_evex_flags(Opcode::EvexVptestnmwKgdHdqWdq) == 0x380,
        spec_evex_flags(Opcode::EvexVptestmdKgwHdqWdq) == 0x180,
        spec_evex_flags(Opcode::EvexVptestmqKgbHdqWdq) == 0x180,
        spec_evex_flags(Opcode::EvexVptestnmdKgwHdqWdq) == 0x180,
        spec_evex_flags(Opcode::EvexVptestnmqKgbHdqWdq) == 0x180,
        spec_evex_flags(Opcode::EvexVpternlogdVdqHdqWdqIb) == 0x180,
        spec_evex_flags(Opcode::EvexVpternlogqVdqHdqWdqIb) == 0x180,
        spec_evex_flags(Opcode::EvexVpternlogdVdqHdqWdqIbKmask) == 0x180,
        spec_evex_flags(Opcode::EvexVpternlogqVdqHdqWdqIbKmask) == 0x180,
        spec_evex_flags(Opcode::EvexVgatherdpsVpsVsib) == 0x280,
        spec_evex_flags(Opcode::EvexVgatherdpdVpdVsib) == 0x280,
        spec_evex_flags(Opcode::EvexVgatherqpsVpsVsib) == 0x280,
        spec_evex_flags(Opcode::EvexVgatherqpdVpdVsib) == 0x280,
        spec_evex_flags(Opcode::EvexVgatherddVdqVsib) == 0x280,
        spec_evex_flags(Opcode::EvexVgatherdqVdqVsib) == 0x280,
{
}

/// Every opcode the generated table gives EVEX attributes has exactly those attributes (entries 800..850 of 1328).
#[verifier::spinoff_prover]
#[verifier::rlimit(100)]
pub proof fn lemma_evex_entries_16()
    ensures
        spec_evex_flags(Opcode::EvexVgatherqdVdqVsib) == 0x280,
        spec_evex_flags(Opcode::EvexVgatherqqVdqVsib) == 0x280,
        spec_evex_flags(Opcode::EvexVscatterdpsVsibVps) == 0x280,
        spec_evex_flags(Opcode::EvexVscatterdpdVsibVpd) == 0x280,
        spec_evex_flags(Opcode::EvexVscatterqpsVsibVps) == 0x280,
        spec_evex_flags(Opcode::EvexVscatterqpdVsibVpd) == 0x280,
        spec_evex_flags(Opcode::EvexVscatterddVsibVdq) == 0x280,
        spec_evex_flags(Opcode::EvexVscatterdqVsibVdq) == 0x280,
        spec_evex_flags(Opcode::EvexVscatterqdVsibVdq) == 0x280,
        spec_evex_flags(Opcode::EvexVscatterqqVsibVdq) == 0x280,
        spec_evex_flags(Opcode::EvexVblendmpsVpsHpsWps) == 0x180,
        spec_evex_flags(Opcode::EvexVblendmpdVpdHpdWpd) == 0x180,
        spec_evex_flags(Opcode::EvexVpblendmdVdqHdqWdq) == 0x180,
        spec_evex_flags(Opcode::EvexVpblendmqVdqHdqWdq) == 0x180,
        spec_evex_flags(Opcode::EvexVpblendmbVdqHdqWdq) == 0x380,
        spec_evex_flags(Opcode::EvexVpblendmwVdqHdqWdq) == 0x380,
        spec_evex_flags(Opcode::EvexVshufi32x4VdqHdqWdqIbKmask) == 0x180,
        spec_evex_flags(Opcode::EvexVshufi64x2VdqHdqWdqIbKmask) == 0x180,
        spec_evex_flags(Opcode::EvexVshuff32x4VpsHpsWpsIbKmask) == 0x180,
        spec_evex_flags(Opcode::EvexVshuff64x2VpdHpdWpdIbKmask) == 0x180,
        spec_evex_flags(Opcode::EvexVexpandpsVpsWps) == 0x380,
        spec_evex_flags(Opcode::EvexVexpandpdVpdWpd) == 0x380,
        spec_evex_flags(Opcode::EvexVexpandpsVpsWpsKmask) == 0x380,
        spec_evex_flags(Opcode::EvexVexpandpdVpdWpdKmask) == 0x380,
        spec_evex_flags(Opcode::EvexVcompresspsWpsVps) == 0x380,
        spec_evex_flags(Opcode::EvexVcompresspdWpdVpd) == 0x380,
        spec_evex_flags(Opcode::EvexVcompresspsWpsVpsKmask) == 0x380,
        spec_evex_flags(Opcode::EvexVcompresspdWpdVpdKmask) == 0x380,
        spec_evex_flags(Opcode::EvexVpexpandbVdqWdq) == 0x380,
        spec_evex_flags(Opcode::EvexVpexpandwVdqWdq) == 0x380,
        spec_evex_flags(Opcode::EvexVpexpandbVdqWdqKmask) == 0x380,
        spec_evex_flags(Opcode::EvexVpexpandwVdqWdqKmask) == 0x380,
        spec_evex_flags(Opcode::EvexVpexpanddVdqWdq) == 0x380,
        spec_evex_flags(Opcode::EvexVpexpandqVdqWdq) == 0x380,
        spec_evex_flags(Opcode::EvexVpexpanddVdqWdqKmask) == 0x380,
        spec_evex_flags(Opcode::EvexVpexpandqVdqWdqKmask) == 0x380,
        spec_evex_flags(Opcode::EvexVpcompressbWdqVdq) == 0x380,
        spec_evex_flags(Opcode::EvexVpcompresswWdqVdq) == 0x380,
        spec_evex_flags(Opcode::EvexVpcompressbWdqVdqKmask) == 0x380,
        spec_evex_flags(Opcode::EvexVpcompresswWdqVdqKmask) == 0x380,
        spec_evex_flags(Opcode::EvexVpcompressdWdqVdq) == 0x380,
        spec_evex_flags(Opcode::EvexVpcompressqWdqVdq) == 0x380,
        spec_evex_flags(Opcode::EvexVpcompressdWdqVdqKmask) == 0x380,
        spec_evex_flags(Opcode::EvexVpcompressqWdqVdqKmask) == 0x380,
        spec_evex_flags(Opcode::EvexVfixupimmssVssHssWssIbKmask) == 0x280,
        spec_evex_flags(Opcode::EvexVfixupimmsdVsdHsdWsdIbKmask) == 0x280,
        spec_evex_flags(Opcode::EvexVfixupimmpsVpsHpsWpsIb) == 0x080,
        spec_evex_flags(Opcode::EvexVfixupimmpdVpdHpdWpdIb) == 0x080,
        spec_evex_flags(Opcode::EvexVfixupimmpsVpsHpsWpsIbKmask) == 0x080,
        spec_evex_flags(Opcode::EvexVfixupimmpdVpdHpdWpdIbKmask) == 0x080,
{
}

/// Every opcode the generated table gives EVEX attributes has exactly those attributes (entries 850..900 of 1328).
#[verifier::spinoff_prover]
#[verifier::rlimit(100)]
pub proof fn lemma_evex_entries_17()
    ensures
        spec_evex_flags(Opcode::EvexVfpclasspsKgwWpsIbKmask) == 0x180,
        spec_evex_flags(Opcode::EvexVfpclasspdKgbWpdIbKmask) == 0x180,
        spec_evex_flags(Opcode::EvexVfpclassssKgbWssIbKmask) == 0x380,
        spec_evex_flags(Opcode::EvexVfpclasssdKgbWsdIbKmask) == 0x380,
        spec_evex_flags(Opcode::EvexVreducepsVpsWpsIbKmask) == 0x080,
        spec_evex_flags(Opcode::EvexVreducepdVpdWpdIbKmask) == 0x080,
        spec_evex_flags(Opcode::EvexVreducessVssHpsWssIbKmask) == 0x280,
        spec_evex_flags(Opcode::EvexVreducesdVsdHpdWsdIbKmask) == 0x280,
        spec_evex_flags(Opcode::EvexVpermt2dVdqHdqWdqKmask) == 0x180,
        spec_evex_flags(Opcode::EvexVpermt2qVdqHdqWdqKmask) == 0x180,
        spec_evex_flags(Opcode::EvexVpermi2dVdqHdqWdqKmask) == 0x180,
        spec_evex_flags(Opcode::EvexVpermi2qVdqHdqWdqKmask) == 0x180,
        spec_evex_flags(Opcode::EvexVpermt2psVpsHpsWpsKmask) == 0x180,
        spec_evex_flags(Opcode::EvexVpermt2pdVpdHpdWpdKmask) == 0x180,
        spec_evex_flags(Opcode::EvexVpermi2psVpsHpsWpsKmask) == 0x180,
        spec_evex_flags(Opcode::EvexVpermi2pdVpdHpdWpdKmask) == 0x180,
        spec_evex_flags(Opcode::EvexVpermdVdqHdqWdqKmask) == 0x180,
        spec_evex_flags(Opcode::EvexVpermqVdqHdqWdqKmask) == 0x180,
        spec_evex_flags(Opcode::EvexVpermpsVpsHpsWpsKmask) == 0x180,
        spec_evex_flags(Opcode::EvexVpermpdVpdHpdWpdKmask) == 0x180,
        spec_evex_flags(Opcode::EvexVpconflictdVdqWdqKmask) == 0x180,
        spec_evex_flags(Opcode::EvexVpconflictqVdqWdqKmask) == 0x180,
        spec_evex_flags(Opcode::EvexVplzcntdVdqWdqKmask) == 0x180,
        spec_evex_flags(Opcode::EvexVplzcntqVdqWdqKmask) == 0x180,
        spec_evex_flags(Opcode::EvexVpmovm2bVdqKeq) == 0x380,
        spec_evex_flags(Opcode::EvexVpmovm2wVdqKed) == 0x380,
        spec_evex_flags(Opcode::EvexVpmovm2dVdqKew) == 0x380,
        spec_evex_flags(Opcode::EvexVpmovm2qVdqKeb) == 0x380,
        spec_evex_flags(Opcode::EvexVpmovb2mKgqWdq) == 0x380,
        spec_evex_flags(Opcode::EvexVpmovw2mKgdWdq) == 0x380,
        spec_evex_flags(Opcode::EvexVpmovd2mKgwWdq) == 0x380,
        spec_evex_flags(Opcode::EvexVpmovq2mKgbWdq) == 0x380,
        spec_evex_flags(Opcode::EvexVpopcntbVdqWdqKmask) == 0x380,
        spec_evex_flags(Opcode::EvexVpopcntwVdqWdqKmask) == 0x380,
        spec_evex_flags(Opcode::EvexVpopcntdVdqWdqKmask) == 0x180,
        spec_evex_flags(Opcode::EvexVpopcntqVdqWdqKmask) == 0x180,
        spec_evex_flags(Opcode::EvexVpshrddVdqHdqWdqIbKmask) == 0x180,
        spec_evex_flags(Opcode::EvexVpshrdqVdqHdqWdqIbKmask) == 0x180,
        spec_evex_flags(Opcode::EvexVpshrdvdVdqHdqWdqKmask) == 0x180,
        spec_evex_flags(Opcode::EvexVpshrdvqVdqHdqWdqKmask) == 0x180,
        spec_evex_flags(Opcode::EvexVpshlddVdqHdqWdqIbKmask) == 0x180,
        spec_evex_flags(Opcode::EvexVpshldqVdqHdqWdqIbKmask) == 0x180,
        spec_evex_flags(Opcode::EvexVpshldvdVdqHdqWdqKmask) == 0x180,
        spec_evex_flags(Opcode::EvexVpshldvqVdqHdqWdqKmask) == 0x180,
        spec_evex_flags(Opcode::EvexVcvtss2siGdWss) == 0x280,
        spec_evex_flags(Opcode::EvexVcvtss2siGqWss) == 0x280,
        spec_evex_flags(Opcode::EvexVcvtsd2siGdWsd) == 0x280,
        spec_evex_flags(Opcode::EvexVcvtsd2siGqWsd) == 0x280,
        spec_evex_flags(Opcode::EvexVcvttss2siGdWss) == 0x280,
        spec_evex_flags(Opcode::EvexVcvttss2siGqWss) == 0x280,
{
}

/// Every opcode the generated table gives EVEX attributes has exactly those attributes (entries 900..950 of 1328).
#[verifier::spinoff_prover]
#[verifier::rlimit(100)]
pub proof fn lemma_evex_entries_18()
    ensures
        spec_evex_flags(Opcode::EvexVcvttsd2siGdWsd) == 0x280,
        spec_evex_flags(Opcode::EvexVcvttsd2siGqWsd) == 0x280,
        spec_evex_flags(Opcode::EvexVmovdVdqEd) == 0x380,
        spec_evex_flags(Opcode::EvexVmovqVdqEq) == 0x380,
        spec_evex_flags(Opcode::EvexVmovdEdVd) == 0x380,
        spec_evex_flags(Opcode::EvexVmovqEqVq) == 0x380,
        spec_evex_flags(Opcode::EvexVcvtsi2ssVssEd) == 0x280,
        spec_evex_flags(Opcode::EvexVcvtsi2ssVssEq) == 0x280,
        spec_evex_flags(Opcode::EvexVcvtsi2sdVsdEd) == 0x280,
        spec_evex_flags(Opcode::EvexVcvtsi2sdVsdEq) == 0x280,
        spec_evex_flags(Opcode::EvexVcvtusi2ssVssEd) == 0x280,
        spec_evex_flags(Opcode::EvexVcvtusi2ssVssEq) == 0x280,
        spec_evex_flags(Opcode::EvexVcvtusi2sdVsdEd) == 0x280,
        spec_evex_flags(Opcode::EvexVcvtusi2sdVsdEq) == 0x280,
        spec_evex_flags(Opcode::EvexVcvtss2usiGdWss) == 0x280,
        spec_evex_flags(Opcode::EvexVcvtss2usiGqWss) == 0x280,
        spec_evex_flags(Opcode::EvexVcvtsd2usiGdWsd) == 0x280,
        spec_evex_flags(Opcode::EvexVcvtsd2usiGqWsd) == 0x280,
        spec_evex_flags(Opcode::EvexVcvttss2usiGdWss) == 0x280,
        spec_evex_flags(Opcode::EvexVcvttss2usiGqWss) == 0x280,
        spec_evex_flags(Opcode::EvexVcvttsd2usiGdWsd) == 0x280,
        spec_evex_flags(Opcode::EvexVcvttsd2usiGqWsd) == 0x280,
        spec_evex_flags(Opcode::EvexVpinsrbVdqEbIb) == 0x380,
        spec_evex_flags(Opcode::EvexVpinsrwVdqEwIb) == 0x380,
        spec_evex_flags(Opcode::EvexVpextrwGdUdqIb) == 0x380,
        spec_evex_flags(Opcode::EvexVpextrbEdVdqIbR) == 0x380,
        spec_evex_flags(Opcode::EvexVpextrbMbVdqIbM) == 0x380,
        spec_evex_flags(Opcode::EvexVpextrwEdVdqIbR) == 0x380,
        spec_evex_flags(Opcode::EvexVpextrwMwVdqIbM) == 0x380,
        spec_evex_flags(Opcode::EvexVpinsrdVdqEdIb) == 0x380,
        spec_evex_flags(Opcode::EvexVpinsrqVdqEqIb) == 0x380,
        spec_evex_flags(Opcode::EvexVpextrdEdVdqIb) == 0x380,
        spec_evex_flags(Opcode::EvexVpextrqEqVdqIb) == 0x380,
        spec_evex_flags(Opcode::EvexVpbroadcastmb2qVdqKeb) == 0x380,
        spec_evex_flags(Opcode::EvexVpbroadcastmw2dVdqKew) == 0x380,
        spec_evex_flags(Opcode::EvexVpdpbusdVdqHdqWdq) == 0x180,
        spec_evex_flags(Opcode::EvexVpdpbusdsVdqHdqWdq) == 0x180,
        spec_evex_flags(Opcode::EvexVpdpwssdVdqHdqWdq) == 0x180,
        spec_evex_flags(Opcode::EvexVpdpwssdsVdqHdqWdq) == 0x180,
        spec_evex_flags(Opcode::EvexVpdpbusdVdqHdqWdqKmask) == 0x180,
        spec_evex_flags(Opcode::EvexVpdpbusdsVdqHdqWdqKmask) == 0x180,
        spec_evex_flags(Opcode::EvexVpdpwssdVdqHdqWdqKmask) == 0x180,
        spec_evex_flags(Opcode::EvexVpdpwssdsVdqHdqWdqKmask) == 0x180,
        spec_evex_flags(Opcode::EvexVpshufbitqmbKgqHdqWdqKmask) == 0x380,
        spec_evex_flags(Opcode::EvexVp2intersectdKgqHdqWdq) == 0x180,
        spec_evex_flags(Opcode::EvexVp2intersectqKgqHdqWdq) == 0x180,
        spec_evex_flags(Opcode::EvexVpshrdwVdqHdqWdqIbKmask) == 0x380,
        spec_evex_flags(Opcode::EvexVpshrdvwVdqHdqWdqKmask) == 0x380,
        spec_evex_flags(Opcode::EvexVpshldwVdqHdqWdqIbKmask) == 0x380,
        spec_evex_flags(Opcode::EvexVpshldvwVdqHdqWdqKmask) == 0x380,
{
}

/// Every opcode the generated table gives EVEX attributes has exactly those attributes (entries 950..1000 of 1328).
#[verifier::spinoff_prover]
#[verifier::rlimit(100)]
pub proof fn lemma_evex_entries_19()
    ensures
        spec_evex_flags(Opcode::EvexVaddshVshHphWsh) == 0x280,
        spec_evex_flags(Opcode::EvexVaddshVshHphWshKmask) == 0x280,
        spec_evex_flags(Opcode::EvexVsubshVshHphWsh) == 0x280,
        spec_evex_flags(Opcode::EvexVsubshVshHphWshKmask) == 0x280,
        spec_evex_flags(Opcode::EvexVmulshVshHphWsh) == 0x280,
        spec_evex_flags(Opcode::EvexVmulshVshHphWshKmask) == 0x280,
        spec_evex_flags(Opcode::EvexVdivshVshHphWsh) == 0x280,
        spec_evex_flags(Opcode::EvexVdivshVshHphWshKmask) == 0x280,
        spec_evex_flags(Opcode::EvexVminshVshHphWsh) == 0x280,
        spec_evex_flags(Opcode::EvexVminshVshHphWshKmask) == 0x280,
        spec_evex_flags(Opcode::EvexVmaxshVshHphWsh) == 0x280,
        spec_evex_flags(Opcode::EvexVmaxshVshHphWshKmask) == 0x280,
        spec_evex_flags(Opcode::EvexVscalefshVshHphWsh) == 0x280,
        spec_evex_flags(Opcode::EvexVscalefshVshHphWshKmask) == 0x280,
        spec_evex_flags(Opcode::EvexVaddphVphHphWph) == 0x080,
        spec_evex_flags(Opcode::EvexVaddphVphHphWphKmask) == 0x080,
        spec_evex_flags(Opcode::EvexVsubphVphHphWph) == 0x080,
        spec_evex_flags(Opcode::EvexVsubphVphHphWphKmask) == 0x080,
        spec_evex_flags(Opcode::EvexVmulphVphHphWph) == 0x080,
        spec_evex_flags(Opcode::EvexVmulphVphHphWphKmask) == 0x080,
        spec_evex_flags(Opcode::EvexVdivphVphHphWph) == 0x080,
        spec_evex_flags(Opcode::EvexVdivphVphHphWphKmask) == 0x080,
        spec_evex_flags(Opcode::EvexVminphVphHphWph) == 0x080,
        spec_evex_flags(Opcode::EvexVminphVphHphWphKmask) == 0x080,
        spec_evex_flags(Opcode::EvexVmaxphVphHphWph) == 0x080,
        spec_evex_flags(Opcode::EvexVmaxphVphHphWphKmask) == 0x080,
        spec_evex_flags(Opcode::EvexVscalefphVphHphWph) == 0x080,
        spec_evex_flags(Opcode::EvexVscalefphVphHphWphKmask) == 0x080,
        spec_evex_flags(Opcode::EvexVfmadd132shVphHshWsh) == 0x280,
        spec_evex_flags(Opcode::EvexVfmadd132shVphHshWshKmask) == 0x280,
        spec_evex_flags(Opcode::EvexVfmadd213shVphHshWsh) == 0x280,
        spec_evex_flags(Opcode::EvexVfmadd213shVphHshWshKmask) == 0x280,
        spec_evex_flags(Opcode::EvexVfmadd231shVphHshWsh) == 0x280,
        spec_evex_flags(Opcode::EvexVfmadd231shVphHshWshKmask) == 0x280,
        spec_evex_flags(Opcode::EvexVfnmadd132shVphHshWsh) == 0x280,
        spec_evex_flags(Opcode::EvexVfnmadd132shVphHshWshKmask) == 0x280,
        spec_evex_flags(Opcode::EvexVfnmadd213shVphHshWsh) == 0x280,
        spec_evex_flags(Opcode::EvexVfnmadd213shVphHshWshKmask) == 0x280,
        spec_evex_flags(Opcode::EvexVfnmadd231shVphHshWsh) == 0x280,
        spec_evex_flags(Opcode::EvexVfnmadd231shVphHshWshKmask) == 0x280,
        spec_evex_flags(Opcode::EvexVfmsub132shVphHshWsh) == 0x280,
        spec_evex_flags(Opcode::EvexVfmsub132shVphHshWshKmask) == 0x280,
        spec_evex_flags(Opcode::EvexVfmsub213shVphHshWsh) == 0x280,
        spec_evex_flags(Opcode::EvexVfmsub213shVphHshWshKmask) == 0x280,
        spec_evex_flags(Opcode::EvexVfmsub231shVphHshWsh) == 0x280,
        spec_evex_flags(Opcode::EvexVfmsub231shVphHshWshKmask) == 0x280,
        spec_evex_flags(Opcode::EvexVfnmsub132shVphHshWsh) == 0x280,
        spec_evex_flags(Opcode::EvexVfnmsub132shVphHshWshKmask) == 0x280,
        spec_evex_flags(Opcode::EvexVfnmsub213shVphHshWsh) == 0x280,
        spec_evex_flags(Opcode::EvexVfnmsub213shVphHshWshKmask) == 0x280,
{
}

/// Every opcode the generated table gives EVEX attributes has exactly those attributes (entries 1000..1050 of 1328).
#[verifier::spinoff_prover]
#[verifier::rlimit(100)]
pub proof fn lemma_evex_entries_20()
    ensures
        spec_evex_flags(Opcode::EvexVfnmsub231shVphHshWsh) == 0x280,
        spec_evex_flags(Opcode::EvexVfnmsub231shVphHshWshKmask) == 0x280,
        spec_evex_flags(Opcode::EvexVfmadd132phVphHphWph) == 0x080,
        spec_evex_flags(Opcode::EvexVfmadd132phVphHphWphKmask) == 0x080,
        spec_evex_flags(Opcode::EvexVfmadd213phVphHphWph) == 0x080,
        spec_evex_flags(Opcode::EvexVfmadd213phVphHphWphKmask) == 0x080,
        spec_evex_flags(Opcode::EvexVfmadd231phVphHphWph) == 0x080,
        spec_evex_flags(Opcode::EvexVfmadd231phVphHphWphKmask) == 0x080,
        spec_evex_flags(Opcode::EvexVfnmadd132phVphHphWph) == 0x080,
        spec_evex_flags(Opcode::EvexVfnmadd132phVphHphWphKmask) == 0x080,
        spec_evex_flags(Opcode::EvexVfnmadd213phVphHphWph) == 0x080,
        spec_evex_flags(Opcode::EvexVfnmadd213phVphHphWphKmask) == 0x080,
        spec_evex_flags(Opcode::EvexVfnmadd231phVphHphWph) == 0x080,
        spec_evex_flags(Opcode::EvexVfnmadd231phVphHphWphKmask) == 0x080,
        spec_evex_flags(Opcode::EvexVfmsub132phVphHphWph) == 0x080,
        spec_evex_flags(Opcode::EvexVfmsub132phVphHphWphKmask) == 0x080,
        spec_evex_flags(Opcode::EvexVfmsub213phVphHphWph) == 0x080,
        spec_evex_flags(Opcode::EvexVfmsub213phVphHphWphKmask) == 0x080,
        spec_evex_flags(Opcode::EvexVfmsub231phVphHphWph) == 0x080,
        spec_evex_flags(Opcode::EvexVfmsub231phVphHphWphKmask) == 0x080,
        spec_evex_flags(Opcode::EvexVfnmsub132phVphHphWph) == 0x080,
        spec_evex_flags(Opcode::EvexVfnmsub132phVphHphWphKmask) == 0x080,
        spec_evex_flags(Opcode::EvexVfnmsub213phVphHphWph) == 0x080,
        spec_evex_flags(Opcode::EvexVfnmsub213phVphHphWphKmask) == 0x080,
        spec_evex_flags(Opcode::EvexVfnmsub231phVphHphWph) == 0x080,
        spec_evex_flags(Opcode::EvexVfnmsub231phVphHphWphKmask) == 0x080,
        spec_evex_flags(Opcode::EvexVfmaddsub132phVphHphWph) == 0x080,
        spec_evex_flags(Opcode::EvexVfmaddsub132phVphHphWphKmask) == 0x080,
        spec_evex_flags(Opcode::EvexVfmaddsub213phVphHphWph) == 0x080,
        spec_evex_flags(Opcode::EvexVfmaddsub213phVphHphWphKmask) == 0x080,
        spec_evex_flags(Opcode::EvexVfmaddsub231phVphHphWph) == 0x080,
        spec_evex_flags(Opcode::EvexVfmaddsub231phVphHphWphKmask) == 0x080,
        spec_evex_flags(Opcode::EvexVfmsubadd132phVphHphWph) == 0x080,
        spec_evex_flags(Opcode::EvexVfmsubadd132phVphHphWphKmask) == 0x080,
        spec_evex_flags(Opcode::EvexVfmsubadd213phVphHphWph) == 0x080,
        spec_evex_flags(Opcode::EvexVfmsubadd213phVphHphWphKmask) == 0x080,
        spec_evex_flags(Opcode::EvexVfmsubadd231phVphHphWph) == 0x080,
        spec_evex_flags(Opcode::EvexVfmsubadd231phVphHphWphKmask) == 0x080,
        spec_evex_flags(Opcode::EvexVfpclassphKgdWphIbKmask) == 0x180,
        spec_evex_flags(Opcode::EvexVfpclassshKgbWshIbKmask) == 0x380,
        spec_evex_flags(Opcode::EvexVucomishVshWsh) == 0x280,
        spec_evex_flags(Opcode::EvexVcomishVshWsh) == 0x280,
        spec_evex_flags(Opcode::EvexVcmpphKgdHphWphIb) == 0x080,
        spec_evex_flags(Opcode::EvexVcmpshKgbHshWshIb) == 0x280,
        spec_evex_flags(Opcode::EvexVsqrtphVphWph) == 0x080,
        spec_evex_flags(Opcode::EvexVsqrtphVphWphKmask) == 0x080,
        spec_evex_flags(Opcode::EvexVsqrtshVshHphWsh) == 0x280,
        spec_evex_flags(Opcode::EvexVsqrtshVshHphWshKmask) == 0x280,
        spec_evex_flags(Opcode::EvexVgetexpphVphWph) == 0x080,
        spec_evex_flags(Opcode::EvexVgetexpphVphWphKmask) == 0x080,
{
}

/// Every opcode the generated table gives EVEX attributes has exactly those attributes (entries 1050..1100 of 1328).
#[verifier::spinoff_prover]
#[verifier::rlimit(100)]
pub proof fn lemma_evex_entries_21()
    ensures
        spec_evex_flags(Opcode::EvexVgetexpshVshHphWsh) == 0x280,
        spec_evex_flags(Opcode::EvexVgetexpshVshHphWshKmask) == 0x280,
        spec_evex_flags(Opcode::EvexVmovshVshWsh) == 0x280,
        spec_evex_flags(Opcode::EvexVmovshWshVsh) == 0x280,
        spec_evex_flags(Opcode::EvexVmovshVshWshKmask) == 0x280,
        spec_evex_flags(Opcode::EvexVmovshWshVshKmask) == 0x280,
        spec_evex_flags(Opcode::EvexVmovshVshHphWsh) == 0x180,
        spec_evex_flags(Opcode::EvexVmovshWshHphVsh) == 0x180,
        spec_evex_flags(Opcode::EvexVmovshVshHphWshKmask) == 0x180,
        spec_evex_flags(Opcode::EvexVmovshWshHphVshKmask) == 0x180,
        spec_evex_flags(Opcode::EvexVmovwVshEw) == 0x280,
        spec_evex_flags(Opcode::EvexVmovwEdVsh) == 0x280,
        spec_evex_flags(Opcode::EvexVcvtph2uwVdqWps) == 0x080,
        spec_evex_flags(Opcode::EvexVcvtph2uwVdqWpsKmask) == 0x080,
        spec_evex_flags(Opcode::EvexVcvtph2wVdqWps) == 0x080,
        spec_evex_flags(Opcode::EvexVcvtph2wVdqWpsKmask) == 0x080,
        spec_evex_flags(Opcode::EvexVcvttph2uwVdqWps) == 0x080,
        spec_evex_flags(Opcode::EvexVcvttph2uwVdqWpsKmask) == 0x080,
        spec_evex_flags(Opcode::EvexVcvttph2wVdqWps) == 0x080,
        spec_evex_flags(Opcode::EvexVcvttph2wVdqWpsKmask) == 0x080,
        spec_evex_flags(Opcode::EvexVcvtuw2phVphWdq) == 0x080,
        spec_evex_flags(Opcode::EvexVcvtuw2phVphWdqKmask) == 0x080,
        spec_evex_flags(Opcode::EvexVcvtw2phVphWdq) == 0x080,
        spec_evex_flags(Opcode::EvexVcvtw2phVphWdqKmask) == 0x080,
        spec_evex_flags(Opcode::EvexVcvtph2psxVpsWph) == 0x080,
        spec_evex_flags(Opcode::EvexVcvtph2psxVpsWphKmask) == 0x080,
        spec_evex_flags(Opcode::EvexVcvtph2dqVdqWph) == 0x080,
        spec_evex_flags(Opcode::EvexVcvtph2dqVdqWphKmask) == 0x080,
        spec_evex_flags(Opcode::EvexVcvtph2udqVdqWph) == 0x080,
        spec_evex_flags(Opcode::EvexVcvtph2udqVdqWphKmask) == 0x080,
        spec_evex_flags(Opcode::EvexVcvttph2dqVdqWph) == 0x080,
        spec_evex_flags(Opcode::EvexVcvttph2dqVdqWphKmask) == 0x080,
        spec_evex_flags(Opcode::EvexVcvttph2udqVdqWph) == 0x080,
        spec_evex_flags(Opcode::EvexVcvttph2udqVdqWphKmask) == 0x080,
        spec_evex_flags(Opcode::EvexVcvtph2pdVpdWph) == 0x080,
        spec_evex_flags(Opcode::EvexVcvtph2pdVpdWphKmask) == 0x080,
        spec_evex_flags(Opcode::EvexVcvtph2qqVdqWph) == 0x080,
        spec_evex_flags(Opcode::EvexVcvtph2qqVdqWphKmask) == 0x080,
        spec_evex_flags(Opcode::EvexVcvtph2uqqVdqWph) == 0x080,
        spec_evex_flags(Opcode::EvexVcvtph2uqqVdqWphKmask) == 0x080,
        spec_evex_flags(Opcode::EvexVcvttph2qqVdqWph) == 0x080,
        spec_evex_flags(Opcode::EvexVcvttph2qqVdqWphKmask) == 0x080,
        spec_evex_flags(Opcode::EvexVcvttph2uqqVdqWph) == 0x080,
        spec_evex_flags(Opcode::EvexVcvttph2uqqVdqWphKmask) == 0x080,
        spec_evex_flags(Opcode::EvexVcvtps2phxVphWdq) == 0x080,
        spec_evex_flags(Opcode::EvexVcvtps2phxVphWdqKmask) == 0x080,
        spec_evex_flags(Opcode::EvexVcvtdq2phVphWdq) == 0x080,
        spec_evex_flags(Opcode::EvexVcvtdq2phVphWdqKmask) == 0x080,
        spec_evex_flags(Opcode::EvexVcvtudq2phVphWdq) == 0x080,
        spec_evex_flags(Opcode::EvexVcvtudq2phVphWdqKmask) == 0x080,
{
}

/// Every opcode the generated table gives EVEX attributes has exactly those attributes (entries 1100..1150 of 1328).
#[verifier::spinoff_prover]
#[verifier::rlimit(100)]
pub proof fn lemma_evex_entries_22()
    ensures
        spec_evex_flags(Opcode::EvexVcvtpd2phVphWdq) == 0x080,
        spec_evex_flags(Opcode::EvexVcvtpd2phVphWdqKmask) == 0x080,
        spec_evex_flags(Opcode::EvexVcvtqq2phVphWdq) == 0x080,
        spec_evex_flags(Opcode::EvexVcvtqq2phVphWdqKmask) == 0x080,
        spec_evex_flags(Opcode::EvexVcvtuqq2phVphWdq) == 0x080,
        spec_evex_flags(Opcode::EvexVcvtuqq2phVphWdqKmask) == 0x080,
        spec_evex_flags(Opcode::EvexVcvtsh2ssVssWsh) == 0x280,
        spec_evex_flags(Opcode::EvexVcvtsh2ssVssWshKmask) == 0x280,
        spec_evex_flags(Opcode::EvexVcvtsh2sdVsdWsh) == 0x280,
        spec_evex_flags(Opcode::EvexVcvtsh2sdVsdWshKmask) == 0x280,
        spec_evex_flags(Opcode::EvexVcvtss2shVssWsh) == 0x280,
        spec_evex_flags(Opcode::EvexVcvtss2shVssWshKmask) == 0x280,
        spec_evex_flags(Opcode::EvexVcvtsd2shVssWsh) == 0x280,
        spec_evex_flags(Opcode::EvexVcvtsd2shVssWshKmask) == 0x280,
        spec_evex_flags(Opcode::EvexVcvtsh2siGdWss) == 0x280,
        spec_evex_flags(Opcode::EvexVcvtsh2siGqWss) == 0x280,
        spec_evex_flags(Opcode::EvexVcvtsh2usiGdWss) == 0x280,
        spec_evex_flags(Opcode::EvexVcvtsh2usiGqWss) == 0x280,
        spec_evex_flags(Opcode::EvexVcvttsh2siGdWss) == 0x280,
        spec_evex_flags(Opcode::EvexVcvttsh2siGqWss) == 0x280,
        spec_evex_flags(Opcode::EvexVcvttsh2usiGdWss) == 0x280,
        spec_evex_flags(Opcode::EvexVcvttsh2usiGqWss) == 0x280,
        spec_evex_flags(Opcode::EvexVcvtsi2shVshEd) == 0x280,
        spec_evex_flags(Opcode::EvexVcvtsi2shVshEq) == 0x280,
        spec_evex_flags(Opcode::EvexVcvtusi2shVshEd) == 0x280,
        spec_evex_flags(Opcode::EvexVcvtusi2shVshEq) == 0x280,
        spec_evex_flags(Opcode::EvexVgetmantphVphWphIbKmask) == 0x080,
        spec_evex_flags(Opcode::EvexVgetmantshVshHphWshIbKmask) == 0x280,
        spec_evex_flags(Opcode::EvexVreducephVphWphIbKmask) == 0x080,
        spec_evex_flags(Opcode::EvexVreduceshVshHphWshIbKmask) == 0x280,
        spec_evex_flags(Opcode::EvexVrndscalephVphWphIbKmask) == 0x080,
        spec_evex_flags(Opcode::EvexVrndscaleshVshHphWshIbKmask) == 0x280,
        spec_evex_flags(Opcode::EvexVrcpphVphWphKmask) == 0x180,
        spec_evex_flags(Opcode::EvexVrcpshVshHphWshKmask) == 0x380,
        spec_evex_flags(Opcode::EvexVrsqrtphVphWphKmask) == 0x180,
        spec_evex_flags(Opcode::EvexVrsqrtshVshHphWshKmask) == 0x380,
        spec_evex_flags(Opcode::EvexVfmulcshVshHphWshKmask) == 0x280,
        spec_evex_flags(Opcode::EvexVfcmulcshVshHphWshKmask) == 0x280,
        spec_evex_flags(Opcode::EvexVfmulcphVphHphWphKmask) == 0x080,
        spec_evex_flags(Opcode::EvexVfcmulcphVphHphWphKmask) == 0x080,
        spec_evex_flags(Opcode::EvexVfmaddcshVshHphWshKmask) == 0x280,
        spec_evex_flags(Opcode::EvexVfcmaddcshVshHphWshKmask) == 0x280,
        spec_evex_flags(Opcode::EvexVfmaddcphVphHphWphKmask) == 0x080,
        spec_evex_flags(Opcode::EvexVfcmaddcphVphHphWphKmask) == 0x080,
        spec_evex_flags(Opcode::EvexVaesencVdqHdqWdq) == 0x380,
        spec_evex_flags(Opcode::EvexVaesenclastVdqHdqWdq) == 0x380,
        spec_evex_flags(Opcode::EvexVaesdecVdqHdqWdq) == 0x380,
        spec_evex_flags(Opcode::EvexVaesdeclastVdqHdqWdq) == 0x380,
        spec_evex_flags(Opcode::EvexVpclmulqdqVdqHdqWdqIb) == 0x380,
        spec_evex_flags(Opcode::EvexVgf2p8affineqbVdqHdqWdqIbKmask) == 0x180,
{
}

/// Every opcode the generated table gives EVEX attributes has exactly those attributes (entries 1150..1200 of 1328).
#[verifier::spinoff_prover]
#[verifier::rlimit(100)]
pub proof fn lemma_evex_entries_23()
    ensures
        spec_evex_flags(Opcode::EvexVgf2p8affineinvqbVdqHdqWdqIbKmask) == 0x180,
        spec_evex_flags(Opcode::EvexVgf2p8mulbVdqHdqWdqKmask) == 0x380,
        spec_evex_flags(Opcode::EvexVsm4key4VdqHdqWdq) == 0x380,
        spec_evex_flags(Opcode::EvexVsm4rnds4VdqHdqWdq) == 0x380,
        spec_evex_flags(Opcode::EvexVucomxssVssWss) == 0x280,
        spec_evex_flags(Opcode::EvexVcomxssVssWss) == 0x280,
        spec_evex_flags(Opcode::EvexVucomxsdVsdWsd) == 0x280,
        spec_evex_flags(Opcode::EvexVcomxsdVsdWsd) == 0x280,
        spec_evex_flags(Opcode::EvexVucomxshVshWsh) == 0x280,
        spec_evex_flags(Opcode::EvexVcomxshVshWsh) == 0x280,
        spec_evex_flags(Opcode::EvexVpdpbssdVdqHdqWdq) == 0x180,
        spec_evex_flags(Opcode::EvexVpdpbssdsVdqHdqWdq) == 0x180,
        spec_evex_flags(Opcode::EvexVpdpbsudVdqHdqWdq) == 0x180,
        spec_evex_flags(Opcode::EvexVpdpbsudsVdqHdqWdq) == 0x180,
        spec_evex_flags(Opcode::EvexVpdpbuudVdqHdqWdq) == 0x180,
        spec_evex_flags(Opcode::EvexVpdpbuudsVdqHdqWdq) == 0x180,
        spec_evex_flags(Opcode::EvexVpdpbssdVdqHdqWdqKmask) == 0x180,
        spec_evex_flags(Opcode::EvexVpdpbssdsVdqHdqWdqKmask) == 0x180,
        spec_evex_flags(Opcode::EvexVpdpbsudVdqHdqWdqKmask) == 0x180,
        spec_evex_flags(Opcode::EvexVpdpbsudsVdqHdqWdqKmask) == 0x180,
        spec_evex_flags(Opcode::EvexVpdpbuudVdqHdqWdqKmask) == 0x180,
        spec_evex_flags(Opcode::EvexVpdpbuudsVdqHdqWdqKmask) == 0x180,
        spec_evex_flags(Opcode::EvexVpdpwsudVdqHdqWdq) == 0x180,
        spec_evex_flags(Opcode::EvexVpdpwsudsVdqHdqWdq) == 0x180,
        spec_evex_flags(Opcode::EvexVpdpwusdVdqHdqWdq) == 0x180,
        spec_evex_flags(Opcode::EvexVpdpwusdsVdqHdqWdq) == 0x180,
        spec_evex_flags(Opcode::EvexVpdpwuudVdqHdqWdq) == 0x180,
        spec_evex_flags(Opcode::EvexVpdpwuudsVdqHdqWdq) == 0x180,
        spec_evex_flags(Opcode::EvexVpdpwsudVdqHdqWdqKmask) == 0x180,
        spec_evex_flags(Opcode::EvexVpdpwsudsVdqHdqWdqKmask) == 0x180,
        spec_evex_flags(Opcode::EvexVpdpwusdVdqHdqWdqKmask) == 0x180,
        spec_evex_flags(Opcode::EvexVpdpwusdsVdqHdqWdqKmask) == 0x180,
        spec_evex_flags(Opcode::EvexVpdpwuudVdqHdqWdqKmask) == 0x180,
        spec_evex_flags(Opcode::EvexVpdpwuudsVdqHdqWdqKmask) == 0x180,
        spec_evex_flags(Opcode::EvexVmpsadbwVdqHdqWdqIb) == 0x380,
        spec_evex_flags(Opcode::EvexVmpsadbwVdqHdqWdqIbKmask) == 0x380,
        spec_evex_flags(Opcode::EvexVdpphpsVpsHdqWdqKmask) == 0x180,
        spec_evex_flags(Opcode::EvexVaddbf16VphHphWph) == 0x180,
        spec_evex_flags(Opcode::EvexVaddbf16VphHphWphKmask) == 0x180,
        spec_evex_flags(Opcode::EvexVsubbf16VphHphWph) == 0x180,
        spec_evex_flags(Opcode::EvexVsubbf16VphHphWphKmask) == 0x180,
        spec_evex_flags(Opcode::EvexVdivbf16VphHphWph) == 0x180,
        spec_evex_flags(Opcode::EvexVdivbf16VphHphWphKmask) == 0x180,
        spec_evex_flags(Opcode::EvexVmulbf16VphHphWph) == 0x180,
        spec_evex_flags(Opcode::EvexVmulbf16VphHphWphKmask) == 0x180,
        spec_evex_flags(Opcode::EvexVscalefpbf16VphHphWph) == 0x180,
        spec_evex_flags(Opcode::EvexVscalefpbf16VphHphWphKmask) == 0x180,
        spec_evex_flags(Opcode::EvexVsqrtbf16VphWph) == 0x180,
        spec_evex_flags(Opcode::EvexVsqrtbf16VphWphKmask) == 0x180,
        spec_evex_flags(Opcode::EvexVgetexppbf16VphWph) == 0x180,
{
}

/// Every opcode the generated table gives EVEX attributes has exactly those attributes (entries 1200..1250 of 1328).
#[verifier::spinoff_prover]
#[verifier::rlimit(100)]
pub proof fn lemma_evex_entries_24()
    ensures
        spec_evex_flags(Opcode::EvexVgetexppbf16VphWphKmask) == 0x180,
        spec_evex_flags(Opcode::EvexVfmadd132bf16VphHphWph) == 0x180,
        spec_evex_flags(Opcode::EvexVfmadd132bf16VphHphWphKmask) == 0x180,
        spec_evex_flags(Opcode::EvexVfmadd213bf16VphHphWph) == 0x180,
        spec_evex_flags(Opcode::EvexVfmadd213bf16VphHphWphKmask) == 0x180,
        spec_evex_flags(Opcode::EvexVfmadd231bf16VphHphWph) == 0x180,
        spec_evex_flags(Opcode::EvexVfmadd231bf16VphHphWphKmask) == 0x180,
        spec_evex_flags(Opcode::EvexVfmsub132bf16VphHphWph) == 0x180,
        spec_evex_flags(Opcode::EvexVfmsub132bf16VphHphWphKmask) == 0x180,
        spec_evex_flags(Opcode::EvexVfmsub213bf16VphHphWph) == 0x180,
        spec_evex_flags(Opcode::EvexVfmsub213bf16VphHphWphKmask) == 0x180,
        spec_evex_flags(Opcode::EvexVfmsub231bf16VphHphWph) == 0x180,
        spec_evex_flags(Opcode::EvexVfmsub231bf16VphHphWphKmask) == 0x180,
        spec_evex_flags(Opcode::EvexVfnmadd132bf16VphHphWph) == 0x180,
        spec_evex_flags(Opcode::EvexVfnmadd132bf16VphHphWphKmask) == 0x180,
        spec_evex_flags(Opcode::EvexVfnmadd213bf16VphHphWph) == 0x180,
        spec_evex_flags(Opcode::EvexVfnmadd213bf16VphHphWphKmask) == 0x180,
        spec_evex_flags(Opcode::EvexVfnmadd231bf16VphHphWph) == 0x180,
        spec_evex_flags(Opcode::EvexVfnmadd231bf16VphHphWphKmask) == 0x180,
        spec_evex_flags(Opcode::EvexVfnmsub132bf16VphHphWph) == 0x180,
        spec_evex_flags(Opcode::EvexVfnmsub132bf16VphHphWphKmask) == 0x180,
        spec_evex_flags(Opcode::EvexVfnmsub213bf16VphHphWph) == 0x180,
        spec_evex_flags(Opcode::EvexVfnmsub213bf16VphHphWphKmask) == 0x180,
        spec_evex_flags(Opcode::EvexVfnmsub231bf16VphHphWph) == 0x180,
        spec_evex_flags(Opcode::EvexVfnmsub231bf16VphHphWphKmask) == 0x180,
        spec_evex_flags(Opcode::EvexVfpclasspbf16KgdWphIbKmask) == 0x180,
        spec_evex_flags(Opcode::EvexVcmppbf16KgdHphWphIb) == 0x180,
        spec_evex_flags(Opcode::EvexVcomisbf16VshWsh) == 0x380,
        spec_evex_flags(Opcode::EvexVgetmantpbf16VphWphIbKmask) == 0x180,
        spec_evex_flags(Opcode::EvexVreducebf16VphWphIbKmask) == 0x180,
        spec_evex_flags(Opcode::EvexVrndscalebf16VphWphIbKmask) == 0x180,
        spec_evex_flags(Opcode::EvexVrcppbf16VphWph) == 0x180,
        spec_evex_flags(Opcode::EvexVrcppbf16VphWphKmask) == 0x180,
        spec_evex_flags(Opcode::EvexVrsqrtpbf16VphWph) == 0x180,
        spec_evex_flags(Opcode::EvexVrsqrtpbf16VphWphKmask) == 0x180,
        spec_evex_flags(Opcode::EvexVminmaxpsVpsHpsWpsIbKmask) == 0x080,
        spec_evex_flags(Opcode::EvexVminmaxssVssHpsWssIbKmask) == 0x280,
        spec_evex_flags(Opcode::EvexVminmaxpdVpdHpdWpdIbKmask) == 0x080,
        spec_evex_flags(Opcode::EvexVminmaxsdVsdHpdWsdIbKmask) == 0x280,
        spec_evex_flags(Opcode::EvexVminmaxphVphHphWphIbKmask) == 0x080,
        spec_evex_flags(Opcode::EvexVminmaxshVshHphWshIbKmask) == 0x280,
        spec_evex_flags(Opcode::EvexVminmaxbf16VphHphWphIbKmask) == 0x180,
        spec_evex_flags(Opcode::EvexVcvt2ps2phxVphHpsWpsKmask) == 0x080,
        spec_evex_flags(Opcode::EvexVcvttps2qqsVdqWps) == 0x080,
        spec_evex_flags(Opcode::EvexVcvttps2qqsVdqWpsKmask) == 0x080,
        spec_evex_flags(Opcode::EvexVcvttpd2qqsVdqWpd) == 0x080,
        spec_evex_flags(Opcode::EvexVcvttpd2qqsVdqWpdKmask) == 0x080,
        spec_evex_flags(Opcode::EvexVcvttps2uqqsVdqWps) == 0x080,
        spec_evex_flags(Opcode::EvexVcvttps2uqqsVdqWpsKmask) == 0x080,
        spec_evex_flags(Opcode::EvexVcvttpd2uqqsVdqWpd) == 0x080,
{
}

/// Every opcode the generated table gives EVEX attributes has exactly those attributes (entries 1250..1300 of 1328).
#[verifier::spinoff_prover]
#[verifier::rlimit(100)]
pub proof fn lemma_evex_entries_25()
    ensures
        spec_evex_flags(Opcode::EvexVcvttpd2uqqsVdqWpdKmask) == 0x080,
        spec_evex_flags(Opcode::EvexVcvttps2dqsVdqWps) == 0x080,
        spec_evex_flags(Opcode::EvexVcvttps2dqsVdqWpsKmask) == 0x080,
        spec_evex_flags(Opcode::EvexVcvttpd2dqsVdqWpd) == 0x080,
        spec_evex_flags(Opcode::EvexVcvttpd2dqsVdqWpdKmask) == 0x080,
        spec_evex_flags(Opcode::EvexVcvttps2udqsVdqWps) == 0x080,
        spec_evex_flags(Opcode::EvexVcvttpd2udqsVdqWpd) == 0x080,
        spec_evex_flags(Opcode::EvexVcvttps2udqsVdqWpsKmask) == 0x080,
        spec_evex_flags(Opcode::EvexVcvttpd2udqsVdqWpdKmask) == 0x080,
        spec_evex_flags(Opcode::EvexVcvttss2sisGdWss) == 0x280,
        spec_evex_flags(Opcode::EvexVcvttss2sisGqWss) == 0x280,
        spec_evex_flags(Opcode::EvexVcvttsd2sisGdWsd) == 0x280,
        spec_evex_flags(Opcode::EvexVcvttsd2sisGqWsd) == 0x280,
        spec_evex_flags(Opcode::EvexVcvttss2usisGdWss) == 0x280,
        spec_evex_flags(Opcode::EvexVcvttss2usisGqWss) == 0x280,
        spec_evex_flags(Opcode::EvexVcvttsd2usisGdWsd) == 0x280,
        spec_evex_flags(Opcode::EvexVcvttsd2usisGqWsd) == 0x280,
        spec_evex_flags(Opcode::EvexVmovwVshWsh) == 0x380,
        spec_evex_flags(Opcode::EvexVmovwWshVsh) == 0x380,
        spec_evex_flags(Opcode::EvexVmovdVdWd) == 0x380,
        spec_evex_flags(Opcode::EvexVmovdWdVd) == 0x380,
        spec_evex_flags(Opcode::EvexVcvthf82phVphWf8Kmask) == 0x380,
        spec_evex_flags(Opcode::EvexVcvtph2bf8Vf8hdqWphKmask) == 0x180,
        spec_evex_flags(Opcode::EvexVcvtph2bf8sVf8hdqWphKmask) == 0x180,
        spec_evex_flags(Opcode::EvexVcvt2ph2bf8Vf8hdqWphKmask) == 0x180,
        spec_evex_flags(Opcode::EvexVcvt2ph2bf8sVf8hdqWphKmask) == 0x180,
        spec_evex_flags(Opcode::EvexVcvtbiasph2bf8Vf8hdqWphKmask) == 0x180,
        spec_evex_flags(Opcode::EvexVcvtbiasph2bf8sVf8hdqWphKmask) == 0x180,
        spec_evex_flags(Opcode::EvexVcvtph2hf8Vf8hdqWphKmask) == 0x180,
        spec_evex_flags(Opcode::EvexVcvtph2hf8sVf8hdqWphKmask) == 0x180,
        spec_evex_flags(Opcode::EvexVcvt2ph2hf8Vf8hdqWphKmask) == 0x180,
        spec_evex_flags(Opcode::EvexVcvt2ph2hf8sVf8hdqWphKmask) == 0x180,
        spec_evex_flags(Opcode::EvexVcvtbiasph2hf8Vf8hdqWphKmask) == 0x180,
        spec_evex_flags(Opcode::EvexVcvtbiasph2hf8sVf8hdqWphKmask) == 0x180,
        spec_evex_flags(Opcode::EvexVcvtbf162ibsV8bWph) == 0x180,
        spec_evex_flags(Opcode::EvexVcvtbf162ibsV8bWphKmask) == 0x180,
        spec_evex_flags(Opcode::EvexVcvtbf162iubsV8bWph) == 0x180,
        spec_evex_flags(Opcode::EvexVcvtbf162iubsV8bWphKmask) == 0x180,
        spec_evex_flags(Opcode::EvexVcvttbf162ibsV8bWph) == 0x180,
        spec_evex_flags(Opcode::EvexVcvttbf162ibsV8bWphKmask) == 0x180,
        spec_evex_flags(Opcode::EvexVcvttbf162iubsV8bWph) == 0x180,
        spec_evex_flags(Opcode::EvexVcvttbf162iubsV8bWphKmask) == 0x180,
        spec_evex_flags(Opcode::EvexVcvtph2ibsV8bWph) == 0x080,
        spec_evex_flags(Opcode::EvexVcvtph2ibsV8bWphKmask) == 0x080,
        spec_evex_flags(Opcode::EvexVcvtph2iubsV8bWph) == 0x080,
        spec_evex_flags(Opcode::EvexVcvtph2iubsV8bWphKmask) == 0x080,
        spec_evex_flags(Opcode::EvexVcvttph2ibsV8bWph) == 0x080,
        spec_evex_flags(Opcode::EvexVcvttph2ibsV8bWphKmask) == 0x080,
        spec_evex_flags(Opcode::EvexVcvttph2iubsV8bWph) == 0x080,
        spec_evex_flags(Opcode::EvexVcvttph2iubsV8bWphKmask) == 0x080,
{
}

/// Every opcode the generated table gives EVEX attributes has exactly those attributes (entries 1300..1328 of 1328).
#[verifier::spinoff_prover]
#[verifier::rlimit(100)]
pub proof fn lemma_evex_entries_26()
    ensures
        spec_evex_flags(Opcode::EvexVcvtps2ibsV8bWps) == 0x080,
        spec_evex_flags(Opcode::EvexVcvtps2ibsV8bWpsKmask) == 0x080,
        spec_evex_flags(Opcode::EvexVcvtps2iubsV8bWps) == 0x080,
        spec_evex_flags(Opcode::EvexVcvtps2iubsV8bWpsKmask) == 0x080,
        spec_evex_flags(Opcode::EvexVcvttps2ibsV8bWps) == 0x080,
        spec_evex_flags(Opcode::EvexVcvttps2ibsV8bWpsKmask) == 0x080,
        spec_evex_flags(Opcode::EvexVcvttps2iubsV8bWps) == 0x080,
        spec_evex_flags(Opcode::EvexVcvttps2iubsV8bWpsKmask) == 0x080,
        spec_evex_flags(Opcode::EvexTilemovrowVdqTrmIb) == 0x180,
        spec_evex_flags(Opcode::EvexTilemovrowVdqTrmBd) == 0x180,
        spec_evex_flags(Opcode::EvexTcvtrowd2psVpsTrmIb) == 0x180,
        spec_evex_flags(Opcode::EvexTcvtrowd2psVpsTrmBd) == 0x180,
        spec_evex_flags(Opcode::EvexTcvtrowps2phlVphTrmIb) == 0x180,
        spec_evex_flags(Opcode::EvexTcvtrowps2phlVphTrmBd) == 0x180,
        spec_evex_flags(Opcode::EvexTcvtrowps2phhVphTrmIb) == 0x180,
        spec_evex_flags(Opcode::EvexTcvtrowps2phhVphTrmBd) == 0x180,
        spec_evex_flags(Opcode::EvexTcvtrowps2bf16lVphTrmIb) == 0x180,
        spec_evex_flags(Opcode::EvexTcvtrowps2bf16lVphTrmBd) == 0x180,
        spec_evex_flags(Opcode::EvexTcvtrowps2bf16hVphTrmIb) == 0x180,
        spec_evex_flags(Opcode::EvexTcvtrowps2bf16hVphTrmBd) == 0x180,
        spec_evex_flags(Opcode::EvexVmovrsbVdqWdq) == 0x380,
        spec_evex_flags(Opcode::EvexVmovrsbVdqWdqKmask) == 0x380,
        spec_evex_flags(Opcode::EvexVmovrswVdqWdq) == 0x380,
        spec_evex_flags(Opcode::EvexVmovrswVdqWdqKmask) == 0x380,
        spec_evex_flags(Opcode::EvexVmovrsdVdqWdq) == 0x380,
        spec_evex_flags(Opcode::EvexVmovrsdVdqWdqKmask) == 0x380,
        spec_evex_flags(Opcode::EvexVmovrsqVdqWdq) == 0x380,
        spec_evex_flags(Opcode::EvexVmovrsqVdqWdqKmask) == 0x380,
{
}

/// Every opcode the generated table gives the x87, MMX, SSE or AMX state requires exactly that state (entries 0..50 of 587).
#[verifier::spinoff_prover]
#[verifier::rlimit(100)]
pub proof fn lemma_state_entries_0()
    ensures
        spec_opcode_state(Opcode::FldSti) == CpuState::Fpu,
        spec_opcode_state(Opcode::FldSingleReal) == CpuState::Fpu,
        spec_opcode_state(Opcode::FldDoubleReal) == CpuState::Fpu,
        spec_opcode_state(Opcode::FldExtendedReal) == CpuState::Fpu,
        spec_opcode_state(Opcode::FildWordInteger) == CpuState::Fpu,
        spec_opcode_state(Opcode::FildDwordInteger) == CpuState::Fpu,
        spec_opcode_state(Opcode::FildQwordInteger) == CpuState::Fpu,
        spec_opcode_state(Opcode::FbldPackedBcd) == CpuState::Fpu,
        spec_opcode_state(Opcode::FstSti) == CpuState::Fpu,
        spec_opcode_state(Opcode::FstpSti) == CpuState::Fpu,
        spec_opcode_state(Opcode::FstpSpecialSti) == CpuState::Fpu,
        spec_opcode_state(Opcode::FstSingleReal) == CpuState::Fpu,
        spec_opcode_state(Opcode::FstpSingleReal) == CpuState::Fpu,
        spec_opcode_state(Opcode::FstDoubleReal) == CpuState::Fpu,
        spec_opcode_state(Opcode::FstpDoubleReal) == CpuState::Fpu,
        spec_opcode_state(Opcode::FstpExtendedReal) == CpuState::Fpu,
        spec_opcode_state(Opcode::FistWordInteger) == CpuState::Fpu,
        spec_opcode_state(Opcode::FistpWordInteger) == CpuState::Fpu,
        spec_opcode_state(Opcode::FistDwordInteger) == CpuState::Fpu,
        spec_opcode_state(Opcode::FistpDwordInteger) == CpuState::Fpu,
        spec_opcode_state(Opcode::FistpQwordInteger) == CpuState::Fpu,
        spec_opcode_state(Opcode::FbstpPackedBcd) == CpuState::Fpu,
        spec_opcode_state(Opcode::FisttpMw) == CpuState::Fpu,
        spec_opcode_state(Opcode::FisttpMd) == CpuState::Fpu,
        spec_opcode_state(Opcode::FisttpMq) == CpuState::Fpu,
        spec_opcode_state(Opcode::Fninit) == CpuState::Fpu,
        spec_opcode_state(Opcode::Fnclex) == CpuState::Fpu,
        spec_opcode_state(Opcode::Frstor) == CpuState::Fpu,
        spec_opcode_state(Opcode::Fnsave) == CpuState::Fpu,
        spec_opcode_state(Opcode::Fldenv) == CpuState::Fpu,
        spec_opcode_state(Opcode::Fnstenv) == CpuState::Fpu,
        spec_opcode_state(Opcode::Fldcw) == CpuState::Fpu,
        spec_opcode_state(Opcode::Fnstcw) == CpuState::Fpu,
        spec_opcode_state(Opcode::Fnstsw) == CpuState::Fpu,
        spec_opcode_state(Opcode::FnstswAx) == CpuState::Fpu,
        spec_opcode_state(Opcode::FLD1) == CpuState::Fpu,
        spec_opcode_state(Opcode::Fldl2t) == CpuState::Fpu,
        spec_opcode_state(Opcode::Fldl2e) == CpuState::Fpu,
        spec_opcode_state(Opcode::Fldpi) == CpuState::Fpu,
        spec_opcode_state(Opcode::Fldlg2) == CpuState::Fpu,
        spec_opcode_state(Opcode::Fldln2) == CpuState::Fpu,
        spec_opcode_state(Opcode::Fldz) == CpuState::Fpu,
        spec_opcode_state(Opcode::FaddSt0Stj) == CpuState::Fpu,
        spec_opcode_state(Opcode::FaddStiSt0) == CpuState::Fpu,
        spec_opcode_state(Opcode::FaddpStiSt0) == CpuState::Fpu,
        spec_opcode_state(Opcode::FaddSingleReal) == CpuState::Fpu,
        spec_opcode_state(Opcode::FaddDoubleReal) == CpuState::Fpu,
        spec_opcode_state(Opcode::FiaddWordInteger) == CpuState::Fpu,
        spec_opcode_state(Opcode::FiaddDwordInteger) == CpuState::Fpu,
        spec_opcode_state(Opcode::FmulSt0Stj) == CpuState::Fpu,
{
}

/// Every opcode the generated table gives the x87, MMX, SSE or AMX state requires exactly that state (entries 50..100 of 587).
#[verifier::spinoff_prover]
#[verifier::rlimit(100)]
pub proof fn lemma_state_entries_1()
    ensures
        spec_opcode_state(Opcode::FmulStiSt0) == CpuState::Fpu,
        spec_opcode_state(Opcode::FmulpStiSt0) == CpuState::Fpu,
        spec_opcode_state(Opcode::FmulSingleReal) == CpuState::Fpu,
        spec_opcode_state(Opcode::FmulDoubleReal) == CpuState::Fpu,
        spec_opcode_state(Opcode::FimulWordInteger) == CpuState::Fpu,
        spec_opcode_state(Opcode::FimulDwordInteger) == CpuState::Fpu,
        spec_opcode_state(Opcode::FsubSt0Stj) == CpuState::Fpu,
        spec_opcode_state(Opcode::FsubrSt0Stj) == CpuState::Fpu,
        spec_opcode_state(Opcode::FsubStiSt0) == CpuState::Fpu,
        spec_opcode_state(Opcode::FsubpStiSt0) == CpuState::Fpu,
        spec_opcode_state(Opcode::FsubrStiSt0) == CpuState::Fpu,
        spec_opcode_state(Opcode::FsubrpStiSt0) == CpuState::Fpu,
        spec_opcode_state(Opcode::FsubSingleReal) == CpuState::Fpu,
        spec_opcode_state(Opcode::FsubrSingleReal) == CpuState::Fpu,
        spec_opcode_state(Opcode::FsubDoubleReal) == CpuState::Fpu,
        spec_opcode_state(Opcode::FsubrDoubleReal) == CpuState::Fpu,
        spec_opcode_state(Opcode::FisubWordInteger) == CpuState::Fpu,
        spec_opcode_state(Opcode::FisubrWordInteger) == CpuState::Fpu,
        spec_opcode_state(Opcode::FisubDwordInteger) == CpuState::Fpu,
        spec_opcode_state(Opcode::FisubrDwordInteger) == CpuState::Fpu,
        spec_opcode_state(Opcode::FdivSt0Stj) == CpuState::Fpu,
        spec_opcode_state(Opcode::FdivrSt0Stj) == CpuState::Fpu,
        spec_opcode_state(Opcode::FdivStiSt0) == CpuState::Fpu,
        spec_opcode_state(Opcode::FdivpStiSt0) == CpuState::Fpu,
        spec_opcode_state(Opcode::FdivrStiSt0) == CpuState::Fpu,
        spec_opcode_state(Opcode::FdivrpStiSt0) == CpuState::Fpu,
        spec_opcode_state(Opcode::FdivSingleReal) == CpuState::Fpu,
        spec_opcode_state(Opcode::FdivrSingleReal) == CpuState::Fpu,
        spec_opcode_state(Opcode::FdivDoubleReal) == CpuState::Fpu,
        spec_opcode_state(Opcode::FdivrDoubleReal) == CpuState::Fpu,
        spec_opcode_state(Opcode::FidivWordInteger) == CpuState::Fpu,
        spec_opcode_state(Opcode::FidivrWordInteger) == CpuState::Fpu,
        spec_opcode_state(Opcode::FidivDwordInteger) == CpuState::Fpu,
        spec_opcode_state(Opcode::FidivrDwordInteger) == CpuState::Fpu,
        spec_opcode_state(Opcode::FcomSti) == CpuState::Fpu,
        spec_opcode_state(Opcode::FcompSti) == CpuState::Fpu,
        spec_opcode_state(Opcode::FucomSti) == CpuState::Fpu,
        spec_opcode_state(Opcode::FucompSti) == CpuState::Fpu,
        spec_opcode_state(Opcode::FcomiSt0Stj) == CpuState::Fpu,
        spec_opcode_state(Opcode::FcomipSt0Stj) == CpuState::Fpu,
        spec_opcode_state(Opcode::FucomiSt0Stj) == CpuState::Fpu,
        spec_opcode_state(Opcode::FucomipSt0Stj) == CpuState::Fpu,
        spec_opcode_state(Opcode::FcomSingleReal) == CpuState::Fpu,
        spec_opcode_state(Opcode::FcompSingleReal) == CpuState::Fpu,
        spec_opcode_state(Opcode::FcomDoubleReal) == CpuState::Fpu,
        spec_opcode_state(Opcode::FcompDoubleReal) == CpuState::Fpu,
        spec_opcode_state(Opcode::FicomWordInteger) == CpuState::Fpu,
        spec_opcode_state(Opcode::FicompWordInteger) == CpuState::Fpu,
        spec_opcode_state(Opcode::FicomDwordInteger) == CpuState::Fpu,
        spec_opcode_state(Opcode::FicompDwordInteger) == CpuState::Fpu,
{
}

/// Every opcode the generated table gives the x87, MMX, SSE or AMX state requires exactly that state (entries 100..150 of 587).
#[verifier::spinoff_prover]
#[verifier::rlimit(100)]
pub proof fn lemma_state_entries_2()
    ensures
        spec_opcode_state(Opcode::FcmovbSt0Stj) == CpuState::Fpu,
        spec_opcode_state(Opcode::FcmoveSt0Stj) == CpuState::Fpu,
        spec_opcode_state(Opcode::FcmovbeSt0Stj) == CpuState::Fpu,
        spec_opcode_state(Opcode::FcmovuSt0Stj) == CpuState::Fpu,
        spec_opcode_state(Opcode::FcmovnbSt0Stj) == CpuState::Fpu,
        spec_opcode_state(Opcode::FcmovneSt0Stj) == CpuState::Fpu,
        spec_opcode_state(Opcode::FcmovnbeSt0Stj) == CpuState::Fpu,
        spec_opcode_state(Opcode::FcmovnuSt0Stj) == CpuState::Fpu,
        spec_opcode_state(Opcode::Fcompp) == CpuState::Fpu,
        spec_opcode_state(Opcode::Fucompp) == CpuState::Fpu,
        spec_opcode_state(Opcode::FxchSti) == CpuState::Fpu,
        spec_opcode_state(Opcode::Fnop) == CpuState::Fpu,
        spec_opcode_state(Opcode::Fplegacy) == CpuState::Fpu,
        spec_opcode_state(Opcode::Fchs) == CpuState::Fpu,
        spec_opcode_state(Opcode::Fabs) == CpuState::Fpu,
        spec_opcode_state(Opcode::Ftst) == CpuState::Fpu,
        spec_opcode_state(Opcode::Fxam) == CpuState::Fpu,
        spec_opcode_state(Opcode::Fdecstp) == CpuState::Fpu,
        spec_opcode_state(Opcode::Fincstp) == CpuState::Fpu,
        spec_opcode_state(Opcode::FfreeSti) == CpuState::Fpu,
        spec_opcode_state(Opcode::FfreepSti) == CpuState::Fpu,
        spec_opcode_state(Opcode::F2XM1) == CpuState::Fpu,
        spec_opcode_state(Opcode::FYL2X) == CpuState::Fpu,
        spec_opcode_state(Opcode::Fptan) == CpuState::Fpu,
        spec_opcode_state(Opcode::Fpatan) == CpuState::Fpu,
        spec_opcode_state(Opcode::Fxtract) == CpuState::Fpu,
        spec_opcode_state(Opcode::FPREM1) == CpuState::Fpu,
        spec_opcode_state(Opcode::Fprem) == CpuState::Fpu,
        spec_opcode_state(Opcode::FYL2XP1) == CpuState::Fpu,
        spec_opcode_state(Opcode::Fsqrt) == CpuState::Fpu,
        spec_opcode_state(Opcode::Fsincos) == CpuState::Fpu,
        spec_opcode_state(Opcode::Frndint) == CpuState::Fpu,
        spec_opcode_state(Opcode::Fscale) == CpuState::Fpu,
        spec_opcode_state(Opcode::Fsin) == CpuState::Fpu,
        spec_opcode_state(Opcode::Fcos) == CpuState::Fpu,
        spec_opcode_state(Opcode::Fpuesc) == CpuState::Fpu,
        spec_opcode_state(Opcode::PunpcklbwPqQd) == CpuState::Mmx,
        spec_opcode_state(Opcode::PunpcklwdPqQd) == CpuState::Mmx,
        spec_opcode_state(Opcode::PunpckldqPqQd) == CpuState::Mmx,
        spec_opcode_state(Opcode::PacksswbPqQq) == CpuState::Mmx,
        spec_opcode_state(Opcode::PcmpgtbPqQq) == CpuState::Mmx,
        spec_opcode_state(Opcode::PcmpgtwPqQq) == CpuState::Mmx,
        spec_opcode_state(Opcode::PcmpgtdPqQq) == CpuState::Mmx,
        spec_opcode_state(Opcode::PackuswbPqQq) == CpuState::Mmx,
        spec_opcode_state(Opcode::PunpckhbwPqQq) == CpuState::Mmx,
        spec_opcode_state(Opcode::PunpckhwdPqQq) == CpuState::Mmx,
        spec_opcode_state(Opcode::PunpckhdqPqQq) == CpuState::Mmx,
        spec_opcode_state(Opcode::PackssdwPqQq) == CpuState::Mmx,
        spec_opcode_state(Opcode::MovdPqEd) == CpuState::Mmx,
        spec_opcode_state(Opcode::MovqPqQq) == CpuState::Mmx,
{
}

/// Every opcode the generated table gives the x87, MMX, SSE or AMX state requires exactly that state (entries 150..200 of 587).
#[verifier::spinoff_prover]
#[verifier::rlimit(100)]
pub proof fn lemma_state_entries_3()
    ensures
        spec_opcode_state(Opcode::PcmpeqbPqQq) == CpuState::Mmx,
        spec_opcode_state(Opcode::PcmpeqwPqQq) == CpuState::Mmx,
        spec_opcode_state(Opcode::PcmpeqdPqQq) == CpuState::Mmx,
        spec_opcode_state(Opcode::Emms) == CpuState::Mmx,
        spec_opcode_state(Opcode::MovdEdPq) == CpuState::Mmx,
        spec_opcode_state(Opcode::MovqQqPq) == CpuState::Mmx,
        spec_opcode_state(Opcode::PsrlwPqQq) == CpuState::Mmx,
        spec_opcode_state(Opcode::PsrldPqQq) == CpuState::Mmx,
        spec_opcode_state(Opcode::PsrlqPqQq) == CpuState::Mmx,
        spec_opcode_state(Opcode::PmullwPqQq) == CpuState::Mmx,
        spec_opcode_state(Opcode::PsubusbPqQq) == CpuState::Mmx,
        spec_opcode_state(Opcode::PsubuswPqQq) == CpuState::Mmx,
        spec_opcode_state(Opcode::PandPqQq) == CpuState::Mmx,
        spec_opcode_state(Opcode::PaddusbPqQq) == CpuState::Mmx,
        spec_opcode_state(Opcode::PadduswPqQq) == CpuState::Mmx,
        spec_opcode_state(Opcode::PandnPqQq) == CpuState::Mmx,
        spec_opcode_state(Opcode::PsrawPqQq) == CpuState::Mmx,
        spec_opcode_state(Opcode::PsradPqQq) == CpuState::Mmx,
        spec_opcode_state(Opcode::PmulhwPqQq) == CpuState::Mmx,
        spec_opcode_state(Opcode::PsubsbPqQq) == CpuState::Mmx,
        spec_opcode_state(Opcode::PsubswPqQq) == CpuState::Mmx,
        spec_opcode_state(Opcode::PorPqQq) == CpuState::Mmx,
        spec_opcode_state(Opcode::PaddsbPqQq) == CpuState::Mmx,
        spec_opcode_state(Opcode::PaddswPqQq) == CpuState::Mmx,
        spec_opcode_state(Opcode::PxorPqQq) == CpuState::Mmx,
        spec_opcode_state(Opcode::PsllwPqQq) == CpuState::Mmx,
        spec_opcode_state(Opcode::PslldPqQq) == CpuState::Mmx,
        spec_opcode_state(Opcode::PsllqPqQq) == CpuState::Mmx,
        spec_opcode_state(Opcode::PmaddwdPqQq) == CpuState::Mmx,
        spec_opcode_state(Opcode::PsubbPqQq) == CpuState::Mmx,
        spec_opcode_state(Opcode::PsubwPqQq) == CpuState::Mmx,
        spec_opcode_state(Opcode::PsubdPqQq) == CpuState::Mmx,
        spec_opcode_state(Opcode::PaddbPqQq) == CpuState::Mmx,
        spec_opcode_state(Opcode::PaddwPqQq) == CpuState::Mmx,
        spec_opcode_state(Opcode::PadddPqQq) == CpuState::Mmx,
        spec_opcode_state(Opcode::PsrlwNqIb) == CpuState::Mmx,
        spec_opcode_state(Opcode::PsrawNqIb) == CpuState::Mmx,
        spec_opcode_state(Opcode::PsllwNqIb) == CpuState::Mmx,
        spec_opcode_state(Opcode::PsrldNqIb) == CpuState::Mmx,
        spec_opcode_state(Opcode::PsradNqIb) == CpuState::Mmx,
        spec_opcode_state(Opcode::PslldNqIb) == CpuState::Mmx,
        spec_opcode_state(Opcode::PsrlqNqIb) == CpuState::Mmx,
        spec_opcode_state(Opcode::PsllqNqIb) == CpuState::Mmx,
        spec_opcode_state(Opcode::MovqEqPq) == CpuState::Mmx,
        spec_opcode_state(Opcode::Femms) == CpuState::Mmx,
        spec_opcode_state(Opcode::Pf2idPqQq) == CpuState::Mmx,
        spec_opcode_state(Opcode::Pf2iwPqQq) == CpuState::Mmx,
        spec_opcode_state(Opcode::PfaccPqQq) == CpuState::Mmx,
        spec_opcode_state(Opcode::PfaddPqQq) == CpuState::Mmx,
        spec_opcode_state(Opcode::PfcmpeqPqQq) == CpuState::Mmx,
{
}

/// Every opcode the generated table gives the x87, MMX, SSE or AMX state requires exactly that state (entries 200..250 of 587).
#[verifier::spinoff_prover]
#[verifier::rlimit(100)]
pub proof fn lemma_state_entries_4()
    ensures
        spec_opcode_state(Opcode::PfcmpgePqQq) == CpuState::Mmx,
        spec_opcode_state(Opcode::PfcmpgtPqQq) == CpuState::Mmx,
        spec_opcode_state(Opcode::PfmaxPqQq) == CpuState::Mmx,
        spec_opcode_state(Opcode::PfminPqQq) == CpuState::Mmx,
        spec_opcode_state(Opcode::PfmulPqQq) == CpuState::Mmx,
        spec_opcode_state(Opcode::PfnaccPqQq) == CpuState::Mmx,
        spec_opcode_state(Opcode::PfpnaccPqQq) == CpuState::Mmx,
        spec_opcode_state(Opcode::PfrcpPqQq) == CpuState::Mmx,
        spec_opcode_state(Opcode::Pfrcpit1PqQq) == CpuState::Mmx,
        spec_opcode_state(Opcode::Pfrcpit2PqQq) == CpuState::Mmx,
        spec_opcode_state(Opcode::Pfrsqit1PqQq) == CpuState::Mmx,
        spec_opcode_state(Opcode::PfrsqrtPqQq) == CpuState::Mmx,
        spec_opcode_state(Opcode::PfsubPqQq) == CpuState::Mmx,
        spec_opcode_state(Opcode::PfsubrPqQq) == CpuState::Mmx,
        spec_opcode_state(Opcode::Pi2fdPqQq) == CpuState::Mmx,
        spec_opcode_state(Opcode::Pi2fwPqQq) == CpuState::Mmx,
        spec_opcode_state(Opcode::PmulhrwPqQq) == CpuState::Mmx,
        spec_opcode_state(Opcode::PswapdPqQq) == CpuState::Mmx,
        spec_opcode_state(Opcode::Ldmxcsr) == CpuState::Sse,
        spec_opcode_state(Opcode::Stmxcsr) == CpuState::Sse,
        spec_opcode_state(Opcode::AndpsVpsWps) == CpuState::Sse,
        spec_opcode_state(Opcode::OrpsVpsWps) == CpuState::Sse,
        spec_opcode_state(Opcode::XorpsVpsWps) == CpuState::Sse,
        spec_opcode_state(Opcode::AndnpsVpsWps) == CpuState::Sse,
        spec_opcode_state(Opcode::MovupsVpsWps) == CpuState::Sse,
        spec_opcode_state(Opcode::MovupsWpsVps) == CpuState::Sse,
        spec_opcode_state(Opcode::MovssVssWss) == CpuState::Sse,
        spec_opcode_state(Opcode::MovssWssVss) == CpuState::Sse,
        spec_opcode_state(Opcode::MovlpsVpsMq) == CpuState::Sse,
        spec_opcode_state(Opcode::MovhlpsVpsWps) == CpuState::Sse,
        spec_opcode_state(Opcode::MovlpsMqVps) == CpuState::Sse,
        spec_opcode_state(Opcode::MovhpsVpsMq) == CpuState::Sse,
        spec_opcode_state(Opcode::MovlhpsVpsWps) == CpuState::Sse,
        spec_opcode_state(Opcode::MovhpsMqVps) == CpuState::Sse,
        spec_opcode_state(Opcode::MovapsVpsWps) == CpuState::Sse,
        spec_opcode_state(Opcode::MovapsWpsVps) == CpuState::Sse,
        spec_opcode_state(Opcode::MovntpsMpsVps) == CpuState::Sse,
        spec_opcode_state(Opcode::Cvtpi2psVpsQq) == CpuState::Sse,
        spec_opcode_state(Opcode::Cvtsi2ssVssEd) == CpuState::Sse,
        spec_opcode_state(Opcode::Cvttps2piPqWps) == CpuState::Sse,
        spec_opcode_state(Opcode::Cvtps2piPqWps) == CpuState::Sse,
        spec_opcode_state(Opcode::Cvttss2siGdWss) == CpuState::Sse,
        spec_opcode_state(Opcode::Cvtss2siGdWss) == CpuState::Sse,
        spec_opcode_state(Opcode::UcomissVssWss) == CpuState::Sse,
        spec_opcode_state(Opcode::ComissVssWss) == CpuState::Sse,
        spec_opcode_state(Opcode::MovmskpsGdUps) == CpuState::Sse,
        spec_opcode_state(Opcode::MovmskpdGdUpd) == CpuState::Sse,
        spec_opcode_state(Opcode::RsqrtpsVpsWps) == CpuState::Sse,
        spec_opcode_state(Opcode::RsqrtssVssWss) == CpuState::Sse,
        spec_opcode_state(Opcode::RcppsVpsWps) == CpuState::Sse,
{
}

/// Every opcode the generated table gives the x87, MMX, SSE or AMX state requires exactly that state (entries 250..300 of 587).
#[verifier::spinoff_prover]
#[verifier::rlimit(100)]
pub proof fn lemma_state_entries_5()
    ensures
        spec_opcode_state(Opcode::RcpssVssWss) == CpuState::Sse,
        spec_opcode_state(Opcode::PshufwPqQqIb) == CpuState::Mmx,
        spec_opcode_state(Opcode::PshuflwVdqWdqIb) == CpuState::Sse,
        spec_opcode_state(Opcode::PinsrwPqEwIb) == CpuState::Mmx,
        spec_opcode_state(Opcode::PextrwGdNqIb) == CpuState::Mmx,
        spec_opcode_state(Opcode::ShufpsVpsWpsIb) == CpuState::Sse,
        spec_opcode_state(Opcode::PmovmskbGdNq) == CpuState::Mmx,
        spec_opcode_state(Opcode::PminubPqQq) == CpuState::Mmx,
        spec_opcode_state(Opcode::PmaxubPqQq) == CpuState::Mmx,
        spec_opcode_state(Opcode::PavgbPqQq) == CpuState::Mmx,
        spec_opcode_state(Opcode::PavgwPqQq) == CpuState::Mmx,
        spec_opcode_state(Opcode::PmulhuwPqQq) == CpuState::Mmx,
        spec_opcode_state(Opcode::MovntqMqPq) == CpuState::Mmx,
        spec_opcode_state(Opcode::PminswPqQq) == CpuState::Mmx,
        spec_opcode_state(Opcode::PmaxswPqQq) == CpuState::Mmx,
        spec_opcode_state(Opcode::PsadbwPqQq) == CpuState::Mmx,
        spec_opcode_state(Opcode::MaskmovqPqNq) == CpuState::Mmx,
        spec_opcode_state(Opcode::AddpsVpsWps) == CpuState::Sse,
        spec_opcode_state(Opcode::AddpdVpdWpd) == CpuState::Sse,
        spec_opcode_state(Opcode::AddssVssWss) == CpuState::Sse,
        spec_opcode_state(Opcode::AddsdVsdWsd) == CpuState::Sse,
        spec_opcode_state(Opcode::MulpsVpsWps) == CpuState::Sse,
        spec_opcode_state(Opcode::MulpdVpdWpd) == CpuState::Sse,
        spec_opcode_state(Opcode::MulssVssWss) == CpuState::Sse,
        spec_opcode_state(Opcode::MulsdVsdWsd) == CpuState::Sse,
        spec_opcode_state(Opcode::SubpsVpsWps) == CpuState::Sse,
        spec_opcode_state(Opcode::SubpdVpdWpd) == CpuState::Sse,
        spec_opcode_state(Opcode::SubssVssWss) == CpuState::Sse,
        spec_opcode_state(Opcode::SubsdVsdWsd) == CpuState::Sse,
        spec_opcode_state(Opcode::MinpsVpsWps) == CpuState::Sse,
        spec_opcode_state(Opcode::MinpdVpdWpd) == CpuState::Sse,
        spec_opcode_state(Opcode::MinssVssWss) == CpuState::Sse,
        spec_opcode_state(Opcode::MinsdVsdWsd) == CpuState::Sse,
        spec_opcode_state(Opcode::DivpsVpsWps) == CpuState::Sse,
        spec_opcode_state(Opcode::DivpdVpdWpd) == CpuState::Sse,
        spec_opcode_state(Opcode::DivssVssWss) == CpuState::Sse,
        spec_opcode_state(Opcode::DivsdVsdWsd) == CpuState::Sse,
        spec_opcode_state(Opcode::MaxpsVpsWps) == CpuState::Sse,
        spec_opcode_state(Opcode::MaxpdVpdWpd) == CpuState::Sse,
        spec_opcode_state(Opcode::MaxssVssWss) == CpuState::Sse,
        spec_opcode_state(Opcode::MaxsdVsdWsd) == CpuState::Sse,
        spec_opcode_state(Opcode::SqrtpsVpsWps) == CpuState::Sse,
        spec_opcode_state(Opcode::SqrtpdVpdWpd) == CpuState::Sse,
        spec_opcode_state(Opcode::SqrtssVssWss) == CpuState::Sse,
        spec_opcode_state(Opcode::SqrtsdVsdWsd) == CpuState::Sse,
        spec_opcode_state(Opcode::CmppsVpsWpsIb) == CpuState::Sse,
        spec_opcode_state(Opcode::CmppdVpdWpdIb) == CpuState::Sse,
        spec_opcode_state(Opcode::CmpssVssWssIb) == CpuState::Sse,
        spec_opcode_state(Opcode::CmpsdVsdWsdIb) == CpuState::Sse,
        spec_opcode_state(Opcode::Cvtps2pdVpdWps) == CpuState::Sse,
{
}

/// Every opcode the generated table gives the x87, MMX, SSE or AMX state requires exactly that state (entries 300..350 of 587).
#[verifier::spinoff_prover]
#[verifier::rlimit(100)]
pub proof fn lemma_state_entries_6()
    ensures
        spec_opcode_state(Opcode::Cvtpd2psVpsWpd) == CpuState::Sse,
        spec_opcode_state(Opcode::Cvtss2sdVsdWss) == CpuState::Sse,
        spec_opcode_state(Opcode::Cvtsd2ssVssWsd) == CpuState::Sse,
        spec_opcode_state(Opcode::MovsdVsdWsd) == CpuState::Sse,
        spec_opcode_state(Opcode::MovsdWsdVsd) == CpuState::Sse,
        spec_opcode_state(Opcode::Cvtpi2pdVpdQq) == CpuState::Sse,
        spec_opcode_state(Opcode::Cvtsi2sdVsdEd) == CpuState::Sse,
        spec_opcode_state(Opcode::Cvttpd2piPqWpd) == CpuState::Sse,
        spec_opcode_state(Opcode::Cvttsd2siGdWsd) == CpuState::Sse,
        spec_opcode_state(Opcode::Cvtpd2piPqWpd) == CpuState::Sse,
        spec_opcode_state(Opcode::Cvtsd2siGdWsd) == CpuState::Sse,
        spec_opcode_state(Opcode::UcomisdVsdWsd) == CpuState::Sse,
        spec_opcode_state(Opcode::ComisdVsdWsd) == CpuState::Sse,
        spec_opcode_state(Opcode::Cvtdq2psVpsWdq) == CpuState::Sse,
        spec_opcode_state(Opcode::Cvtps2dqVdqWps) == CpuState::Sse,
        spec_opcode_state(Opcode::Cvttps2dqVdqWps) == CpuState::Sse,
        spec_opcode_state(Opcode::UnpckhpdVpdWdq) == CpuState::Sse,
        spec_opcode_state(Opcode::UnpcklpdVpdWdq) == CpuState::Sse,
        spec_opcode_state(Opcode::PunpckhdqVdqWdq) == CpuState::Sse,
        spec_opcode_state(Opcode::PunpckldqVdqWdq) == CpuState::Sse,
        spec_opcode_state(Opcode::MovapdVpdWpd) == CpuState::Sse,
        spec_opcode_state(Opcode::MovapdWpdVpd) == CpuState::Sse,
        spec_opcode_state(Opcode::MovdqaVdqWdq) == CpuState::Sse,
        spec_opcode_state(Opcode::MovdqaWdqVdq) == CpuState::Sse,
        spec_opcode_state(Opcode::MovdquVdqWdq) == CpuState::Sse,
        spec_opcode_state(Opcode::MovdquWdqVdq) == CpuState::Sse,
        spec_opcode_state(Opcode::MovhpdMqVsd) == CpuState::Sse,
        spec_opcode_state(Opcode::MovhpdVsdMq) == CpuState::Sse,
        spec_opcode_state(Opcode::MovlpdMqVsd) == CpuState::Sse,
        spec_opcode_state(Opcode::MovlpdVsdMq) == CpuState::Sse,
        spec_opcode_state(Opcode::MovntdqMdqVdq) == CpuState::Sse,
        spec_opcode_state(Opcode::MovntpdMpdVpd) == CpuState::Sse,
        spec_opcode_state(Opcode::MovupdVpdWpd) == CpuState::Sse,
        spec_opcode_state(Opcode::MovupdWpdVpd) == CpuState::Sse,
        spec_opcode_state(Opcode::AndnpdVpdWpd) == CpuState::Sse,
        spec_opcode_state(Opcode::AndpdVpdWpd) == CpuState::Sse,
        spec_opcode_state(Opcode::OrpdVpdWpd) == CpuState::Sse,
        spec_opcode_state(Opcode::XorpdVpdWpd) == CpuState::Sse,
        spec_opcode_state(Opcode::PandVdqWdq) == CpuState::Sse,
        spec_opcode_state(Opcode::PandnVdqWdq) == CpuState::Sse,
        spec_opcode_state(Opcode::PorVdqWdq) == CpuState::Sse,
        spec_opcode_state(Opcode::PxorVdqWdq) == CpuState::Sse,
        spec_opcode_state(Opcode::PunpcklbwVdqWdq) == CpuState::Sse,
        spec_opcode_state(Opcode::PunpcklwdVdqWdq) == CpuState::Sse,
        spec_opcode_state(Opcode::UnpcklpsVpsWdq) == CpuState::Sse,
        spec_opcode_state(Opcode::UnpckhpsVpsWdq) == CpuState::Sse,
        spec_opcode_state(Opcode::PackuswbVdqWdq) == CpuState::Sse,
        spec_opcode_state(Opcode::PacksswbVdqWdq) == CpuState::Sse,
        spec_opcode_state(Opcode::PcmpgtbVdqWdq) == CpuState::Sse,
        spec_opcode_state(Opcode::PcmpgtwVdqWdq) == CpuState::Sse,
{
}

/// Every opcode the generated table gives the x87, MMX, SSE or AMX state requires exactly that state (entries 350..400 of 587).
#[verifier::spinoff_prover]
#[verifier::rlimit(100)]
pub proof fn lemma_state_entries_7()
    ensures
        spec_opcode_state(Opcode::PcmpgtdVdqWdq) == CpuState::Sse,
        spec_opcode_state(Opcode::PunpckhbwVdqWdq) == CpuState::Sse,
        spec_opcode_state(Opcode::PunpckhwdVdqWdq) == CpuState::Sse,
        spec_opcode_state(Opcode::PackssdwVdqWdq) == CpuState::Sse,
        spec_opcode_state(Opcode::PunpcklqdqVdqWdq) == CpuState::Sse,
        spec_opcode_state(Opcode::PunpckhqdqVdqWdq) == CpuState::Sse,
        spec_opcode_state(Opcode::MovdVdqEd) == CpuState::Sse,
        spec_opcode_state(Opcode::PshufdVdqWdqIb) == CpuState::Sse,
        spec_opcode_state(Opcode::PshufhwVdqWdqIb) == CpuState::Sse,
        spec_opcode_state(Opcode::PcmpeqbVdqWdq) == CpuState::Sse,
        spec_opcode_state(Opcode::PcmpeqwVdqWdq) == CpuState::Sse,
        spec_opcode_state(Opcode::PcmpeqdVdqWdq) == CpuState::Sse,
        spec_opcode_state(Opcode::MovdEdVd) == CpuState::Sse,
        spec_opcode_state(Opcode::MovqVqWq) == CpuState::Sse,
        spec_opcode_state(Opcode::PinsrwVdqEwIb) == CpuState::Sse,
        spec_opcode_state(Opcode::PextrwGdUdqIb) == CpuState::Sse,
        spec_opcode_state(Opcode::ShufpdVpdWpdIb) == CpuState::Sse,
        spec_opcode_state(Opcode::PsrlwVdqWdq) == CpuState::Sse,
        spec_opcode_state(Opcode::PsrldVdqWdq) == CpuState::Sse,
        spec_opcode_state(Opcode::PsrlqVdqWdq) == CpuState::Sse,
        spec_opcode_state(Opcode::PaddqPqQq) == CpuState::Mmx,
        spec_opcode_state(Opcode::PsubqPqQq) == CpuState::Mmx,
        spec_opcode_state(Opcode::PaddqVdqWdq) == CpuState::Sse,
        spec_opcode_state(Opcode::PmullwVdqWdq) == CpuState::Sse,
        spec_opcode_state(Opcode::MovqWqVq) == CpuState::Sse,
        spec_opcode_state(Opcode::Movdq2qPqUdq) == CpuState::Sse,
        spec_opcode_state(Opcode::Movq2dqVdqQq) == CpuState::Sse,
        spec_opcode_state(Opcode::PmovmskbGdUdq) == CpuState::Sse,
        spec_opcode_state(Opcode::PsubusbVdqWdq) == CpuState::Sse,
        spec_opcode_state(Opcode::PsubuswVdqWdq) == CpuState::Sse,
        spec_opcode_state(Opcode::PminubVdqWdq) == CpuState::Sse,
        spec_opcode_state(Opcode::PaddusbVdqWdq) == CpuState::Sse,
        spec_opcode_state(Opcode::PadduswVdqWdq) == CpuState::Sse,
        spec_opcode_state(Opcode::PmaxubVdqWdq) == CpuState::Sse,
        spec_opcode_state(Opcode::PavgbVdqWdq) == CpuState::Sse,
        spec_opcode_state(Opcode::PsrawVdqWdq) == CpuState::Sse,
        spec_opcode_state(Opcode::PsradVdqWdq) == CpuState::Sse,
        spec_opcode_state(Opcode::PavgwVdqWdq) == CpuState::Sse,
        spec_opcode_state(Opcode::PmulhuwVdqWdq) == CpuState::Sse,
        spec_opcode_state(Opcode::PmulhwVdqWdq) == CpuState::Sse,
        spec_opcode_state(Opcode::Cvttpd2dqVqWpd) == CpuState::Sse,
        spec_opcode_state(Opcode::Cvtpd2dqVqWpd) == CpuState::Sse,
        spec_opcode_state(Opcode::Cvtdq2pdVpdWq) == CpuState::Sse,
        spec_opcode_state(Opcode::PsubsbVdqWdq) == CpuState::Sse,
        spec_opcode_state(Opcode::PsubswVdqWdq) == CpuState::Sse,
        spec_opcode_state(Opcode::PminswVdqWdq) == CpuState::Sse,
        spec_opcode_state(Opcode::PmaxswVdqWdq) == CpuState::Sse,
        spec_opcode_state(Opcode::PaddsbVdqWdq) == CpuState::Sse,
        spec_opcode_state(Opcode::PaddswVdqWdq) == CpuState::Sse,
        spec_opcode_state(Opcode::PsllwVdqWdq) == CpuState::Sse,
{
}

/// Every opcode the generated table gives the x87, MMX, SSE or AMX state requires exactly that state (entries 400..450 of 587).
#[verifier::spinoff_prover]
#[verifier::rlimit(100)]
pub proof fn lemma_state_entries_8()
    ensures
        spec_opcode_state(Opcode::PslldVdqWdq) == CpuState::Sse,
        spec_opcode_state(Opcode::PsllqVdqWdq) == CpuState::Sse,
        spec_opcode_state(Opcode::PmuludqPqQq) == CpuState::Mmx,
        spec_opcode_state(Opcode::PmuludqVdqWdq) == CpuState::Sse,
        spec_opcode_state(Opcode::PmaddwdVdqWdq) == CpuState::Sse,
        spec_opcode_state(Opcode::PsadbwVdqWdq) == CpuState::Sse,
        spec_opcode_state(Opcode::MaskmovdquVdqUdq) == CpuState::Sse,
        spec_opcode_state(Opcode::PsubbVdqWdq) == CpuState::Sse,
        spec_opcode_state(Opcode::PsubwVdqWdq) == CpuState::Sse,
        spec_opcode_state(Opcode::PsubdVdqWdq) == CpuState::Sse,
        spec_opcode_state(Opcode::PsubqVdqWdq) == CpuState::Sse,
        spec_opcode_state(Opcode::PaddbVdqWdq) == CpuState::Sse,
        spec_opcode_state(Opcode::PaddwVdqWdq) == CpuState::Sse,
        spec_opcode_state(Opcode::PadddVdqWdq) == CpuState::Sse,
        spec_opcode_state(Opcode::PsrlwUdqIb) == CpuState::Sse,
        spec_opcode_state(Opcode::PsrawUdqIb) == CpuState::Sse,
        spec_opcode_state(Opcode::PsllwUdqIb) == CpuState::Sse,
        spec_opcode_state(Opcode::PsrldUdqIb) == CpuState::Sse,
        spec_opcode_state(Opcode::PsradUdqIb) == CpuState::Sse,
        spec_opcode_state(Opcode::PslldUdqIb) == CpuState::Sse,
        spec_opcode_state(Opcode::PsrlqUdqIb) == CpuState::Sse,
        spec_opcode_state(Opcode::PsllqUdqIb) == CpuState::Sse,
        spec_opcode_state(Opcode::PsrldqUdqIb) == CpuState::Sse,
        spec_opcode_state(Opcode::PslldqUdqIb) == CpuState::Sse,
        spec_opcode_state(Opcode::MovddupVpdWq) == CpuState::Sse,
        spec_opcode_state(Opcode::MovsldupVpsWps) == CpuState::Sse,
        spec_opcode_state(Opcode::MovshdupVpsWps) == CpuState::Sse,
        spec_opcode_state(Opcode::HaddpdVpdWpd) == CpuState::Sse,
        spec_opcode_state(Opcode::HaddpsVpsWps) == CpuState::Sse,
        spec_opcode_state(Opcode::HsubpdVpdWpd) == CpuState::Sse,
        spec_opcode_state(Opcode::HsubpsVpsWps) == CpuState::Sse,
        spec_opcode_state(Opcode::AddsubpdVpdWpd) == CpuState::Sse,
        spec_opcode_state(Opcode::AddsubpsVpsWps) == CpuState::Sse,
        spec_opcode_state(Opcode::LddquVdqMdq) == CpuState::Sse,
        spec_opcode_state(Opcode::PshufbPqQq) == CpuState::Mmx,
        spec_opcode_state(Opcode::PhaddwPqQq) == CpuState::Mmx,
        spec_opcode_state(Opcode::PhadddPqQq) == CpuState::Mmx,
        spec_opcode_state(Opcode::PhaddswPqQq) == CpuState::Mmx,
        spec_opcode_state(Opcode::PmaddubswPqQq) == CpuState::Mmx,
        spec_opcode_state(Opcode::PhsubswPqQq) == CpuState::Mmx,
        spec_opcode_state(Opcode::PhsubwPqQq) == CpuState::Mmx,
        spec_opcode_state(Opcode::PhsubdPqQq) == CpuState::Mmx,
        spec_opcode_state(Opcode::PsignbPqQq) == CpuState::Mmx,
        spec_opcode_state(Opcode::PsignwPqQq) == CpuState::Mmx,
        spec_opcode_state(Opcode::PsigndPqQq) == CpuState::Mmx,
        spec_opcode_state(Opcode::PmulhrswPqQq) == CpuState::Mmx,
        spec_opcode_state(Opcode::PabsbPqQq) == CpuState::Mmx,
        spec_opcode_state(Opcode::PabswPqQq) == CpuState::Mmx,
        spec_opcode_state(Opcode::PabsdPqQq) == CpuState::Mmx,
        spec_opcode_state(Opcode::PalignrPqQqIb) == CpuState::Mmx,
{
}

/// Every opcode the generated table gives the x87, MMX, SSE or AMX state requires exactly that state (entries 450..500 of 587).
#[verifier::spinoff_prover]
#[verifier::rlimit(100)]
pub proof fn lemma_state_entries_9()
    ensures
        spec_opcode_state(Opcode::PshufbVdqWdq) == CpuState::Sse,
        spec_opcode_state(Opcode::PhaddwVdqWdq) == CpuState::Sse,
        spec_opcode_state(Opcode::PhadddVdqWdq) == CpuState::Sse,
        spec_opcode_state(Opcode::PhaddswVdqWdq) == CpuState::Sse,
        spec_opcode_state(Opcode::PmaddubswVdqWdq) == CpuState::Sse,
        spec_opcode_state(Opcode::PhsubswVdqWdq) == CpuState::Sse,
        spec_opcode_state(Opcode::PhsubwVdqWdq) == CpuState::Sse,
        spec_opcode_state(Opcode::PhsubdVdqWdq) == CpuState::Sse,
        spec_opcode_state(Opcode::PsignbVdqWdq) == CpuState::Sse,
        spec_opcode_state(Opcode::PsignwVdqWdq) == CpuState::Sse,
        spec_opcode_state(Opcode::PsigndVdqWdq) == CpuState::Sse,
        spec_opcode_state(Opcode::PmulhrswVdqWdq) == CpuState::Sse,
        spec_opcode_state(Opcode::PabsbVdqWdq) == CpuState::Sse,
        spec_opcode_state(Opcode::PabswVdqWdq) == CpuState::Sse,
        spec_opcode_state(Opcode::PabsdVdqWdq) == CpuState::Sse,
        spec_opcode_state(Opcode::PalignrVdqWdqIb) == CpuState::Sse,
        spec_opcode_state(Opcode::PblendvbVdqWdq) == CpuState::Sse,
        spec_opcode_state(Opcode::BlendvpsVpsWps) == CpuState::Sse,
        spec_opcode_state(Opcode::BlendvpdVpdWpd) == CpuState::Sse,
        spec_opcode_state(Opcode::PmovsxbwVdqWq) == CpuState::Sse,
        spec_opcode_state(Opcode::PmovsxbdVdqWd) == CpuState::Sse,
        spec_opcode_state(Opcode::PmovsxbqVdqWw) == CpuState::Sse,
        spec_opcode_state(Opcode::PmovsxwdVdqWq) == CpuState::Sse,
        spec_opcode_state(Opcode::PmovsxwqVdqWd) == CpuState::Sse,
        spec_opcode_state(Opcode::PmovsxdqVdqWq) == CpuState::Sse,
        spec_opcode_state(Opcode::PmovzxbwVdqWq) == CpuState::Sse,
        spec_opcode_state(Opcode::PmovzxbdVdqWd) == CpuState::Sse,
        spec_opcode_state(Opcode::PmovzxbqVdqWw) == CpuState::Sse,
        spec_opcode_state(Opcode::PmovzxwdVdqWq) == CpuState::Sse,
        spec_opcode_state(Opcode::PmovzxwqVdqWd) == CpuState::Sse,
        spec_opcode_state(Opcode::PmovzxdqVdqWq) == CpuState::Sse,
        spec_opcode_state(Opcode::PtestVdqWdq) == CpuState::Sse,
        spec_opcode_state(Opcode::PmuldqVdqWdq) == CpuState::Sse,
        spec_opcode_state(Opcode::PcmpeqqVdqWdq) == CpuState::Sse,
        spec_opcode_state(Opcode::PackusdwVdqWdq) == CpuState::Sse,
        spec_opcode_state(Opcode::PminsbVdqWdq) == CpuState::Sse,
        spec_opcode_state(Opcode::PminsdVdqWdq) == CpuState::Sse,
        spec_opcode_state(Opcode::PminuwVdqWdq) == CpuState::Sse,
        spec_opcode_state(Opcode::PminudVdqWdq) == CpuState::Sse,
        spec_opcode_state(Opcode::PmaxsbVdqWdq) == CpuState::Sse,
        spec_opcode_state(Opcode::PmaxsdVdqWdq) == CpuState::Sse,
        spec_opcode_state(Opcode::PmaxuwVdqWdq) == CpuState::Sse,
        spec_opcode_state(Opcode::PmaxudVdqWdq) == CpuState::Sse,
        spec_opcode_state(Opcode::PmulldVdqWdq) == CpuState::Sse,
        spec_opcode_state(Opcode::PhminposuwVdqWdq) == CpuState::Sse,
        spec_opcode_state(Opcode::RoundpsVpsWpsIb) == CpuState::Sse,
        spec_opcode_state(Opcode::RoundpdVpdWpdIb) == CpuState::Sse,
        spec_opcode_state(Opcode::RoundssVssWssIb) == CpuState::Sse,
        spec_opcode_state(Opcode::RoundsdVsdWsdIb) == CpuState::Sse,
        spec_opcode_state(Opcode::BlendpsVpsWpsIb) == CpuState::Sse,
{
}

/// Every opcode the generated table gives the x87, MMX, SSE or AMX state requires exactly that state (entries 500..550 of 587).
#[verifier::spinoff_prover]
#[verifier::rlimit(100)]
pub proof fn lemma_state_entries_10()
    ensures
        spec_opcode_state(Opcode::BlendpdVpdWpdIb) == CpuState::Sse,
        spec_opcode_state(Opcode::PblendwVdqWdqIb) == CpuState::Sse,
        spec_opcode_state(Opcode::PextrbEdVdqIbR) == CpuState::Sse,
        spec_opcode_state(Opcode::PextrbMbVdqIbM) == CpuState::Sse,
        spec_opcode_state(Opcode::PextrwEdVdqIbR) == CpuState::Sse,
        spec_opcode_state(Opcode::PextrwMwVdqIbM) == CpuState::Sse,
        spec_opcode_state(Opcode::PextrdEdVdqIb) == CpuState::Sse,
        spec_opcode_state(Opcode::PextrqEqVdqIb) == CpuState::Sse,
        spec_opcode_state(Opcode::ExtractpsEdVpsIb) == CpuState::Sse,
        spec_opcode_state(Opcode::PinsrbVdqEbIb) == CpuState::Sse,
        spec_opcode_state(Opcode::InsertpsVpsWssIb) == CpuState::Sse,
        spec_opcode_state(Opcode::PinsrdVdqEdIb) == CpuState::Sse,
        spec_opcode_state(Opcode::PinsrqVdqEqIb) == CpuState::Sse,
        spec_opcode_state(Opcode::DppsVpsWpsIb) == CpuState::Sse,
        spec_opcode_state(Opcode::DppdVpdWpdIb) == CpuState::Sse,
        spec_opcode_state(Opcode::MpsadbwVdqWdqIb) == CpuState::Sse,
        spec_opcode_state(Opcode::MovntdqaVdqMdq) == CpuState::Sse,
        spec_opcode_state(Opcode::PcmpgtqVdqWdq) == CpuState::Sse,
        spec_opcode_state(Opcode::PcmpestrmVdqWdqIb) == CpuState::Sse,
        spec_opcode_state(Opcode::PcmpestriVdqWdqIb) == CpuState::Sse,
        spec_opcode_state(Opcode::PcmpistrmVdqWdqIb) == CpuState::Sse,
        spec_opcode_state(Opcode::PcmpistriVdqWdqIb) == CpuState::Sse,
        spec_opcode_state(Opcode::AesimcVdqWdq) == CpuState::Sse,
        spec_opcode_state(Opcode::AeskeygenassistVdqWdqIb) == CpuState::Sse,
        spec_opcode_state(Opcode::AesencVdqWdq) == CpuState::Sse,
        spec_opcode_state(Opcode::AesenclastVdqWdq) == CpuState::Sse,
        spec_opcode_state(Opcode::AesdecVdqWdq) == CpuState::Sse,
        spec_opcode_state(Opcode::AesdeclastVdqWdq) == CpuState::Sse,
        spec_opcode_state(Opcode::PclmulqdqVdqWdqIb) == CpuState::Sse,
        spec_opcode_state(Opcode::Sha1nexteVdqWdq) == CpuState::Sse,
        spec_opcode_state(Opcode::Sha1msg1VdqWdq) == CpuState::Sse,
        spec_opcode_state(Opcode::Sha1msg2VdqWdq) == CpuState::Sse,
        spec_opcode_state(Opcode::Sha256rnds2VdqWdq) == CpuState::Sse,
        spec_opcode_state(Opcode::Sha256msg1VdqWdq) == CpuState::Sse,
        spec_opcode_state(Opcode::Sha256msg2VdqWdq) == CpuState::Sse,
        spec_opcode_state(Opcode::Sha1rnds4VdqWdqIb) == CpuState::Sse,
        spec_opcode_state(Opcode::Gf2p8affineqbVdqWdqIb) == CpuState::Sse,
        spec_opcode_state(Opcode::Gf2p8affineinvqbVdqWdqIb) == CpuState::Sse,
        spec_opcode_state(Opcode::Gf2p8mulbVdqWdq) == CpuState::Sse,
        spec_opcode_state(Opcode::MovqEqVq) == CpuState::Sse,
        spec_opcode_state(Opcode::MovqPqEq) == CpuState::Mmx,
        spec_opcode_state(Opcode::MovqVdqEq) == CpuState::Sse,
        spec_opcode_state(Opcode::Cvtsi2ssVssEq) == CpuState::Sse,
        spec_opcode_state(Opcode::Cvtsi2sdVsdEq) == CpuState::Sse,
        spec_opcode_state(Opcode::Cvttss2siGqWss) == CpuState::Sse,
        spec_opcode_state(Opcode::Cvttsd2siGqWsd) == CpuState::Sse,
        spec_opcode_state(Opcode::Cvtss2siGqWss) == CpuState::Sse,
        spec_opcode_state(Opcode::Cvtsd2siGqWsd) == CpuState::Sse,
        spec_opcode_state(Opcode::MovntssMssVss) == CpuState::Sse,
        spec_opcode_state(Opcode::MovntsdMsdVsd) == CpuState::Sse,
{
}

/// Every opcode the generated table gives the x87, MMX, SSE or AMX state requires exactly that state (entries 550..587 of 587).
#[verifier::spinoff_prover]
#[verifier::rlimit(100)]
pub proof fn lemma_state_entries_11()
    ensures
        spec_opcode_state(Opcode::ExtrqUdqIbIb) == CpuState::Sse,
        spec_opcode_state(Opcode::ExtrqVdqUq) == CpuState::Sse,
        spec_opcode_state(Opcode::InsertqVdqUqIbIb) == CpuState::Sse,
        spec_opcode_state(Opcode::InsertqVdqUdq) == CpuState::Sse,
        spec_opcode_state(Opcode::Ldtilecfg) == CpuState::Amx,
        spec_opcode_state(Opcode::Sttilecfg) == CpuState::Amx,
        spec_opcode_state(Opcode::TileloaddTnnnMdq) == CpuState::Amx,
        spec_opcode_state(Opcode::Tileloaddt1TnnnMdq) == CpuState::Amx,
        spec_opcode_state(Opcode::TileloaddrsTnnnMdq) == CpuState::Amx,
        spec_opcode_state(Opcode::Tileloaddrst1TnnnMdq) == CpuState::Amx,
        spec_opcode_state(Opcode::TilestoredMdqTnnn) == CpuState::Amx,
        spec_opcode_state(Opcode::Tilerelease) == CpuState::Amx,
        spec_opcode_state(Opcode::TilezeroTnnn) == CpuState::Amx,
        spec_opcode_state(Opcode::TdpbssdTnnnTrmTreg) == CpuState::Amx,
        spec_opcode_state(Opcode::TdpbsudTnnnTrmTreg) == CpuState::Amx,
        spec_opcode_state(Opcode::TdpbusdTnnnTrmTreg) == CpuState::Amx,
        spec_opcode_state(Opcode::TdpbuudTnnnTrmTreg) == CpuState::Amx,
        spec_opcode_state(Opcode::Tdpbf16psTnnnTrmTreg) == CpuState::Amx,
        spec_opcode_state(Opcode::Tdpfp16psTnnnTrmTreg) == CpuState::Amx,
        spec_opcode_state(Opcode::Tcmmrlfp16psTnnnTrmTreg) == CpuState::Amx,
        spec_opcode_state(Opcode::Tcmmimfp16psTnnnTrmTreg) == CpuState::Amx,
        spec_opcode_state(Opcode::Tdpbf8psTnnnTrmTreg) == CpuState::Amx,
        spec_opcode_state(Opcode::Tdphf8psTnnnTrmTreg) == CpuState::Amx,
        spec_opcode_state(Opcode::Tdpbhf8psTnnnTrmTreg) == CpuState::Amx,
        spec_opcode_state(Opcode::Tdphbf8psTnnnTrmTreg) == CpuState::Amx,
        spec_opcode_state(Opcode::EvexTilemovrowVdqTrmIb) == CpuState::Amx,
        spec_opcode_state(Opcode::EvexTilemovrowVdqTrmBd) == CpuState::Amx,
        spec_opcode_state(Opcode::EvexTcvtrowd2psVpsTrmIb) == CpuState::Amx,
        spec_opcode_state(Opcode::EvexTcvtrowd2psVpsTrmBd) == CpuState::Amx,
        spec_opcode_state(Opcode::EvexTcvtrowps2phlVphTrmIb) == CpuState::Amx,
        spec_opcode_state(Opcode::EvexTcvtrowps2phlVphTrmBd) == CpuState::Amx,
        spec_opcode_state(Opcode::EvexTcvtrowps2phhVphTrmIb) == CpuState::Amx,
        spec_opcode_state(Opcode::EvexTcvtrowps2phhVphTrmBd) == CpuState::Amx,
        spec_opcode_state(Opcode::EvexTcvtrowps2bf16lVphTrmIb) == CpuState::Amx,
        spec_opcode_state(Opcode::EvexTcvtrowps2bf16lVphTrmBd) == CpuState::Amx,
        spec_opcode_state(Opcode::EvexTcvtrowps2bf16hVphTrmIb) == CpuState::Amx,
        spec_opcode_state(Opcode::EvexTcvtrowps2bf16hVphTrmBd) == CpuState::Amx,
{
}

/// Every opcode that the x87 escape tables (D8..DF) produce requires the
/// x87 state.
pub proof fn lemma_x87_opcodes_need_fpu(escape: u8, index: usize)
    requires
        0xD8 <= escape <= 0xDF,
        spec_fpu_opcode(escape, index) != Opcode::IaError,
    ensures
        spec_opcode_state(spec_fpu_opcode(escape, index)) == CpuState::Fpu,
{
}

/// Every opcode that a 3DNow! suffix byte names requires the MMX state.
pub proof fn lemma_3dnow_opcodes_need_mmx(suffix: u8)
    requires
        spec_dnow_opcode(suffix) != Opcode::IaError,
    ensures
        spec_opcode_state(spec_dnow_opcode(suffix)) == CpuState::Mmx,
{
}

} // verus!
