use rusty_box_decoder::opcode_isa::{
    opcode_evex_flags, opcode_isa_feature, opcode_state, CpuState, EVEX_FLAGGED_OPCODE_COUNT,
    GATED_OPCODE_COUNT, ISA_ALWAYS, OPCODE_VARIANT_COUNT, STATE_AVX_OPCODE_COUNT,
    STATE_EVEX_OPCODE_COUNT,
};
use rusty_box_decoder::Opcode;

/// Every opcode, in declaration order.
const ALL_OPCODES: &[Opcode] = &[
    Opcode::IaError,
    Opcode::InsertedOpcode,
    Opcode::Aaa,
    Opcode::Aad,
    Opcode::Aam,
    Opcode::Aas,
    Opcode::Daa,
    Opcode::Das,
    Opcode::AdcEbGb,
    Opcode::AndEbGb,
    Opcode::AddEbGb,
    Opcode::CmpEbGb,
    Opcode::OrEbGb,
    Opcode::SbbEbGb,
    Opcode::SubEbGb,
    Opcode::TestEbGb,
    Opcode::XorEbGb,
    Opcode::AdcEwGw,
    Opcode::AddEwGw,
    Opcode::AndEwGw,
    Opcode::CmpEwGw,
    Opcode::OrEwGw,
    Opcode::SbbEwGw,
    Opcode::SubEwGw,
    Opcode::TestEwGw,
    Opcode::XorEwGw,
    Opcode::AdcEdGd,
    Opcode::AddEdGd,
    Opcode::AndEdGd,
    Opcode::CmpEdGd,
    Opcode::OrEdGd,
    Opcode::SbbEdGd,
    Opcode::SubEdGd,
    Opcode::TestEdGd,
    Opcode::XorEdGd,
    Opcode::AdcAlib,
    Opcode::AddAlib,
    Opcode::AndAlib,
    Opcode::CmpAlib,
    Opcode::OrAlib,
    Opcode::SbbAlib,
    Opcode::SubAlib,
    Opcode::TestAlib,
    Opcode::XorAlib,
    Opcode::AdcAxiw,
    Opcode::AddAxiw,
    Opcode::AndAxiw,
    Opcode::CmpAxiw,
    Opcode::OrAxiw,
    Opcode::SbbAxiw,
    Opcode::SubAxiw,
    Opcode::TestAxiw,
    Opcode::XorAxiw,
    Opcode::AdcEaxid,
    Opcode::AddEaxid,
    Opcode::AndEaxid,
    Opcode::CmpEaxid,
    Opcode::OrEaxid,
    Opcode::SbbEaxid,
    Opcode::SubEaxid,
    Opcode::TestEaxid,
    Opcode::XorEaxid,
    Opcode::AddEbIb,
    Opcode::OrEbIb,
    Opcode::AdcEbIb,
    Opcode::SbbEbIb,
    Opcode::AndEbIb,
    Opcode::SubEbIb,
    Opcode::XorEbIb,
    Opcode::TestEbIb,
    Opcode::CmpEbIb,
    Opcode::AddEwIw,
    Opcode::OrEwIw,
    Opcode::AdcEwIw,
    Opcode::SbbEwIw,
    Opcode::AndEwIw,
    Opcode::SubEwIw,
    Opcode::XorEwIw,
    Opcode::TestEwIw,
    Opcode::CmpEwIw,
    Opcode::AddEwsIb,
    Opcode::OrEwsIb,
    Opcode::AdcEwsIb,
    Opcode::SbbEwsIb,
    Opcode::AndEwsIb,
    Opcode::SubEwsIb,
    Opcode::XorEwsIb,
    Opcode::TestEwsIb,
    Opcode::CmpEwsIb,
    Opcode::AddEdId,
    Opcode::OrEdId,
    Opcode::AdcEdId,
    Opcode::SbbEdId,
    Opcode::AndEdId,
    Opcode::SubEdId,
    Opcode::XorEdId,
    Opcode::TestEdId,
    Opcode::CmpEdId,
    Opcode::AddEdsIb,
    Opcode::OrEdsIb,
    Opcode::AdcEdsIb,
    Opcode::SbbEdsIb,
    Opcode::AndEdsIb,
    Opcode::SubEdsIb,
    Opcode::XorEdsIb,
    Opcode::TestEdsIb,
    Opcode::CmpEdsIb,
    Opcode::XorEwGwZeroIdiom,
    Opcode::XorGwEwZeroIdiom,
    Opcode::XorEdGdZeroIdiom,
    Opcode::XorGdEdZeroIdiom,
    Opcode::SubEwGwZeroIdiom,
    Opcode::SubGwEwZeroIdiom,
    Opcode::SubEdGdZeroIdiom,
    Opcode::SubGdEdZeroIdiom,
    Opcode::AddGbEb,
    Opcode::OrGbEb,
    Opcode::AdcGbEb,
    Opcode::SbbGbEb,
    Opcode::AndGbEb,
    Opcode::SubGbEb,
    Opcode::XorGbEb,
    Opcode::CmpGbEb,
    Opcode::AdcGwEw,
    Opcode::AddGwEw,
    Opcode::AndGwEw,
    Opcode::CmpGwEw,
    Opcode::OrGwEw,
    Opcode::SbbGwEw,
    Opcode::SubGwEw,
    Opcode::XorGwEw,
    Opcode::AdcGdEd,
    Opcode::AddGdEd,
    Opcode::AndGdEd,
    Opcode::CmpGdEd,
    Opcode::OrGdEd,
    Opcode::SbbGdEd,
    Opcode::SubGdEd,
    Opcode::XorGdEd,
    Opcode::IncEb,
    Opcode::IncEw,
    Opcode::IncEd,
    Opcode::DecEb,
    Opcode::DecEw,
    Opcode::DecEd,
    Opcode::BsfGwEw,
    Opcode::BsrGwEw,
    Opcode::BsfGdEd,
    Opcode::BsrGdEd,
    Opcode::BtcEwGw,
    Opcode::BtrEwGw,
    Opcode::BtsEwGw,
    Opcode::BtcEdGd,
    Opcode::BtrEdGd,
    Opcode::BtsEdGd,
    Opcode::BtcEwIb,
    Opcode::BtrEwIb,
    Opcode::BtsEwIb,
    Opcode::BtcEdIb,
    Opcode::BtrEdIb,
    Opcode::BtsEdIb,
    Opcode::BtEwIb,
    Opcode::BtEdIb,
    Opcode::BtEwGw,
    Opcode::BtEdGd,
    Opcode::BoundGwMa,
    Opcode::BoundGdMa,
    Opcode::ArplEwGw,
    Opcode::CallEd,
    Opcode::CallEw,
    Opcode::CallJd,
    Opcode::CallJw,
    Opcode::CallfOp16Ap,
    Opcode::CallfOp32Ap,
    Opcode::CallfOp16Ep,
    Opcode::CallfOp32Ep,
    Opcode::Cbw,
    Opcode::Cdq,
    Opcode::Cwd,
    Opcode::Cwde,
    Opcode::Clc,
    Opcode::Cld,
    Opcode::Cli,
    Opcode::Clts,
    Opcode::Cmc,
    Opcode::Hlt,
    Opcode::Clflush,
    Opcode::Clflushopt,
    Opcode::Clwb,
    Opcode::Clzero,
    Opcode::EnterOp16IwIb,
    Opcode::EnterOp32IwIb,
    Opcode::LeaveOp16,
    Opcode::LeaveOp32,
    Opcode::ImulGdEd,
    Opcode::ImulGdEdId,
    Opcode::ImulGdEdsIb,
    Opcode::ImulGwEw,
    Opcode::ImulGwEwIw,
    Opcode::ImulGwEwsIb,
    Opcode::InAlDx,
    Opcode::InAlib,
    Opcode::InAxDx,
    Opcode::InAxib,
    Opcode::InEaxDx,
    Opcode::InEaxib,
    Opcode::OutDxAl,
    Opcode::OutDxAx,
    Opcode::OutDxEax,
    Opcode::OutIbAl,
    Opcode::OutIbAx,
    Opcode::OutIbEax,
    Opcode::IntIb,
    Opcode::INT1,
    Opcode::INT3,
    Opcode::Int0,
    Opcode::IretOp16,
    Opcode::IretOp32,
    Opcode::JmpEd,
    Opcode::JmpEw,
    Opcode::JmpJw,
    Opcode::JmpJbw,
    Opcode::JmpJd,
    Opcode::JmpJbd,
    Opcode::JmpfAp,
    Opcode::JmpfOp16Ep,
    Opcode::JmpfOp32Ep,
    Opcode::JcxzJbw,
    Opcode::JecxzJbd,
    Opcode::LoopJbw,
    Opcode::LoopeJbw,
    Opcode::LoopneJbw,
    Opcode::LoopJbd,
    Opcode::LoopeJbd,
    Opcode::LoopneJbd,
    Opcode::JbJw,
    Opcode::JbeJw,
    Opcode::JlJw,
    Opcode::JleJw,
    Opcode::JnbJw,
    Opcode::JnbeJw,
    Opcode::JnlJw,
    Opcode::JnleJw,
    Opcode::JnoJw,
    Opcode::JnpJw,
    Opcode::JnsJw,
    Opcode::JnzJw,
    Opcode::JoJw,
    Opcode::JpJw,
    Opcode::JsJw,
    Opcode::JzJw,
    Opcode::JbJbw,
    Opcode::JbeJbw,
    Opcode::JlJbw,
    Opcode::JleJbw,
    Opcode::JnbJbw,
    Opcode::JnbeJbw,
    Opcode::JnlJbw,
    Opcode::JnleJbw,
    Opcode::JnoJbw,
    Opcode::JnpJbw,
    Opcode::JnsJbw,
    Opcode::JnzJbw,
    Opcode::JoJbw,
    Opcode::JpJbw,
    Opcode::JsJbw,
    Opcode::JzJbw,
    Opcode::JbJd,
    Opcode::JbeJd,
    Opcode::JlJd,
    Opcode::JleJd,
    Opcode::JnbJd,
    Opcode::JnbeJd,
    Opcode::JnlJd,
    Opcode::JnleJd,
    Opcode::JnoJd,
    Opcode::JnpJd,
    Opcode::JnsJd,
    Opcode::JnzJd,
    Opcode::JoJd,
    Opcode::JpJd,
    Opcode::JsJd,
    Opcode::JzJd,
    Opcode::JbJbd,
    Opcode::JbeJbd,
    Opcode::JlJbd,
    Opcode::JleJbd,
    Opcode::JnbJbd,
    Opcode::JnbeJbd,
    Opcode::JnlJbd,
    Opcode::JnleJbd,
    Opcode::JnoJbd,
    Opcode::JnpJbd,
    Opcode::JnsJbd,
    Opcode::JnzJbd,
    Opcode::JoJbd,
    Opcode::JpJbd,
    Opcode::JsJbd,
    Opcode::JzJbd,
    Opcode::Sahf,
    Opcode::Lahf,
    Opcode::LdsGdMp,
    Opcode::LdsGwMp,
    Opcode::LesGdMp,
    Opcode::LesGwMp,
    Opcode::LfsGdMp,
    Opcode::LfsGwMp,
    Opcode::LssGdMp,
    Opcode::LssGwMp,
    Opcode::LgsGdMp,
    Opcode::LgsGwMp,
    Opcode::LarGwEw,
    Opcode::LslGwEw,
    Opcode::LarGdEw,
    Opcode::LslGdEw,
    Opcode::LeaGdM,
    Opcode::LeaGwM,
    Opcode::SidtMs,
    Opcode::LidtMs,
    Opcode::SgdtMs,
    Opcode::LgdtMs,
    Opcode::SldtEw,
    Opcode::LldtEw,
    Opcode::StrEw,
    Opcode::LtrEw,
    Opcode::SmswEw,
    Opcode::LmswEw,
    Opcode::MovCr0rd,
    Opcode::MovCr2rd,
    Opcode::MovCr3rd,
    Opcode::MovCr4rd,
    Opcode::MovRdCr0,
    Opcode::MovRdCr2,
    Opcode::MovRdCr3,
    Opcode::MovRdCr4,
    Opcode::MovRdDd,
    Opcode::MovDdRd,
    Opcode::MovEbIb,
    Opcode::MovEdId,
    Opcode::MovEwIw,
    Opcode::MovGbEb,
    Opcode::MovEbGb,
    Opcode::MovGwEw,
    Opcode::MovEwGw,
    Opcode::MovOp32GdEd,
    Opcode::MovOp32EdGd,
    Opcode::MovEwSw,
    Opcode::MovSwEw,
    Opcode::MovAlod,
    Opcode::MovAxod,
    Opcode::MovEaxod,
    Opcode::MovOdAl,
    Opcode::MovOdAx,
    Opcode::MovOdEax,
    Opcode::MovsxGdEb,
    Opcode::MovsxGdEw,
    Opcode::MovsxGwEb,
    Opcode::MovzxGdEb,
    Opcode::MovzxGdEw,
    Opcode::MovzxGwEb,
    Opcode::Nop,
    Opcode::Pause,
    Opcode::PopEw,
    Opcode::PopEd,
    Opcode::PopOp16Sw,
    Opcode::PopOp32Sw,
    Opcode::PopaOp16,
    Opcode::PopaOp32,
    Opcode::PopfFw,
    Opcode::PopfFd,
    Opcode::PushEw,
    Opcode::PushEd,
    Opcode::PushId,
    Opcode::PushSIb32,
    Opcode::PushIw,
    Opcode::PushSIb16,
    Opcode::PushOp16Sw,
    Opcode::PushOp32Sw,
    Opcode::PushaOp16,
    Opcode::PushaOp32,
    Opcode::PushfFw,
    Opcode::PushfFd,
    Opcode::RepCmpsbXbYb,
    Opcode::RepCmpsdXdYd,
    Opcode::RepCmpswXwYw,
    Opcode::RepInsbYbDx,
    Opcode::RepInsdYdDx,
    Opcode::RepInswYwDx,
    Opcode::RepLodsbAlxb,
    Opcode::RepLodsdEaxxd,
    Opcode::RepLodswAxxw,
    Opcode::RepMovsbYbXb,
    Opcode::RepMovsdYdXd,
    Opcode::RepMovswYwXw,
    Opcode::RepOutsbDxxb,
    Opcode::RepOutsdDxxd,
    Opcode::RepOutswDxxw,
    Opcode::RepScasbAlyb,
    Opcode::RepScasdEaxyd,
    Opcode::RepScaswAxyw,
    Opcode::RepStosbYbAl,
    Opcode::RepStosdYdEax,
    Opcode::RepStoswYwAx,
    Opcode::RetfOp16,
    Opcode::RetfOp16Iw,
    Opcode::RetfOp32,
    Opcode::RetfOp32Iw,
    Opcode::RetOp16,
    Opcode::RetOp16Iw,
    Opcode::RetOp32,
    Opcode::RetOp32Iw,
    Opcode::NotEb,
    Opcode::NegEb,
    Opcode::NotEw,
    Opcode::NegEw,
    Opcode::NotEd,
    Opcode::NegEd,
    Opcode::RolEb,
    Opcode::RorEb,
    Opcode::RclEb,
    Opcode::RcrEb,
    Opcode::ShlEb,
    Opcode::ShrEb,
    Opcode::SarEb,
    Opcode::RolEw,
    Opcode::RorEw,
    Opcode::RclEw,
    Opcode::RcrEw,
    Opcode::ShlEw,
    Opcode::ShrEw,
    Opcode::SarEw,
    Opcode::RolEd,
    Opcode::RorEd,
    Opcode::RclEd,
    Opcode::RcrEd,
    Opcode::ShlEd,
    Opcode::ShrEd,
    Opcode::SarEd,
    Opcode::RolEbIb,
    Opcode::RorEbIb,
    Opcode::RclEbIb,
    Opcode::RcrEbIb,
    Opcode::ShlEbIb,
    Opcode::ShrEbIb,
    Opcode::SarEbIb,
    Opcode::RolEwIb,
    Opcode::RorEwIb,
    Opcode::RclEwIb,
    Opcode::RcrEwIb,
    Opcode::ShlEwIb,
    Opcode::ShrEwIb,
    Opcode::SarEwIb,
    Opcode::RolEdIb,
    Opcode::RorEdIb,
    Opcode::RclEdIb,
    Opcode::RcrEdIb,
    Opcode::ShlEdIb,
    Opcode::ShrEdIb,
    Opcode::SarEdIb,
    Opcode::RolEbI1,
    Opcode::RorEbI1,
    Opcode::RclEbI1,
    Opcode::RcrEbI1,
    Opcode::ShlEbI1,
    Opcode::ShrEbI1,
    Opcode::SarEbI1,
    Opcode::RolEwI1,
    Opcode::RorEwI1,
    Opcode::RclEwI1,
    Opcode::RcrEwI1,
    Opcode::ShlEwI1,
    Opcode::ShrEwI1,
    Opcode::SarEwI1,
    Opcode::RolEdI1,
    Opcode::RorEdI1,
    Opcode::RclEdI1,
    Opcode::RcrEdI1,
    Opcode::ShlEdI1,
    Opcode::ShrEdI1,
    Opcode::SarEdI1,
    Opcode::SetbEb,
    Opcode::SetbeEb,
    Opcode::SetlEb,
    Opcode::SetleEb,
    Opcode::SetnbEb,
    Opcode::SetnbeEb,
    Opcode::SetnlEb,
    Opcode::SetnleEb,
    Opcode::SetnoEb,
    Opcode::SetnpEb,
    Opcode::SetnsEb,
    Opcode::SetnzEb,
    Opcode::SetoEb,
    Opcode::SetpEb,
    Opcode::SetsEb,
    Opcode::SetzEb,
    Opcode::ShldEdGd,
    Opcode::ShldEdGdIb,
    Opcode::ShldEwGw,
    Opcode::ShldEwGwIb,
    Opcode::ShrdEdGd,
    Opcode::ShrdEdGdIb,
    Opcode::ShrdEwGw,
    Opcode::ShrdEwGwIb,
    Opcode::Rsm,
    Opcode::Salc,
    Opcode::Stc,
    Opcode::Std,
    Opcode::Sti,
    Opcode::MulAleb,
    Opcode::ImulAleb,
    Opcode::DivAleb,
    Opcode::IdivAleb,
    Opcode::MulAxew,
    Opcode::ImulAxew,
    Opcode::DivAxew,
    Opcode::IdivAxew,
    Opcode::MulEaxed,
    Opcode::ImulEaxed,
    Opcode::DivEaxed,
    Opcode::IdivEaxed,
    Opcode::VerrEw,
    Opcode::VerwEw,
    Opcode::XchgEbGb,
    Opcode::XchgEwGw,
    Opcode::XchgEdGd,
    Opcode::XchgRxax,
    Opcode::XchgErxEax,
    Opcode::Xlat,
    Opcode::Sysenter,
    Opcode::Sysexit,
    Opcode::Monitor,
    Opcode::Mwait,
    Opcode::UmonitorEq,
    Opcode::UmonitorEd,
    Opcode::UmwaitEd,
    Opcode::TpauseEd,
    Opcode::Monitorx,
    Opcode::Mwaitx,
    Opcode::Fwait,
    Opcode::FldSti,
    Opcode::FldSingleReal,
    Opcode::FldDoubleReal,
    Opcode::FldExtendedReal,
    Opcode::FildWordInteger,
    Opcode::FildDwordInteger,
    Opcode::FildQwordInteger,
    Opcode::FbldPackedBcd,
    Opcode::FstSti,
    Opcode::FstpSti,
    Opcode::FstpSpecialSti,
    Opcode::FstSingleReal,
    Opcode::FstpSingleReal,
    Opcode::FstDoubleReal,
    Opcode::FstpDoubleReal,
    Opcode::FstpExtendedReal,
    Opcode::FistWordInteger,
    Opcode::FistpWordInteger,
    Opcode::FistDwordInteger,
    Opcode::FistpDwordInteger,
    Opcode::FistpQwordInteger,
    Opcode::FbstpPackedBcd,
    Opcode::FisttpMw,
    Opcode::FisttpMd,
    Opcode::FisttpMq,
    Opcode::Fninit,
    Opcode::Fnclex,
    Opcode::Frstor,
    Opcode::Fnsave,
    Opcode::Fldenv,
    Opcode::Fnstenv,
    Opcode::Fldcw,
    Opcode::Fnstcw,
    Opcode::Fnstsw,
    Opcode::FnstswAx,
    Opcode::FLD1,
    Opcode::Fldl2t,
    Opcode::Fldl2e,
    Opcode::Fldpi,
    Opcode::Fldlg2,
    Opcode::Fldln2,
    Opcode::Fldz,
    Opcode::FaddSt0Stj,
    Opcode::FaddStiSt0,
    Opcode::FaddpStiSt0,
    Opcode::FaddSingleReal,
    Opcode::FaddDoubleReal,
    Opcode::FiaddWordInteger,
    Opcode::FiaddDwordInteger,
    Opcode::FmulSt0Stj,
    Opcode::FmulStiSt0,
    Opcode::FmulpStiSt0,
    Opcode::FmulSingleReal,
    Opcode::FmulDoubleReal,
    Opcode::FimulWordInteger,
    Opcode::FimulDwordInteger,
    Opcode::FsubSt0Stj,
    Opcode::FsubrSt0Stj,
    Opcode::FsubStiSt0,
    Opcode::FsubpStiSt0,
    Opcode::FsubrStiSt0,
    Opcode::FsubrpStiSt0,
    Opcode::FsubSingleReal,
    Opcode::FsubrSingleReal,
    Opcode::FsubDoubleReal,
    Opcode::FsubrDoubleReal,
    Opcode::FisubWordInteger,
    Opcode::FisubrWordInteger,
    Opcode::FisubDwordInteger,
    Opcode::FisubrDwordInteger,
    Opcode::FdivSt0Stj,
    Opcode::FdivrSt0Stj,
    Opcode::FdivStiSt0,
    Opcode::FdivpStiSt0,
    Opcode::FdivrStiSt0,
    Opcode::FdivrpStiSt0,
    Opcode::FdivSingleReal,
    Opcode::FdivrSingleReal,
    Opcode::FdivDoubleReal,
    Opcode::FdivrDoubleReal,
    Opcode::FidivWordInteger,
    Opcode::FidivrWordInteger,
    Opcode::FidivDwordInteger,
    Opcode::FidivrDwordInteger,
    Opcode::FcomSti,
    Opcode::FcompSti,
    Opcode::FucomSti,
    Opcode::FucompSti,
    Opcode::FcomiSt0Stj,
    Opcode::FcomipSt0Stj,
    Opcode::FucomiSt0Stj,
    Opcode::FucomipSt0Stj,
    Opcode::FcomSingleReal,
    Opcode::FcompSingleReal,
    Opcode::FcomDoubleReal,
    Opcode::FcompDoubleReal,
    Opcode::FicomWordInteger,
    Opcode::FicompWordInteger,
    Opcode::FicomDwordInteger,
    Opcode::FicompDwordInteger,
    Opcode::FcmovbSt0Stj,
    Opcode::FcmoveSt0Stj,
    Opcode::FcmovbeSt0Stj,
    Opcode::FcmovuSt0Stj,
    Opcode::FcmovnbSt0Stj,
    Opcode::FcmovneSt0Stj,
    Opcode::FcmovnbeSt0Stj,
    Opcode::FcmovnuSt0Stj,
    Opcode::Fcompp,
    Opcode::Fucompp,
    Opcode::FxchSti,
    Opcode::Fnop,
    Opcode::Fplegacy,
    Opcode::Fchs,
    Opcode::Fabs,
    Opcode::Ftst,
    Opcode::Fxam,
    Opcode::Fdecstp,
    Opcode::Fincstp,
    Opcode::FfreeSti,
    Opcode::FfreepSti,
    Opcode::F2XM1,
    Opcode::FYL2X,
    Opcode::Fptan,
    Opcode::Fpatan,
    Opcode::Fxtract,
    Opcode::FPREM1,
    Opcode::Fprem,
    Opcode::FYL2XP1,
    Opcode::Fsqrt,
    Opcode::Fsincos,
    Opcode::Frndint,
    Opcode::Fscale,
    Opcode::Fsin,
    Opcode::Fcos,
    Opcode::Fpuesc,
    Opcode::Cpuid,
    Opcode::BswapRx,
    Opcode::BswapErx,
    Opcode::Invd,
    Opcode::Wbinvd,
    Opcode::XaddEbGb,
    Opcode::XaddEwGw,
    Opcode::XaddEdGd,
    Opcode::CmpxchgEbGb,
    Opcode::CmpxchgEwGw,
    Opcode::CmpxchgEdGd,
    Opcode::Invlpg,
    Opcode::Cmpxchg8b,
    Opcode::Wrmsr,
    Opcode::Rdmsr,
    Opcode::Rdtsc,
    Opcode::PunpcklbwPqQd,
    Opcode::PunpcklwdPqQd,
    Opcode::PunpckldqPqQd,
    Opcode::PacksswbPqQq,
    Opcode::PcmpgtbPqQq,
    Opcode::PcmpgtwPqQq,
    Opcode::PcmpgtdPqQq,
    Opcode::PackuswbPqQq,
    Opcode::PunpckhbwPqQq,
    Opcode::PunpckhwdPqQq,
    Opcode::PunpckhdqPqQq,
    Opcode::PackssdwPqQq,
    Opcode::MovdPqEd,
    Opcode::MovqPqQq,
    Opcode::PcmpeqbPqQq,
    Opcode::PcmpeqwPqQq,
    Opcode::PcmpeqdPqQq,
    Opcode::Emms,
    Opcode::MovdEdPq,
    Opcode::MovqQqPq,
    Opcode::PsrlwPqQq,
    Opcode::PsrldPqQq,
    Opcode::PsrlqPqQq,
    Opcode::PmullwPqQq,
    Opcode::PsubusbPqQq,
    Opcode::PsubuswPqQq,
    Opcode::PandPqQq,
    Opcode::PaddusbPqQq,
    Opcode::PadduswPqQq,
    Opcode::PandnPqQq,
    Opcode::PsrawPqQq,
    Opcode::PsradPqQq,
    Opcode::PmulhwPqQq,
    Opcode::PsubsbPqQq,
    Opcode::PsubswPqQq,
    Opcode::PorPqQq,
    Opcode::PaddsbPqQq,
    Opcode::PaddswPqQq,
    Opcode::PxorPqQq,
    Opcode::PsllwPqQq,
    Opcode::PslldPqQq,
    Opcode::PsllqPqQq,
    Opcode::PmaddwdPqQq,
    Opcode::PsubbPqQq,
    Opcode::PsubwPqQq,
    Opcode::PsubdPqQq,
    Opcode::PaddbPqQq,
    Opcode::PaddwPqQq,
    Opcode::PadddPqQq,
    Opcode::PsrlwNqIb,
    Opcode::PsrawNqIb,
    Opcode::PsllwNqIb,
    Opcode::PsrldNqIb,
    Opcode::PsradNqIb,
    Opcode::PslldNqIb,
    Opcode::PsrlqNqIb,
    Opcode::PsllqNqIb,
    Opcode::MovqEqPq,
    Opcode::Femms,
    Opcode::Pf2idPqQq,
    Opcode::Pf2iwPqQq,
    Opcode::PfaccPqQq,
    Opcode::PfaddPqQq,
    Opcode::PfcmpeqPqQq,
    Opcode::PfcmpgePqQq,
    Opcode::PfcmpgtPqQq,
    Opcode::PfmaxPqQq,
    Opcode::PfminPqQq,
    Opcode::PfmulPqQq,
    Opcode::PfnaccPqQq,
    Opcode::PfpnaccPqQq,
    Opcode::PfrcpPqQq,
    Opcode::Pfrcpit1PqQq,
    Opcode::Pfrcpit2PqQq,
    Opcode::Pfrsqit1PqQq,
    Opcode::PfrsqrtPqQq,
    Opcode::PfsubPqQq,
    Opcode::PfsubrPqQq,
    Opcode::Pi2fdPqQq,
    Opcode::Pi2fwPqQq,
    Opcode::PmulhrwPqQq,
    Opcode::PswapdPqQq,
    Opcode::PrefetchwMb,
    Opcode::SyscallLegacy,
    Opcode::SysretLegacy,
    Opcode::CmovbGwEw,
    Opcode::CmovbeGwEw,
    Opcode::CmovlGwEw,
    Opcode::CmovleGwEw,
    Opcode::CmovnbGwEw,
    Opcode::CmovnbeGwEw,
    Opcode::CmovnlGwEw,
    Opcode::CmovnleGwEw,
    Opcode::CmovnoGwEw,
    Opcode::CmovnpGwEw,
    Opcode::CmovnsGwEw,
    Opcode::CmovnzGwEw,
    Opcode::CmovoGwEw,
    Opcode::CmovpGwEw,
    Opcode::CmovsGwEw,
    Opcode::CmovzGwEw,
    Opcode::CmovbGdEd,
    Opcode::CmovbeGdEd,
    Opcode::CmovlGdEd,
    Opcode::CmovleGdEd,
    Opcode::CmovnbGdEd,
    Opcode::CmovnbeGdEd,
    Opcode::CmovnlGdEd,
    Opcode::CmovnleGdEd,
    Opcode::CmovnoGdEd,
    Opcode::CmovnpGdEd,
    Opcode::CmovnsGdEd,
    Opcode::CmovnzGdEd,
    Opcode::CmovoGdEd,
    Opcode::CmovpGdEd,
    Opcode::CmovsGdEd,
    Opcode::CmovzGdEd,
    Opcode::Rdpmc,
    Opcode::Ud0,
    Opcode::Ud1,
    Opcode::Ud2,
    Opcode::Fxsave,
    Opcode::Fxrstor,
    Opcode::Ldmxcsr,
    Opcode::Stmxcsr,
    Opcode::PrefetchMb,
    Opcode::Prefetcht0Mb,
    Opcode::Prefetcht1Mb,
    Opcode::Prefetcht2Mb,
    Opcode::PrefetchntaMb,
    Opcode::AndpsVpsWps,
    Opcode::OrpsVpsWps,
    Opcode::XorpsVpsWps,
    Opcode::AndnpsVpsWps,
    Opcode::MovupsVpsWps,
    Opcode::MovupsWpsVps,
    Opcode::MovssVssWss,
    Opcode::MovssWssVss,
    Opcode::MovlpsVpsMq,
    Opcode::MovhlpsVpsWps,
    Opcode::MovlpsMqVps,
    Opcode::MovhpsVpsMq,
    Opcode::MovlhpsVpsWps,
    Opcode::MovhpsMqVps,
    Opcode::MovapsVpsWps,
    Opcode::MovapsWpsVps,
    Opcode::MovntpsMpsVps,
    Opcode::Cvtpi2psVpsQq,
    Opcode::Cvtsi2ssVssEd,
    Opcode::Cvttps2piPqWps,
    Opcode::Cvtps2piPqWps,
    Opcode::Cvttss2siGdWss,
    Opcode::Cvtss2siGdWss,
    Opcode::UcomissVssWss,
    Opcode::ComissVssWss,
    Opcode::MovmskpsGdUps,
    Opcode::MovmskpdGdUpd,
    Opcode::RsqrtpsVpsWps,
    Opcode::RsqrtssVssWss,
    Opcode::RcppsVpsWps,
    Opcode::RcpssVssWss,
    Opcode::PshufwPqQqIb,
    Opcode::PshuflwVdqWdqIb,
    Opcode::PinsrwPqEwIb,
    Opcode::PextrwGdNqIb,
    Opcode::ShufpsVpsWpsIb,
    Opcode::PmovmskbGdNq,
    Opcode::PminubPqQq,
    Opcode::PmaxubPqQq,
    Opcode::PavgbPqQq,
    Opcode::PavgwPqQq,
    Opcode::PmulhuwPqQq,
    Opcode::MovntqMqPq,
    Opcode::PminswPqQq,
    Opcode::PmaxswPqQq,
    Opcode::PsadbwPqQq,
    Opcode::MaskmovqPqNq,
    Opcode::AddpsVpsWps,
    Opcode::AddpdVpdWpd,
    Opcode::AddssVssWss,
    Opcode::AddsdVsdWsd,
    Opcode::MulpsVpsWps,
    Opcode::MulpdVpdWpd,
    Opcode::MulssVssWss,
    Opcode::MulsdVsdWsd,
    Opcode::SubpsVpsWps,
    Opcode::SubpdVpdWpd,
    Opcode::SubssVssWss,
    Opcode::SubsdVsdWsd,
    Opcode::MinpsVpsWps,
    Opcode::MinpdVpdWpd,
    Opcode::MinssVssWss,
    Opcode::MinsdVsdWsd,
    Opcode::DivpsVpsWps,
    Opcode::DivpdVpdWpd,
    Opcode::DivssVssWss,
    Opcode::DivsdVsdWsd,
    Opcode::MaxpsVpsWps,
    Opcode::MaxpdVpdWpd,
    Opcode::MaxssVssWss,
    Opcode::MaxsdVsdWsd,
    Opcode::SqrtpsVpsWps,
    Opcode::SqrtpdVpdWpd,
    Opcode::SqrtssVssWss,
    Opcode::SqrtsdVsdWsd,
    Opcode::CmppsVpsWpsIb,
    Opcode::CmppdVpdWpdIb,
    Opcode::CmpssVssWssIb,
    Opcode::CmpsdVsdWsdIb,
    Opcode::Cvtps2pdVpdWps,
    Opcode::Cvtpd2psVpsWpd,
    Opcode::Cvtss2sdVsdWss,
    Opcode::Cvtsd2ssVssWsd,
    Opcode::MovsdVsdWsd,
    Opcode::MovsdWsdVsd,
    Opcode::Cvtpi2pdVpdQq,
    Opcode::Cvtsi2sdVsdEd,
    Opcode::Cvttpd2piPqWpd,
    Opcode::Cvttsd2siGdWsd,
    Opcode::Cvtpd2piPqWpd,
    Opcode::Cvtsd2siGdWsd,
    Opcode::UcomisdVsdWsd,
    Opcode::ComisdVsdWsd,
    Opcode::Cvtdq2psVpsWdq,
    Opcode::Cvtps2dqVdqWps,
    Opcode::Cvttps2dqVdqWps,
    Opcode::UnpckhpdVpdWdq,
    Opcode::UnpcklpdVpdWdq,
    Opcode::PunpckhdqVdqWdq,
    Opcode::PunpckldqVdqWdq,
    Opcode::MovapdVpdWpd,
    Opcode::MovapdWpdVpd,
    Opcode::MovdqaVdqWdq,
    Opcode::MovdqaWdqVdq,
    Opcode::MovdquVdqWdq,
    Opcode::MovdquWdqVdq,
    Opcode::MovhpdMqVsd,
    Opcode::MovhpdVsdMq,
    Opcode::MovlpdMqVsd,
    Opcode::MovlpdVsdMq,
    Opcode::MovntdqMdqVdq,
    Opcode::MovntpdMpdVpd,
    Opcode::MovupdVpdWpd,
    Opcode::MovupdWpdVpd,
    Opcode::AndnpdVpdWpd,
    Opcode::AndpdVpdWpd,
    Opcode::OrpdVpdWpd,
    Opcode::XorpdVpdWpd,
    Opcode::PandVdqWdq,
    Opcode::PandnVdqWdq,
    Opcode::PorVdqWdq,
    Opcode::PxorVdqWdq,
    Opcode::PunpcklbwVdqWdq,
    Opcode::PunpcklwdVdqWdq,
    Opcode::UnpcklpsVpsWdq,
    Opcode::UnpckhpsVpsWdq,
    Opcode::PackuswbVdqWdq,
    Opcode::PacksswbVdqWdq,
    Opcode::PcmpgtbVdqWdq,
    Opcode::PcmpgtwVdqWdq,
    Opcode::PcmpgtdVdqWdq,
    Opcode::PunpckhbwVdqWdq,
    Opcode::PunpckhwdVdqWdq,
    Opcode::PackssdwVdqWdq,
    Opcode::PunpcklqdqVdqWdq,
    Opcode::PunpckhqdqVdqWdq,
    Opcode::MovdVdqEd,
    Opcode::PshufdVdqWdqIb,
    Opcode::PshufhwVdqWdqIb,
    Opcode::PcmpeqbVdqWdq,
    Opcode::PcmpeqwVdqWdq,
    Opcode::PcmpeqdVdqWdq,
    Opcode::MovdEdVd,
    Opcode::MovqVqWq,
    Opcode::MovntiOp32MdGd,
    Opcode::PinsrwVdqEwIb,
    Opcode::PextrwGdUdqIb,
    Opcode::ShufpdVpdWpdIb,
    Opcode::PsrlwVdqWdq,
    Opcode::PsrldVdqWdq,
    Opcode::PsrlqVdqWdq,
    Opcode::PaddqPqQq,
    Opcode::PsubqPqQq,
    Opcode::PaddqVdqWdq,
    Opcode::PmullwVdqWdq,
    Opcode::MovqWqVq,
    Opcode::Movdq2qPqUdq,
    Opcode::Movq2dqVdqQq,
    Opcode::PmovmskbGdUdq,
    Opcode::PsubusbVdqWdq,
    Opcode::PsubuswVdqWdq,
    Opcode::PminubVdqWdq,
    Opcode::PaddusbVdqWdq,
    Opcode::PadduswVdqWdq,
    Opcode::PmaxubVdqWdq,
    Opcode::PavgbVdqWdq,
    Opcode::PsrawVdqWdq,
    Opcode::PsradVdqWdq,
    Opcode::PavgwVdqWdq,
    Opcode::PmulhuwVdqWdq,
    Opcode::PmulhwVdqWdq,
    Opcode::Cvttpd2dqVqWpd,
    Opcode::Cvtpd2dqVqWpd,
    Opcode::Cvtdq2pdVpdWq,
    Opcode::PsubsbVdqWdq,
    Opcode::PsubswVdqWdq,
    Opcode::PminswVdqWdq,
    Opcode::PmaxswVdqWdq,
    Opcode::PaddsbVdqWdq,
    Opcode::PaddswVdqWdq,
    Opcode::PsllwVdqWdq,
    Opcode::PslldVdqWdq,
    Opcode::PsllqVdqWdq,
    Opcode::PmuludqPqQq,
    Opcode::PmuludqVdqWdq,
    Opcode::PmaddwdVdqWdq,
    Opcode::PsadbwVdqWdq,
    Opcode::MaskmovdquVdqUdq,
    Opcode::PsubbVdqWdq,
    Opcode::PsubwVdqWdq,
    Opcode::PsubdVdqWdq,
    Opcode::PsubqVdqWdq,
    Opcode::PaddbVdqWdq,
    Opcode::PaddwVdqWdq,
    Opcode::PadddVdqWdq,
    Opcode::PsrlwUdqIb,
    Opcode::PsrawUdqIb,
    Opcode::PsllwUdqIb,
    Opcode::PsrldUdqIb,
    Opcode::PsradUdqIb,
    Opcode::PslldUdqIb,
    Opcode::PsrlqUdqIb,
    Opcode::PsllqUdqIb,
    Opcode::PsrldqUdqIb,
    Opcode::PslldqUdqIb,
    Opcode::Lfence,
    Opcode::Sfence,
    Opcode::Mfence,
    Opcode::MovddupVpdWq,
    Opcode::MovsldupVpsWps,
    Opcode::MovshdupVpsWps,
    Opcode::HaddpdVpdWpd,
    Opcode::HaddpsVpsWps,
    Opcode::HsubpdVpdWpd,
    Opcode::HsubpsVpsWps,
    Opcode::AddsubpdVpdWpd,
    Opcode::AddsubpsVpsWps,
    Opcode::LddquVdqMdq,
    Opcode::PshufbPqQq,
    Opcode::PhaddwPqQq,
    Opcode::PhadddPqQq,
    Opcode::PhaddswPqQq,
    Opcode::PmaddubswPqQq,
    Opcode::PhsubswPqQq,
    Opcode::PhsubwPqQq,
    Opcode::PhsubdPqQq,
    Opcode::PsignbPqQq,
    Opcode::PsignwPqQq,
    Opcode::PsigndPqQq,
    Opcode::PmulhrswPqQq,
    Opcode::PabsbPqQq,
    Opcode::PabswPqQq,
    Opcode::PabsdPqQq,
    Opcode::PalignrPqQqIb,
    Opcode::PshufbVdqWdq,
    Opcode::PhaddwVdqWdq,
    Opcode::PhadddVdqWdq,
    Opcode::PhaddswVdqWdq,
    Opcode::PmaddubswVdqWdq,
    Opcode::PhsubswVdqWdq,
    Opcode::PhsubwVdqWdq,
    Opcode::PhsubdVdqWdq,
    Opcode::PsignbVdqWdq,
    Opcode::PsignwVdqWdq,
    Opcode::PsigndVdqWdq,
    Opcode::PmulhrswVdqWdq,
    Opcode::PabsbVdqWdq,
    Opcode::PabswVdqWdq,
    Opcode::PabsdVdqWdq,
    Opcode::PalignrVdqWdqIb,
    Opcode::PblendvbVdqWdq,
    Opcode::BlendvpsVpsWps,
    Opcode::BlendvpdVpdWpd,
    Opcode::PmovsxbwVdqWq,
    Opcode::PmovsxbdVdqWd,
    Opcode::PmovsxbqVdqWw,
    Opcode::PmovsxwdVdqWq,
    Opcode::PmovsxwqVdqWd,
    Opcode::PmovsxdqVdqWq,
    Opcode::PmovzxbwVdqWq,
    Opcode::PmovzxbdVdqWd,
    Opcode::PmovzxbqVdqWw,
    Opcode::PmovzxwdVdqWq,
    Opcode::PmovzxwqVdqWd,
    Opcode::PmovzxdqVdqWq,
    Opcode::PtestVdqWdq,
    Opcode::PmuldqVdqWdq,
    Opcode::PcmpeqqVdqWdq,
    Opcode::PackusdwVdqWdq,
    Opcode::PminsbVdqWdq,
    Opcode::PminsdVdqWdq,
    Opcode::PminuwVdqWdq,
    Opcode::PminudVdqWdq,
    Opcode::PmaxsbVdqWdq,
    Opcode::PmaxsdVdqWdq,
    Opcode::PmaxuwVdqWdq,
    Opcode::PmaxudVdqWdq,
    Opcode::PmulldVdqWdq,
    Opcode::PhminposuwVdqWdq,
    Opcode::RoundpsVpsWpsIb,
    Opcode::RoundpdVpdWpdIb,
    Opcode::RoundssVssWssIb,
    Opcode::RoundsdVsdWsdIb,
    Opcode::BlendpsVpsWpsIb,
    Opcode::BlendpdVpdWpdIb,
    Opcode::PblendwVdqWdqIb,
    Opcode::PextrbEdVdqIbR,
    Opcode::PextrbMbVdqIbM,
    Opcode::PextrwEdVdqIbR,
    Opcode::PextrwMwVdqIbM,
    Opcode::PextrdEdVdqIb,
    Opcode::PextrqEqVdqIb,
    Opcode::ExtractpsEdVpsIb,
    Opcode::PinsrbVdqEbIb,
    Opcode::InsertpsVpsWssIb,
    Opcode::PinsrdVdqEdIb,
    Opcode::PinsrqVdqEqIb,
    Opcode::DppsVpsWpsIb,
    Opcode::DppdVpdWpdIb,
    Opcode::MpsadbwVdqWdqIb,
    Opcode::MovntdqaVdqMdq,
    Opcode::Crc32GdEb,
    Opcode::Crc32GdEw,
    Opcode::Crc32GdEd,
    Opcode::Crc32GdEq,
    Opcode::PcmpgtqVdqWdq,
    Opcode::PcmpestrmVdqWdqIb,
    Opcode::PcmpestriVdqWdqIb,
    Opcode::PcmpistrmVdqWdqIb,
    Opcode::PcmpistriVdqWdqIb,
    Opcode::MovbeGwMw,
    Opcode::MovbeGdMd,
    Opcode::MovbeGqMq,
    Opcode::MovbeMwGw,
    Opcode::MovbeMdGd,
    Opcode::MovbeMqGq,
    Opcode::PopcntGwEw,
    Opcode::PopcntGdEd,
    Opcode::PopcntGqEq,
    Opcode::Xrstor,
    Opcode::Xsave,
    Opcode::Xsavec,
    Opcode::Xsetbv,
    Opcode::Xgetbv,
    Opcode::Xsaveopt,
    Opcode::Xsaves,
    Opcode::Xrstors,
    Opcode::AesimcVdqWdq,
    Opcode::AeskeygenassistVdqWdqIb,
    Opcode::AesencVdqWdq,
    Opcode::AesenclastVdqWdq,
    Opcode::AesdecVdqWdq,
    Opcode::AesdeclastVdqWdq,
    Opcode::PclmulqdqVdqWdqIb,
    Opcode::Sha1nexteVdqWdq,
    Opcode::Sha1msg1VdqWdq,
    Opcode::Sha1msg2VdqWdq,
    Opcode::Sha256rnds2VdqWdq,
    Opcode::Sha256msg1VdqWdq,
    Opcode::Sha256msg2VdqWdq,
    Opcode::Sha1rnds4VdqWdqIb,
    Opcode::Gf2p8affineqbVdqWdqIb,
    Opcode::Gf2p8affineinvqbVdqWdqIb,
    Opcode::Gf2p8mulbVdqWdq,
    Opcode::LahfLm,
    Opcode::SahfLm,
    Opcode::Syscall,
    Opcode::Sysret,
    Opcode::XorEqGqZeroIdiom,
    Opcode::XorGqEqZeroIdiom,
    Opcode::SubEqGqZeroIdiom,
    Opcode::SubGqEqZeroIdiom,
    Opcode::AddGqEq,
    Opcode::OrGqEq,
    Opcode::AdcGqEq,
    Opcode::SbbGqEq,
    Opcode::AndGqEq,
    Opcode::SubGqEq,
    Opcode::XorGqEq,
    Opcode::CmpGqEq,
    Opcode::AddEqGq,
    Opcode::OrEqGq,
    Opcode::AdcEqGq,
    Opcode::SbbEqGq,
    Opcode::AndEqGq,
    Opcode::SubEqGq,
    Opcode::XorEqGq,
    Opcode::TestEqGq,
    Opcode::CmpEqGq,
    Opcode::AddRaxid,
    Opcode::OrRaxid,
    Opcode::AdcRaxid,
    Opcode::SbbRaxid,
    Opcode::AndRaxid,
    Opcode::SubRaxid,
    Opcode::XorRaxid,
    Opcode::TestRaxid,
    Opcode::CmpRaxid,
    Opcode::AddEqId,
    Opcode::OrEqId,
    Opcode::AdcEqId,
    Opcode::SbbEqId,
    Opcode::AndEqId,
    Opcode::SubEqId,
    Opcode::XorEqId,
    Opcode::TestEqId,
    Opcode::CmpEqId,
    Opcode::AddEqsIb,
    Opcode::OrEqsIb,
    Opcode::AdcEqsIb,
    Opcode::SbbEqsIb,
    Opcode::AndEqsIb,
    Opcode::SubEqsIb,
    Opcode::XorEqsIb,
    Opcode::TestEqsIb,
    Opcode::CmpEqsIb,
    Opcode::XchgEqGq,
    Opcode::XchgRrxRax,
    Opcode::LeaGqM,
    Opcode::MovOp64GdEd,
    Opcode::MovOp64EdGd,
    Opcode::MovGqEq,
    Opcode::MovEqGq,
    Opcode::MovEqId,
    Opcode::MovRaxoq,
    Opcode::MovOqRax,
    Opcode::MovEaxoq,
    Opcode::MovOqEax,
    Opcode::MovAxoq,
    Opcode::MovOqAx,
    Opcode::MovAloq,
    Opcode::MovOqAl,
    Opcode::RepMovsqYqXq,
    Opcode::RepCmpsqXqYq,
    Opcode::RepStosqYqRax,
    Opcode::RepLodsqRaxxq,
    Opcode::RepScasqRaxyq,
    Opcode::CallJq,
    Opcode::JmpJq,
    Opcode::JmpJbq,
    Opcode::JoJq,
    Opcode::JnoJq,
    Opcode::JbJq,
    Opcode::JnbJq,
    Opcode::JzJq,
    Opcode::JnzJq,
    Opcode::JbeJq,
    Opcode::JnbeJq,
    Opcode::JsJq,
    Opcode::JnsJq,
    Opcode::JpJq,
    Opcode::JnpJq,
    Opcode::JlJq,
    Opcode::JnlJq,
    Opcode::JleJq,
    Opcode::JnleJq,
    Opcode::JoJbq,
    Opcode::JnoJbq,
    Opcode::JbJbq,
    Opcode::JnbJbq,
    Opcode::JzJbq,
    Opcode::JnzJbq,
    Opcode::JbeJbq,
    Opcode::JnbeJbq,
    Opcode::JsJbq,
    Opcode::JnsJbq,
    Opcode::JpJbq,
    Opcode::JnpJbq,
    Opcode::JlJbq,
    Opcode::JnlJbq,
    Opcode::JleJbq,
    Opcode::JnleJbq,
    Opcode::EnterOp64IwIb,
    Opcode::LeaveOp64,
    Opcode::IretOp64,
    Opcode::ShldEqGq,
    Opcode::ShldEqGqIb,
    Opcode::ShrdEqGq,
    Opcode::ShrdEqGqIb,
    Opcode::ImulGqEq,
    Opcode::ImulGqEqId,
    Opcode::ImulGqEqsIb,
    Opcode::MovzxGqEb,
    Opcode::MovzxGqEw,
    Opcode::MovsxGqEb,
    Opcode::MovsxGqEw,
    Opcode::MovsxdGqEd,
    Opcode::BswapRrx,
    Opcode::BsfGqEq,
    Opcode::BsrGqEq,
    Opcode::BtEqGq,
    Opcode::BtsEqGq,
    Opcode::BtrEqGq,
    Opcode::BtcEqGq,
    Opcode::BtEqIb,
    Opcode::BtsEqIb,
    Opcode::BtrEqIb,
    Opcode::BtcEqIb,
    Opcode::NotEq,
    Opcode::NegEq,
    Opcode::RolEq,
    Opcode::RorEq,
    Opcode::RclEq,
    Opcode::RcrEq,
    Opcode::ShlEq,
    Opcode::ShrEq,
    Opcode::SarEq,
    Opcode::RolEqIb,
    Opcode::RorEqIb,
    Opcode::RclEqIb,
    Opcode::RcrEqIb,
    Opcode::ShlEqIb,
    Opcode::ShrEqIb,
    Opcode::SarEqIb,
    Opcode::RolEqI1,
    Opcode::RorEqI1,
    Opcode::RclEqI1,
    Opcode::RcrEqI1,
    Opcode::ShlEqI1,
    Opcode::ShrEqI1,
    Opcode::SarEqI1,
    Opcode::MulRaxeq,
    Opcode::ImulRaxeq,
    Opcode::DivRaxeq,
    Opcode::IdivRaxeq,
    Opcode::IncEq,
    Opcode::DecEq,
    Opcode::CallEq,
    Opcode::CallfOp64Ep,
    Opcode::JmpEq,
    Opcode::JmpfOp64Ep,
    Opcode::PushfFq,
    Opcode::PopfFq,
    Opcode::CmpxchgEqGq,
    Opcode::Cdqe,
    Opcode::Cqo,
    Opcode::XaddEqGq,
    Opcode::RetOp64Iw,
    Opcode::RetOp64,
    Opcode::RetfOp64Iw,
    Opcode::RetfOp64,
    Opcode::CmovoGqEq,
    Opcode::CmovnoGqEq,
    Opcode::CmovbGqEq,
    Opcode::CmovnbGqEq,
    Opcode::CmovzGqEq,
    Opcode::CmovnzGqEq,
    Opcode::CmovbeGqEq,
    Opcode::CmovnbeGqEq,
    Opcode::CmovsGqEq,
    Opcode::CmovnsGqEq,
    Opcode::CmovpGqEq,
    Opcode::CmovnpGqEq,
    Opcode::CmovlGqEq,
    Opcode::CmovnlGqEq,
    Opcode::CmovleGqEq,
    Opcode::CmovnleGqEq,
    Opcode::PushEq,
    Opcode::PopEq,
    Opcode::PushOp64Id,
    Opcode::PushOp64SIb,
    Opcode::PushOp64Sw,
    Opcode::PopOp64Sw,
    Opcode::SgdtOp64Ms,
    Opcode::SidtOp64Ms,
    Opcode::LgdtOp64Ms,
    Opcode::LidtOp64Ms,
    Opcode::MovRrxiq,
    Opcode::LssGqMp,
    Opcode::LfsGqMp,
    Opcode::LgsGqMp,
    Opcode::CMPXCHG16B,
    Opcode::LoopneJbq,
    Opcode::LoopeJbq,
    Opcode::LoopJbq,
    Opcode::JrcxzJbq,
    Opcode::MovqEqVq,
    Opcode::MovqPqEq,
    Opcode::MovqVdqEq,
    Opcode::Cvtsi2ssVssEq,
    Opcode::Cvtsi2sdVsdEq,
    Opcode::Cvttss2siGqWss,
    Opcode::Cvttsd2siGqWsd,
    Opcode::Cvtss2siGqWss,
    Opcode::Cvtsd2siGqWsd,
    Opcode::MovntiOp64MdGd,
    Opcode::MovntiMqGq,
    Opcode::MovCr0rq,
    Opcode::MovCr2rq,
    Opcode::MovCr3rq,
    Opcode::MovCr4rq,
    Opcode::MovRqCr0,
    Opcode::MovRqCr2,
    Opcode::MovRqCr3,
    Opcode::MovRqCr4,
    Opcode::MovDqRq,
    Opcode::MovRqDq,
    Opcode::Swapgs,
    Opcode::RdfsbaseEd,
    Opcode::RdgsbaseEd,
    Opcode::RdfsbaseEq,
    Opcode::RdgsbaseEq,
    Opcode::WrfsbaseEd,
    Opcode::WrgsbaseEd,
    Opcode::WrfsbaseEq,
    Opcode::WrgsbaseEq,
    Opcode::Rdtscp,
    Opcode::VmxonMq,
    Opcode::Vmxoff,
    Opcode::Vmcall,
    Opcode::Vmlaunch,
    Opcode::Vmresume,
    Opcode::VmclearMq,
    Opcode::VmptrldMq,
    Opcode::VmptrstMq,
    Opcode::VmreadEdGd,
    Opcode::VmwriteGdEd,
    Opcode::VmreadEqGq,
    Opcode::VmwriteGqEq,
    Opcode::Invept,
    Opcode::Invvpid,
    Opcode::Vmfunc,
    Opcode::Getsec,
    Opcode::Vmrun,
    Opcode::Vmmcall,
    Opcode::Vmload,
    Opcode::Vmsave,
    Opcode::Stgi,
    Opcode::Clgi,
    Opcode::Skinit,
    Opcode::Invlpga,
    Opcode::Incsspd,
    Opcode::Incsspq,
    Opcode::Rdsspd,
    Opcode::Rdsspq,
    Opcode::Saveprevssp,
    Opcode::Rstorssp,
    Opcode::Wrssd,
    Opcode::Wrussd,
    Opcode::Wrssq,
    Opcode::Wrussq,
    Opcode::Setssbsy,
    Opcode::Clrssbsy,
    Opcode::Endbranch32,
    Opcode::Endbranch64,
    Opcode::Invpcid,
    Opcode::Rdpkru,
    Opcode::Wrpkru,
    Opcode::Clui,
    Opcode::Stui,
    Opcode::Testui,
    Opcode::Uiret,
    Opcode::SenduipiEq,
    Opcode::RdpidEd,
    Opcode::Serialize,
    Opcode::Wrmsrns,
    Opcode::Rdmsrlist,
    Opcode::Wrmsrlist,
    Opcode::Vzeroupper,
    Opcode::Vzeroall,
    Opcode::Vldmxcsr,
    Opcode::Vstmxcsr,
    Opcode::VmovapsVpsWps,
    Opcode::V128VmovapsWpsVps,
    Opcode::V256VmovapsWpsVps,
    Opcode::VmovapdVpdWpd,
    Opcode::V128VmovapdWpdVpd,
    Opcode::V256VmovapdWpdVpd,
    Opcode::VmovupsVpsWps,
    Opcode::V128VmovupsWpsVps,
    Opcode::V256VmovupsWpsVps,
    Opcode::VmovupdVpdWpd,
    Opcode::V128VmovupdWpdVpd,
    Opcode::V256VmovupdWpdVpd,
    Opcode::VmovdqaVdqWdq,
    Opcode::V128VmovdqaWdqVdq,
    Opcode::V256VmovdqaWdqVdq,
    Opcode::VmovdquVdqWdq,
    Opcode::V128VmovdquWdqVdq,
    Opcode::V256VmovdquWdqVdq,
    Opcode::V128VmovsdVsdHpdWsd,
    Opcode::V128VmovssVssHpsWss,
    Opcode::V128VmovsdWsdHpdVsd,
    Opcode::V128VmovssWssHpsVss,
    Opcode::V128VmovsdVsdWsd,
    Opcode::V128VmovssVssWss,
    Opcode::V128VmovsdWsdVsd,
    Opcode::V128VmovssWssVss,
    Opcode::V128VmovlpsVpsHpsMq,
    Opcode::V128VmovhlpsVpsHpsWps,
    Opcode::V128VmovhpsVpsHpsMq,
    Opcode::V128VmovlhpsVpsHpsWps,
    Opcode::V128VmovlpsMqVps,
    Opcode::V128VmovhpsMqVps,
    Opcode::V128VmovlpdMqVsd,
    Opcode::V128VmovhpdMqVsd,
    Opcode::V128VmovlpdVpdHpdMq,
    Opcode::V128VmovhpdVpdHpdMq,
    Opcode::V128VmovddupVpdWpd,
    Opcode::V256VmovddupVpdWpd,
    Opcode::VmovsldupVpsWps,
    Opcode::VmovshdupVpsWps,
    Opcode::VlddquVdqMdq,
    Opcode::V128VmovntdqaVdqMdq,
    Opcode::V256VmovntdqaVdqMdq,
    Opcode::V128VmovntpsMpsVps,
    Opcode::V256VmovntpsMpsVps,
    Opcode::V128VmovntpdMpdVpd,
    Opcode::V256VmovntpdMpdVpd,
    Opcode::V128VmovntdqMdqVdq,
    Opcode::V256VmovntdqMdqVdq,
    Opcode::VucomissVssWss,
    Opcode::VcomissVssWss,
    Opcode::VucomisdVsdWsd,
    Opcode::VcomisdVsdWsd,
    Opcode::VrsqrtssVssHpsWss,
    Opcode::VrsqrtpsVpsWps,
    Opcode::VrcpssVssHpsWss,
    Opcode::VrcppsVpsWps,
    Opcode::VandpsVpsHpsWps,
    Opcode::VandpdVpdHpdWpd,
    Opcode::VandnpsVpsHpsWps,
    Opcode::VandnpdVpdHpdWpd,
    Opcode::VorpsVpsHpsWps,
    Opcode::VorpdVpdHpdWpd,
    Opcode::VxorpsVpsHpsWps,
    Opcode::VxorpdVpdHpdWpd,
    Opcode::V128VpshufdVdqWdqIb,
    Opcode::V256VpshufdVdqWdqIb,
    Opcode::V128VpshufhwVdqWdqIb,
    Opcode::V256VpshufhwVdqWdqIb,
    Opcode::V128VpshuflwVdqWdqIb,
    Opcode::V256VpshuflwVdqWdqIb,
    Opcode::VhaddpdVpdHpdWpd,
    Opcode::VhaddpsVpsHpsWps,
    Opcode::VhsubpdVpdHpdWpd,
    Opcode::VhsubpsVpsHpsWps,
    Opcode::VshufpsVpsHpsWpsIb,
    Opcode::VshufpdVpdHpdWpdIb,
    Opcode::VaddsubpdVpdHpdWpd,
    Opcode::VaddsubpsVpsHpsWps,
    Opcode::VroundpsVpsWpsIb,
    Opcode::VroundpdVpdWpdIb,
    Opcode::VroundsdVsdHpdWsdIb,
    Opcode::VroundssVssHpsWssIb,
    Opcode::VdppsVpsHpsWpsIb,
    Opcode::VdppdVpdHpdWpdIb,
    Opcode::VaddpsVpsHpsWps,
    Opcode::VaddpdVpdHpdWpd,
    Opcode::VaddssVssHpsWss,
    Opcode::VaddsdVsdHpdWsd,
    Opcode::VmulpsVpsHpsWps,
    Opcode::VmulpdVpdHpdWpd,
    Opcode::VmulssVssHpsWss,
    Opcode::VmulsdVsdHpdWsd,
    Opcode::VsubpsVpsHpsWps,
    Opcode::VsubpdVpdHpdWpd,
    Opcode::VsubssVssHpsWss,
    Opcode::VsubsdVsdHpdWsd,
    Opcode::VdivpsVpsHpsWps,
    Opcode::VdivpdVpdHpdWpd,
    Opcode::VdivssVssHpsWss,
    Opcode::VdivsdVsdHpdWsd,
    Opcode::VmaxpsVpsHpsWps,
    Opcode::VmaxpdVpdHpdWpd,
    Opcode::VmaxssVssHpsWss,
    Opcode::VmaxsdVsdHpdWsd,
    Opcode::VminpsVpsHpsWps,
    Opcode::VminpdVpdHpdWpd,
    Opcode::VminssVssHpsWss,
    Opcode::VminsdVsdHpdWsd,
    Opcode::VsqrtpsVpsWps,
    Opcode::VsqrtpdVpdWpd,
    Opcode::VsqrtssVssHpsWss,
    Opcode::VsqrtsdVsdHpdWsd,
    Opcode::VcmppsVpsHpsWpsIb,
    Opcode::VcmppdVpdHpdWpdIb,
    Opcode::VcmpssVssHpsWssIb,
    Opcode::VcmpsdVsdHpdWsdIb,
    Opcode::V128VpsrlwVdqHdqWdq,
    Opcode::V256VpsrlwVdqHdqWdq,
    Opcode::V128VpsrldVdqHdqWdq,
    Opcode::V256VpsrldVdqHdqWdq,
    Opcode::V128VpsrlqVdqHdqWdq,
    Opcode::V256VpsrlqVdqHdqWdq,
    Opcode::V128VpsrawVdqHdqWdq,
    Opcode::V256VpsrawVdqHdqWdq,
    Opcode::V128VpsradVdqHdqWdq,
    Opcode::V256VpsradVdqHdqWdq,
    Opcode::V128VpsllwVdqHdqWdq,
    Opcode::V256VpsllwVdqHdqWdq,
    Opcode::V128VpslldVdqHdqWdq,
    Opcode::V256VpslldVdqHdqWdq,
    Opcode::V128VpsllqVdqHdqWdq,
    Opcode::V256VpsllqVdqHdqWdq,
    Opcode::V128VpsrlwUdqIb,
    Opcode::V256VpsrlwUdqIb,
    Opcode::V128VpsrawUdqIb,
    Opcode::V256VpsrawUdqIb,
    Opcode::V128VpsllwUdqIb,
    Opcode::V256VpsllwUdqIb,
    Opcode::V128VpsrldUdqIb,
    Opcode::V256VpsrldUdqIb,
    Opcode::V128VpsradUdqIb,
    Opcode::V256VpsradUdqIb,
    Opcode::V128VpslldUdqIb,
    Opcode::V256VpslldUdqIb,
    Opcode::V128VpsrlqUdqIb,
    Opcode::V256VpsrlqUdqIb,
    Opcode::V128VpsllqUdqIb,
    Opcode::V256VpsllqUdqIb,
    Opcode::V128VpsrldqUdqIb,
    Opcode::V256VpsrldqUdqIb,
    Opcode::V128VpslldqUdqIb,
    Opcode::V256VpslldqUdqIb,
    Opcode::V128VpmovmskbGdUdq,
    Opcode::V256VpmovmskbGdUdq,
    Opcode::VmovmskpsGdUps,
    Opcode::VmovmskpdGdUpd,
    Opcode::VunpcklpdVpdHpdWpd,
    Opcode::VunpckhpdVpdHpdWpd,
    Opcode::VunpcklpsVpsHpsWps,
    Opcode::VunpckhpsVpsHpsWps,
    Opcode::V128VpunpckhdqVdqHdqWdq,
    Opcode::V256VpunpckhdqVdqHdqWdq,
    Opcode::V128VpunpckldqVdqHdqWdq,
    Opcode::V256VpunpckldqVdqHdqWdq,
    Opcode::V128VpunpcklbwVdqHdqWdq,
    Opcode::V256VpunpcklbwVdqHdqWdq,
    Opcode::V128VpunpcklwdVdqHdqWdq,
    Opcode::V256VpunpcklwdVdqHdqWdq,
    Opcode::V128VpunpckhbwVdqHdqWdq,
    Opcode::V256VpunpckhbwVdqHdqWdq,
    Opcode::V128VpunpckhwdVdqHdqWdq,
    Opcode::V256VpunpckhwdVdqHdqWdq,
    Opcode::V128VpunpcklqdqVdqHdqWdq,
    Opcode::V256VpunpcklqdqVdqHdqWdq,
    Opcode::V128VpunpckhqdqVdqHdqWdq,
    Opcode::V256VpunpckhqdqVdqHdqWdq,
    Opcode::V128VpcmpeqbVdqHdqWdq,
    Opcode::V256VpcmpeqbVdqHdqWdq,
    Opcode::V128VpcmpeqwVdqHdqWdq,
    Opcode::V256VpcmpeqwVdqHdqWdq,
    Opcode::V128VpcmpeqdVdqHdqWdq,
    Opcode::V256VpcmpeqdVdqHdqWdq,
    Opcode::V128VpcmpeqqVdqHdqWdq,
    Opcode::V256VpcmpeqqVdqHdqWdq,
    Opcode::V128VpcmpgtbVdqHdqWdq,
    Opcode::V256VpcmpgtbVdqHdqWdq,
    Opcode::V128VpcmpgtwVdqHdqWdq,
    Opcode::V256VpcmpgtwVdqHdqWdq,
    Opcode::V128VpcmpgtdVdqHdqWdq,
    Opcode::V256VpcmpgtdVdqHdqWdq,
    Opcode::V128VpcmpgtqVdqHdqWdq,
    Opcode::V256VpcmpgtqVdqHdqWdq,
    Opcode::V128VpsubsbVdqHdqWdq,
    Opcode::V256VpsubsbVdqHdqWdq,
    Opcode::V128VpsubswVdqHdqWdq,
    Opcode::V256VpsubswVdqHdqWdq,
    Opcode::V128VpaddsbVdqHdqWdq,
    Opcode::V256VpaddsbVdqHdqWdq,
    Opcode::V128VpaddswVdqHdqWdq,
    Opcode::V256VpaddswVdqHdqWdq,
    Opcode::V128VpsubusbVdqHdqWdq,
    Opcode::V256VpsubusbVdqHdqWdq,
    Opcode::V128VpsubuswVdqHdqWdq,
    Opcode::V256VpsubuswVdqHdqWdq,
    Opcode::V128VpaddusbVdqHdqWdq,
    Opcode::V256VpaddusbVdqHdqWdq,
    Opcode::V128VpadduswVdqHdqWdq,
    Opcode::V256VpadduswVdqHdqWdq,
    Opcode::V128VpavgbVdqWdq,
    Opcode::V256VpavgbVdqWdq,
    Opcode::V128VpavgwVdqWdq,
    Opcode::V256VpavgwVdqWdq,
    Opcode::V128VpandnVdqHdqWdq,
    Opcode::V256VpandnVdqHdqWdq,
    Opcode::V128VpandVdqHdqWdq,
    Opcode::V256VpandVdqHdqWdq,
    Opcode::V128VporVdqHdqWdq,
    Opcode::V256VporVdqHdqWdq,
    Opcode::V128VpxorVdqHdqWdq,
    Opcode::V256VpxorVdqHdqWdq,
    Opcode::V128VpmulhrswVdqHdqWdq,
    Opcode::V256VpmulhrswVdqHdqWdq,
    Opcode::V128VpmuldqVdqHdqWdq,
    Opcode::V256VpmuldqVdqHdqWdq,
    Opcode::V128VpmuludqVdqHdqWdq,
    Opcode::V256VpmuludqVdqHdqWdq,
    Opcode::V128VpmulldVdqHdqWdq,
    Opcode::V256VpmulldVdqHdqWdq,
    Opcode::V128VpmullwVdqHdqWdq,
    Opcode::V256VpmullwVdqHdqWdq,
    Opcode::V128VpmulhwVdqHdqWdq,
    Opcode::V256VpmulhwVdqHdqWdq,
    Opcode::V128VpmulhuwVdqHdqWdq,
    Opcode::V256VpmulhuwVdqHdqWdq,
    Opcode::V128VpsadbwVdqHdqWdq,
    Opcode::V256VpsadbwVdqHdqWdq,
    Opcode::V128VmaskmovdquVdqUdq,
    Opcode::V128VpsubbVdqHdqWdq,
    Opcode::V256VpsubbVdqHdqWdq,
    Opcode::V128VpsubwVdqHdqWdq,
    Opcode::V256VpsubwVdqHdqWdq,
    Opcode::V128VpsubdVdqHdqWdq,
    Opcode::V256VpsubdVdqHdqWdq,
    Opcode::V128VpsubqVdqHdqWdq,
    Opcode::V256VpsubqVdqHdqWdq,
    Opcode::V128VpaddbVdqHdqWdq,
    Opcode::V256VpaddbVdqHdqWdq,
    Opcode::V128VpaddwVdqHdqWdq,
    Opcode::V256VpaddwVdqHdqWdq,
    Opcode::V128VpadddVdqHdqWdq,
    Opcode::V256VpadddVdqHdqWdq,
    Opcode::V128VpaddqVdqHdqWdq,
    Opcode::V256VpaddqVdqHdqWdq,
    Opcode::V128VpshufbVdqHdqWdq,
    Opcode::V256VpshufbVdqHdqWdq,
    Opcode::V128VphaddwVdqHdqWdq,
    Opcode::V256VphaddwVdqHdqWdq,
    Opcode::V128VphadddVdqHdqWdq,
    Opcode::V256VphadddVdqHdqWdq,
    Opcode::V128VphsubwVdqHdqWdq,
    Opcode::V256VphsubwVdqHdqWdq,
    Opcode::V128VphsubdVdqHdqWdq,
    Opcode::V256VphsubdVdqHdqWdq,
    Opcode::V128VphaddswVdqHdqWdq,
    Opcode::V256VphaddswVdqHdqWdq,
    Opcode::V128VphsubswVdqHdqWdq,
    Opcode::V256VphsubswVdqHdqWdq,
    Opcode::V128VpmaddwdVdqHdqWdq,
    Opcode::V256VpmaddwdVdqHdqWdq,
    Opcode::V128VpmaddubswVdqHdqWdq,
    Opcode::V256VpmaddubswVdqHdqWdq,
    Opcode::V128VpsignbVdqHdqWdq,
    Opcode::V256VpsignbVdqHdqWdq,
    Opcode::V128VpsignwVdqHdqWdq,
    Opcode::V256VpsignwVdqHdqWdq,
    Opcode::V128VpsigndVdqHdqWdq,
    Opcode::V256VpsigndVdqHdqWdq,
    Opcode::VtestpsVpsWps,
    Opcode::VtestpdVpdWpd,
    Opcode::VptestVdqWdq,
    Opcode::VbroadcastssVpsMss,
    Opcode::V256VbroadcastsdVpdMsd,
    Opcode::V256Vbroadcastf128VdqMdq,
    Opcode::V128VpabsbVdqWdq,
    Opcode::V256VpabsbVdqWdq,
    Opcode::V128VpabswVdqWdq,
    Opcode::V256VpabswVdqWdq,
    Opcode::V128VpabsdVdqWdq,
    Opcode::V256VpabsdVdqWdq,
    Opcode::V128VpacksswbVdqHdqWdq,
    Opcode::V256VpacksswbVdqHdqWdq,
    Opcode::V128VpackuswbVdqHdqWdq,
    Opcode::V256VpackuswbVdqHdqWdq,
    Opcode::V128VpackusdwVdqHdqWdq,
    Opcode::V256VpackusdwVdqHdqWdq,
    Opcode::V128VpackssdwVdqHdqWdq,
    Opcode::V256VpackssdwVdqHdqWdq,
    Opcode::VmaskmovpsVpsHpsMps,
    Opcode::VmaskmovpdVpdHpdMpd,
    Opcode::VmaskmovpsMpsHpsVps,
    Opcode::VmaskmovpdMpdHpdVpd,
    Opcode::V128VpmovsxbwVdqWq,
    Opcode::V128VpmovsxbdVdqWd,
    Opcode::V128VpmovsxbqVdqWw,
    Opcode::V128VpmovsxwdVdqWq,
    Opcode::V128VpmovsxwqVdqWd,
    Opcode::V128VpmovsxdqVdqWq,
    Opcode::V128VpmovzxbwVdqWq,
    Opcode::V128VpmovzxbdVdqWd,
    Opcode::V128VpmovzxbqVdqWw,
    Opcode::V128VpmovzxwdVdqWq,
    Opcode::V128VpmovzxwqVdqWd,
    Opcode::V128VpmovzxdqVdqWq,
    Opcode::V128VpminsbVdqHdqWdq,
    Opcode::V256VpminsbVdqHdqWdq,
    Opcode::V128VpminswVdqHdqWdq,
    Opcode::V256VpminswVdqHdqWdq,
    Opcode::V128VpminsdVdqHdqWdq,
    Opcode::V256VpminsdVdqHdqWdq,
    Opcode::V128VpminubVdqHdqWdq,
    Opcode::V256VpminubVdqHdqWdq,
    Opcode::V128VpminuwVdqHdqWdq,
    Opcode::V256VpminuwVdqHdqWdq,
    Opcode::V128VpminudVdqHdqWdq,
    Opcode::V256VpminudVdqHdqWdq,
    Opcode::V128VpmaxsbVdqHdqWdq,
    Opcode::V256VpmaxsbVdqHdqWdq,
    Opcode::V128VpmaxswVdqHdqWdq,
    Opcode::V256VpmaxswVdqHdqWdq,
    Opcode::V128VpmaxsdVdqHdqWdq,
    Opcode::V256VpmaxsdVdqHdqWdq,
    Opcode::V128VpmaxubVdqHdqWdq,
    Opcode::V256VpmaxubVdqHdqWdq,
    Opcode::V128VpmaxuwVdqHdqWdq,
    Opcode::V256VpmaxuwVdqHdqWdq,
    Opcode::V128VpmaxudVdqHdqWdq,
    Opcode::V256VpmaxudVdqHdqWdq,
    Opcode::V128VphminposuwVdqWdq,
    Opcode::VpermilpsVpsHpsWps,
    Opcode::VpermilpdVpdHpdWpd,
    Opcode::VpermilpsVpsWpsIb,
    Opcode::VpermilpdVpdWpdIb,
    Opcode::VblendpsVpsHpsWpsIb,
    Opcode::VblendpdVpdHpdWpdIb,
    Opcode::V128VpblendwVdqHdqWdqIb,
    Opcode::V256VpblendwVdqHdqWdqIb,
    Opcode::V128VpalignrVdqHdqWdqIb,
    Opcode::V256VpalignrVdqHdqWdqIb,
    Opcode::V128VinsertpsVpsWssIb,
    Opcode::V128VextractpsEdVpsIb,
    Opcode::V256Vperm2f128VdqHdqWdqIb,
    Opcode::V256Vinsertf128VdqHdqWdqIb,
    Opcode::V256Vextractf128WdqVdqIb,
    Opcode::VblendvpsVpsHpsWpsIb,
    Opcode::VblendvpdVpdHpdWpdIb,
    Opcode::V128VpblendvbVdqHdqWdqIb,
    Opcode::V256VpblendvbVdqHdqWdqIb,
    Opcode::V128VmpsadbwVdqHdqWdqIb,
    Opcode::V256VmpsadbwVdqHdqWdqIb,
    Opcode::V128VpcmpestrmVdqWdqIb,
    Opcode::V128VpcmpestriVdqWdqIb,
    Opcode::V128VpcmpistrmVdqWdqIb,
    Opcode::V128VpcmpistriVdqWdqIb,
    Opcode::V128VaesimcVdqWdq,
    Opcode::V128VaeskeygenassistVdqWdqIb,
    Opcode::V128VaesencVdqHdqWdq,
    Opcode::V128VaesenclastVdqHdqWdq,
    Opcode::V128VaesdecVdqHdqWdq,
    Opcode::V128VaesdeclastVdqHdqWdq,
    Opcode::V128VpclmulqdqVdqHdqWdqIb,
    Opcode::V256VaesencVdqHdqWdq,
    Opcode::V256VaesenclastVdqHdqWdq,
    Opcode::V256VaesdecVdqHdqWdq,
    Opcode::V256VaesdeclastVdqHdqWdq,
    Opcode::V256VpclmulqdqVdqHdqWdqIb,
    Opcode::Vgf2p8affineqbVdqHdqWdqIb,
    Opcode::Vgf2p8affineinvqbVdqHdqWdqIb,
    Opcode::Vgf2p8mulbVdqHdqWdq,
    Opcode::Vsm3msg1VdqHdqWdq,
    Opcode::Vsm3msg2VdqHdqWdq,
    Opcode::Vsm3rnds2VdqHdqWdqIb,
    Opcode::Vsm4key4VdqHdqWdq,
    Opcode::Vsm4rnds4VdqHdqWdq,
    Opcode::Vsha512msg1VdqWdq,
    Opcode::Vsha512msg2VdqWdq,
    Opcode::Vsha512rnds2VdqHdqWdq,
    Opcode::V128VmovdVdqEd,
    Opcode::V128VmovqVdqEq,
    Opcode::V128VmovdEdVd,
    Opcode::V128VmovqEqVq,
    Opcode::V128VpinsrbVdqEbIb,
    Opcode::V128VpinsrwVdqEwIb,
    Opcode::V128VpextrwGdUdqIb,
    Opcode::V128VpextrbEdVdqIbR,
    Opcode::V128VpextrbMbVdqIbM,
    Opcode::V128VpextrwEdVdqIbR,
    Opcode::V128VpextrwMwVdqIbM,
    Opcode::V128VpinsrdVdqEdIb,
    Opcode::V128VpinsrqVdqEqIb,
    Opcode::V128VpextrdEdVdqIb,
    Opcode::V128VpextrqEqVdqIb,
    Opcode::Vcvtps2pdVpdWps,
    Opcode::Vcvttpd2dqVdqWpd,
    Opcode::Vcvtpd2dqVdqWpd,
    Opcode::Vcvtdq2pdVpdWdq,
    Opcode::Vcvtpd2psVpsWpd,
    Opcode::Vcvtsd2ssVssWsd,
    Opcode::Vcvtss2sdVsdWss,
    Opcode::Vcvtdq2psVpsWdq,
    Opcode::Vcvtps2dqVdqWps,
    Opcode::Vcvttps2dqVdqWps,
    Opcode::Vcvtss2siGdWss,
    Opcode::Vcvtss2siGqWss,
    Opcode::Vcvtsd2siGdWsd,
    Opcode::Vcvtsd2siGqWsd,
    Opcode::Vcvttss2siGdWss,
    Opcode::Vcvttss2siGqWss,
    Opcode::Vcvttsd2siGdWsd,
    Opcode::Vcvttsd2siGqWsd,
    Opcode::Vcvtsi2ssVssEd,
    Opcode::Vcvtsi2ssVssEq,
    Opcode::Vcvtsi2sdVsdEd,
    Opcode::Vcvtsi2sdVsdEq,
    Opcode::VmovqWqVq,
    Opcode::VmovqVqWq,
    Opcode::Vcvtph2psVpsWps,
    Opcode::Vcvtps2phWpsVpsIb,
    Opcode::V256VpmovsxbwVdqWdq,
    Opcode::V256VpmovsxbdVdqWq,
    Opcode::V256VpmovsxbqVdqWd,
    Opcode::V256VpmovsxwdVdqWdq,
    Opcode::V256VpmovsxwqVdqWq,
    Opcode::V256VpmovsxdqVdqWdq,
    Opcode::V256VpmovzxbwVdqWdq,
    Opcode::V256VpmovzxbdVdqWq,
    Opcode::V256VpmovzxbqVdqWd,
    Opcode::V256VpmovzxwdVdqWdq,
    Opcode::V256VpmovzxwqVdqWq,
    Opcode::V256VpmovzxdqVdqWdq,
    Opcode::V256Vperm2i128VdqHdqWdqIb,
    Opcode::V256Vinserti128VdqHdqWdqIb,
    Opcode::V256Vextracti128WdqVdqIb,
    Opcode::V256Vbroadcasti128VdqMdq,
    Opcode::VpbroadcastbVdqWb,
    Opcode::VpbroadcastwVdqWw,
    Opcode::VpbroadcastdVdqWd,
    Opcode::VpbroadcastqVdqWq,
    Opcode::VbroadcastssVpsWss,
    Opcode::V256VbroadcastsdVpdWsd,
    Opcode::VpblenddVdqHdqWdqIb,
    Opcode::VmaskmovdVdqHdqMdq,
    Opcode::VmaskmovqVdqHdqMdq,
    Opcode::VmaskmovdMdqHdqVdq,
    Opcode::VmaskmovqMdqHdqVdq,
    Opcode::VgatherdpsVpsHps,
    Opcode::VgatherdpdVpdHpd,
    Opcode::VgatherqpsVpsHps,
    Opcode::VgatherqpdVpdHpd,
    Opcode::VgatherddVdqHdq,
    Opcode::VgatherdqVdqHdq,
    Opcode::VgatherqdVdqHdq,
    Opcode::VgatherqqVdqHdq,
    Opcode::VpsrlvdVdqHdqWdq,
    Opcode::VpsrlvqVdqHdqWdq,
    Opcode::VpsllvdVdqHdqWdq,
    Opcode::VpsllvqVdqHdqWdq,
    Opcode::V256VpermqVdqWdqIb,
    Opcode::V256VpermdVdqHdqWdq,
    Opcode::V256VpermpsVpsHpsWps,
    Opcode::V256VpermpdVpdWpdIb,
    Opcode::VpsravdVdqHdqWdq,
    Opcode::Vfmadd132psVpsHpsWps,
    Opcode::Vfmadd132pdVpdHpdWpd,
    Opcode::Vfmadd213psVpsHpsWps,
    Opcode::Vfmadd213pdVpdHpdWpd,
    Opcode::Vfmadd231psVpsHpsWps,
    Opcode::Vfmadd231pdVpdHpdWpd,
    Opcode::Vfmadd132ssVpsHssWss,
    Opcode::Vfmadd132sdVpdHsdWsd,
    Opcode::Vfmadd213ssVpsHssWss,
    Opcode::Vfmadd213sdVpdHsdWsd,
    Opcode::Vfmadd231ssVpsHssWss,
    Opcode::Vfmadd231sdVpdHsdWsd,
    Opcode::Vfmaddsub132psVpsHpsWps,
    Opcode::Vfmaddsub132pdVpdHpdWpd,
    Opcode::Vfmaddsub213psVpsHpsWps,
    Opcode::Vfmaddsub213pdVpdHpdWpd,
    Opcode::Vfmaddsub231psVpsHpsWps,
    Opcode::Vfmaddsub231pdVpdHpdWpd,
    Opcode::Vfmsubadd132psVpsHpsWps,
    Opcode::Vfmsubadd132pdVpdHpdWpd,
    Opcode::Vfmsubadd213psVpsHpsWps,
    Opcode::Vfmsubadd213pdVpdHpdWpd,
    Opcode::Vfmsubadd231psVpsHpsWps,
    Opcode::Vfmsubadd231pdVpdHpdWpd,
    Opcode::Vfmsub132psVpsHpsWps,
    Opcode::Vfmsub132pdVpdHpdWpd,
    Opcode::Vfmsub213psVpsHpsWps,
    Opcode::Vfmsub213pdVpdHpdWpd,
    Opcode::Vfmsub231psVpsHpsWps,
    Opcode::Vfmsub231pdVpdHpdWpd,
    Opcode::Vfmsub132ssVpsHssWss,
    Opcode::Vfmsub132sdVpdHsdWsd,
    Opcode::Vfmsub213ssVpsHssWss,
    Opcode::Vfmsub213sdVpdHsdWsd,
    Opcode::Vfmsub231ssVpsHssWss,
    Opcode::Vfmsub231sdVpdHsdWsd,
    Opcode::Vfnmadd132psVpsHpsWps,
    Opcode::Vfnmadd132pdVpdHpdWpd,
    Opcode::Vfnmadd213psVpsHpsWps,
    Opcode::Vfnmadd213pdVpdHpdWpd,
    Opcode::Vfnmadd231psVpsHpsWps,
    Opcode::Vfnmadd231pdVpdHpdWpd,
    Opcode::Vfnmadd132ssVpsHssWss,
    Opcode::Vfnmadd132sdVpdHsdWsd,
    Opcode::Vfnmadd213ssVpsHssWss,
    Opcode::Vfnmadd213sdVpdHsdWsd,
    Opcode::Vfnmadd231ssVpsHssWss,
    Opcode::Vfnmadd231sdVpdHsdWsd,
    Opcode::Vfnmsub132psVpsHpsWps,
    Opcode::Vfnmsub132pdVpdHpdWpd,
    Opcode::Vfnmsub213psVpsHpsWps,
    Opcode::Vfnmsub213pdVpdHpdWpd,
    Opcode::Vfnmsub231psVpsHpsWps,
    Opcode::Vfnmsub231pdVpdHpdWpd,
    Opcode::Vfnmsub132ssVpsHssWss,
    Opcode::Vfnmsub132sdVpdHsdWsd,
    Opcode::Vfnmsub213ssVpsHssWss,
    Opcode::Vfnmsub213sdVpdHsdWsd,
    Opcode::Vfnmsub231ssVpsHssWss,
    Opcode::Vfnmsub231sdVpdHsdWsd,
    Opcode::VpdpbusdVdqHdqWdq,
    Opcode::VpdpbusdsVdqHdqWdq,
    Opcode::VpdpwssdVdqHdqWdq,
    Opcode::VpdpwssdsVdqHdqWdq,
    Opcode::Vpmadd52luqVdqHdqWdq,
    Opcode::Vpmadd52huqVdqHdqWdq,
    Opcode::VpdpbssdVdqHdqWdq,
    Opcode::VpdpbssdsVdqHdqWdq,
    Opcode::VpdpbsudVdqHdqWdq,
    Opcode::VpdpbsudsVdqHdqWdq,
    Opcode::VpdpbuudVdqHdqWdq,
    Opcode::VpdpbuudsVdqHdqWdq,
    Opcode::VpdpwsudVdqHdqWdq,
    Opcode::VpdpwsudsVdqHdqWdq,
    Opcode::VpdpwusdVdqHdqWdq,
    Opcode::VpdpwusdsVdqHdqWdq,
    Opcode::VpdpwuudVdqHdqWdq,
    Opcode::VpdpwuudsVdqHdqWdq,
    Opcode::Vbcstnebf162psVpsWw,
    Opcode::Vbcstnesh2psVpsWsh,
    Opcode::Vcvtneeph2psVpsWph,
    Opcode::Vcvtneoph2psVpsWph,
    Opcode::Vcvtneebf162psVpsWph,
    Opcode::Vcvtneobf162psVpsWph,
    Opcode::Vcvtneps2bf16VphWps,
    Opcode::AndnGdBdEd,
    Opcode::AndnGqBqEq,
    Opcode::BlsiBdEd,
    Opcode::BlsiBqEq,
    Opcode::BlsmskBdEd,
    Opcode::BlsmskBqEq,
    Opcode::BlsrBdEd,
    Opcode::BlsrBqEq,
    Opcode::BextrGdEdBd,
    Opcode::BextrGqEqBq,
    Opcode::MulxGdBdEd,
    Opcode::MulxGqBqEq,
    Opcode::RorxGdEdIb,
    Opcode::RorxGqEqIb,
    Opcode::ShlxGdEdBd,
    Opcode::ShlxGqEqBq,
    Opcode::ShrxGdEdBd,
    Opcode::ShrxGqEqBq,
    Opcode::SarxGdEdBd,
    Opcode::SarxGqEqBq,
    Opcode::BzhiGdBdEd,
    Opcode::BzhiGqBqEq,
    Opcode::PextGdBdEd,
    Opcode::PextGqBqEq,
    Opcode::PdepGdBdEd,
    Opcode::PdepGqBqEq,
    Opcode::CmpbexaddEdGdBd,
    Opcode::CmpbexaddEqGqBq,
    Opcode::CmpbxaddEdGdBd,
    Opcode::CmpbxaddEqGqBq,
    Opcode::CmplexaddEdGdBd,
    Opcode::CmplexaddEqGqBq,
    Opcode::CmplxaddEdGdBd,
    Opcode::CmplxaddEqGqBq,
    Opcode::CmpnbexaddEdGdBd,
    Opcode::CmpnbexaddEqGqBq,
    Opcode::CmpnbxaddEdGdBd,
    Opcode::CmpnbxaddEqGqBq,
    Opcode::CmpnlexaddEdGdBd,
    Opcode::CmpnlexaddEqGqBq,
    Opcode::CmpnlxaddEdGdBd,
    Opcode::CmpnlxaddEqGqBq,
    Opcode::CmpnoxaddEdGdBd,
    Opcode::CmpnoxaddEqGqBq,
    Opcode::CmpnpxaddEdGdBd,
    Opcode::CmpnpxaddEqGqBq,
    Opcode::CmpnsxaddEdGdBd,
    Opcode::CmpnsxaddEqGqBq,
    Opcode::CmpnzxaddEdGdBd,
    Opcode::CmpnzxaddEqGqBq,
    Opcode::CmpoxaddEdGdBd,
    Opcode::CmpoxaddEqGqBq,
    Opcode::CmppxaddEdGdBd,
    Opcode::CmppxaddEqGqBq,
    Opcode::CmpsxaddEdGdBd,
    Opcode::CmpsxaddEqGqBq,
    Opcode::CmpzxaddEdGdBd,
    Opcode::CmpzxaddEqGqBq,
    Opcode::VfmaddsubpsVpsHpsVibWps,
    Opcode::VfmaddsubpsVpsHpsWpsVib,
    Opcode::VfmaddsubpdVpdHpdVibWpd,
    Opcode::VfmaddsubpdVpdHpdWpdVib,
    Opcode::VfmsubaddpsVpsHpsVibWps,
    Opcode::VfmsubaddpsVpsHpsWpsVib,
    Opcode::VfmsubaddpdVpdHpdVibWpd,
    Opcode::VfmsubaddpdVpdHpdWpdVib,
    Opcode::VfmaddpsVpsHpsVibWps,
    Opcode::VfmaddpsVpsHpsWpsVib,
    Opcode::VfmaddpdVpdHpdVibWpd,
    Opcode::VfmaddpdVpdHpdWpdVib,
    Opcode::VfmaddssVssHssVibWss,
    Opcode::VfmaddssVssHssWssVib,
    Opcode::VfmaddsdVsdHsdVibWsd,
    Opcode::VfmaddsdVsdHsdWsdVib,
    Opcode::VfmsubpsVpsHpsVibWps,
    Opcode::VfmsubpsVpsHpsWpsVib,
    Opcode::VfmsubpdVpdHpdVibWpd,
    Opcode::VfmsubpdVpdHpdWpdVib,
    Opcode::VfmsubssVssHssVibWss,
    Opcode::VfmsubssVssHssWssVib,
    Opcode::VfmsubsdVsdHsdVibWsd,
    Opcode::VfmsubsdVsdHsdWsdVib,
    Opcode::VfnmaddpsVpsHpsVibWps,
    Opcode::VfnmaddpsVpsHpsWpsVib,
    Opcode::VfnmaddpdVpdHpdVibWpd,
    Opcode::VfnmaddpdVpdHpdWpdVib,
    Opcode::VfnmaddssVssHssVibWss,
    Opcode::VfnmaddssVssHssWssVib,
    Opcode::VfnmaddsdVsdHsdVibWsd,
    Opcode::VfnmaddsdVsdHsdWsdVib,
    Opcode::VfnmsubpsVpsHpsVibWps,
    Opcode::VfnmsubpsVpsHpsWpsVib,
    Opcode::VfnmsubpdVpdHpdVibWpd,
    Opcode::VfnmsubpdVpdHpdWpdVib,
    Opcode::VfnmsubssVssHssVibWss,
    Opcode::VfnmsubssVssHssWssVib,
    Opcode::VfnmsubsdVsdHsdVibWsd,
    Opcode::VfnmsubsdVsdHsdWsdVib,
    Opcode::VpcmovVdqHdqVibWdq,
    Opcode::VpcmovVdqHdqWdqVib,
    Opcode::VppermVdqHdqVibWdq,
    Opcode::VppermVdqHdqWdqVib,
    Opcode::Vpermil2psVdqHdqVibWdq,
    Opcode::Vpermil2psVdqHdqWdqVib,
    Opcode::Vpermil2pdVdqHdqVibWdq,
    Opcode::Vpermil2pdVdqHdqWdqVib,
    Opcode::VpshabVdqHdqWdq,
    Opcode::VpshabVdqWdqHdq,
    Opcode::VpshawVdqHdqWdq,
    Opcode::VpshawVdqWdqHdq,
    Opcode::VpshadVdqHdqWdq,
    Opcode::VpshadVdqWdqHdq,
    Opcode::VpshaqVdqHdqWdq,
    Opcode::VpshaqVdqWdqHdq,
    Opcode::VprotbVdqHdqWdq,
    Opcode::VprotbVdqWdqHdq,
    Opcode::VprotwVdqHdqWdq,
    Opcode::VprotwVdqWdqHdq,
    Opcode::VprotdVdqHdqWdq,
    Opcode::VprotdVdqWdqHdq,
    Opcode::VprotqVdqHdqWdq,
    Opcode::VprotqVdqWdqHdq,
    Opcode::VpshlbVdqHdqWdq,
    Opcode::VpshlbVdqWdqHdq,
    Opcode::VpshlwVdqHdqWdq,
    Opcode::VpshlwVdqWdqHdq,
    Opcode::VpshldVdqHdqWdq,
    Opcode::VpshldVdqWdqHdq,
    Opcode::VpshlqVdqHdqWdq,
    Opcode::VpshlqVdqWdqHdq,
    Opcode::VpmacsswwVdqHdqWdqVib,
    Opcode::VpmacsswdVdqHdqWdqVib,
    Opcode::VpmacssdqlVdqHdqWdqVib,
    Opcode::VpmacssddVdqHdqWdqVib,
    Opcode::VpmacssdqhVdqHdqWdqVib,
    Opcode::VpmacswwVdqHdqWdqVib,
    Opcode::VpmacswdVdqHdqWdqVib,
    Opcode::VpmacsdqlVdqHdqWdqVib,
    Opcode::VpmacsddVdqHdqWdqVib,
    Opcode::VpmacsdqhVdqHdqWdqVib,
    Opcode::VpmadcsswdVdqHdqWdqVib,
    Opcode::VpmadcswdVdqHdqWdqVib,
    Opcode::VprotbVdqWdqIb,
    Opcode::VprotwVdqWdqIb,
    Opcode::VprotdVdqWdqIb,
    Opcode::VprotqVdqWdqIb,
    Opcode::VpcombVdqHdqWdqIb,
    Opcode::VpcomwVdqHdqWdqIb,
    Opcode::VpcomdVdqHdqWdqIb,
    Opcode::VpcomqVdqHdqWdqIb,
    Opcode::VpcomubVdqHdqWdqIb,
    Opcode::VpcomuwVdqHdqWdqIb,
    Opcode::VpcomudVdqHdqWdqIb,
    Opcode::VpcomuqVdqHdqWdqIb,
    Opcode::VfrczpsVpsWps,
    Opcode::VfrczpdVpdWpd,
    Opcode::VfrczssVssWss,
    Opcode::VfrczsdVsdWsd,
    Opcode::VphaddbwVdqWdq,
    Opcode::VphaddbdVdqWdq,
    Opcode::VphaddbqVdqWdq,
    Opcode::VphaddwdVdqWdq,
    Opcode::VphaddwqVdqWdq,
    Opcode::VphadddqVdqWdq,
    Opcode::VphaddubwVdqWdq,
    Opcode::VphaddubdVdqWdq,
    Opcode::VphaddubqVdqWdq,
    Opcode::VphadduwdVdqWdq,
    Opcode::VphadduwqVdqWdq,
    Opcode::VphaddudqVdqWdq,
    Opcode::VphsubbwVdqWdq,
    Opcode::VphsubwdVdqWdq,
    Opcode::VphsubdqVdqWdq,
    Opcode::BextrGdEdId,
    Opcode::BextrGqEqId,
    Opcode::BlcfillBdEd,
    Opcode::BlcfillBqEq,
    Opcode::BlciBdEd,
    Opcode::BlciBqEq,
    Opcode::BlcicBdEd,
    Opcode::BlcicBqEq,
    Opcode::BlcmskBdEd,
    Opcode::BlcmskBqEq,
    Opcode::BlcsBdEd,
    Opcode::BlcsBqEq,
    Opcode::BlsfillBdEd,
    Opcode::BlsfillBqEq,
    Opcode::BlsicBdEd,
    Opcode::BlsicBqEq,
    Opcode::T1mskcBdEd,
    Opcode::T1mskcBqEq,
    Opcode::TzmskBdEd,
    Opcode::TzmskBqEq,
    Opcode::TzcntGwEw,
    Opcode::TzcntGdEd,
    Opcode::TzcntGqEq,
    Opcode::LzcntGwEw,
    Opcode::LzcntGdEd,
    Opcode::LzcntGqEq,
    Opcode::MovntssMssVss,
    Opcode::MovntsdMsdVsd,
    Opcode::ExtrqUdqIbIb,
    Opcode::ExtrqVdqUq,
    Opcode::InsertqVdqUqIbIb,
    Opcode::InsertqVdqUdq,
    Opcode::AdcxGdEd,
    Opcode::AdoxGdEd,
    Opcode::AdcxGqEq,
    Opcode::AdoxGqEq,
    Opcode::Stac,
    Opcode::Clac,
    Opcode::RdrandEw,
    Opcode::RdrandEd,
    Opcode::RdrandEq,
    Opcode::RdseedEw,
    Opcode::RdseedEd,
    Opcode::RdseedEq,
    Opcode::MovdiriMdGd,
    Opcode::MovdiriMqGq,
    Opcode::Movdir64bGdMdq,
    Opcode::Movdir64bGqMdq,
    Opcode::AaddEdGd,
    Opcode::AandEdGd,
    Opcode::AorEdGd,
    Opcode::AxorEdGd,
    Opcode::AaddEqGq,
    Opcode::AandEqGq,
    Opcode::AorEqGq,
    Opcode::AxorEqGq,
    Opcode::Ldtilecfg,
    Opcode::Sttilecfg,
    Opcode::TileloaddTnnnMdq,
    Opcode::Tileloaddt1TnnnMdq,
    Opcode::TileloaddrsTnnnMdq,
    Opcode::Tileloaddrst1TnnnMdq,
    Opcode::TilestoredMdqTnnn,
    Opcode::Tilerelease,
    Opcode::TilezeroTnnn,
    Opcode::TdpbssdTnnnTrmTreg,
    Opcode::TdpbsudTnnnTrmTreg,
    Opcode::TdpbusdTnnnTrmTreg,
    Opcode::TdpbuudTnnnTrmTreg,
    Opcode::Tdpbf16psTnnnTrmTreg,
    Opcode::Tdpfp16psTnnnTrmTreg,
    Opcode::Tcmmrlfp16psTnnnTrmTreg,
    Opcode::Tcmmimfp16psTnnnTrmTreg,
    Opcode::Tmmultf32psTnnnTrmTreg,
    Opcode::Tdpbf8psTnnnTrmTreg,
    Opcode::Tdphf8psTnnnTrmTreg,
    Opcode::Tdpbhf8psTnnnTrmTreg,
    Opcode::Tdphbf8psTnnnTrmTreg,
    Opcode::KaddwKgwKhwKew,
    Opcode::KaddqKgqKhqKeq,
    Opcode::KaddbKgbKhbKeb,
    Opcode::KadddKgdKhdKed,
    Opcode::KandwKgwKhwKew,
    Opcode::KandqKgqKhqKeq,
    Opcode::KandbKgbKhbKeb,
    Opcode::KanddKgdKhdKed,
    Opcode::KandnwKgwKhwKew,
    Opcode::KandnqKgqKhqKeq,
    Opcode::KandnbKgbKhbKeb,
    Opcode::KandndKgdKhdKed,
    Opcode::KmovwKgwKew,
    Opcode::KmovqKgqKeq,
    Opcode::KmovbKgbKeb,
    Opcode::KmovdKgdKed,
    Opcode::KmovwKewKgw,
    Opcode::KmovqKeqKgq,
    Opcode::KmovbKebKgb,
    Opcode::KmovdKedKgd,
    Opcode::KmovbGdKeb,
    Opcode::KmovwGdKew,
    Opcode::KmovdGdKed,
    Opcode::KmovqGqKeq,
    Opcode::KmovbKgbEb,
    Opcode::KmovwKgwEw,
    Opcode::KmovdKgdEd,
    Opcode::KmovqKgqEq,
    Opcode::KunpckbwKgwKhbKeb,
    Opcode::KunpckwdKgdKhwKew,
    Opcode::KunpckdqKgqKhdKed,
    Opcode::KnotwKgwKew,
    Opcode::KnotqKgqKeq,
    Opcode::KnotbKgbKeb,
    Opcode::KnotdKgdKed,
    Opcode::KorwKgwKhwKew,
    Opcode::KorqKgqKhqKeq,
    Opcode::KorbKgbKhbKeb,
    Opcode::KordKgdKhdKed,
    Opcode::KortestwKgwKew,
    Opcode::KortestqKgqKeq,
    Opcode::KortestbKgbKeb,
    Opcode::KortestdKgdKed,
    Opcode::KshiftlbKgbKebIb,
    Opcode::KshiftlwKgwKewIb,
    Opcode::KshiftldKgdKedIb,
    Opcode::KshiftlqKgqKeqIb,
    Opcode::KshiftrbKgbKebIb,
    Opcode::KshiftrwKgwKewIb,
    Opcode::KshiftrdKgdKedIb,
    Opcode::KshiftrqKgqKeqIb,
    Opcode::KxnorwKgwKhwKew,
    Opcode::KxnorqKgqKhqKeq,
    Opcode::KxnorbKgbKhbKeb,
    Opcode::KxnordKgdKhdKed,
    Opcode::KxorwKgwKhwKew,
    Opcode::KxorqKgqKhqKeq,
    Opcode::KxorbKgbKhbKeb,
    Opcode::KxordKgdKhdKed,
    Opcode::KtestwKgwKew,
    Opcode::KtestqKgqKeq,
    Opcode::KtestbKgbKeb,
    Opcode::KtestdKgdKed,
    Opcode::RdmsrEqId,
    Opcode::WrmsrnsIdEq,
    Opcode::MovrsGbEb,
    Opcode::MovrsGwEw,
    Opcode::MovrsGdEd,
    Opcode::MovrsGqEq,
    Opcode::Erets,
    Opcode::Eretu,
    Opcode::LkgsEw,
    Opcode::EvexVaddpsVpsHpsWps,
    Opcode::EvexVaddpdVpdHpdWpd,
    Opcode::EvexVaddssVssHpsWss,
    Opcode::EvexVaddsdVsdHpdWsd,
    Opcode::EvexVaddpsVpsHpsWpsKmask,
    Opcode::EvexVaddpdVpdHpdWpdKmask,
    Opcode::EvexVaddssVssHpsWssKmask,
    Opcode::EvexVaddsdVsdHpdWsdKmask,
    Opcode::EvexVsubpsVpsHpsWps,
    Opcode::EvexVsubpdVpdHpdWpd,
    Opcode::EvexVsubssVssHpsWss,
    Opcode::EvexVsubsdVsdHpdWsd,
    Opcode::EvexVsubpsVpsHpsWpsKmask,
    Opcode::EvexVsubpdVpdHpdWpdKmask,
    Opcode::EvexVsubssVssHpsWssKmask,
    Opcode::EvexVsubsdVsdHpdWsdKmask,
    Opcode::EvexVmulpsVpsHpsWps,
    Opcode::EvexVmulpdVpdHpdWpd,
    Opcode::EvexVmulssVssHpsWss,
    Opcode::EvexVmulsdVsdHpdWsd,
    Opcode::EvexVmulpsVpsHpsWpsKmask,
    Opcode::EvexVmulpdVpdHpdWpdKmask,
    Opcode::EvexVmulssVssHpsWssKmask,
    Opcode::EvexVmulsdVsdHpdWsdKmask,
    Opcode::EvexVdivpsVpsHpsWps,
    Opcode::EvexVdivpdVpdHpdWpd,
    Opcode::EvexVdivssVssHpsWss,
    Opcode::EvexVdivsdVsdHpdWsd,
    Opcode::EvexVdivpsVpsHpsWpsKmask,
    Opcode::EvexVdivpdVpdHpdWpdKmask,
    Opcode::EvexVdivssVssHpsWssKmask,
    Opcode::EvexVdivsdVsdHpdWsdKmask,
    Opcode::EvexVminpsVpsHpsWps,
    Opcode::EvexVminpdVpdHpdWpd,
    Opcode::EvexVminssVssHpsWss,
    Opcode::EvexVminsdVsdHpdWsd,
    Opcode::EvexVminpsVpsHpsWpsKmask,
    Opcode::EvexVminpdVpdHpdWpdKmask,
    Opcode::EvexVminssVssHpsWssKmask,
    Opcode::EvexVminsdVsdHpdWsdKmask,
    Opcode::EvexVmaxpsVpsHpsWps,
    Opcode::EvexVmaxpdVpdHpdWpd,
    Opcode::EvexVmaxssVssHpsWss,
    Opcode::EvexVmaxsdVsdHpdWsd,
    Opcode::EvexVmaxpsVpsHpsWpsKmask,
    Opcode::EvexVmaxpdVpdHpdWpdKmask,
    Opcode::EvexVmaxssVssHpsWssKmask,
    Opcode::EvexVmaxsdVsdHpdWsdKmask,
    Opcode::EvexVsqrtpsVpsWps,
    Opcode::EvexVsqrtpdVpdWpd,
    Opcode::EvexVsqrtssVssHpsWss,
    Opcode::EvexVsqrtsdVsdHpdWsd,
    Opcode::EvexVsqrtpsVpsWpsKmask,
    Opcode::EvexVsqrtpdVpdWpdKmask,
    Opcode::EvexVsqrtssVssHpsWssKmask,
    Opcode::EvexVsqrtsdVsdHpdWsdKmask,
    Opcode::EvexVcmppsKgwHpsWpsIb,
    Opcode::EvexVcmppdKgbHpdWpdIb,
    Opcode::EvexVcmpssKgbHssWssIb,
    Opcode::EvexVcmpsdKgbHsdWsdIb,
    Opcode::EvexVrndscalepsVpsWpsIbKmask,
    Opcode::EvexVrndscalepdVpdWpdIbKmask,
    Opcode::EvexVrndscalessVssHpsWssIbKmask,
    Opcode::EvexVrndscalesdVsdHpdWsdIbKmask,
    Opcode::EvexVunpcklpsVpsHpsWps,
    Opcode::EvexVunpcklpdVpdHpdWpd,
    Opcode::EvexVunpcklpsVpsHpsWpsKmask,
    Opcode::EvexVunpcklpdVpdHpdWpdKmask,
    Opcode::EvexVunpckhpsVpsHpsWps,
    Opcode::EvexVunpckhpdVpdHpdWpd,
    Opcode::EvexVunpckhpsVpsHpsWpsKmask,
    Opcode::EvexVunpckhpdVpdHpdWpdKmask,
    Opcode::EvexVpunpckldqVdqHdqWdq,
    Opcode::EvexVpunpcklqdqVdqHdqWdq,
    Opcode::EvexVpunpckldqVdqHdqWdqKmask,
    Opcode::EvexVpunpcklqdqVdqHdqWdqKmask,
    Opcode::EvexVpunpckhdqVdqHdqWdq,
    Opcode::EvexVpunpckhqdqVdqHdqWdq,
    Opcode::EvexVpunpckhdqVdqHdqWdqKmask,
    Opcode::EvexVpunpckhqdqVdqHdqWdqKmask,
    Opcode::EvexVpmuldqVdqHdqWdq,
    Opcode::EvexVpmuludqVdqHdqWdq,
    Opcode::EvexVpmuldqVdqHdqWdqKmask,
    Opcode::EvexVpmuludqVdqHdqWdqKmask,
    Opcode::EvexVucomissVssWss,
    Opcode::EvexVcomissVssWss,
    Opcode::EvexVucomisdVsdWsd,
    Opcode::EvexVcomisdVsdWsd,
    Opcode::EvexVcvtss2sdVsdWss,
    Opcode::EvexVcvtsd2ssVssWsd,
    Opcode::EvexVcvtps2pdVpdWps,
    Opcode::EvexVcvtpd2psVpsWpd,
    Opcode::EvexVcvtss2sdVsdWssKmask,
    Opcode::EvexVcvtsd2ssVssWsdKmask,
    Opcode::EvexVcvtps2pdVpdWpsKmask,
    Opcode::EvexVcvtpd2psVpsWpdKmask,
    Opcode::EvexVcvtps2dqVdqWps,
    Opcode::EvexVcvtps2dqVdqWpsKmask,
    Opcode::EvexVcvttps2dqVdqWps,
    Opcode::EvexVcvttps2dqVdqWpsKmask,
    Opcode::EvexVcvtpd2dqVdqWpd,
    Opcode::EvexVcvtpd2dqVdqWpdKmask,
    Opcode::EvexVcvttpd2dqVdqWpd,
    Opcode::EvexVcvttpd2dqVdqWpdKmask,
    Opcode::EvexVcvtph2psVpsWps,
    Opcode::EvexVcvtph2psVpsWpsKmask,
    Opcode::EvexVcvtps2phWpsVpsIb,
    Opcode::EvexVcvtps2phWpsVpsIbKmask,
    Opcode::EvexVcvtneps2bf16VphWpsKmask,
    Opcode::EvexVcvtne2ps2bf16VphHpsWpsKmask,
    Opcode::EvexVdpbf16psVpsHdqWdqKmask,
    Opcode::EvexVmovapsVpsWps,
    Opcode::EvexVmovapsVpsWpsKmask,
    Opcode::EvexVmovapsWpsVps,
    Opcode::EvexVmovapsWpsVpsKmask,
    Opcode::EvexVmovapdVpdWpd,
    Opcode::EvexVmovapdVpdWpdKmask,
    Opcode::EvexVmovapdWpdVpd,
    Opcode::EvexVmovapdWpdVpdKmask,
    Opcode::EvexVmovupsVpsWps,
    Opcode::EvexVmovupsVpsWpsKmask,
    Opcode::EvexVmovupsWpsVps,
    Opcode::EvexVmovupsWpsVpsKmask,
    Opcode::EvexVmovupdVpdWpd,
    Opcode::EvexVmovupdVpdWpdKmask,
    Opcode::EvexVmovupdWpdVpd,
    Opcode::EvexVmovupdWpdVpdKmask,
    Opcode::EvexVmovsdVsdHpdWsd,
    Opcode::EvexVmovssVssHpsWss,
    Opcode::EvexVmovsdWsdHpdVsd,
    Opcode::EvexVmovssWssHpsVss,
    Opcode::EvexVmovsdVsdWsd,
    Opcode::EvexVmovssVssWss,
    Opcode::EvexVmovsdWsdVsd,
    Opcode::EvexVmovssWssVss,
    Opcode::EvexVmovsdVsdHpdWsdKmask,
    Opcode::EvexVmovssVssHpsWssKmask,
    Opcode::EvexVmovsdWsdHpdVsdKmask,
    Opcode::EvexVmovssWssHpsVssKmask,
    Opcode::EvexVmovsdVsdWsdKmask,
    Opcode::EvexVmovssVssWssKmask,
    Opcode::EvexVmovsdWsdVsdKmask,
    Opcode::EvexVmovssWssVssKmask,
    Opcode::EvexVpabsbVdqWdq,
    Opcode::EvexVpabswVdqWdq,
    Opcode::EvexVpabsdVdqWdq,
    Opcode::EvexVpabsqVdqWdq,
    Opcode::EvexVpabsbVdqWdqKmask,
    Opcode::EvexVpabswVdqWdqKmask,
    Opcode::EvexVpabsdVdqWdqKmask,
    Opcode::EvexVpabsqVdqWdqKmask,
    Opcode::EvexVmovntdqaVdqMdq,
    Opcode::EvexVmovntpsMpsVps,
    Opcode::EvexVmovntpdMpdVpd,
    Opcode::EvexVmovntdqMdqVdq,
    Opcode::EvexVpcmpeqbKgqHdqWdq,
    Opcode::EvexVpcmpeqwKgdHdqWdq,
    Opcode::EvexVpcmpgtbKgqHdqWdq,
    Opcode::EvexVpcmpgtwKgdHdqWdq,
    Opcode::EvexVpcmpeqdKgwHdqWdq,
    Opcode::EvexVpcmpeqqKgbHdqWdq,
    Opcode::EvexVpcmpgtdKgwHdqWdq,
    Opcode::EvexVpcmpgtqKgbHdqWdq,
    Opcode::EvexVpsrlwVdqHdqWdq,
    Opcode::EvexVpsrlwVdqHdqWdqKmask,
    Opcode::EvexVpsrawVdqHdqWdq,
    Opcode::EvexVpsrawVdqHdqWdqKmask,
    Opcode::EvexVpsllwVdqHdqWdq,
    Opcode::EvexVpsllwVdqHdqWdqKmask,
    Opcode::EvexVpsrlwUdqIb,
    Opcode::EvexVpsrlwUdqIbKmask,
    Opcode::EvexVpsllwUdqIb,
    Opcode::EvexVpsllwUdqIbKmask,
    Opcode::EvexVpsrawUdqIb,
    Opcode::EvexVpsrawUdqIbKmask,
    Opcode::EvexVpsrldVdqHdqWdq,
    Opcode::EvexVpsrlqVdqHdqWdq,
    Opcode::EvexVpsrldVdqHdqWdqKmask,
    Opcode::EvexVpsrlqVdqHdqWdqKmask,
    Opcode::EvexVpslldVdqHdqWdq,
    Opcode::EvexVpsllqVdqHdqWdq,
    Opcode::EvexVpslldVdqHdqWdqKmask,
    Opcode::EvexVpsllqVdqHdqWdqKmask,
    Opcode::EvexVpsrldUdqIb,
    Opcode::EvexVpsrldUdqIbKmask,
    Opcode::EvexVpsrlqUdqIb,
    Opcode::EvexVpsrlqUdqIbKmask,
    Opcode::EvexVpslldUdqIb,
    Opcode::EvexVpslldUdqIbKmask,
    Opcode::EvexVpsllqUdqIb,
    Opcode::EvexVpsllqUdqIbKmask,
    Opcode::EvexVpshufbVdqHdqWdq,
    Opcode::EvexVpshufbVdqHdqWdqKmask,
    Opcode::EvexVpermqVdqWdqIbKmask,
    Opcode::EvexVpermpdVpdWpdIbKmask,
    Opcode::EvexVshufpsVpsHpsWpsIb,
    Opcode::EvexVshufpdVpdHpdWpdIb,
    Opcode::EvexVshufpsVpsHpsWpsIbKmask,
    Opcode::EvexVshufpdVpdHpdWpdIbKmask,
    Opcode::EvexVpermilpsVpsHpsWps,
    Opcode::EvexVpermilpdVpdHpdWpd,
    Opcode::EvexVpermilpsVpsHpsWpsKmask,
    Opcode::EvexVpermilpdVpdHpdWpdKmask,
    Opcode::EvexVpermilpsVpsWpsIb,
    Opcode::EvexVpermilpdVpdWpdIb,
    Opcode::EvexVpermilpsVpsWpsIbKmask,
    Opcode::EvexVpermilpdVpdWpdIbKmask,
    Opcode::EvexVpshufdVdqWdqIb,
    Opcode::EvexVpshufdVdqWdqIbKmask,
    Opcode::EvexVpshuflwVdqWdqIb,
    Opcode::EvexVpshuflwVdqWdqIbKmask,
    Opcode::EvexVpshufhwVdqWdqIb,
    Opcode::EvexVpshufhwVdqWdqIbKmask,
    Opcode::EvexVpbroadcastbVdqEb,
    Opcode::EvexVpbroadcastbVdqEbKmask,
    Opcode::EvexVpbroadcastwVdqEw,
    Opcode::EvexVpbroadcastwVdqEwKmask,
    Opcode::EvexVpbroadcastdVdqEd,
    Opcode::EvexVpbroadcastdVdqEdKmask,
    Opcode::EvexVpbroadcastqVdqEq,
    Opcode::EvexVpbroadcastqVdqEqKmask,
    Opcode::EvexVpbroadcastbVdqWb,
    Opcode::EvexVpbroadcastbVdqWbKmask,
    Opcode::EvexVpbroadcastwVdqWw,
    Opcode::EvexVpbroadcastwVdqWwKmask,
    Opcode::EvexVpbroadcastdVdqWd,
    Opcode::EvexVpbroadcastdVdqWdKmask,
    Opcode::EvexVpbroadcastqVdqWq,
    Opcode::EvexVpbroadcastqVdqWqKmask,
    Opcode::EvexVbroadcastssVpsWss,
    Opcode::EvexVbroadcastssVpsWssKmask,
    Opcode::EvexVbroadcastsdVpdWsd,
    Opcode::EvexVbroadcastsdVpdWsdKmask,
    Opcode::EvexVmovqWqVq,
    Opcode::EvexVmovqVqWq,
    Opcode::EvexVinsertpsVpsWssIb,
    Opcode::EvexVextractpsEdVpsIb,
    Opcode::EvexVmovlpsVpsHpsMq,
    Opcode::EvexVmovhlpsVpsHpsWps,
    Opcode::EvexVmovhpsVpsHpsMq,
    Opcode::EvexVmovlhpsVpsHpsWps,
    Opcode::EvexVmovlpsMqVps,
    Opcode::EvexVmovhpsMqVps,
    Opcode::EvexVmovlpdMqVsd,
    Opcode::EvexVmovhpdMqVsd,
    Opcode::EvexVmovlpdVpdHpdMq,
    Opcode::EvexVmovhpdVpdHpdMq,
    Opcode::EvexVmovddupVpdWpd,
    Opcode::EvexVmovsldupVpsWps,
    Opcode::EvexVmovshdupVpsWps,
    Opcode::EvexVmovddupVpdWpdKmask,
    Opcode::EvexVmovsldupVpsWpsKmask,
    Opcode::EvexVmovshdupVpsWpsKmask,
    Opcode::EvexVpmovqbWdqVdq,
    Opcode::EvexVpmovdbWdqVdq,
    Opcode::EvexVpmovwbWdqVdq,
    Opcode::EvexVpmovdwWdqVdq,
    Opcode::EvexVpmovqwWdqVdq,
    Opcode::EvexVpmovqdWdqVdq,
    Opcode::EvexVpmovqbWdqVdqKmask,
    Opcode::EvexVpmovdbWdqVdqKmask,
    Opcode::EvexVpmovwbWdqVdqKmask,
    Opcode::EvexVpmovdwWdqVdqKmask,
    Opcode::EvexVpmovqwWdqVdqKmask,
    Opcode::EvexVpmovqdWdqVdqKmask,
    Opcode::EvexVpmovusqbWdqVdq,
    Opcode::EvexVpmovusdbWdqVdq,
    Opcode::EvexVpmovuswbWdqVdq,
    Opcode::EvexVpmovusdwWdqVdq,
    Opcode::EvexVpmovusqwWdqVdq,
    Opcode::EvexVpmovusqdWdqVdq,
    Opcode::EvexVpmovusqbWdqVdqKmask,
    Opcode::EvexVpmovusdbWdqVdqKmask,
    Opcode::EvexVpmovuswbWdqVdqKmask,
    Opcode::EvexVpmovusdwWdqVdqKmask,
    Opcode::EvexVpmovusqwWdqVdqKmask,
    Opcode::EvexVpmovusqdWdqVdqKmask,
    Opcode::EvexVpmovsqbWdqVdq,
    Opcode::EvexVpmovsdbWdqVdq,
    Opcode::EvexVpmovswbWdqVdq,
    Opcode::EvexVpmovsdwWdqVdq,
    Opcode::EvexVpmovsqwWdqVdq,
    Opcode::EvexVpmovsqdWdqVdq,
    Opcode::EvexVpmovsqbWdqVdqKmask,
    Opcode::EvexVpmovsdbWdqVdqKmask,
    Opcode::EvexVpmovswbWdqVdqKmask,
    Opcode::EvexVpmovsdwWdqVdqKmask,
    Opcode::EvexVpmovsqwWdqVdqKmask,
    Opcode::EvexVpmovsqdWdqVdqKmask,
    Opcode::EvexVpmovsxbwVdqWdq,
    Opcode::EvexVpmovsxbdVdqWdq,
    Opcode::EvexVpmovsxbqVdqWdq,
    Opcode::EvexVpmovsxwdVdqWdq,
    Opcode::EvexVpmovsxwqVdqWdq,
    Opcode::EvexVpmovsxdqVdqWdq,
    Opcode::EvexVpmovsxbwVdqWdqKmask,
    Opcode::EvexVpmovsxbdVdqWdqKmask,
    Opcode::EvexVpmovsxbqVdqWdqKmask,
    Opcode::EvexVpmovsxwdVdqWdqKmask,
    Opcode::EvexVpmovsxwqVdqWdqKmask,
    Opcode::EvexVpmovsxdqVdqWdqKmask,
    Opcode::EvexVpmovzxbwVdqWdq,
    Opcode::EvexVpmovzxbdVdqWdq,
    Opcode::EvexVpmovzxbqVdqWdq,
    Opcode::EvexVpmovzxwdVdqWdq,
    Opcode::EvexVpmovzxwqVdqWdq,
    Opcode::EvexVpmovzxdqVdqWdq,
    Opcode::EvexVpmovzxbwVdqWdqKmask,
    Opcode::EvexVpmovzxbdVdqWdqKmask,
    Opcode::EvexVpmovzxbqVdqWdqKmask,
    Opcode::EvexVpmovzxwdVdqWdqKmask,
    Opcode::EvexVpmovzxwqVdqWdqKmask,
    Opcode::EvexVpmovzxdqVdqWdqKmask,
    Opcode::EvexVpsubbVdqHdqWdq,
    Opcode::EvexVpsubsbVdqHdqWdq,
    Opcode::EvexVpsubusbVdqHdqWdq,
    Opcode::EvexVpsubwVdqHdqWdq,
    Opcode::EvexVpsubswVdqHdqWdq,
    Opcode::EvexVpsubuswVdqHdqWdq,
    Opcode::EvexVpaddbVdqHdqWdq,
    Opcode::EvexVpaddsbVdqHdqWdq,
    Opcode::EvexVpaddusbVdqHdqWdq,
    Opcode::EvexVpaddwVdqHdqWdq,
    Opcode::EvexVpaddswVdqHdqWdq,
    Opcode::EvexVpadduswVdqHdqWdq,
    Opcode::EvexVpsubbVdqHdqWdqKmask,
    Opcode::EvexVpsubsbVdqHdqWdqKmask,
    Opcode::EvexVpsubusbVdqHdqWdqKmask,
    Opcode::EvexVpsubwVdqHdqWdqKmask,
    Opcode::EvexVpsubswVdqHdqWdqKmask,
    Opcode::EvexVpsubuswVdqHdqWdqKmask,
    Opcode::EvexVpaddbVdqHdqWdqKmask,
    Opcode::EvexVpaddsbVdqHdqWdqKmask,
    Opcode::EvexVpaddusbVdqHdqWdqKmask,
    Opcode::EvexVpaddwVdqHdqWdqKmask,
    Opcode::EvexVpaddswVdqHdqWdqKmask,
    Opcode::EvexVpadduswVdqHdqWdqKmask,
    Opcode::EvexVpminsbVdqHdqWdq,
    Opcode::EvexVpminubVdqHdqWdq,
    Opcode::EvexVpmaxubVdqHdqWdq,
    Opcode::EvexVpmaxsbVdqHdqWdq,
    Opcode::EvexVpminswVdqHdqWdq,
    Opcode::EvexVpminuwVdqHdqWdq,
    Opcode::EvexVpmaxswVdqHdqWdq,
    Opcode::EvexVpmaxuwVdqHdqWdq,
    Opcode::EvexVpminsbVdqHdqWdqKmask,
    Opcode::EvexVpminubVdqHdqWdqKmask,
    Opcode::EvexVpmaxubVdqHdqWdqKmask,
    Opcode::EvexVpmaxsbVdqHdqWdqKmask,
    Opcode::EvexVpminswVdqHdqWdqKmask,
    Opcode::EvexVpminuwVdqHdqWdqKmask,
    Opcode::EvexVpmaxswVdqHdqWdqKmask,
    Opcode::EvexVpmaxuwVdqHdqWdqKmask,
    Opcode::EvexVpacksswbVdqHdqWdq,
    Opcode::EvexVpacksswbVdqHdqWdqKmask,
    Opcode::EvexVpackuswbVdqHdqWdq,
    Opcode::EvexVpackuswbVdqHdqWdqKmask,
    Opcode::EvexVpackssdwVdqHdqWdq,
    Opcode::EvexVpackssdwVdqHdqWdqKmask,
    Opcode::EvexVpackusdwVdqHdqWdq,
    Opcode::EvexVpackusdwVdqHdqWdqKmask,
    Opcode::EvexVpunpcklbwVdqHdqWdq,
    Opcode::EvexVpunpckhbwVdqHdqWdq,
    Opcode::EvexVpunpcklbwVdqHdqWdqKmask,
    Opcode::EvexVpunpckhbwVdqHdqWdqKmask,
    Opcode::EvexVpunpcklwdVdqHdqWdq,
    Opcode::EvexVpunpckhwdVdqHdqWdq,
    Opcode::EvexVpunpcklwdVdqHdqWdqKmask,
    Opcode::EvexVpunpckhwdVdqHdqWdqKmask,
    Opcode::EvexVpavgbVdqHdqWdq,
    Opcode::EvexVpavgwVdqHdqWdq,
    Opcode::EvexVpavgbVdqHdqWdqKmask,
    Opcode::EvexVpavgwVdqHdqWdqKmask,
    Opcode::EvexVpmaddubswVdqHdqWdq,
    Opcode::EvexVpmaddubswVdqHdqWdqKmask,
    Opcode::EvexVpmullwVdqHdqWdq,
    Opcode::EvexVpmulhwVdqHdqWdq,
    Opcode::EvexVpmulhuwVdqHdqWdq,
    Opcode::EvexVpmulhrswVdqHdqWdq,
    Opcode::EvexVpmullwVdqHdqWdqKmask,
    Opcode::EvexVpmulhwVdqHdqWdqKmask,
    Opcode::EvexVpmulhuwVdqHdqWdqKmask,
    Opcode::EvexVpmulhrswVdqHdqWdqKmask,
    Opcode::EvexVpsrldqUdqIb,
    Opcode::EvexVpslldqUdqIb,
    Opcode::EvexVpsadbwVdqHdqWdq,
    Opcode::EvexVpmaddwdVdqHdqWdq,
    Opcode::EvexVpmaddwdVdqHdqWdqKmask,
    Opcode::EvexVpmadd52luqVdqHdqWdq,
    Opcode::EvexVpmadd52luqVdqHdqWdqKmask,
    Opcode::EvexVpmadd52huqVdqHdqWdq,
    Opcode::EvexVpmadd52huqVdqHdqWdqKmask,
    Opcode::EvexVpmultishiftqbVdqHdqWdq,
    Opcode::EvexVpmultishiftqbVdqHdqWdqKmask,
    Opcode::EvexVpermbVdqHdqWdqKmask,
    Opcode::EvexVpermwVdqHdqWdqKmask,
    Opcode::EvexVpermt2bVdqHdqWdqKmask,
    Opcode::EvexVpermt2wVdqHdqWdqKmask,
    Opcode::EvexVpermi2bVdqHdqWdqKmask,
    Opcode::EvexVpermi2wVdqHdqWdqKmask,
    Opcode::EvexVinsertf32x4VpsHpsWpsIb,
    Opcode::EvexVinsertf64x2VpdHpdWpdIb,
    Opcode::EvexVinsertf32x4VpsHpsWpsIbKmask,
    Opcode::EvexVinsertf64x2VpdHpdWpdIbKmask,
    Opcode::EvexVinsertf32x8VpsHpsWpsIb,
    Opcode::EvexVinsertf64x4VpdHpdWpdIb,
    Opcode::EvexVinsertf32x8VpsHpsWpsIbKmask,
    Opcode::EvexVinsertf64x4VpdHpdWpdIbKmask,
    Opcode::EvexVinserti32x4VdqHdqWdqIb,
    Opcode::EvexVinserti64x2VdqHdqWdqIb,
    Opcode::EvexVinserti32x4VdqHdqWdqIbKmask,
    Opcode::EvexVinserti64x2VdqHdqWdqIbKmask,
    Opcode::EvexVinserti32x8VdqHdqWdqIb,
    Opcode::EvexVinserti64x4VdqHdqWdqIb,
    Opcode::EvexVinserti32x8VdqHdqWdqIbKmask,
    Opcode::EvexVinserti64x4VdqHdqWdqIbKmask,
    Opcode::EvexVextractf32x4WpsVpsIb,
    Opcode::EvexVextractf64x2WpdVpdIb,
    Opcode::EvexVextractf32x4WpsVpsIbKmask,
    Opcode::EvexVextractf64x2WpdVpdIbKmask,
    Opcode::EvexVextractf32x8WpsVpsIb,
    Opcode::EvexVextractf64x4WpdVpdIb,
    Opcode::EvexVextractf32x8WpsVpsIbKmask,
    Opcode::EvexVextractf64x4WpdVpdIbKmask,
    Opcode::EvexVextracti32x4WdqVdqIb,
    Opcode::EvexVextracti64x2WdqVdqIb,
    Opcode::EvexVextracti32x4WdqVdqIbKmask,
    Opcode::EvexVextracti64x2WdqVdqIbKmask,
    Opcode::EvexVextracti32x8WdqVdqIb,
    Opcode::EvexVextracti64x4WdqVdqIb,
    Opcode::EvexVextracti32x8WdqVdqIbKmask,
    Opcode::EvexVextracti64x4WdqVdqIbKmask,
    Opcode::EvexVbroadcastf32x2VpsWq,
    Opcode::EvexVbroadcastf32x2VpsWqKmask,
    Opcode::EvexVbroadcasti32x2VdqWq,
    Opcode::EvexVbroadcasti32x2VdqWqKmask,
    Opcode::EvexVbroadcastf32x4VpsWps,
    Opcode::EvexVbroadcastf64x2VpdWpd,
    Opcode::EvexVbroadcastf32x4VpsWpsKmask,
    Opcode::EvexVbroadcastf64x2VpdWpdKmask,
    Opcode::EvexVbroadcastf32x8VpsWps,
    Opcode::EvexVbroadcastf64x4VpdWpd,
    Opcode::EvexVbroadcastf32x8VpsWpsKmask,
    Opcode::EvexVbroadcastf64x4VpdWpdKmask,
    Opcode::EvexVbroadcasti32x4VdqWdq,
    Opcode::EvexVbroadcasti64x2VdqWdq,
    Opcode::EvexVbroadcasti32x4VdqWdqKmask,
    Opcode::EvexVbroadcasti64x2VdqWdqKmask,
    Opcode::EvexVbroadcasti32x8VdqWdq,
    Opcode::EvexVbroadcasti64x4VdqWdq,
    Opcode::EvexVbroadcasti32x8VdqWdqKmask,
    Opcode::EvexVbroadcasti64x4VdqWdqKmask,
    Opcode::EvexVpmulldVdqHdqWdq,
    Opcode::EvexVpmullqVdqHdqWdq,
    Opcode::EvexVpmulldVdqHdqWdqKmask,
    Opcode::EvexVpmullqVdqHdqWdqKmask,
    Opcode::EvexVpadddVdqHdqWdq,
    Opcode::EvexVpaddqVdqHdqWdq,
    Opcode::EvexVpadddVdqHdqWdqKmask,
    Opcode::EvexVpaddqVdqHdqWdqKmask,
    Opcode::EvexVpsubdVdqHdqWdq,
    Opcode::EvexVpsubqVdqHdqWdq,
    Opcode::EvexVpsubdVdqHdqWdqKmask,
    Opcode::EvexVpsubqVdqHdqWdqKmask,
    Opcode::EvexVpanddVdqHdqWdq,
    Opcode::EvexVpandqVdqHdqWdq,
    Opcode::EvexVpanddVdqHdqWdqKmask,
    Opcode::EvexVpandqVdqHdqWdqKmask,
    Opcode::EvexVpandndVdqHdqWdq,
    Opcode::EvexVpandnqVdqHdqWdq,
    Opcode::EvexVpandndVdqHdqWdqKmask,
    Opcode::EvexVpandnqVdqHdqWdqKmask,
    Opcode::EvexVpordVdqHdqWdq,
    Opcode::EvexVporqVdqHdqWdq,
    Opcode::EvexVpordVdqHdqWdqKmask,
    Opcode::EvexVporqVdqHdqWdqKmask,
    Opcode::EvexVpxordVdqHdqWdq,
    Opcode::EvexVpxorqVdqHdqWdq,
    Opcode::EvexVpxordVdqHdqWdqKmask,
    Opcode::EvexVpxorqVdqHdqWdqKmask,
    Opcode::EvexVandpsVpsHpsWps,
    Opcode::EvexVandpdVpdHpdWpd,
    Opcode::EvexVandpsVpsHpsWpsKmask,
    Opcode::EvexVandpdVpdHpdWpdKmask,
    Opcode::EvexVandnpsVpsHpsWps,
    Opcode::EvexVandnpdVpdHpdWpd,
    Opcode::EvexVandnpsVpsHpsWpsKmask,
    Opcode::EvexVandnpdVpdHpdWpdKmask,
    Opcode::EvexVorpsVpsHpsWps,
    Opcode::EvexVorpdVpdHpdWpd,
    Opcode::EvexVorpsVpsHpsWpsKmask,
    Opcode::EvexVorpdVpdHpdWpdKmask,
    Opcode::EvexVxorpsVpsHpsWps,
    Opcode::EvexVxorpdVpdHpdWpd,
    Opcode::EvexVxorpsVpsHpsWpsKmask,
    Opcode::EvexVxorpdVpdHpdWpdKmask,
    Opcode::EvexVpmaxsdVdqHdqWdq,
    Opcode::EvexVpmaxsqVdqHdqWdq,
    Opcode::EvexVpmaxsdVdqHdqWdqKmask,
    Opcode::EvexVpmaxsqVdqHdqWdqKmask,
    Opcode::EvexVpmaxudVdqHdqWdq,
    Opcode::EvexVpmaxuqVdqHdqWdq,
    Opcode::EvexVpmaxudVdqHdqWdqKmask,
    Opcode::EvexVpmaxuqVdqHdqWdqKmask,
    Opcode::EvexVpminsdVdqHdqWdq,
    Opcode::EvexVpminsqVdqHdqWdq,
    Opcode::EvexVpminsdVdqHdqWdqKmask,
    Opcode::EvexVpminsqVdqHdqWdqKmask,
    Opcode::EvexVpminudVdqHdqWdq,
    Opcode::EvexVpminuqVdqHdqWdq,
    Opcode::EvexVpminudVdqHdqWdqKmask,
    Opcode::EvexVpminuqVdqHdqWdqKmask,
    Opcode::EvexValigndVdqHdqWdqIbKmask,
    Opcode::EvexValignqVdqHdqWdqIbKmask,
    Opcode::EvexVpalignrVdqHdqWdqIb,
    Opcode::EvexVpalignrVdqHdqWdqIbKmask,
    Opcode::EvexVdbpsadbwVdqHdqWdqIbKmask,
    Opcode::EvexVpsrlvwVdqHdqWdq,
    Opcode::EvexVpsrlvdVdqHdqWdq,
    Opcode::EvexVpsrlvqVdqHdqWdq,
    Opcode::EvexVpsravwVdqHdqWdq,
    Opcode::EvexVpsravdVdqHdqWdq,
    Opcode::EvexVpsravqVdqHdqWdq,
    Opcode::EvexVpsllvwVdqHdqWdq,
    Opcode::EvexVpsllvdVdqHdqWdq,
    Opcode::EvexVpsllvqVdqHdqWdq,
    Opcode::EvexVprolvdVdqHdqWdq,
    Opcode::EvexVprolvqVdqHdqWdq,
    Opcode::EvexVprorvdVdqHdqWdq,
    Opcode::EvexVprorvqVdqHdqWdq,
    Opcode::EvexVpsrlvwVdqHdqWdqKmask,
    Opcode::EvexVpsrlvdVdqHdqWdqKmask,
    Opcode::EvexVpsrlvqVdqHdqWdqKmask,
    Opcode::EvexVpsravwVdqHdqWdqKmask,
    Opcode::EvexVpsravdVdqHdqWdqKmask,
    Opcode::EvexVpsravqVdqHdqWdqKmask,
    Opcode::EvexVpsllvwVdqHdqWdqKmask,
    Opcode::EvexVpsllvdVdqHdqWdqKmask,
    Opcode::EvexVpsllvqVdqHdqWdqKmask,
    Opcode::EvexVprolvdVdqHdqWdqKmask,
    Opcode::EvexVprolvqVdqHdqWdqKmask,
    Opcode::EvexVprorvdVdqHdqWdqKmask,
    Opcode::EvexVprorvqVdqHdqWdqKmask,
    Opcode::EvexVpsradVdqHdqWdq,
    Opcode::EvexVpsraqVdqHdqWdq,
    Opcode::EvexVpsradVdqHdqWdqKmask,
    Opcode::EvexVpsraqVdqHdqWdqKmask,
    Opcode::EvexVpsradUdqIb,
    Opcode::EvexVpsraqUdqIb,
    Opcode::EvexVprordUdqIb,
    Opcode::EvexVprorqUdqIb,
    Opcode::EvexVproldUdqIb,
    Opcode::EvexVprolqUdqIb,
    Opcode::EvexVpsradUdqIbKmask,
    Opcode::EvexVpsraqUdqIbKmask,
    Opcode::EvexVprordUdqIbKmask,
    Opcode::EvexVprorqUdqIbKmask,
    Opcode::EvexVproldUdqIbKmask,
    Opcode::EvexVprolqUdqIbKmask,
    Opcode::EvexVmovdqu8VdqWdq,
    Opcode::EvexVmovdqu16VdqWdq,
    Opcode::EvexVmovdqu8VdqWdqKmask,
    Opcode::EvexVmovdqu16VdqWdqKmask,
    Opcode::EvexVmovdqu8WdqVdq,
    Opcode::EvexVmovdqu16WdqVdq,
    Opcode::EvexVmovdqu8WdqVdqKmask,
    Opcode::EvexVmovdqu16WdqVdqKmask,
    Opcode::EvexVmovdqu32VdqWdq,
    Opcode::EvexVmovdqu64VdqWdq,
    Opcode::EvexVmovdqu32VdqWdqKmask,
    Opcode::EvexVmovdqu64VdqWdqKmask,
    Opcode::EvexVmovdqu32WdqVdq,
    Opcode::EvexVmovdqu64WdqVdq,
    Opcode::EvexVmovdqu32WdqVdqKmask,
    Opcode::EvexVmovdqu64WdqVdqKmask,
    Opcode::EvexVmovdqa32VdqWdq,
    Opcode::EvexVmovdqa64VdqWdq,
    Opcode::EvexVmovdqa32VdqWdqKmask,
    Opcode::EvexVmovdqa64VdqWdqKmask,
    Opcode::EvexVmovdqa32WdqVdq,
    Opcode::EvexVmovdqa64WdqVdq,
    Opcode::EvexVmovdqa32WdqVdqKmask,
    Opcode::EvexVmovdqa64WdqVdqKmask,
    Opcode::EvexVrangepsVpsHpsWpsIbKmask,
    Opcode::EvexVrangepdVpdHpdWpdIbKmask,
    Opcode::EvexVrangessVssHpsWssIbKmask,
    Opcode::EvexVrangesdVsdHpdWsdIbKmask,
    Opcode::EvexVgetexppsVpsWps,
    Opcode::EvexVgetexppdVpdWpd,
    Opcode::EvexVgetexpssVssHpsWss,
    Opcode::EvexVgetexpsdVsdHpdWsd,
    Opcode::EvexVgetexppsVpsWpsKmask,
    Opcode::EvexVgetexppdVpdWpdKmask,
    Opcode::EvexVgetexpssVssHpsWssKmask,
    Opcode::EvexVgetexpsdVsdHpdWsdKmask,
    Opcode::EvexVgetmantpsVpsWpsIbKmask,
    Opcode::EvexVgetmantpdVpdWpdIbKmask,
    Opcode::EvexVgetmantssVssHpsWssIbKmask,
    Opcode::EvexVgetmantsdVsdHpdWsdIbKmask,
    Opcode::EvexVscalefpsVpsHpsWps,
    Opcode::EvexVscalefpdVpdHpdWpd,
    Opcode::EvexVscalefssVssHpsWss,
    Opcode::EvexVscalefsdVsdHpdWsd,
    Opcode::EvexVscalefpsVpsHpsWpsKmask,
    Opcode::EvexVscalefpdVpdHpdWpdKmask,
    Opcode::EvexVscalefssVssHpsWssKmask,
    Opcode::EvexVscalefsdVsdHpdWsdKmask,
    Opcode::EvexVrcp14psVpsWpsKmask,
    Opcode::EvexVrcp14pdVpdWpdKmask,
    Opcode::EvexVrcp14ssVssHpsWssKmask,
    Opcode::EvexVrcp14sdVsdHpdWsdKmask,
    Opcode::EvexVrsqrt14psVpsWpsKmask,
    Opcode::EvexVrsqrt14pdVpdWpdKmask,
    Opcode::EvexVrsqrt14ssVssHpsWssKmask,
    Opcode::EvexVrsqrt14sdVsdHpdWsdKmask,
    Opcode::EvexVcvtps2uqqVdqWps,
    Opcode::EvexVcvtpd2uqqVdqWpd,
    Opcode::EvexVcvtps2uqqVdqWpsKmask,
    Opcode::EvexVcvtpd2uqqVdqWpdKmask,
    Opcode::EvexVcvttps2uqqVdqWps,
    Opcode::EvexVcvttps2uqqVdqWpsKmask,
    Opcode::EvexVcvttpd2uqqVdqWpd,
    Opcode::EvexVcvttpd2uqqVdqWpdKmask,
    Opcode::EvexVcvtps2qqVdqWps,
    Opcode::EvexVcvtps2qqVdqWpsKmask,
    Opcode::EvexVcvtpd2qqVdqWpd,
    Opcode::EvexVcvtpd2qqVdqWpdKmask,
    Opcode::EvexVcvttps2qqVdqWps,
    Opcode::EvexVcvttps2qqVdqWpsKmask,
    Opcode::EvexVcvttpd2qqVdqWpd,
    Opcode::EvexVcvttpd2qqVdqWpdKmask,
    Opcode::EvexVcvttps2udqVdqWps,
    Opcode::EvexVcvttpd2udqVdqWpd,
    Opcode::EvexVcvttps2udqVdqWpsKmask,
    Opcode::EvexVcvttpd2udqVdqWpdKmask,
    Opcode::EvexVcvtps2udqVdqWps,
    Opcode::EvexVcvtpd2udqVdqWpd,
    Opcode::EvexVcvtps2udqVdqWpsKmask,
    Opcode::EvexVcvtpd2udqVdqWpdKmask,
    Opcode::EvexVcvtudq2pdVpdWdq,
    Opcode::EvexVcvtudq2pdVpdWdqKmask,
    Opcode::EvexVcvtuqq2pdVpdWdq,
    Opcode::EvexVcvtuqq2pdVpdWdqKmask,
    Opcode::EvexVcvtudq2psVpsWdq,
    Opcode::EvexVcvtudq2psVpsWdqKmask,
    Opcode::EvexVcvtuqq2psVpsWdq,
    Opcode::EvexVcvtuqq2psVpsWdqKmask,
    Opcode::EvexVcvtdq2pdVpdWdq,
    Opcode::EvexVcvtdq2pdVpdWdqKmask,
    Opcode::EvexVcvtqq2pdVpdWdq,
    Opcode::EvexVcvtqq2pdVpdWdqKmask,
    Opcode::EvexVcvtdq2psVpsWdq,
    Opcode::EvexVcvtdq2psVpsWdqKmask,
    Opcode::EvexVcvtqq2psVpsWdq,
    Opcode::EvexVcvtqq2psVpsWdqKmask,
    Opcode::EvexVfmadd132psVpsHpsWps,
    Opcode::EvexVfmadd132pdVpdHpdWpd,
    Opcode::EvexVfmadd213psVpsHpsWps,
    Opcode::EvexVfmadd213pdVpdHpdWpd,
    Opcode::EvexVfmadd231psVpsHpsWps,
    Opcode::EvexVfmadd231pdVpdHpdWpd,
    Opcode::EvexVfmadd132psVpsHpsWpsKmask,
    Opcode::EvexVfmadd132pdVpdHpdWpdKmask,
    Opcode::EvexVfmadd213psVpsHpsWpsKmask,
    Opcode::EvexVfmadd213pdVpdHpdWpdKmask,
    Opcode::EvexVfmadd231psVpsHpsWpsKmask,
    Opcode::EvexVfmadd231pdVpdHpdWpdKmask,
    Opcode::EvexVfmadd132ssVpsHssWss,
    Opcode::EvexVfmadd132sdVpdHsdWsd,
    Opcode::EvexVfmadd213ssVpsHssWss,
    Opcode::EvexVfmadd213sdVpdHsdWsd,
    Opcode::EvexVfmadd231ssVpsHssWss,
    Opcode::EvexVfmadd231sdVpdHsdWsd,
    Opcode::EvexVfmadd132ssVpsHssWssKmask,
    Opcode::EvexVfmadd132sdVpdHsdWsdKmask,
    Opcode::EvexVfmadd213ssVpsHssWssKmask,
    Opcode::EvexVfmadd213sdVpdHsdWsdKmask,
    Opcode::EvexVfmadd231ssVpsHssWssKmask,
    Opcode::EvexVfmadd231sdVpdHsdWsdKmask,
    Opcode::EvexVfmaddsub132psVpsHpsWps,
    Opcode::EvexVfmaddsub132pdVpdHpdWpd,
    Opcode::EvexVfmaddsub213psVpsHpsWps,
    Opcode::EvexVfmaddsub213pdVpdHpdWpd,
    Opcode::EvexVfmaddsub231psVpsHpsWps,
    Opcode::EvexVfmaddsub231pdVpdHpdWpd,
    Opcode::EvexVfmaddsub132psVpsHpsWpsKmask,
    Opcode::EvexVfmaddsub132pdVpdHpdWpdKmask,
    Opcode::EvexVfmaddsub213psVpsHpsWpsKmask,
    Opcode::EvexVfmaddsub213pdVpdHpdWpdKmask,
    Opcode::EvexVfmaddsub231psVpsHpsWpsKmask,
    Opcode::EvexVfmaddsub231pdVpdHpdWpdKmask,
    Opcode::EvexVfmsubadd132psVpsHpsWps,
    Opcode::EvexVfmsubadd132pdVpdHpdWpd,
    Opcode::EvexVfmsubadd213psVpsHpsWps,
    Opcode::EvexVfmsubadd213pdVpdHpdWpd,
    Opcode::EvexVfmsubadd231psVpsHpsWps,
    Opcode::EvexVfmsubadd231pdVpdHpdWpd,
    Opcode::EvexVfmsubadd132psVpsHpsWpsKmask,
    Opcode::EvexVfmsubadd132pdVpdHpdWpdKmask,
    Opcode::EvexVfmsubadd213psVpsHpsWpsKmask,
    Opcode::EvexVfmsubadd213pdVpdHpdWpdKmask,
    Opcode::EvexVfmsubadd231psVpsHpsWpsKmask,
    Opcode::EvexVfmsubadd231pdVpdHpdWpdKmask,
    Opcode::EvexVfmsub132psVpsHpsWps,
    Opcode::EvexVfmsub132pdVpdHpdWpd,
    Opcode::EvexVfmsub213psVpsHpsWps,
    Opcode::EvexVfmsub213pdVpdHpdWpd,
    Opcode::EvexVfmsub231psVpsHpsWps,
    Opcode::EvexVfmsub231pdVpdHpdWpd,
    Opcode::EvexVfmsub132psVpsHpsWpsKmask,
    Opcode::EvexVfmsub132pdVpdHpdWpdKmask,
    Opcode::EvexVfmsub213psVpsHpsWpsKmask,
    Opcode::EvexVfmsub213pdVpdHpdWpdKmask,
    Opcode::EvexVfmsub231psVpsHpsWpsKmask,
    Opcode::EvexVfmsub231pdVpdHpdWpdKmask,
    Opcode::EvexVfmsub132ssVpsHssWss,
    Opcode::EvexVfmsub132sdVpdHsdWsd,
    Opcode::EvexVfmsub213ssVpsHssWss,
    Opcode::EvexVfmsub213sdVpdHsdWsd,
    Opcode::EvexVfmsub231ssVpsHssWss,
    Opcode::EvexVfmsub231sdVpdHsdWsd,
    Opcode::EvexVfmsub132ssVpsHssWssKmask,
    Opcode::EvexVfmsub132sdVpdHsdWsdKmask,
    Opcode::EvexVfmsub213ssVpsHssWssKmask,
    Opcode::EvexVfmsub213sdVpdHsdWsdKmask,
    Opcode::EvexVfmsub231ssVpsHssWssKmask,
    Opcode::EvexVfmsub231sdVpdHsdWsdKmask,
    Opcode::EvexVfnmadd132psVpsHpsWps,
    Opcode::EvexVfnmadd132pdVpdHpdWpd,
    Opcode::EvexVfnmadd213psVpsHpsWps,
    Opcode::EvexVfnmadd213pdVpdHpdWpd,
    Opcode::EvexVfnmadd231psVpsHpsWps,
    Opcode::EvexVfnmadd231pdVpdHpdWpd,
    Opcode::EvexVfnmadd132psVpsHpsWpsKmask,
    Opcode::EvexVfnmadd132pdVpdHpdWpdKmask,
    Opcode::EvexVfnmadd213psVpsHpsWpsKmask,
    Opcode::EvexVfnmadd213pdVpdHpdWpdKmask,
    Opcode::EvexVfnmadd231psVpsHpsWpsKmask,
    Opcode::EvexVfnmadd231pdVpdHpdWpdKmask,
    Opcode::EvexVfnmadd132ssVpsHssWss,
    Opcode::EvexVfnmadd132sdVpdHsdWsd,
    Opcode::EvexVfnmadd213ssVpsHssWss,
    Opcode::EvexVfnmadd213sdVpdHsdWsd,
    Opcode::EvexVfnmadd231ssVpsHssWss,
    Opcode::EvexVfnmadd231sdVpdHsdWsd,
    Opcode::EvexVfnmadd132ssVpsHssWssKmask,
    Opcode::EvexVfnmadd132sdVpdHsdWsdKmask,
    Opcode::EvexVfnmadd213ssVpsHssWssKmask,
    Opcode::EvexVfnmadd213sdVpdHsdWsdKmask,
    Opcode::EvexVfnmadd231ssVpsHssWssKmask,
    Opcode::EvexVfnmadd231sdVpdHsdWsdKmask,
    Opcode::EvexVfnmsub132psVpsHpsWps,
    Opcode::EvexVfnmsub132pdVpdHpdWpd,
    Opcode::EvexVfnmsub213psVpsHpsWps,
    Opcode::EvexVfnmsub213pdVpdHpdWpd,
    Opcode::EvexVfnmsub231psVpsHpsWps,
    Opcode::EvexVfnmsub231pdVpdHpdWpd,
    Opcode::EvexVfnmsub132psVpsHpsWpsKmask,
    Opcode::EvexVfnmsub132pdVpdHpdWpdKmask,
    Opcode::EvexVfnmsub213psVpsHpsWpsKmask,
    Opcode::EvexVfnmsub213pdVpdHpdWpdKmask,
    Opcode::EvexVfnmsub231psVpsHpsWpsKmask,
    Opcode::EvexVfnmsub231pdVpdHpdWpdKmask,
    Opcode::EvexVfnmsub132ssVpsHssWss,
    Opcode::EvexVfnmsub132sdVpdHsdWsd,
    Opcode::EvexVfnmsub213ssVpsHssWss,
    Opcode::EvexVfnmsub213sdVpdHsdWsd,
    Opcode::EvexVfnmsub231ssVpsHssWss,
    Opcode::EvexVfnmsub231sdVpdHsdWsd,
    Opcode::EvexVfnmsub132ssVpsHssWssKmask,
    Opcode::EvexVfnmsub132sdVpdHsdWsdKmask,
    Opcode::EvexVfnmsub213ssVpsHssWssKmask,
    Opcode::EvexVfnmsub213sdVpdHsdWsdKmask,
    Opcode::EvexVfnmsub231ssVpsHssWssKmask,
    Opcode::EvexVfnmsub231sdVpdHsdWsdKmask,
    Opcode::EvexVpcmpbKgqHdqWdqIb,
    Opcode::EvexVpcmpwKgdHdqWdqIb,
    Opcode::EvexVpcmpubKgqHdqWdqIb,
    Opcode::EvexVpcmpuwKgdHdqWdqIb,
    Opcode::EvexVpcmpdKgwHdqWdqIb,
    Opcode::EvexVpcmpqKgbHdqWdqIb,
    Opcode::EvexVpcmpudKgwHdqWdqIb,
    Opcode::EvexVpcmpuqKgbHdqWdqIb,
    Opcode::EvexVptestmbKgqHdqWdq,
    Opcode::EvexVptestmwKgdHdqWdq,
    Opcode::EvexVptestnmbKgqHdqWdq,
    Opcode::EvexVptestnmwKgdHdqWdq,
    Opcode::EvexVptestmdKgwHdqWdq,
    Opcode::EvexVptestmqKgbHdqWdq,
    Opcode::EvexVptestnmdKgwHdqWdq,
    Opcode::EvexVptestnmqKgbHdqWdq,
    Opcode::EvexVpternlogdVdqHdqWdqIb,
    Opcode::EvexVpternlogqVdqHdqWdqIb,
    Opcode::EvexVpternlogdVdqHdqWdqIbKmask,
    Opcode::EvexVpternlogqVdqHdqWdqIbKmask,
    Opcode::EvexVgatherdpsVpsVsib,
    Opcode::EvexVgatherdpdVpdVsib,
    Opcode::EvexVgatherqpsVpsVsib,
    Opcode::EvexVgatherqpdVpdVsib,
    Opcode::EvexVgatherddVdqVsib,
    Opcode::EvexVgatherdqVdqVsib,
    Opcode::EvexVgatherqdVdqVsib,
    Opcode::EvexVgatherqqVdqVsib,
    Opcode::EvexVscatterdpsVsibVps,
    Opcode::EvexVscatterdpdVsibVpd,
    Opcode::EvexVscatterqpsVsibVps,
    Opcode::EvexVscatterqpdVsibVpd,
    Opcode::EvexVscatterddVsibVdq,
    Opcode::EvexVscatterdqVsibVdq,
    Opcode::EvexVscatterqdVsibVdq,
    Opcode::EvexVscatterqqVsibVdq,
    Opcode::EvexVblendmpsVpsHpsWps,
    Opcode::EvexVblendmpdVpdHpdWpd,
    Opcode::EvexVpblendmdVdqHdqWdq,
    Opcode::EvexVpblendmqVdqHdqWdq,
    Opcode::EvexVpblendmbVdqHdqWdq,
    Opcode::EvexVpblendmwVdqHdqWdq,
    Opcode::EvexVshufi32x4VdqHdqWdqIbKmask,
    Opcode::EvexVshufi64x2VdqHdqWdqIbKmask,
    Opcode::EvexVshuff32x4VpsHpsWpsIbKmask,
    Opcode::EvexVshuff64x2VpdHpdWpdIbKmask,
    Opcode::EvexVexpandpsVpsWps,
    Opcode::EvexVexpandpdVpdWpd,
    Opcode::EvexVexpandpsVpsWpsKmask,
    Opcode::EvexVexpandpdVpdWpdKmask,
    Opcode::EvexVcompresspsWpsVps,
    Opcode::EvexVcompresspdWpdVpd,
    Opcode::EvexVcompresspsWpsVpsKmask,
    Opcode::EvexVcompresspdWpdVpdKmask,
    Opcode::EvexVpexpandbVdqWdq,
    Opcode::EvexVpexpandwVdqWdq,
    Opcode::EvexVpexpandbVdqWdqKmask,
    Opcode::EvexVpexpandwVdqWdqKmask,
    Opcode::EvexVpexpanddVdqWdq,
    Opcode::EvexVpexpandqVdqWdq,
    Opcode::EvexVpexpanddVdqWdqKmask,
    Opcode::EvexVpexpandqVdqWdqKmask,
    Opcode::EvexVpcompressbWdqVdq,
    Opcode::EvexVpcompresswWdqVdq,
    Opcode::EvexVpcompressbWdqVdqKmask,
    Opcode::EvexVpcompresswWdqVdqKmask,
    Opcode::EvexVpcompressdWdqVdq,
    Opcode::EvexVpcompressqWdqVdq,
    Opcode::EvexVpcompressdWdqVdqKmask,
    Opcode::EvexVpcompressqWdqVdqKmask,
    Opcode::EvexVfixupimmssVssHssWssIbKmask,
    Opcode::EvexVfixupimmsdVsdHsdWsdIbKmask,
    Opcode::EvexVfixupimmpsVpsHpsWpsIb,
    Opcode::EvexVfixupimmpdVpdHpdWpdIb,
    Opcode::EvexVfixupimmpsVpsHpsWpsIbKmask,
    Opcode::EvexVfixupimmpdVpdHpdWpdIbKmask,
    Opcode::EvexVfpclasspsKgwWpsIbKmask,
    Opcode::EvexVfpclasspdKgbWpdIbKmask,
    Opcode::EvexVfpclassssKgbWssIbKmask,
    Opcode::EvexVfpclasssdKgbWsdIbKmask,
    Opcode::EvexVreducepsVpsWpsIbKmask,
    Opcode::EvexVreducepdVpdWpdIbKmask,
    Opcode::EvexVreducessVssHpsWssIbKmask,
    Opcode::EvexVreducesdVsdHpdWsdIbKmask,
    Opcode::EvexVpermt2dVdqHdqWdqKmask,
    Opcode::EvexVpermt2qVdqHdqWdqKmask,
    Opcode::EvexVpermi2dVdqHdqWdqKmask,
    Opcode::EvexVpermi2qVdqHdqWdqKmask,
    Opcode::EvexVpermt2psVpsHpsWpsKmask,
    Opcode::EvexVpermt2pdVpdHpdWpdKmask,
    Opcode::EvexVpermi2psVpsHpsWpsKmask,
    Opcode::EvexVpermi2pdVpdHpdWpdKmask,
    Opcode::EvexVpermdVdqHdqWdqKmask,
    Opcode::EvexVpermqVdqHdqWdqKmask,
    Opcode::EvexVpermpsVpsHpsWpsKmask,
    Opcode::EvexVpermpdVpdHpdWpdKmask,
    Opcode::EvexVpconflictdVdqWdqKmask,
    Opcode::EvexVpconflictqVdqWdqKmask,
    Opcode::EvexVplzcntdVdqWdqKmask,
    Opcode::EvexVplzcntqVdqWdqKmask,
    Opcode::EvexVpmovm2bVdqKeq,
    Opcode::EvexVpmovm2wVdqKed,
    Opcode::EvexVpmovm2dVdqKew,
    Opcode::EvexVpmovm2qVdqKeb,
    Opcode::EvexVpmovb2mKgqWdq,
    Opcode::EvexVpmovw2mKgdWdq,
    Opcode::EvexVpmovd2mKgwWdq,
    Opcode::EvexVpmovq2mKgbWdq,
    Opcode::EvexVpopcntbVdqWdqKmask,
    Opcode::EvexVpopcntwVdqWdqKmask,
    Opcode::EvexVpopcntdVdqWdqKmask,
    Opcode::EvexVpopcntqVdqWdqKmask,
    Opcode::EvexVpshrddVdqHdqWdqIbKmask,
    Opcode::EvexVpshrdqVdqHdqWdqIbKmask,
    Opcode::EvexVpshrdvdVdqHdqWdqKmask,
    Opcode::EvexVpshrdvqVdqHdqWdqKmask,
    Opcode::EvexVpshlddVdqHdqWdqIbKmask,
    Opcode::EvexVpshldqVdqHdqWdqIbKmask,
    Opcode::EvexVpshldvdVdqHdqWdqKmask,
    Opcode::EvexVpshldvqVdqHdqWdqKmask,
    Opcode::EvexVcvtss2siGdWss,
    Opcode::EvexVcvtss2siGqWss,
    Opcode::EvexVcvtsd2siGdWsd,
    Opcode::EvexVcvtsd2siGqWsd,
    Opcode::EvexVcvttss2siGdWss,
    Opcode::EvexVcvttss2siGqWss,
    Opcode::EvexVcvttsd2siGdWsd,
    Opcode::EvexVcvttsd2siGqWsd,
    Opcode::EvexVmovdVdqEd,
    Opcode::EvexVmovqVdqEq,
    Opcode::EvexVmovdEdVd,
    Opcode::EvexVmovqEqVq,
    Opcode::EvexVcvtsi2ssVssEd,
    Opcode::EvexVcvtsi2ssVssEq,
    Opcode::EvexVcvtsi2sdVsdEd,
    Opcode::EvexVcvtsi2sdVsdEq,
    Opcode::EvexVcvtusi2ssVssEd,
    Opcode::EvexVcvtusi2ssVssEq,
    Opcode::EvexVcvtusi2sdVsdEd,
    Opcode::EvexVcvtusi2sdVsdEq,
    Opcode::EvexVcvtss2usiGdWss,
    Opcode::EvexVcvtss2usiGqWss,
    Opcode::EvexVcvtsd2usiGdWsd,
    Opcode::EvexVcvtsd2usiGqWsd,
    Opcode::EvexVcvttss2usiGdWss,
    Opcode::EvexVcvttss2usiGqWss,
    Opcode::EvexVcvttsd2usiGdWsd,
    Opcode::EvexVcvttsd2usiGqWsd,
    Opcode::EvexVpinsrbVdqEbIb,
    Opcode::EvexVpinsrwVdqEwIb,
    Opcode::EvexVpextrwGdUdqIb,
    Opcode::EvexVpextrbEdVdqIbR,
    Opcode::EvexVpextrbMbVdqIbM,
    Opcode::EvexVpextrwEdVdqIbR,
    Opcode::EvexVpextrwMwVdqIbM,
    Opcode::EvexVpinsrdVdqEdIb,
    Opcode::EvexVpinsrqVdqEqIb,
    Opcode::EvexVpextrdEdVdqIb,
    Opcode::EvexVpextrqEqVdqIb,
    Opcode::EvexVpbroadcastmb2qVdqKeb,
    Opcode::EvexVpbroadcastmw2dVdqKew,
    Opcode::EvexVpdpbusdVdqHdqWdq,
    Opcode::EvexVpdpbusdsVdqHdqWdq,
    Opcode::EvexVpdpwssdVdqHdqWdq,
    Opcode::EvexVpdpwssdsVdqHdqWdq,
    Opcode::EvexVpdpbusdVdqHdqWdqKmask,
    Opcode::EvexVpdpbusdsVdqHdqWdqKmask,
    Opcode::EvexVpdpwssdVdqHdqWdqKmask,
    Opcode::EvexVpdpwssdsVdqHdqWdqKmask,
    Opcode::EvexVpshufbitqmbKgqHdqWdqKmask,
    Opcode::EvexVp2intersectdKgqHdqWdq,
    Opcode::EvexVp2intersectqKgqHdqWdq,
    Opcode::EvexVpshrdwVdqHdqWdqIbKmask,
    Opcode::EvexVpshrdvwVdqHdqWdqKmask,
    Opcode::EvexVpshldwVdqHdqWdqIbKmask,
    Opcode::EvexVpshldvwVdqHdqWdqKmask,
    Opcode::EvexVaddshVshHphWsh,
    Opcode::EvexVaddshVshHphWshKmask,
    Opcode::EvexVsubshVshHphWsh,
    Opcode::EvexVsubshVshHphWshKmask,
    Opcode::EvexVmulshVshHphWsh,
    Opcode::EvexVmulshVshHphWshKmask,
    Opcode::EvexVdivshVshHphWsh,
    Opcode::EvexVdivshVshHphWshKmask,
    Opcode::EvexVminshVshHphWsh,
    Opcode::EvexVminshVshHphWshKmask,
    Opcode::EvexVmaxshVshHphWsh,
    Opcode::EvexVmaxshVshHphWshKmask,
    Opcode::EvexVscalefshVshHphWsh,
    Opcode::EvexVscalefshVshHphWshKmask,
    Opcode::EvexVaddphVphHphWph,
    Opcode::EvexVaddphVphHphWphKmask,
    Opcode::EvexVsubphVphHphWph,
    Opcode::EvexVsubphVphHphWphKmask,
    Opcode::EvexVmulphVphHphWph,
    Opcode::EvexVmulphVphHphWphKmask,
    Opcode::EvexVdivphVphHphWph,
    Opcode::EvexVdivphVphHphWphKmask,
    Opcode::EvexVminphVphHphWph,
    Opcode::EvexVminphVphHphWphKmask,
    Opcode::EvexVmaxphVphHphWph,
    Opcode::EvexVmaxphVphHphWphKmask,
    Opcode::EvexVscalefphVphHphWph,
    Opcode::EvexVscalefphVphHphWphKmask,
    Opcode::EvexVfmadd132shVphHshWsh,
    Opcode::EvexVfmadd132shVphHshWshKmask,
    Opcode::EvexVfmadd213shVphHshWsh,
    Opcode::EvexVfmadd213shVphHshWshKmask,
    Opcode::EvexVfmadd231shVphHshWsh,
    Opcode::EvexVfmadd231shVphHshWshKmask,
    Opcode::EvexVfnmadd132shVphHshWsh,
    Opcode::EvexVfnmadd132shVphHshWshKmask,
    Opcode::EvexVfnmadd213shVphHshWsh,
    Opcode::EvexVfnmadd213shVphHshWshKmask,
    Opcode::EvexVfnmadd231shVphHshWsh,
    Opcode::EvexVfnmadd231shVphHshWshKmask,
    Opcode::EvexVfmsub132shVphHshWsh,
    Opcode::EvexVfmsub132shVphHshWshKmask,
    Opcode::EvexVfmsub213shVphHshWsh,
    Opcode::EvexVfmsub213shVphHshWshKmask,
    Opcode::EvexVfmsub231shVphHshWsh,
    Opcode::EvexVfmsub231shVphHshWshKmask,
    Opcode::EvexVfnmsub132shVphHshWsh,
    Opcode::EvexVfnmsub132shVphHshWshKmask,
    Opcode::EvexVfnmsub213shVphHshWsh,
    Opcode::EvexVfnmsub213shVphHshWshKmask,
    Opcode::EvexVfnmsub231shVphHshWsh,
    Opcode::EvexVfnmsub231shVphHshWshKmask,
    Opcode::EvexVfmadd132phVphHphWph,
    Opcode::EvexVfmadd132phVphHphWphKmask,
    Opcode::EvexVfmadd213phVphHphWph,
    Opcode::EvexVfmadd213phVphHphWphKmask,
    Opcode::EvexVfmadd231phVphHphWph,
    Opcode::EvexVfmadd231phVphHphWphKmask,
    Opcode::EvexVfnmadd132phVphHphWph,
    Opcode::EvexVfnmadd132phVphHphWphKmask,
    Opcode::EvexVfnmadd213phVphHphWph,
    Opcode::EvexVfnmadd213phVphHphWphKmask,
    Opcode::EvexVfnmadd231phVphHphWph,
    Opcode::EvexVfnmadd231phVphHphWphKmask,
    Opcode::EvexVfmsub132phVphHphWph,
    Opcode::EvexVfmsub132phVphHphWphKmask,
    Opcode::EvexVfmsub213phVphHphWph,
    Opcode::EvexVfmsub213phVphHphWphKmask,
    Opcode::EvexVfmsub231phVphHphWph,
    Opcode::EvexVfmsub231phVphHphWphKmask,
    Opcode::EvexVfnmsub132phVphHphWph,
    Opcode::EvexVfnmsub132phVphHphWphKmask,
    Opcode::EvexVfnmsub213phVphHphWph,
    Opcode::EvexVfnmsub213phVphHphWphKmask,
    Opcode::EvexVfnmsub231phVphHphWph,
    Opcode::EvexVfnmsub231phVphHphWphKmask,
    Opcode::EvexVfmaddsub132phVphHphWph,
    Opcode::EvexVfmaddsub132phVphHphWphKmask,
    Opcode::EvexVfmaddsub213phVphHphWph,
    Opcode::EvexVfmaddsub213phVphHphWphKmask,
    Opcode::EvexVfmaddsub231phVphHphWph,
    Opcode::EvexVfmaddsub231phVphHphWphKmask,
    Opcode::EvexVfmsubadd132phVphHphWph,
    Opcode::EvexVfmsubadd132phVphHphWphKmask,
    Opcode::EvexVfmsubadd213phVphHphWph,
    Opcode::EvexVfmsubadd213phVphHphWphKmask,
    Opcode::EvexVfmsubadd231phVphHphWph,
    Opcode::EvexVfmsubadd231phVphHphWphKmask,
    Opcode::EvexVfpclassphKgdWphIbKmask,
    Opcode::EvexVfpclassshKgbWshIbKmask,
    Opcode::EvexVucomishVshWsh,
    Opcode::EvexVcomishVshWsh,
    Opcode::EvexVcmpphKgdHphWphIb,
    Opcode::EvexVcmpshKgbHshWshIb,
    Opcode::EvexVsqrtphVphWph,
    Opcode::EvexVsqrtphVphWphKmask,
    Opcode::EvexVsqrtshVshHphWsh,
    Opcode::EvexVsqrtshVshHphWshKmask,
    Opcode::EvexVgetexpphVphWph,
    Opcode::EvexVgetexpphVphWphKmask,
    Opcode::EvexVgetexpshVshHphWsh,
    Opcode::EvexVgetexpshVshHphWshKmask,
    Opcode::EvexVmovshVshWsh,
    Opcode::EvexVmovshWshVsh,
    Opcode::EvexVmovshVshWshKmask,
    Opcode::EvexVmovshWshVshKmask,
    Opcode::EvexVmovshVshHphWsh,
    Opcode::EvexVmovshWshHphVsh,
    Opcode::EvexVmovshVshHphWshKmask,
    Opcode::EvexVmovshWshHphVshKmask,
    Opcode::EvexVmovwVshEw,
    Opcode::EvexVmovwEdVsh,
    Opcode::EvexVcvtph2uwVdqWps,
    Opcode::EvexVcvtph2uwVdqWpsKmask,
    Opcode::EvexVcvtph2wVdqWps,
    Opcode::EvexVcvtph2wVdqWpsKmask,
    Opcode::EvexVcvttph2uwVdqWps,
    Opcode::EvexVcvttph2uwVdqWpsKmask,
    Opcode::EvexVcvttph2wVdqWps,
    Opcode::EvexVcvttph2wVdqWpsKmask,
    Opcode::EvexVcvtuw2phVphWdq,
    Opcode::EvexVcvtuw2phVphWdqKmask,
    Opcode::EvexVcvtw2phVphWdq,
    Opcode::EvexVcvtw2phVphWdqKmask,
    Opcode::EvexVcvtph2psxVpsWph,
    Opcode::EvexVcvtph2psxVpsWphKmask,
    Opcode::EvexVcvtph2dqVdqWph,
    Opcode::EvexVcvtph2dqVdqWphKmask,
    Opcode::EvexVcvtph2udqVdqWph,
    Opcode::EvexVcvtph2udqVdqWphKmask,
    Opcode::EvexVcvttph2dqVdqWph,
    Opcode::EvexVcvttph2dqVdqWphKmask,
    Opcode::EvexVcvttph2udqVdqWph,
    Opcode::EvexVcvttph2udqVdqWphKmask,
    Opcode::EvexVcvtph2pdVpdWph,
    Opcode::EvexVcvtph2pdVpdWphKmask,
    Opcode::EvexVcvtph2qqVdqWph,
    Opcode::EvexVcvtph2qqVdqWphKmask,
    Opcode::EvexVcvtph2uqqVdqWph,
    Opcode::EvexVcvtph2uqqVdqWphKmask,
    Opcode::EvexVcvttph2qqVdqWph,
    Opcode::EvexVcvttph2qqVdqWphKmask,
    Opcode::EvexVcvttph2uqqVdqWph,
    Opcode::EvexVcvttph2uqqVdqWphKmask,
    Opcode::EvexVcvtps2phxVphWdq,
    Opcode::EvexVcvtps2phxVphWdqKmask,
    Opcode::EvexVcvtdq2phVphWdq,
    Opcode::EvexVcvtdq2phVphWdqKmask,
    Opcode::EvexVcvtudq2phVphWdq,
    Opcode::EvexVcvtudq2phVphWdqKmask,
    Opcode::EvexVcvtpd2phVphWdq,
    Opcode::EvexVcvtpd2phVphWdqKmask,
    Opcode::EvexVcvtqq2phVphWdq,
    Opcode::EvexVcvtqq2phVphWdqKmask,
    Opcode::EvexVcvtuqq2phVphWdq,
    Opcode::EvexVcvtuqq2phVphWdqKmask,
    Opcode::EvexVcvtsh2ssVssWsh,
    Opcode::EvexVcvtsh2ssVssWshKmask,
    Opcode::EvexVcvtsh2sdVsdWsh,
    Opcode::EvexVcvtsh2sdVsdWshKmask,
    Opcode::EvexVcvtss2shVssWsh,
    Opcode::EvexVcvtss2shVssWshKmask,
    Opcode::EvexVcvtsd2shVssWsh,
    Opcode::EvexVcvtsd2shVssWshKmask,
    Opcode::EvexVcvtsh2siGdWss,
    Opcode::EvexVcvtsh2siGqWss,
    Opcode::EvexVcvtsh2usiGdWss,
    Opcode::EvexVcvtsh2usiGqWss,
    Opcode::EvexVcvttsh2siGdWss,
    Opcode::EvexVcvttsh2siGqWss,
    Opcode::EvexVcvttsh2usiGdWss,
    Opcode::EvexVcvttsh2usiGqWss,
    Opcode::EvexVcvtsi2shVshEd,
    Opcode::EvexVcvtsi2shVshEq,
    Opcode::EvexVcvtusi2shVshEd,
    Opcode::EvexVcvtusi2shVshEq,
    Opcode::EvexVgetmantphVphWphIbKmask,
    Opcode::EvexVgetmantshVshHphWshIbKmask,
    Opcode::EvexVreducephVphWphIbKmask,
    Opcode::EvexVreduceshVshHphWshIbKmask,
    Opcode::EvexVrndscalephVphWphIbKmask,
    Opcode::EvexVrndscaleshVshHphWshIbKmask,
    Opcode::EvexVrcpphVphWphKmask,
    Opcode::EvexVrcpshVshHphWshKmask,
    Opcode::EvexVrsqrtphVphWphKmask,
    Opcode::EvexVrsqrtshVshHphWshKmask,
    Opcode::EvexVfmulcshVshHphWshKmask,
    Opcode::EvexVfcmulcshVshHphWshKmask,
    Opcode::EvexVfmulcphVphHphWphKmask,
    Opcode::EvexVfcmulcphVphHphWphKmask,
    Opcode::EvexVfmaddcshVshHphWshKmask,
    Opcode::EvexVfcmaddcshVshHphWshKmask,
    Opcode::EvexVfmaddcphVphHphWphKmask,
    Opcode::EvexVfcmaddcphVphHphWphKmask,
    Opcode::EvexVaesencVdqHdqWdq,
    Opcode::EvexVaesenclastVdqHdqWdq,
    Opcode::EvexVaesdecVdqHdqWdq,
    Opcode::EvexVaesdeclastVdqHdqWdq,
    Opcode::EvexVpclmulqdqVdqHdqWdqIb,
    Opcode::EvexVgf2p8affineqbVdqHdqWdqIbKmask,
    Opcode::EvexVgf2p8affineinvqbVdqHdqWdqIbKmask,
    Opcode::EvexVgf2p8mulbVdqHdqWdqKmask,
    Opcode::EvexVsm4key4VdqHdqWdq,
    Opcode::EvexVsm4rnds4VdqHdqWdq,
    Opcode::EvexVucomxssVssWss,
    Opcode::EvexVcomxssVssWss,
    Opcode::EvexVucomxsdVsdWsd,
    Opcode::EvexVcomxsdVsdWsd,
    Opcode::EvexVucomxshVshWsh,
    Opcode::EvexVcomxshVshWsh,
    Opcode::EvexVpdpbssdVdqHdqWdq,
    Opcode::EvexVpdpbssdsVdqHdqWdq,
    Opcode::EvexVpdpbsudVdqHdqWdq,
    Opcode::EvexVpdpbsudsVdqHdqWdq,
    Opcode::EvexVpdpbuudVdqHdqWdq,
    Opcode::EvexVpdpbuudsVdqHdqWdq,
    Opcode::EvexVpdpbssdVdqHdqWdqKmask,
    Opcode::EvexVpdpbssdsVdqHdqWdqKmask,
    Opcode::EvexVpdpbsudVdqHdqWdqKmask,
    Opcode::EvexVpdpbsudsVdqHdqWdqKmask,
    Opcode::EvexVpdpbuudVdqHdqWdqKmask,
    Opcode::EvexVpdpbuudsVdqHdqWdqKmask,
    Opcode::EvexVpdpwsudVdqHdqWdq,
    Opcode::EvexVpdpwsudsVdqHdqWdq,
    Opcode::EvexVpdpwusdVdqHdqWdq,
    Opcode::EvexVpdpwusdsVdqHdqWdq,
    Opcode::EvexVpdpwuudVdqHdqWdq,
    Opcode::EvexVpdpwuudsVdqHdqWdq,
    Opcode::EvexVpdpwsudVdqHdqWdqKmask,
    Opcode::EvexVpdpwsudsVdqHdqWdqKmask,
    Opcode::EvexVpdpwusdVdqHdqWdqKmask,
    Opcode::EvexVpdpwusdsVdqHdqWdqKmask,
    Opcode::EvexVpdpwuudVdqHdqWdqKmask,
    Opcode::EvexVpdpwuudsVdqHdqWdqKmask,
    Opcode::EvexVmpsadbwVdqHdqWdqIb,
    Opcode::EvexVmpsadbwVdqHdqWdqIbKmask,
    Opcode::EvexVdpphpsVpsHdqWdqKmask,
    Opcode::EvexVaddbf16VphHphWph,
    Opcode::EvexVaddbf16VphHphWphKmask,
    Opcode::EvexVsubbf16VphHphWph,
    Opcode::EvexVsubbf16VphHphWphKmask,
    Opcode::EvexVdivbf16VphHphWph,
    Opcode::EvexVdivbf16VphHphWphKmask,
    Opcode::EvexVmulbf16VphHphWph,
    Opcode::EvexVmulbf16VphHphWphKmask,
    Opcode::EvexVminpbf16VphHphWph,
    Opcode::EvexVminpbf16VphHphWphKmask,
    Opcode::EvexVmaxpbf16VphHphWph,
    Opcode::EvexVmaxpbf16VphHphWphKmask,
    Opcode::EvexVscalefpbf16VphHphWph,
    Opcode::EvexVscalefpbf16VphHphWphKmask,
    Opcode::EvexVsqrtbf16VphWph,
    Opcode::EvexVsqrtbf16VphWphKmask,
    Opcode::EvexVgetexppbf16VphWph,
    Opcode::EvexVgetexppbf16VphWphKmask,
    Opcode::EvexVfmadd132bf16VphHphWph,
    Opcode::EvexVfmadd132bf16VphHphWphKmask,
    Opcode::EvexVfmadd213bf16VphHphWph,
    Opcode::EvexVfmadd213bf16VphHphWphKmask,
    Opcode::EvexVfmadd231bf16VphHphWph,
    Opcode::EvexVfmadd231bf16VphHphWphKmask,
    Opcode::EvexVfmsub132bf16VphHphWph,
    Opcode::EvexVfmsub132bf16VphHphWphKmask,
    Opcode::EvexVfmsub213bf16VphHphWph,
    Opcode::EvexVfmsub213bf16VphHphWphKmask,
    Opcode::EvexVfmsub231bf16VphHphWph,
    Opcode::EvexVfmsub231bf16VphHphWphKmask,
    Opcode::EvexVfnmadd132bf16VphHphWph,
    Opcode::EvexVfnmadd132bf16VphHphWphKmask,
    Opcode::EvexVfnmadd213bf16VphHphWph,
    Opcode::EvexVfnmadd213bf16VphHphWphKmask,
    Opcode::EvexVfnmadd231bf16VphHphWph,
    Opcode::EvexVfnmadd231bf16VphHphWphKmask,
    Opcode::EvexVfnmsub132bf16VphHphWph,
    Opcode::EvexVfnmsub132bf16VphHphWphKmask,
    Opcode::EvexVfnmsub213bf16VphHphWph,
    Opcode::EvexVfnmsub213bf16VphHphWphKmask,
    Opcode::EvexVfnmsub231bf16VphHphWph,
    Opcode::EvexVfnmsub231bf16VphHphWphKmask,
    Opcode::EvexVfpclasspbf16KgdWphIbKmask,
    Opcode::EvexVcmppbf16KgdHphWphIb,
    Opcode::EvexVcomisbf16VshWsh,
    Opcode::EvexVgetmantpbf16VphWphIbKmask,
    Opcode::EvexVreducebf16VphWphIbKmask,
    Opcode::EvexVrndscalebf16VphWphIbKmask,
    Opcode::EvexVrcppbf16VphWph,
    Opcode::EvexVrcppbf16VphWphKmask,
    Opcode::EvexVrsqrtpbf16VphWph,
    Opcode::EvexVrsqrtpbf16VphWphKmask,
    Opcode::EvexVminmaxpsVpsHpsWpsIbKmask,
    Opcode::EvexVminmaxssVssHpsWssIbKmask,
    Opcode::EvexVminmaxpdVpdHpdWpdIbKmask,
    Opcode::EvexVminmaxsdVsdHpdWsdIbKmask,
    Opcode::EvexVminmaxphVphHphWphIbKmask,
    Opcode::EvexVminmaxshVshHphWshIbKmask,
    Opcode::EvexVminmaxbf16VphHphWphIbKmask,
    Opcode::EvexVcvt2ps2phxVphHpsWpsKmask,
    Opcode::EvexVcvttps2qqsVdqWps,
    Opcode::EvexVcvttps2qqsVdqWpsKmask,
    Opcode::EvexVcvttpd2qqsVdqWpd,
    Opcode::EvexVcvttpd2qqsVdqWpdKmask,
    Opcode::EvexVcvttps2uqqsVdqWps,
    Opcode::EvexVcvttps2uqqsVdqWpsKmask,
    Opcode::EvexVcvttpd2uqqsVdqWpd,
    Opcode::EvexVcvttpd2uqqsVdqWpdKmask,
    Opcode::EvexVcvttps2dqsVdqWps,
    Opcode::EvexVcvttps2dqsVdqWpsKmask,
    Opcode::EvexVcvttpd2dqsVdqWpd,
    Opcode::EvexVcvttpd2dqsVdqWpdKmask,
    Opcode::EvexVcvttps2udqsVdqWps,
    Opcode::EvexVcvttpd2udqsVdqWpd,
    Opcode::EvexVcvttps2udqsVdqWpsKmask,
    Opcode::EvexVcvttpd2udqsVdqWpdKmask,
    Opcode::EvexVcvttss2sisGdWss,
    Opcode::EvexVcvttss2sisGqWss,
    Opcode::EvexVcvttsd2sisGdWsd,
    Opcode::EvexVcvttsd2sisGqWsd,
    Opcode::EvexVcvttss2usisGdWss,
    Opcode::EvexVcvttss2usisGqWss,
    Opcode::EvexVcvttsd2usisGdWsd,
    Opcode::EvexVcvttsd2usisGqWsd,
    Opcode::EvexVmovwVshWsh,
    Opcode::EvexVmovwWshVsh,
    Opcode::EvexVmovdVdWd,
    Opcode::EvexVmovdWdVd,
    Opcode::EvexVcvthf82phVphWf8Kmask,
    Opcode::EvexVcvtph2bf8Vf8hdqWphKmask,
    Opcode::EvexVcvtph2bf8sVf8hdqWphKmask,
    Opcode::EvexVcvt2ph2bf8Vf8hdqWphKmask,
    Opcode::EvexVcvt2ph2bf8sVf8hdqWphKmask,
    Opcode::EvexVcvtbiasph2bf8Vf8hdqWphKmask,
    Opcode::EvexVcvtbiasph2bf8sVf8hdqWphKmask,
    Opcode::EvexVcvtph2hf8Vf8hdqWphKmask,
    Opcode::EvexVcvtph2hf8sVf8hdqWphKmask,
    Opcode::EvexVcvt2ph2hf8Vf8hdqWphKmask,
    Opcode::EvexVcvt2ph2hf8sVf8hdqWphKmask,
    Opcode::EvexVcvtbiasph2hf8Vf8hdqWphKmask,
    Opcode::EvexVcvtbiasph2hf8sVf8hdqWphKmask,
    Opcode::EvexVcvtbf162ibsV8bWph,
    Opcode::EvexVcvtbf162ibsV8bWphKmask,
    Opcode::EvexVcvtbf162iubsV8bWph,
    Opcode::EvexVcvtbf162iubsV8bWphKmask,
    Opcode::EvexVcvttbf162ibsV8bWph,
    Opcode::EvexVcvttbf162ibsV8bWphKmask,
    Opcode::EvexVcvttbf162iubsV8bWph,
    Opcode::EvexVcvttbf162iubsV8bWphKmask,
    Opcode::EvexVcvtph2ibsV8bWph,
    Opcode::EvexVcvtph2ibsV8bWphKmask,
    Opcode::EvexVcvtph2iubsV8bWph,
    Opcode::EvexVcvtph2iubsV8bWphKmask,
    Opcode::EvexVcvttph2ibsV8bWph,
    Opcode::EvexVcvttph2ibsV8bWphKmask,
    Opcode::EvexVcvttph2iubsV8bWph,
    Opcode::EvexVcvttph2iubsV8bWphKmask,
    Opcode::EvexVcvtps2ibsV8bWps,
    Opcode::EvexVcvtps2ibsV8bWpsKmask,
    Opcode::EvexVcvtps2iubsV8bWps,
    Opcode::EvexVcvtps2iubsV8bWpsKmask,
    Opcode::EvexVcvttps2ibsV8bWps,
    Opcode::EvexVcvttps2ibsV8bWpsKmask,
    Opcode::EvexVcvttps2iubsV8bWps,
    Opcode::EvexVcvttps2iubsV8bWpsKmask,
    Opcode::EvexTilemovrowVdqTrmIb,
    Opcode::EvexTilemovrowVdqTrmBd,
    Opcode::EvexTcvtrowd2psVpsTrmIb,
    Opcode::EvexTcvtrowd2psVpsTrmBd,
    Opcode::EvexTcvtrowps2phlVphTrmIb,
    Opcode::EvexTcvtrowps2phlVphTrmBd,
    Opcode::EvexTcvtrowps2phhVphTrmIb,
    Opcode::EvexTcvtrowps2phhVphTrmBd,
    Opcode::EvexTcvtrowps2bf16lVphTrmIb,
    Opcode::EvexTcvtrowps2bf16lVphTrmBd,
    Opcode::EvexTcvtrowps2bf16hVphTrmIb,
    Opcode::EvexTcvtrowps2bf16hVphTrmBd,
    Opcode::EvexVmovrsbVdqWdq,
    Opcode::EvexVmovrsbVdqWdqKmask,
    Opcode::EvexVmovrswVdqWdq,
    Opcode::EvexVmovrswVdqWdqKmask,
    Opcode::EvexVmovrsdVdqWdq,
    Opcode::EvexVmovrsdVdqWdqKmask,
    Opcode::EvexVmovrsqVdqWdq,
    Opcode::EvexVmovrsqVdqWdqKmask,
    Opcode::NoAvxState,
    Opcode::NoEvexState,
];

#[test]
fn opcode_list_is_complete() {
    assert_eq!(ALL_OPCODES.len(), OPCODE_VARIANT_COUNT);
    let mut seen = std::collections::HashSet::new();
    for op in ALL_OPCODES {
        assert!(seen.insert(*op));
    }
}

#[test]
fn isa_feature_table_counts() {
    let gated = ALL_OPCODES.iter().filter(|op| opcode_isa_feature(**op) != ISA_ALWAYS).count();
    assert_eq!(gated, GATED_OPCODE_COUNT);
    for op in ALL_OPCODES {
        let f = opcode_isa_feature(*op);
        assert!(f == ISA_ALWAYS || f <= 133);
    }
    assert_eq!(opcode_isa_feature(Opcode::IaError), ISA_ALWAYS);
    assert_eq!(opcode_isa_feature(Opcode::EvexVmovrsbVdqWdq), 101);
}

#[test]
fn evex_flags_table_counts() {
    let flagged = ALL_OPCODES.iter().filter(|op| opcode_evex_flags(**op) != 0).count();
    assert_eq!(flagged, EVEX_FLAGGED_OPCODE_COUNT);
    for op in ALL_OPCODES {
        let f = opcode_evex_flags(*op);
        assert!(f == 0 || (f & 0x080 == 0x080 && f & !0x380 == 0));
    }
    assert_eq!(opcode_evex_flags(Opcode::IaError), 0);
    assert_eq!(opcode_evex_flags(Opcode::EvexVpackssdwVdqHdqWdq), 0x180);
}

#[test]
fn cpu_state_table_counts() {
    let avx = ALL_OPCODES.iter().filter(|op| opcode_state(**op) == CpuState::Avx).count();
    let evex = ALL_OPCODES.iter().filter(|op| opcode_state(**op) == CpuState::Evex).count();
    assert_eq!(avx, STATE_AVX_OPCODE_COUNT);
    assert_eq!(evex, STATE_EVEX_OPCODE_COUNT);
    assert_eq!(opcode_state(Opcode::IaError), CpuState::Base);
    assert_eq!(opcode_state(Opcode::EvexTilemovrowVdqTrmIb), CpuState::Amx);
}
