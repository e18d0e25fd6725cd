//! The x86 opcode enumeration: one variant per distinct instruction form,
//! in the order of the Bochs `ia_opcodes.def` table.

use vstd::prelude::*;

verus! {

/// x86 opcode enumeration — one variant per distinct instruction form.
///
/// `IaError` marks an encoding that names no instruction.
#[allow(non_camel_case_types)]
#[derive(Clone, Copy, PartialEq, Eq, Structural, Debug, Hash)]
pub enum Opcode {
    IaError,
    InsertedOpcode,
    Aaa,
    Aad,
    Aam,
    Aas,
    Daa,
    Das,
    AdcEbGb,
    AndEbGb,
    AddEbGb,
    CmpEbGb,
    OrEbGb,
    SbbEbGb,
    SubEbGb,
    TestEbGb,
    XorEbGb,
    AdcEwGw,
    AddEwGw,
    AndEwGw,
    CmpEwGw,
    OrEwGw,
    SbbEwGw,
    SubEwGw,
    TestEwGw,
    XorEwGw,
    AdcEdGd,
    AddEdGd,
    AndEdGd,
    CmpEdGd,
    OrEdGd,
    SbbEdGd,
    SubEdGd,
    TestEdGd,
    XorEdGd,
    AdcAlib,
    AddAlib,
    AndAlib,
    CmpAlib,
    OrAlib,
    SbbAlib,
    SubAlib,
    TestAlib,
    XorAlib,
    AdcAxiw,
    AddAxiw,
    AndAxiw,
    CmpAxiw,
    OrAxiw,
    SbbAxiw,
    SubAxiw,
    TestAxiw,
    XorAxiw,
    AdcEaxid,
    AddEaxid,
    AndEaxid,
    CmpEaxid,
    OrEaxid,
    SbbEaxid,
    SubEaxid,
    TestEaxid,
    XorEaxid,
    AddEbIb,
    OrEbIb,
    AdcEbIb,
    SbbEbIb,
    AndEbIb,
    SubEbIb,
    XorEbIb,
    TestEbIb,
    CmpEbIb,
    AddEwIw,
    OrEwIw,
    AdcEwIw,
    SbbEwIw,
    AndEwIw,
    SubEwIw,
    XorEwIw,
    TestEwIw,
    CmpEwIw,
    AddEwsIb,
    OrEwsIb,
    AdcEwsIb,
    SbbEwsIb,
    AndEwsIb,
    SubEwsIb,
    XorEwsIb,
    TestEwsIb,
    CmpEwsIb,
    AddEdId,
    OrEdId,
    AdcEdId,
    SbbEdId,
    AndEdId,
    SubEdId,
    XorEdId,
    TestEdId,
    CmpEdId,
    AddEdsIb,
    OrEdsIb,
    AdcEdsIb,
    SbbEdsIb,
    AndEdsIb,
    SubEdsIb,
    XorEdsIb,
    TestEdsIb,
    CmpEdsIb,
    XorEwGwZeroIdiom,
    XorGwEwZeroIdiom,
    XorEdGdZeroIdiom,
    XorGdEdZeroIdiom,
    SubEwGwZeroIdiom,
    SubGwEwZeroIdiom,
    SubEdGdZeroIdiom,
    SubGdEdZeroIdiom,
    AddGbEb,
    OrGbEb,
    AdcGbEb,
    SbbGbEb,
    AndGbEb,
    SubGbEb,
    XorGbEb,
    CmpGbEb,
    AdcGwEw,
    AddGwEw,
    AndGwEw,
    CmpGwEw,
    OrGwEw,
    SbbGwEw,
    SubGwEw,
    XorGwEw,
    AdcGdEd,
    AddGdEd,
    AndGdEd,
    CmpGdEd,
    OrGdEd,
    SbbGdEd,
    SubGdEd,
    XorGdEd,
    IncEb,
    IncEw,
    IncEd,
    DecEb,
    DecEw,
    DecEd,
    BsfGwEw,
    BsrGwEw,
    BsfGdEd,
    BsrGdEd,
    BtcEwGw,
    BtrEwGw,
    BtsEwGw,
    BtcEdGd,
    BtrEdGd,
    BtsEdGd,
    BtcEwIb,
    BtrEwIb,
    BtsEwIb,
    BtcEdIb,
    BtrEdIb,
    BtsEdIb,
    BtEwIb,
    BtEdIb,
    BtEwGw,
    BtEdGd,
    BoundGwMa,
    BoundGdMa,
    ArplEwGw,
    CallEd,
    CallEw,
    CallJd,
    CallJw,
    CallfOp16Ap,
    CallfOp32Ap,
    CallfOp16Ep,
    CallfOp32Ep,
    Cbw,
    Cdq,
    Cwd,
    Cwde,
    Clc,
    Cld,
    Cli,
    Clts,
    Cmc,
    Hlt,
    Clflush,
    Clflushopt,
    Clwb,
    Clzero,
    EnterOp16IwIb,
    EnterOp32IwIb,
    LeaveOp16,
    LeaveOp32,
    ImulGdEd,
    ImulGdEdId,
    ImulGdEdsIb,
    ImulGwEw,
    ImulGwEwIw,
    ImulGwEwsIb,
    InAlDx,
    InAlib,
    InAxDx,
    InAxib,
    InEaxDx,
    InEaxib,
    OutDxAl,
    OutDxAx,
    OutDxEax,
    OutIbAl,
    OutIbAx,
    OutIbEax,
    IntIb,
    INT1,
    INT3,
    Int0,
    IretOp16,
    IretOp32,
    JmpEd,
    JmpEw,
    JmpJw,
    JmpJbw,
    JmpJd,
    JmpJbd,
    JmpfAp,
    JmpfOp16Ep,
    JmpfOp32Ep,
    JcxzJbw,
    JecxzJbd,
    LoopJbw,
    LoopeJbw,
    LoopneJbw,
    LoopJbd,
    LoopeJbd,
    LoopneJbd,
    JbJw,
    JbeJw,
    JlJw,
    JleJw,
    JnbJw,
    JnbeJw,
    JnlJw,
    JnleJw,
    JnoJw,
    JnpJw,
    JnsJw,
    JnzJw,
    JoJw,
    JpJw,
    JsJw,
    JzJw,
    JbJbw,
    JbeJbw,
    JlJbw,
    JleJbw,
    JnbJbw,
    JnbeJbw,
    JnlJbw,
    JnleJbw,
    JnoJbw,
    JnpJbw,
    JnsJbw,
    JnzJbw,
    JoJbw,
    JpJbw,
    JsJbw,
    JzJbw,
    JbJd,
    JbeJd,
    JlJd,
    JleJd,
    JnbJd,
    JnbeJd,
    JnlJd,
    JnleJd,
    JnoJd,
    JnpJd,
    JnsJd,
    JnzJd,
    JoJd,
    JpJd,
    JsJd,
    JzJd,
    JbJbd,
    JbeJbd,
    JlJbd,
    JleJbd,
    JnbJbd,
    JnbeJbd,
    JnlJbd,
    JnleJbd,
    JnoJbd,
    JnpJbd,
    JnsJbd,
    JnzJbd,
    JoJbd,
    JpJbd,
    JsJbd,
    JzJbd,
    Sahf,
    Lahf,
    LdsGdMp,
    LdsGwMp,
    LesGdMp,
    LesGwMp,
    LfsGdMp,
    LfsGwMp,
    LssGdMp,
    LssGwMp,
    LgsGdMp,
    LgsGwMp,
    LarGwEw,
    LslGwEw,
    LarGdEw,
    LslGdEw,
    LeaGdM,
    LeaGwM,
    SidtMs,
    LidtMs,
    SgdtMs,
    LgdtMs,
    SldtEw,
    LldtEw,
    StrEw,
    LtrEw,
    SmswEw,
    LmswEw,
    MovCr0rd,
    MovCr2rd,
    MovCr3rd,
    MovCr4rd,
    MovRdCr0,
    MovRdCr2,
    MovRdCr3,
    MovRdCr4,
    MovRdDd,
    MovDdRd,
    MovEbIb,
    MovEdId,
    MovEwIw,
    MovGbEb,
    MovEbGb,
    MovGwEw,
    MovEwGw,
    MovOp32GdEd,
    MovOp32EdGd,
    MovEwSw,
    MovSwEw,
    MovAlod,
    MovAxod,
    MovEaxod,
    MovOdAl,
    MovOdAx,
    MovOdEax,
    MovsxGdEb,
    MovsxGdEw,
    MovsxGwEb,
    MovzxGdEb,
    MovzxGdEw,
    MovzxGwEb,
    Nop,
    Pause,
    PopEw,
    PopEd,
    PopOp16Sw,
    PopOp32Sw,
    PopaOp16,
    PopaOp32,
    PopfFw,
    PopfFd,
    PushEw,
    PushEd,
    PushId,
    PushSIb32,
    PushIw,
    PushSIb16,
    PushOp16Sw,
    PushOp32Sw,
    PushaOp16,
    PushaOp32,
    PushfFw,
    PushfFd,
    RepCmpsbXbYb,
    RepCmpsdXdYd,
    RepCmpswXwYw,
    RepInsbYbDx,
    RepInsdYdDx,
    RepInswYwDx,
    RepLodsbAlxb,
    RepLodsdEaxxd,
    RepLodswAxxw,
    RepMovsbYbXb,
    RepMovsdYdXd,
    RepMovswYwXw,
    RepOutsbDxxb,
    RepOutsdDxxd,
    RepOutswDxxw,
    RepScasbAlyb,
    RepScasdEaxyd,
    RepScaswAxyw,
    RepStosbYbAl,
    RepStosdYdEax,
    RepStoswYwAx,
    RetfOp16,
    RetfOp16Iw,
    RetfOp32,
    RetfOp32Iw,
    RetOp16,
    RetOp16Iw,
    RetOp32,
    RetOp32Iw,
    NotEb,
    NegEb,
    NotEw,
    NegEw,
    NotEd,
    NegEd,
    RolEb,
    RorEb,
    RclEb,
    RcrEb,
    ShlEb,
    ShrEb,
    SarEb,
    RolEw,
    RorEw,
    RclEw,
    RcrEw,
    ShlEw,
    ShrEw,
    SarEw,
    RolEd,
    RorEd,
    RclEd,
    RcrEd,
    ShlEd,
    ShrEd,
    SarEd,
    RolEbIb,
    RorEbIb,
    RclEbIb,
    RcrEbIb,
    ShlEbIb,
    ShrEbIb,
    SarEbIb,
    RolEwIb,
    RorEwIb,
    RclEwIb,
    RcrEwIb,
    ShlEwIb,
    ShrEwIb,
    SarEwIb,
    RolEdIb,
    RorEdIb,
    RclEdIb,
    RcrEdIb,
    ShlEdIb,
    ShrEdIb,
    SarEdIb,
    RolEbI1,
    RorEbI1,
    RclEbI1,
    RcrEbI1,
    ShlEbI1,
    ShrEbI1,
    SarEbI1,
    RolEwI1,
    RorEwI1,
    RclEwI1,
    RcrEwI1,
    ShlEwI1,
    ShrEwI1,
    SarEwI1,
    RolEdI1,
    RorEdI1,
    RclEdI1,
    RcrEdI1,
    ShlEdI1,
    ShrEdI1,
    SarEdI1,
    SetbEb,
    SetbeEb,
    SetlEb,
    SetleEb,
    SetnbEb,
    SetnbeEb,
    SetnlEb,
    SetnleEb,
    SetnoEb,
    SetnpEb,
    SetnsEb,
    SetnzEb,
    SetoEb,
    SetpEb,
    SetsEb,
    SetzEb,
    ShldEdGd,
    ShldEdGdIb,
    ShldEwGw,
    ShldEwGwIb,
    ShrdEdGd,
    ShrdEdGdIb,
    ShrdEwGw,
    ShrdEwGwIb,
    Rsm,
    Salc,
    Stc,
    Std,
    Sti,
    MulAleb,
    ImulAleb,
    DivAleb,
    IdivAleb,
    MulAxew,
    ImulAxew,
    DivAxew,
    IdivAxew,
    MulEaxed,
    ImulEaxed,
    DivEaxed,
    IdivEaxed,
    VerrEw,
    VerwEw,
    XchgEbGb,
    XchgEwGw,
    XchgEdGd,
    XchgRxax,
    XchgErxEax,
    Xlat,
    Sysenter,
    Sysexit,
    Monitor,
    Mwait,
    UmonitorEq,
    UmonitorEd,
    UmwaitEd,
    TpauseEd,
    Monitorx,
    Mwaitx,
    Fwait,
    FldSti,
    FldSingleReal,
    FldDoubleReal,
    FldExtendedReal,
    FildWordInteger,
    FildDwordInteger,
    FildQwordInteger,
    FbldPackedBcd,
    FstSti,
    FstpSti,
    FstpSpecialSti,
    FstSingleReal,
    FstpSingleReal,
    FstDoubleReal,
    FstpDoubleReal,
    FstpExtendedReal,
    FistWordInteger,
    FistpWordInteger,
    FistDwordInteger,
    FistpDwordInteger,
    FistpQwordInteger,
    FbstpPackedBcd,
    FisttpMw,
    FisttpMd,
    FisttpMq,
    Fninit,
    Fnclex,
    Frstor,
    Fnsave,
    Fldenv,
    Fnstenv,
    Fldcw,
    Fnstcw,
    Fnstsw,
    FnstswAx,
    FLD1,
    Fldl2t,
    Fldl2e,
    Fldpi,
    Fldlg2,
    Fldln2,
    Fldz,
    FaddSt0Stj,
    FaddStiSt0,
    FaddpStiSt0,
    FaddSingleReal,
    FaddDoubleReal,
    FiaddWordInteger,
    FiaddDwordInteger,
    FmulSt0Stj,
    FmulStiSt0,
    FmulpStiSt0,
    FmulSingleReal,
    FmulDoubleReal,
    FimulWordInteger,
    FimulDwordInteger,
    FsubSt0Stj,
    FsubrSt0Stj,
    FsubStiSt0,
    FsubpStiSt0,
    FsubrStiSt0,
    FsubrpStiSt0,
    FsubSingleReal,
    FsubrSingleReal,
    FsubDoubleReal,
    FsubrDoubleReal,
    FisubWordInteger,
    FisubrWordInteger,
    FisubDwordInteger,
    FisubrDwordInteger,
    FdivSt0Stj,
    FdivrSt0Stj,
    FdivStiSt0,
    FdivpStiSt0,
    FdivrStiSt0,
    FdivrpStiSt0,
    FdivSingleReal,
    FdivrSingleReal,
    FdivDoubleReal,
    FdivrDoubleReal,
    FidivWordInteger,
    FidivrWordInteger,
    FidivDwordInteger,
    FidivrDwordInteger,
    FcomSti,
    FcompSti,
    FucomSti,
    FucompSti,
    FcomiSt0Stj,
    FcomipSt0Stj,
    FucomiSt0Stj,
    FucomipSt0Stj,
    FcomSingleReal,
    FcompSingleReal,
    FcomDoubleReal,
    FcompDoubleReal,
    FicomWordInteger,
    FicompWordInteger,
    FicomDwordInteger,
    FicompDwordInteger,
    FcmovbSt0Stj,
    FcmoveSt0Stj,
    FcmovbeSt0Stj,
    FcmovuSt0Stj,
    FcmovnbSt0Stj,
    FcmovneSt0Stj,
    FcmovnbeSt0Stj,
    FcmovnuSt0Stj,
    Fcompp,
    Fucompp,
    FxchSti,
    Fnop,
    Fplegacy,
    Fchs,
    Fabs,
    Ftst,
    Fxam,
    Fdecstp,
    Fincstp,
    FfreeSti,
    FfreepSti,
    F2XM1,
    FYL2X,
    Fptan,
    Fpatan,
    Fxtract,
    FPREM1,
    Fprem,
    FYL2XP1,
    Fsqrt,
    Fsincos,
    Frndint,
    Fscale,
    Fsin,
    Fcos,
    Fpuesc,
    Cpuid,
    BswapRx,
    BswapErx,
    Invd,
    Wbinvd,
    XaddEbGb,
    XaddEwGw,
    XaddEdGd,
    CmpxchgEbGb,
    CmpxchgEwGw,
    CmpxchgEdGd,
    Invlpg,
    Cmpxchg8b,
    Wrmsr,
    Rdmsr,
    Rdtsc,
    PunpcklbwPqQd,
    PunpcklwdPqQd,
    PunpckldqPqQd,
    PacksswbPqQq,
    PcmpgtbPqQq,
    PcmpgtwPqQq,
    PcmpgtdPqQq,
    PackuswbPqQq,
    PunpckhbwPqQq,
    PunpckhwdPqQq,
    PunpckhdqPqQq,
    PackssdwPqQq,
    MovdPqEd,
    MovqPqQq,
    PcmpeqbPqQq,
    PcmpeqwPqQq,
    PcmpeqdPqQq,
    Emms,
    MovdEdPq,
    MovqQqPq,
    PsrlwPqQq,
    PsrldPqQq,
    PsrlqPqQq,
    PmullwPqQq,
    PsubusbPqQq,
    PsubuswPqQq,
    PandPqQq,
    PaddusbPqQq,
    PadduswPqQq,
    PandnPqQq,
    PsrawPqQq,
    PsradPqQq,
    PmulhwPqQq,
    PsubsbPqQq,
    PsubswPqQq,
    PorPqQq,
    PaddsbPqQq,
    PaddswPqQq,
    PxorPqQq,
    PsllwPqQq,
    PslldPqQq,
    PsllqPqQq,
    PmaddwdPqQq,
    PsubbPqQq,
    PsubwPqQq,
    PsubdPqQq,
    PaddbPqQq,
    PaddwPqQq,
    PadddPqQq,
    PsrlwNqIb,
    PsrawNqIb,
    PsllwNqIb,
    PsrldNqIb,
    PsradNqIb,
    PslldNqIb,
    PsrlqNqIb,
    PsllqNqIb,
    MovqEqPq,
    Femms,
    Pf2idPqQq,
    Pf2iwPqQq,
    PfaccPqQq,
    PfaddPqQq,
    PfcmpeqPqQq,
    PfcmpgePqQq,
    PfcmpgtPqQq,
    PfmaxPqQq,
    PfminPqQq,
    PfmulPqQq,
    PfnaccPqQq,
    PfpnaccPqQq,
    PfrcpPqQq,
    Pfrcpit1PqQq,
    Pfrcpit2PqQq,
    Pfrsqit1PqQq,
    PfrsqrtPqQq,
    PfsubPqQq,
    PfsubrPqQq,
    Pi2fdPqQq,
    Pi2fwPqQq,
    PmulhrwPqQq,
    PswapdPqQq,
    PrefetchwMb,
    SyscallLegacy,
    SysretLegacy,
    CmovbGwEw,
    CmovbeGwEw,
    CmovlGwEw,
    CmovleGwEw,
    CmovnbGwEw,
    CmovnbeGwEw,
    CmovnlGwEw,
    CmovnleGwEw,
    CmovnoGwEw,
    CmovnpGwEw,
    CmovnsGwEw,
    CmovnzGwEw,
    CmovoGwEw,
    CmovpGwEw,
    CmovsGwEw,
    CmovzGwEw,
    CmovbGdEd,
    CmovbeGdEd,
    CmovlGdEd,
    CmovleGdEd,
    CmovnbGdEd,
    CmovnbeGdEd,
    CmovnlGdEd,
    CmovnleGdEd,
    CmovnoGdEd,
    CmovnpGdEd,
    CmovnsGdEd,
    CmovnzGdEd,
    CmovoGdEd,
    CmovpGdEd,
    CmovsGdEd,
    CmovzGdEd,
    Rdpmc,
    Ud0,
    Ud1,
    Ud2,
    Fxsave,
    Fxrstor,
    Ldmxcsr,
    Stmxcsr,
    PrefetchMb,
    Prefetcht0Mb,
    Prefetcht1Mb,
    Prefetcht2Mb,
    PrefetchntaMb,
    AndpsVpsWps,
    OrpsVpsWps,
    XorpsVpsWps,
    AndnpsVpsWps,
    MovupsVpsWps,
    MovupsWpsVps,
    MovssVssWss,
    MovssWssVss,
    MovlpsVpsMq,
    MovhlpsVpsWps,
    MovlpsMqVps,
    MovhpsVpsMq,
    MovlhpsVpsWps,
    MovhpsMqVps,
    MovapsVpsWps,
    MovapsWpsVps,
    MovntpsMpsVps,
    Cvtpi2psVpsQq,
    Cvtsi2ssVssEd,
    Cvttps2piPqWps,
    Cvtps2piPqWps,
    Cvttss2siGdWss,
    Cvtss2siGdWss,
    UcomissVssWss,
    ComissVssWss,
    MovmskpsGdUps,
    MovmskpdGdUpd,
    RsqrtpsVpsWps,
    RsqrtssVssWss,
    RcppsVpsWps,
    RcpssVssWss,
    PshufwPqQqIb,
    PshuflwVdqWdqIb,
    PinsrwPqEwIb,
    PextrwGdNqIb,
    ShufpsVpsWpsIb,
    PmovmskbGdNq,
    PminubPqQq,
    PmaxubPqQq,
    PavgbPqQq,
    PavgwPqQq,
    PmulhuwPqQq,
    MovntqMqPq,
    PminswPqQq,
    PmaxswPqQq,
    PsadbwPqQq,
    MaskmovqPqNq,
    AddpsVpsWps,
    AddpdVpdWpd,
    AddssVssWss,
    AddsdVsdWsd,
    MulpsVpsWps,
    MulpdVpdWpd,
    MulssVssWss,
    MulsdVsdWsd,
    SubpsVpsWps,
    SubpdVpdWpd,
    SubssVssWss,
    SubsdVsdWsd,
    MinpsVpsWps,
    MinpdVpdWpd,
    MinssVssWss,
    MinsdVsdWsd,
    DivpsVpsWps,
    DivpdVpdWpd,
    DivssVssWss,
    DivsdVsdWsd,
    MaxpsVpsWps,
    MaxpdVpdWpd,
    MaxssVssWss,
    MaxsdVsdWsd,
    SqrtpsVpsWps,
    SqrtpdVpdWpd,
    SqrtssVssWss,
    SqrtsdVsdWsd,
    CmppsVpsWpsIb,
    CmppdVpdWpdIb,
    CmpssVssWssIb,
    CmpsdVsdWsdIb,
    Cvtps2pdVpdWps,
    Cvtpd2psVpsWpd,
    Cvtss2sdVsdWss,
    Cvtsd2ssVssWsd,
    MovsdVsdWsd,
    MovsdWsdVsd,
    Cvtpi2pdVpdQq,
    Cvtsi2sdVsdEd,
    Cvttpd2piPqWpd,
    Cvttsd2siGdWsd,
    Cvtpd2piPqWpd,
    Cvtsd2siGdWsd,
    UcomisdVsdWsd,
    ComisdVsdWsd,
    Cvtdq2psVpsWdq,
    Cvtps2dqVdqWps,
    Cvttps2dqVdqWps,
    UnpckhpdVpdWdq,
    UnpcklpdVpdWdq,
    PunpckhdqVdqWdq,
    PunpckldqVdqWdq,
    MovapdVpdWpd,
    MovapdWpdVpd,
    MovdqaVdqWdq,
    MovdqaWdqVdq,
    MovdquVdqWdq,
    MovdquWdqVdq,
    MovhpdMqVsd,
    MovhpdVsdMq,
    MovlpdMqVsd,
    MovlpdVsdMq,
    MovntdqMdqVdq,
    MovntpdMpdVpd,
    MovupdVpdWpd,
    MovupdWpdVpd,
    AndnpdVpdWpd,
    AndpdVpdWpd,
    OrpdVpdWpd,
    XorpdVpdWpd,
    PandVdqWdq,
    PandnVdqWdq,
    PorVdqWdq,
    PxorVdqWdq,
    PunpcklbwVdqWdq,
    PunpcklwdVdqWdq,
    UnpcklpsVpsWdq,
    UnpckhpsVpsWdq,
    PackuswbVdqWdq,
    PacksswbVdqWdq,
    PcmpgtbVdqWdq,
    PcmpgtwVdqWdq,
    PcmpgtdVdqWdq,
    PunpckhbwVdqWdq,
    PunpckhwdVdqWdq,
    PackssdwVdqWdq,
    PunpcklqdqVdqWdq,
    PunpckhqdqVdqWdq,
    MovdVdqEd,
    PshufdVdqWdqIb,
    PshufhwVdqWdqIb,
    PcmpeqbVdqWdq,
    PcmpeqwVdqWdq,
    PcmpeqdVdqWdq,
    MovdEdVd,
    MovqVqWq,
    MovntiOp32MdGd,
    PinsrwVdqEwIb,
    PextrwGdUdqIb,
    ShufpdVpdWpdIb,
    PsrlwVdqWdq,
    PsrldVdqWdq,
    PsrlqVdqWdq,
    PaddqPqQq,
    PsubqPqQq,
    PaddqVdqWdq,
    PmullwVdqWdq,
    MovqWqVq,
    Movdq2qPqUdq,
    Movq2dqVdqQq,
    PmovmskbGdUdq,
    PsubusbVdqWdq,
    PsubuswVdqWdq,
    PminubVdqWdq,
    PaddusbVdqWdq,
    PadduswVdqWdq,
    PmaxubVdqWdq,
    PavgbVdqWdq,
    PsrawVdqWdq,
    PsradVdqWdq,
    PavgwVdqWdq,
    PmulhuwVdqWdq,
    PmulhwVdqWdq,
    Cvttpd2dqVqWpd,
    Cvtpd2dqVqWpd,
    Cvtdq2pdVpdWq,
    PsubsbVdqWdq,
    PsubswVdqWdq,
    PminswVdqWdq,
    PmaxswVdqWdq,
    PaddsbVdqWdq,
    PaddswVdqWdq,
    PsllwVdqWdq,
    PslldVdqWdq,
    PsllqVdqWdq,
    PmuludqPqQq,
    PmuludqVdqWdq,
    PmaddwdVdqWdq,
    PsadbwVdqWdq,
    MaskmovdquVdqUdq,
    PsubbVdqWdq,
    PsubwVdqWdq,
    PsubdVdqWdq,
    PsubqVdqWdq,
    PaddbVdqWdq,
    PaddwVdqWdq,
    PadddVdqWdq,
    PsrlwUdqIb,
    PsrawUdqIb,
    PsllwUdqIb,
    PsrldUdqIb,
    PsradUdqIb,
    PslldUdqIb,
    PsrlqUdqIb,
    PsllqUdqIb,
    PsrldqUdqIb,
    PslldqUdqIb,
    Lfence,
    Sfence,
    Mfence,
    MovddupVpdWq,
    MovsldupVpsWps,
    MovshdupVpsWps,
    HaddpdVpdWpd,
    HaddpsVpsWps,
    HsubpdVpdWpd,
    HsubpsVpsWps,
    AddsubpdVpdWpd,
    AddsubpsVpsWps,
    LddquVdqMdq,
    PshufbPqQq,
    PhaddwPqQq,
    PhadddPqQq,
    PhaddswPqQq,
    PmaddubswPqQq,
    PhsubswPqQq,
    PhsubwPqQq,
    PhsubdPqQq,
    PsignbPqQq,
    PsignwPqQq,
    PsigndPqQq,
    PmulhrswPqQq,
    PabsbPqQq,
    PabswPqQq,
    PabsdPqQq,
    PalignrPqQqIb,
    PshufbVdqWdq,
    PhaddwVdqWdq,
    PhadddVdqWdq,
    PhaddswVdqWdq,
    PmaddubswVdqWdq,
    PhsubswVdqWdq,
    PhsubwVdqWdq,
    PhsubdVdqWdq,
    PsignbVdqWdq,
    PsignwVdqWdq,
    PsigndVdqWdq,
    PmulhrswVdqWdq,
    PabsbVdqWdq,
    PabswVdqWdq,
    PabsdVdqWdq,
    PalignrVdqWdqIb,
    PblendvbVdqWdq,
    BlendvpsVpsWps,
    BlendvpdVpdWpd,
    PmovsxbwVdqWq,
    PmovsxbdVdqWd,
    PmovsxbqVdqWw,
    PmovsxwdVdqWq,
    PmovsxwqVdqWd,
    PmovsxdqVdqWq,
    PmovzxbwVdqWq,
    PmovzxbdVdqWd,
    PmovzxbqVdqWw,
    PmovzxwdVdqWq,
    PmovzxwqVdqWd,
    PmovzxdqVdqWq,
    PtestVdqWdq,
    PmuldqVdqWdq,
    PcmpeqqVdqWdq,
    PackusdwVdqWdq,
    PminsbVdqWdq,
    PminsdVdqWdq,
    PminuwVdqWdq,
    PminudVdqWdq,
    PmaxsbVdqWdq,
    PmaxsdVdqWdq,
    PmaxuwVdqWdq,
    PmaxudVdqWdq,
    PmulldVdqWdq,
    PhminposuwVdqWdq,
    RoundpsVpsWpsIb,
    RoundpdVpdWpdIb,
    RoundssVssWssIb,
    RoundsdVsdWsdIb,
    BlendpsVpsWpsIb,
    BlendpdVpdWpdIb,
    PblendwVdqWdqIb,
    PextrbEdVdqIbR,
    PextrbMbVdqIbM,
    PextrwEdVdqIbR,
    PextrwMwVdqIbM,
    PextrdEdVdqIb,
    PextrqEqVdqIb,
    ExtractpsEdVpsIb,
    PinsrbVdqEbIb,
    InsertpsVpsWssIb,
    PinsrdVdqEdIb,
    PinsrqVdqEqIb,
    DppsVpsWpsIb,
    DppdVpdWpdIb,
    MpsadbwVdqWdqIb,
    MovntdqaVdqMdq,
    Crc32GdEb,
    Crc32GdEw,
    Crc32GdEd,
    Crc32GdEq,
    PcmpgtqVdqWdq,
    PcmpestrmVdqWdqIb,
    PcmpestriVdqWdqIb,
    PcmpistrmVdqWdqIb,
    PcmpistriVdqWdqIb,
    MovbeGwMw,
    MovbeGdMd,
    MovbeGqMq,
    MovbeMwGw,
    MovbeMdGd,
    MovbeMqGq,
    PopcntGwEw,
    PopcntGdEd,
    PopcntGqEq,
    Xrstor,
    Xsave,
    Xsavec,
    Xsetbv,
    Xgetbv,
    Xsaveopt,
    Xsaves,
    Xrstors,
    AesimcVdqWdq,
    AeskeygenassistVdqWdqIb,
    AesencVdqWdq,
    AesenclastVdqWdq,
    AesdecVdqWdq,
    AesdeclastVdqWdq,
    PclmulqdqVdqWdqIb,
    Sha1nexteVdqWdq,
    Sha1msg1VdqWdq,
    Sha1msg2VdqWdq,
    Sha256rnds2VdqWdq,
    Sha256msg1VdqWdq,
    Sha256msg2VdqWdq,
    Sha1rnds4VdqWdqIb,
    Gf2p8affineqbVdqWdqIb,
    Gf2p8affineinvqbVdqWdqIb,
    Gf2p8mulbVdqWdq,
    LahfLm,
    SahfLm,
    Syscall,
    Sysret,
    XorEqGqZeroIdiom,
    XorGqEqZeroIdiom,
    SubEqGqZeroIdiom,
    SubGqEqZeroIdiom,
    AddGqEq,
    OrGqEq,
    AdcGqEq,
    SbbGqEq,
    AndGqEq,
    SubGqEq,
    XorGqEq,
    CmpGqEq,
    AddEqGq,
    OrEqGq,
    AdcEqGq,
    SbbEqGq,
    AndEqGq,
    SubEqGq,
    XorEqGq,
    TestEqGq,
    CmpEqGq,
    AddRaxid,
    OrRaxid,
    AdcRaxid,
    SbbRaxid,
    AndRaxid,
    SubRaxid,
    XorRaxid,
    TestRaxid,
    CmpRaxid,
    AddEqId,
    OrEqId,
    AdcEqId,
    SbbEqId,
    AndEqId,
    SubEqId,
    XorEqId,
    TestEqId,
    CmpEqId,
    AddEqsIb,
    OrEqsIb,
    AdcEqsIb,
    SbbEqsIb,
    AndEqsIb,
    SubEqsIb,
    XorEqsIb,
    TestEqsIb,
    CmpEqsIb,
    XchgEqGq,
    XchgRrxRax,
    LeaGqM,
    MovOp64GdEd,
    MovOp64EdGd,
    MovGqEq,
    MovEqGq,
    MovEqId,
    MovRaxoq,
    MovOqRax,
    MovEaxoq,
    MovOqEax,
    MovAxoq,
    MovOqAx,
    MovAloq,
    MovOqAl,
    RepMovsqYqXq,
    RepCmpsqXqYq,
    RepStosqYqRax,
    RepLodsqRaxxq,
    RepScasqRaxyq,
    CallJq,
    JmpJq,
    JmpJbq,
    JoJq,
    JnoJq,
    JbJq,
    JnbJq,
    JzJq,
    JnzJq,
    JbeJq,
    JnbeJq,
    JsJq,
    JnsJq,
    JpJq,
    JnpJq,
    JlJq,
    JnlJq,
    JleJq,
    JnleJq,
    JoJbq,
    JnoJbq,
    JbJbq,
    JnbJbq,
    JzJbq,
    JnzJbq,
    JbeJbq,
    JnbeJbq,
    JsJbq,
    JnsJbq,
    JpJbq,
    JnpJbq,
    JlJbq,
    JnlJbq,
    JleJbq,
    JnleJbq,
    EnterOp64IwIb,
    LeaveOp64,
    IretOp64,
    ShldEqGq,
    ShldEqGqIb,
    ShrdEqGq,
    ShrdEqGqIb,
    ImulGqEq,
    ImulGqEqId,
    ImulGqEqsIb,
    MovzxGqEb,
    MovzxGqEw,
    MovsxGqEb,
    MovsxGqEw,
    MovsxdGqEd,
    BswapRrx,
    BsfGqEq,
    BsrGqEq,
    BtEqGq,
    BtsEqGq,
    BtrEqGq,
    BtcEqGq,
    BtEqIb,
    BtsEqIb,
    BtrEqIb,
    BtcEqIb,
    NotEq,
    NegEq,
    RolEq,
    RorEq,
    RclEq,
    RcrEq,
    ShlEq,
    ShrEq,
    SarEq,
    RolEqIb,
    RorEqIb,
    RclEqIb,
    RcrEqIb,
    ShlEqIb,
    ShrEqIb,
    SarEqIb,
    RolEqI1,
    RorEqI1,
    RclEqI1,
    RcrEqI1,
    ShlEqI1,
    ShrEqI1,
    SarEqI1,
    MulRaxeq,
    ImulRaxeq,
    DivRaxeq,
    IdivRaxeq,
    IncEq,
    DecEq,
    CallEq,
    CallfOp64Ep,
    JmpEq,
    JmpfOp64Ep,
    PushfFq,
    PopfFq,
    CmpxchgEqGq,
    Cdqe,
    Cqo,
    XaddEqGq,
    RetOp64Iw,
    RetOp64,
    RetfOp64Iw,
    RetfOp64,
    CmovoGqEq,
    CmovnoGqEq,
    CmovbGqEq,
    CmovnbGqEq,
    CmovzGqEq,
    CmovnzGqEq,
    CmovbeGqEq,
    CmovnbeGqEq,
    CmovsGqEq,
    CmovnsGqEq,
    CmovpGqEq,
    CmovnpGqEq,
    CmovlGqEq,
    CmovnlGqEq,
    CmovleGqEq,
    CmovnleGqEq,
    PushEq,
    PopEq,
    PushOp64Id,
    PushOp64SIb,
    PushOp64Sw,
    PopOp64Sw,
    SgdtOp64Ms,
    SidtOp64Ms,
    LgdtOp64Ms,
    LidtOp64Ms,
    MovRrxiq,
    LssGqMp,
    LfsGqMp,
    LgsGqMp,
    CMPXCHG16B,
    LoopneJbq,
    LoopeJbq,
    LoopJbq,
    JrcxzJbq,
    MovqEqVq,
    MovqPqEq,
    MovqVdqEq,
    Cvtsi2ssVssEq,
    Cvtsi2sdVsdEq,
    Cvttss2siGqWss,
    Cvttsd2siGqWsd,
    Cvtss2siGqWss,
    Cvtsd2siGqWsd,
    MovntiOp64MdGd,
    MovntiMqGq,
    MovCr0rq,
    MovCr2rq,
    MovCr3rq,
    MovCr4rq,
    MovRqCr0,
    MovRqCr2,
    MovRqCr3,
    MovRqCr4,
    MovDqRq,
    MovRqDq,
    Swapgs,
    RdfsbaseEd,
    RdgsbaseEd,
    RdfsbaseEq,
    RdgsbaseEq,
    WrfsbaseEd,
    WrgsbaseEd,
    WrfsbaseEq,
    WrgsbaseEq,
    Rdtscp,
    VmxonMq,
    Vmxoff,
    Vmcall,
    Vmlaunch,
    Vmresume,
    VmclearMq,
    VmptrldMq,
    VmptrstMq,
    VmreadEdGd,
    VmwriteGdEd,
    VmreadEqGq,
    VmwriteGqEq,
    Invept,
    Invvpid,
    Vmfunc,
    Getsec,
    Vmrun,
    Vmmcall,
    Vmload,
    Vmsave,
    Stgi,
    Clgi,
    Skinit,
    Invlpga,
    Incsspd,
    Incsspq,
    Rdsspd,
    Rdsspq,
    Saveprevssp,
    Rstorssp,
    Wrssd,
    Wrussd,
    Wrssq,
    Wrussq,
    Setssbsy,
    Clrssbsy,
    Endbranch32,
    Endbranch64,
    Invpcid,
    Rdpkru,
    Wrpkru,
    Clui,
    Stui,
    Testui,
    Uiret,
    SenduipiEq,
    RdpidEd,
    Serialize,
    Wrmsrns,
    Rdmsrlist,
    Wrmsrlist,
    Vzeroupper,
    Vzeroall,
    Vldmxcsr,
    Vstmxcsr,
    VmovapsVpsWps,
    V128VmovapsWpsVps,
    V256VmovapsWpsVps,
    VmovapdVpdWpd,
    V128VmovapdWpdVpd,
    V256VmovapdWpdVpd,
    VmovupsVpsWps,
    V128VmovupsWpsVps,
    V256VmovupsWpsVps,
    VmovupdVpdWpd,
    V128VmovupdWpdVpd,
    V256VmovupdWpdVpd,
    VmovdqaVdqWdq,
    V128VmovdqaWdqVdq,
    V256VmovdqaWdqVdq,
    VmovdquVdqWdq,
    V128VmovdquWdqVdq,
    V256VmovdquWdqVdq,
    V128VmovsdVsdHpdWsd,
    V128VmovssVssHpsWss,
    V128VmovsdWsdHpdVsd,
    V128VmovssWssHpsVss,
    V128VmovsdVsdWsd,
    V128VmovssVssWss,
    V128VmovsdWsdVsd,
    V128VmovssWssVss,
    V128VmovlpsVpsHpsMq,
    V128VmovhlpsVpsHpsWps,
    V128VmovhpsVpsHpsMq,
    V128VmovlhpsVpsHpsWps,
    V128VmovlpsMqVps,
    V128VmovhpsMqVps,
    V128VmovlpdMqVsd,
    V128VmovhpdMqVsd,
    V128VmovlpdVpdHpdMq,
    V128VmovhpdVpdHpdMq,
    V128VmovddupVpdWpd,
    V256VmovddupVpdWpd,
    VmovsldupVpsWps,
    VmovshdupVpsWps,
    VlddquVdqMdq,
    V128VmovntdqaVdqMdq,
    V256VmovntdqaVdqMdq,
    V128VmovntpsMpsVps,
    V256VmovntpsMpsVps,
    V128VmovntpdMpdVpd,
    V256VmovntpdMpdVpd,
    V128VmovntdqMdqVdq,
    V256VmovntdqMdqVdq,
    VucomissVssWss,
    VcomissVssWss,
    VucomisdVsdWsd,
    VcomisdVsdWsd,
    VrsqrtssVssHpsWss,
    VrsqrtpsVpsWps,
    VrcpssVssHpsWss,
    VrcppsVpsWps,
    VandpsVpsHpsWps,
    VandpdVpdHpdWpd,
    VandnpsVpsHpsWps,
    VandnpdVpdHpdWpd,
    VorpsVpsHpsWps,
    VorpdVpdHpdWpd,
    VxorpsVpsHpsWps,
    VxorpdVpdHpdWpd,
    V128VpshufdVdqWdqIb,
    V256VpshufdVdqWdqIb,
    V128VpshufhwVdqWdqIb,
    V256VpshufhwVdqWdqIb,
    V128VpshuflwVdqWdqIb,
    V256VpshuflwVdqWdqIb,
    VhaddpdVpdHpdWpd,
    VhaddpsVpsHpsWps,
    VhsubpdVpdHpdWpd,
    VhsubpsVpsHpsWps,
    VshufpsVpsHpsWpsIb,
    VshufpdVpdHpdWpdIb,
    VaddsubpdVpdHpdWpd,
    VaddsubpsVpsHpsWps,
    VroundpsVpsWpsIb,
    VroundpdVpdWpdIb,
    VroundsdVsdHpdWsdIb,
    VroundssVssHpsWssIb,
    VdppsVpsHpsWpsIb,
    VdppdVpdHpdWpdIb,
    VaddpsVpsHpsWps,
    VaddpdVpdHpdWpd,
    VaddssVssHpsWss,
    VaddsdVsdHpdWsd,
    VmulpsVpsHpsWps,
    VmulpdVpdHpdWpd,
    VmulssVssHpsWss,
    VmulsdVsdHpdWsd,
    VsubpsVpsHpsWps,
    VsubpdVpdHpdWpd,
    VsubssVssHpsWss,
    VsubsdVsdHpdWsd,
    VdivpsVpsHpsWps,
    VdivpdVpdHpdWpd,
    VdivssVssHpsWss,
    VdivsdVsdHpdWsd,
    VmaxpsVpsHpsWps,
    VmaxpdVpdHpdWpd,
    VmaxssVssHpsWss,
    VmaxsdVsdHpdWsd,
    VminpsVpsHpsWps,
    VminpdVpdHpdWpd,
    VminssVssHpsWss,
    VminsdVsdHpdWsd,
    VsqrtpsVpsWps,
    VsqrtpdVpdWpd,
    VsqrtssVssHpsWss,
    VsqrtsdVsdHpdWsd,
    VcmppsVpsHpsWpsIb,
    VcmppdVpdHpdWpdIb,
    VcmpssVssHpsWssIb,
    VcmpsdVsdHpdWsdIb,
    V128VpsrlwVdqHdqWdq,
    V256VpsrlwVdqHdqWdq,
    V128VpsrldVdqHdqWdq,
    V256VpsrldVdqHdqWdq,
    V128VpsrlqVdqHdqWdq,
    V256VpsrlqVdqHdqWdq,
    V128VpsrawVdqHdqWdq,
    V256VpsrawVdqHdqWdq,
    V128VpsradVdqHdqWdq,
    V256VpsradVdqHdqWdq,
    V128VpsllwVdqHdqWdq,
    V256VpsllwVdqHdqWdq,
    V128VpslldVdqHdqWdq,
    V256VpslldVdqHdqWdq,
    V128VpsllqVdqHdqWdq,
    V256VpsllqVdqHdqWdq,
    V128VpsrlwUdqIb,
    V256VpsrlwUdqIb,
    V128VpsrawUdqIb,
    V256VpsrawUdqIb,
    V128VpsllwUdqIb,
    V256VpsllwUdqIb,
    V128VpsrldUdqIb,
    V256VpsrldUdqIb,
    V128VpsradUdqIb,
    V256VpsradUdqIb,
    V128VpslldUdqIb,
    V256VpslldUdqIb,
    V128VpsrlqUdqIb,
    V256VpsrlqUdqIb,
    V128VpsllqUdqIb,
    V256VpsllqUdqIb,
    V128VpsrldqUdqIb,
    V256VpsrldqUdqIb,
    V128VpslldqUdqIb,
    V256VpslldqUdqIb,
    V128VpmovmskbGdUdq,
    V256VpmovmskbGdUdq,
    VmovmskpsGdUps,
    VmovmskpdGdUpd,
    VunpcklpdVpdHpdWpd,
    VunpckhpdVpdHpdWpd,
    VunpcklpsVpsHpsWps,
    VunpckhpsVpsHpsWps,
    V128VpunpckhdqVdqHdqWdq,
    V256VpunpckhdqVdqHdqWdq,
    V128VpunpckldqVdqHdqWdq,
    V256VpunpckldqVdqHdqWdq,
    V128VpunpcklbwVdqHdqWdq,
    V256VpunpcklbwVdqHdqWdq,
    V128VpunpcklwdVdqHdqWdq,
    V256VpunpcklwdVdqHdqWdq,
    V128VpunpckhbwVdqHdqWdq,
    V256VpunpckhbwVdqHdqWdq,
    V128VpunpckhwdVdqHdqWdq,
    V256VpunpckhwdVdqHdqWdq,
    V128VpunpcklqdqVdqHdqWdq,
    V256VpunpcklqdqVdqHdqWdq,
    V128VpunpckhqdqVdqHdqWdq,
    V256VpunpckhqdqVdqHdqWdq,
    V128VpcmpeqbVdqHdqWdq,
    V256VpcmpeqbVdqHdqWdq,
    V128VpcmpeqwVdqHdqWdq,
    V256VpcmpeqwVdqHdqWdq,
    V128VpcmpeqdVdqHdqWdq,
    V256VpcmpeqdVdqHdqWdq,
    V128VpcmpeqqVdqHdqWdq,
    V256VpcmpeqqVdqHdqWdq,
    V128VpcmpgtbVdqHdqWdq,
    V256VpcmpgtbVdqHdqWdq,
    V128VpcmpgtwVdqHdqWdq,
    V256VpcmpgtwVdqHdqWdq,
    V128VpcmpgtdVdqHdqWdq,
    V256VpcmpgtdVdqHdqWdq,
    V128VpcmpgtqVdqHdqWdq,
    V256VpcmpgtqVdqHdqWdq,
    V128VpsubsbVdqHdqWdq,
    V256VpsubsbVdqHdqWdq,
    V128VpsubswVdqHdqWdq,
    V256VpsubswVdqHdqWdq,
    V128VpaddsbVdqHdqWdq,
    V256VpaddsbVdqHdqWdq,
    V128VpaddswVdqHdqWdq,
    V256VpaddswVdqHdqWdq,
    V128VpsubusbVdqHdqWdq,
    V256VpsubusbVdqHdqWdq,
    V128VpsubuswVdqHdqWdq,
    V256VpsubuswVdqHdqWdq,
    V128VpaddusbVdqHdqWdq,
    V256VpaddusbVdqHdqWdq,
    V128VpadduswVdqHdqWdq,
    V256VpadduswVdqHdqWdq,
    V128VpavgbVdqWdq,
    V256VpavgbVdqWdq,
    V128VpavgwVdqWdq,
    V256VpavgwVdqWdq,
    V128VpandnVdqHdqWdq,
    V256VpandnVdqHdqWdq,
    V128VpandVdqHdqWdq,
    V256VpandVdqHdqWdq,
    V128VporVdqHdqWdq,
    V256VporVdqHdqWdq,
    V128VpxorVdqHdqWdq,
    V256VpxorVdqHdqWdq,
    V128VpmulhrswVdqHdqWdq,
    V256VpmulhrswVdqHdqWdq,
    V128VpmuldqVdqHdqWdq,
    V256VpmuldqVdqHdqWdq,
    V128VpmuludqVdqHdqWdq,
    V256VpmuludqVdqHdqWdq,
    V128VpmulldVdqHdqWdq,
    V256VpmulldVdqHdqWdq,
    V128VpmullwVdqHdqWdq,
    V256VpmullwVdqHdqWdq,
    V128VpmulhwVdqHdqWdq,
    V256VpmulhwVdqHdqWdq,
    V128VpmulhuwVdqHdqWdq,
    V256VpmulhuwVdqHdqWdq,
    V128VpsadbwVdqHdqWdq,
    V256VpsadbwVdqHdqWdq,
    V128VmaskmovdquVdqUdq,
    V128VpsubbVdqHdqWdq,
    V256VpsubbVdqHdqWdq,
    V128VpsubwVdqHdqWdq,
    V256VpsubwVdqHdqWdq,
    V128VpsubdVdqHdqWdq,
    V256VpsubdVdqHdqWdq,
    V128VpsubqVdqHdqWdq,
    V256VpsubqVdqHdqWdq,
    V128VpaddbVdqHdqWdq,
    V256VpaddbVdqHdqWdq,
    V128VpaddwVdqHdqWdq,
    V256VpaddwVdqHdqWdq,
    V128VpadddVdqHdqWdq,
    V256VpadddVdqHdqWdq,
    V128VpaddqVdqHdqWdq,
    V256VpaddqVdqHdqWdq,
    V128VpshufbVdqHdqWdq,
    V256VpshufbVdqHdqWdq,
    V128VphaddwVdqHdqWdq,
    V256VphaddwVdqHdqWdq,
    V128VphadddVdqHdqWdq,
    V256VphadddVdqHdqWdq,
    V128VphsubwVdqHdqWdq,
    V256VphsubwVdqHdqWdq,
    V128VphsubdVdqHdqWdq,
    V256VphsubdVdqHdqWdq,
    V128VphaddswVdqHdqWdq,
    V256VphaddswVdqHdqWdq,
    V128VphsubswVdqHdqWdq,
    V256VphsubswVdqHdqWdq,
    V128VpmaddwdVdqHdqWdq,
    V256VpmaddwdVdqHdqWdq,
    V128VpmaddubswVdqHdqWdq,
    V256VpmaddubswVdqHdqWdq,
    V128VpsignbVdqHdqWdq,
    V256VpsignbVdqHdqWdq,
    V128VpsignwVdqHdqWdq,
    V256VpsignwVdqHdqWdq,
    V128VpsigndVdqHdqWdq,
    V256VpsigndVdqHdqWdq,
    VtestpsVpsWps,
    VtestpdVpdWpd,
    VptestVdqWdq,
    VbroadcastssVpsMss,
    V256VbroadcastsdVpdMsd,
    V256Vbroadcastf128VdqMdq,
    V128VpabsbVdqWdq,
    V256VpabsbVdqWdq,
    V128VpabswVdqWdq,
    V256VpabswVdqWdq,
    V128VpabsdVdqWdq,
    V256VpabsdVdqWdq,
    V128VpacksswbVdqHdqWdq,
    V256VpacksswbVdqHdqWdq,
    V128VpackuswbVdqHdqWdq,
    V256VpackuswbVdqHdqWdq,
    V128VpackusdwVdqHdqWdq,
    V256VpackusdwVdqHdqWdq,
    V128VpackssdwVdqHdqWdq,
    V256VpackssdwVdqHdqWdq,
    VmaskmovpsVpsHpsMps,
    VmaskmovpdVpdHpdMpd,
    VmaskmovpsMpsHpsVps,
    VmaskmovpdMpdHpdVpd,
    V128VpmovsxbwVdqWq,
    V128VpmovsxbdVdqWd,
    V128VpmovsxbqVdqWw,
    V128VpmovsxwdVdqWq,
    V128VpmovsxwqVdqWd,
    V128VpmovsxdqVdqWq,
    V128VpmovzxbwVdqWq,
    V128VpmovzxbdVdqWd,
    V128VpmovzxbqVdqWw,
    V128VpmovzxwdVdqWq,
    V128VpmovzxwqVdqWd,
    V128VpmovzxdqVdqWq,
    V128VpminsbVdqHdqWdq,
    V256VpminsbVdqHdqWdq,
    V128VpminswVdqHdqWdq,
    V256VpminswVdqHdqWdq,
    V128VpminsdVdqHdqWdq,
    V256VpminsdVdqHdqWdq,
    V128VpminubVdqHdqWdq,
    V256VpminubVdqHdqWdq,
    V128VpminuwVdqHdqWdq,
    V256VpminuwVdqHdqWdq,
    V128VpminudVdqHdqWdq,
    V256VpminudVdqHdqWdq,
    V128VpmaxsbVdqHdqWdq,
    V256VpmaxsbVdqHdqWdq,
    V128VpmaxswVdqHdqWdq,
    V256VpmaxswVdqHdqWdq,
    V128VpmaxsdVdqHdqWdq,
    V256VpmaxsdVdqHdqWdq,
    V128VpmaxubVdqHdqWdq,
    V256VpmaxubVdqHdqWdq,
    V128VpmaxuwVdqHdqWdq,
    V256VpmaxuwVdqHdqWdq,
    V128VpmaxudVdqHdqWdq,
    V256VpmaxudVdqHdqWdq,
    V128VphminposuwVdqWdq,
    VpermilpsVpsHpsWps,
    VpermilpdVpdHpdWpd,
    VpermilpsVpsWpsIb,
    VpermilpdVpdWpdIb,
    VblendpsVpsHpsWpsIb,
    VblendpdVpdHpdWpdIb,
    V128VpblendwVdqHdqWdqIb,
    V256VpblendwVdqHdqWdqIb,
    V128VpalignrVdqHdqWdqIb,
    V256VpalignrVdqHdqWdqIb,
    V128VinsertpsVpsWssIb,
    V128VextractpsEdVpsIb,
    V256Vperm2f128VdqHdqWdqIb,
    V256Vinsertf128VdqHdqWdqIb,
    V256Vextractf128WdqVdqIb,
    VblendvpsVpsHpsWpsIb,
    VblendvpdVpdHpdWpdIb,
    V128VpblendvbVdqHdqWdqIb,
    V256VpblendvbVdqHdqWdqIb,
    V128VmpsadbwVdqHdqWdqIb,
    V256VmpsadbwVdqHdqWdqIb,
    V128VpcmpestrmVdqWdqIb,
    V128VpcmpestriVdqWdqIb,
    V128VpcmpistrmVdqWdqIb,
    V128VpcmpistriVdqWdqIb,
    V128VaesimcVdqWdq,
    V128VaeskeygenassistVdqWdqIb,
    V128VaesencVdqHdqWdq,
    V128VaesenclastVdqHdqWdq,
    V128VaesdecVdqHdqWdq,
    V128VaesdeclastVdqHdqWdq,
    V128VpclmulqdqVdqHdqWdqIb,
    V256VaesencVdqHdqWdq,
    V256VaesenclastVdqHdqWdq,
    V256VaesdecVdqHdqWdq,
    V256VaesdeclastVdqHdqWdq,
    V256VpclmulqdqVdqHdqWdqIb,
    Vgf2p8affineqbVdqHdqWdqIb,
    Vgf2p8affineinvqbVdqHdqWdqIb,
    Vgf2p8mulbVdqHdqWdq,
    Vsm3msg1VdqHdqWdq,
    Vsm3msg2VdqHdqWdq,
    Vsm3rnds2VdqHdqWdqIb,
    Vsm4key4VdqHdqWdq,
    Vsm4rnds4VdqHdqWdq,
    Vsha512msg1VdqWdq,
    Vsha512msg2VdqWdq,
    Vsha512rnds2VdqHdqWdq,
    V128VmovdVdqEd,
    V128VmovqVdqEq,
    V128VmovdEdVd,
    V128VmovqEqVq,
    V128VpinsrbVdqEbIb,
    V128VpinsrwVdqEwIb,
    V128VpextrwGdUdqIb,
    V128VpextrbEdVdqIbR,
    V128VpextrbMbVdqIbM,
    V128VpextrwEdVdqIbR,
    V128VpextrwMwVdqIbM,
    V128VpinsrdVdqEdIb,
    V128VpinsrqVdqEqIb,
    V128VpextrdEdVdqIb,
    V128VpextrqEqVdqIb,
    Vcvtps2pdVpdWps,
    Vcvttpd2dqVdqWpd,
    Vcvtpd2dqVdqWpd,
    Vcvtdq2pdVpdWdq,
    Vcvtpd2psVpsWpd,
    Vcvtsd2ssVssWsd,
    Vcvtss2sdVsdWss,
    Vcvtdq2psVpsWdq,
    Vcvtps2dqVdqWps,
    Vcvttps2dqVdqWps,
    Vcvtss2siGdWss,
    Vcvtss2siGqWss,
    Vcvtsd2siGdWsd,
    Vcvtsd2siGqWsd,
    Vcvttss2siGdWss,
    Vcvttss2siGqWss,
    Vcvttsd2siGdWsd,
    Vcvttsd2siGqWsd,
    Vcvtsi2ssVssEd,
    Vcvtsi2ssVssEq,
    Vcvtsi2sdVsdEd,
    Vcvtsi2sdVsdEq,
    VmovqWqVq,
    VmovqVqWq,
    Vcvtph2psVpsWps,
    Vcvtps2phWpsVpsIb,
    V256VpmovsxbwVdqWdq,
    V256VpmovsxbdVdqWq,
    V256VpmovsxbqVdqWd,
    V256VpmovsxwdVdqWdq,
    V256VpmovsxwqVdqWq,
    V256VpmovsxdqVdqWdq,
    V256VpmovzxbwVdqWdq,
    V256VpmovzxbdVdqWq,
    V256VpmovzxbqVdqWd,
    V256VpmovzxwdVdqWdq,
    V256VpmovzxwqVdqWq,
    V256VpmovzxdqVdqWdq,
    V256Vperm2i128VdqHdqWdqIb,
    V256Vinserti128VdqHdqWdqIb,
    V256Vextracti128WdqVdqIb,
    V256Vbroadcasti128VdqMdq,
    VpbroadcastbVdqWb,
    VpbroadcastwVdqWw,
    VpbroadcastdVdqWd,
    VpbroadcastqVdqWq,
    VbroadcastssVpsWss,
    V256VbroadcastsdVpdWsd,
    VpblenddVdqHdqWdqIb,
    VmaskmovdVdqHdqMdq,
    VmaskmovqVdqHdqMdq,
    VmaskmovdMdqHdqVdq,
    VmaskmovqMdqHdqVdq,
    VgatherdpsVpsHps,
    VgatherdpdVpdHpd,
    VgatherqpsVpsHps,
    VgatherqpdVpdHpd,
    VgatherddVdqHdq,
    VgatherdqVdqHdq,
    VgatherqdVdqHdq,
    VgatherqqVdqHdq,
    VpsrlvdVdqHdqWdq,
    VpsrlvqVdqHdqWdq,
    VpsllvdVdqHdqWdq,
    VpsllvqVdqHdqWdq,
    V256VpermqVdqWdqIb,
    V256VpermdVdqHdqWdq,
    V256VpermpsVpsHpsWps,
    V256VpermpdVpdWpdIb,
    VpsravdVdqHdqWdq,
    Vfmadd132psVpsHpsWps,
    Vfmadd132pdVpdHpdWpd,
    Vfmadd213psVpsHpsWps,
    Vfmadd213pdVpdHpdWpd,
    Vfmadd231psVpsHpsWps,
    Vfmadd231pdVpdHpdWpd,
    Vfmadd132ssVpsHssWss,
    Vfmadd132sdVpdHsdWsd,
    Vfmadd213ssVpsHssWss,
    Vfmadd213sdVpdHsdWsd,
    Vfmadd231ssVpsHssWss,
    Vfmadd231sdVpdHsdWsd,
    Vfmaddsub132psVpsHpsWps,
    Vfmaddsub132pdVpdHpdWpd,
    Vfmaddsub213psVpsHpsWps,
    Vfmaddsub213pdVpdHpdWpd,
    Vfmaddsub231psVpsHpsWps,
    Vfmaddsub231pdVpdHpdWpd,
    Vfmsubadd132psVpsHpsWps,
    Vfmsubadd132pdVpdHpdWpd,
    Vfmsubadd213psVpsHpsWps,
    Vfmsubadd213pdVpdHpdWpd,
    Vfmsubadd231psVpsHpsWps,
    Vfmsubadd231pdVpdHpdWpd,
    Vfmsub132psVpsHpsWps,
    Vfmsub132pdVpdHpdWpd,
    Vfmsub213psVpsHpsWps,
    Vfmsub213pdVpdHpdWpd,
    Vfmsub231psVpsHpsWps,
    Vfmsub231pdVpdHpdWpd,
    Vfmsub132ssVpsHssWss,
    Vfmsub132sdVpdHsdWsd,
    Vfmsub213ssVpsHssWss,
    Vfmsub213sdVpdHsdWsd,
    Vfmsub231ssVpsHssWss,
    Vfmsub231sdVpdHsdWsd,
    Vfnmadd132psVpsHpsWps,
    Vfnmadd132pdVpdHpdWpd,
    Vfnmadd213psVpsHpsWps,
    Vfnmadd213pdVpdHpdWpd,
    Vfnmadd231psVpsHpsWps,
    Vfnmadd231pdVpdHpdWpd,
    Vfnmadd132ssVpsHssWss,
    Vfnmadd132sdVpdHsdWsd,
    Vfnmadd213ssVpsHssWss,
    Vfnmadd213sdVpdHsdWsd,
    Vfnmadd231ssVpsHssWss,
    Vfnmadd231sdVpdHsdWsd,
    Vfnmsub132psVpsHpsWps,
    Vfnmsub132pdVpdHpdWpd,
    Vfnmsub213psVpsHpsWps,
    Vfnmsub213pdVpdHpdWpd,
    Vfnmsub231psVpsHpsWps,
    Vfnmsub231pdVpdHpdWpd,
    Vfnmsub132ssVpsHssWss,
    Vfnmsub132sdVpdHsdWsd,
    Vfnmsub213ssVpsHssWss,
    Vfnmsub213sdVpdHsdWsd,
    Vfnmsub231ssVpsHssWss,
    Vfnmsub231sdVpdHsdWsd,
    VpdpbusdVdqHdqWdq,
    VpdpbusdsVdqHdqWdq,
    VpdpwssdVdqHdqWdq,
    VpdpwssdsVdqHdqWdq,
    Vpmadd52luqVdqHdqWdq,
    Vpmadd52huqVdqHdqWdq,
    VpdpbssdVdqHdqWdq,
    VpdpbssdsVdqHdqWdq,
    VpdpbsudVdqHdqWdq,
    VpdpbsudsVdqHdqWdq,
    VpdpbuudVdqHdqWdq,
    VpdpbuudsVdqHdqWdq,
    VpdpwsudVdqHdqWdq,
    VpdpwsudsVdqHdqWdq,
    VpdpwusdVdqHdqWdq,
    VpdpwusdsVdqHdqWdq,
    VpdpwuudVdqHdqWdq,
    VpdpwuudsVdqHdqWdq,
    Vbcstnebf162psVpsWw,
    Vbcstnesh2psVpsWsh,
    Vcvtneeph2psVpsWph,
    Vcvtneoph2psVpsWph,
    Vcvtneebf162psVpsWph,
    Vcvtneobf162psVpsWph,
    Vcvtneps2bf16VphWps,
    AndnGdBdEd,
    AndnGqBqEq,
    BlsiBdEd,
    BlsiBqEq,
    BlsmskBdEd,
    BlsmskBqEq,
    BlsrBdEd,
    BlsrBqEq,
    BextrGdEdBd,
    BextrGqEqBq,
    MulxGdBdEd,
    MulxGqBqEq,
    RorxGdEdIb,
    RorxGqEqIb,
    ShlxGdEdBd,
    ShlxGqEqBq,
    ShrxGdEdBd,
    ShrxGqEqBq,
    SarxGdEdBd,
    SarxGqEqBq,
    BzhiGdBdEd,
    BzhiGqBqEq,
    PextGdBdEd,
    PextGqBqEq,
    PdepGdBdEd,
    PdepGqBqEq,
    CmpbexaddEdGdBd,
    CmpbexaddEqGqBq,
    CmpbxaddEdGdBd,
    CmpbxaddEqGqBq,
    CmplexaddEdGdBd,
    CmplexaddEqGqBq,
    CmplxaddEdGdBd,
    CmplxaddEqGqBq,
    CmpnbexaddEdGdBd,
    CmpnbexaddEqGqBq,
    CmpnbxaddEdGdBd,
    CmpnbxaddEqGqBq,
    CmpnlexaddEdGdBd,
    CmpnlexaddEqGqBq,
    CmpnlxaddEdGdBd,
    CmpnlxaddEqGqBq,
    CmpnoxaddEdGdBd,
    CmpnoxaddEqGqBq,
    CmpnpxaddEdGdBd,
    CmpnpxaddEqGqBq,
    CmpnsxaddEdGdBd,
    CmpnsxaddEqGqBq,
    CmpnzxaddEdGdBd,
    CmpnzxaddEqGqBq,
    CmpoxaddEdGdBd,
    CmpoxaddEqGqBq,
    CmppxaddEdGdBd,
    CmppxaddEqGqBq,
    CmpsxaddEdGdBd,
    CmpsxaddEqGqBq,
    CmpzxaddEdGdBd,
    CmpzxaddEqGqBq,
    VfmaddsubpsVpsHpsVibWps,
    VfmaddsubpsVpsHpsWpsVib,
    VfmaddsubpdVpdHpdVibWpd,
    VfmaddsubpdVpdHpdWpdVib,
    VfmsubaddpsVpsHpsVibWps,
    VfmsubaddpsVpsHpsWpsVib,
    VfmsubaddpdVpdHpdVibWpd,
    VfmsubaddpdVpdHpdWpdVib,
    VfmaddpsVpsHpsVibWps,
    VfmaddpsVpsHpsWpsVib,
    VfmaddpdVpdHpdVibWpd,
    VfmaddpdVpdHpdWpdVib,
    VfmaddssVssHssVibWss,
    VfmaddssVssHssWssVib,
    VfmaddsdVsdHsdVibWsd,
    VfmaddsdVsdHsdWsdVib,
    VfmsubpsVpsHpsVibWps,
    VfmsubpsVpsHpsWpsVib,
    VfmsubpdVpdHpdVibWpd,
    VfmsubpdVpdHpdWpdVib,
    VfmsubssVssHssVibWss,
    VfmsubssVssHssWssVib,
    VfmsubsdVsdHsdVibWsd,
    VfmsubsdVsdHsdWsdVib,
    VfnmaddpsVpsHpsVibWps,
    VfnmaddpsVpsHpsWpsVib,
    VfnmaddpdVpdHpdVibWpd,
    VfnmaddpdVpdHpdWpdVib,
    VfnmaddssVssHssVibWss,
    VfnmaddssVssHssWssVib,
    VfnmaddsdVsdHsdVibWsd,
    VfnmaddsdVsdHsdWsdVib,
    VfnmsubpsVpsHpsVibWps,
    VfnmsubpsVpsHpsWpsVib,
    VfnmsubpdVpdHpdVibWpd,
    VfnmsubpdVpdHpdWpdVib,
    VfnmsubssVssHssVibWss,
    VfnmsubssVssHssWssVib,
    VfnmsubsdVsdHsdVibWsd,
    VfnmsubsdVsdHsdWsdVib,
    VpcmovVdqHdqVibWdq,
    VpcmovVdqHdqWdqVib,
    VppermVdqHdqVibWdq,
    VppermVdqHdqWdqVib,
    Vpermil2psVdqHdqVibWdq,
    Vpermil2psVdqHdqWdqVib,
    Vpermil2pdVdqHdqVibWdq,
    Vpermil2pdVdqHdqWdqVib,
    VpshabVdqHdqWdq,
    VpshabVdqWdqHdq,
    VpshawVdqHdqWdq,
    VpshawVdqWdqHdq,
    VpshadVdqHdqWdq,
    VpshadVdqWdqHdq,
    VpshaqVdqHdqWdq,
    VpshaqVdqWdqHdq,
    VprotbVdqHdqWdq,
    VprotbVdqWdqHdq,
    VprotwVdqHdqWdq,
    VprotwVdqWdqHdq,
    VprotdVdqHdqWdq,
    VprotdVdqWdqHdq,
    VprotqVdqHdqWdq,
    VprotqVdqWdqHdq,
    VpshlbVdqHdqWdq,
    VpshlbVdqWdqHdq,
    VpshlwVdqHdqWdq,
    VpshlwVdqWdqHdq,
    VpshldVdqHdqWdq,
    VpshldVdqWdqHdq,
    VpshlqVdqHdqWdq,
    VpshlqVdqWdqHdq,
    VpmacsswwVdqHdqWdqVib,
    VpmacsswdVdqHdqWdqVib,
    VpmacssdqlVdqHdqWdqVib,
    VpmacssddVdqHdqWdqVib,
    VpmacssdqhVdqHdqWdqVib,
    VpmacswwVdqHdqWdqVib,
    VpmacswdVdqHdqWdqVib,
    VpmacsdqlVdqHdqWdqVib,
    VpmacsddVdqHdqWdqVib,
    VpmacsdqhVdqHdqWdqVib,
    VpmadcsswdVdqHdqWdqVib,
    VpmadcswdVdqHdqWdqVib,
    VprotbVdqWdqIb,
    VprotwVdqWdqIb,
    VprotdVdqWdqIb,
    VprotqVdqWdqIb,
    VpcombVdqHdqWdqIb,
    VpcomwVdqHdqWdqIb,
    VpcomdVdqHdqWdqIb,
    VpcomqVdqHdqWdqIb,
    VpcomubVdqHdqWdqIb,
    VpcomuwVdqHdqWdqIb,
    VpcomudVdqHdqWdqIb,
    VpcomuqVdqHdqWdqIb,
    VfrczpsVpsWps,
    VfrczpdVpdWpd,
    VfrczssVssWss,
    VfrczsdVsdWsd,
    VphaddbwVdqWdq,
    VphaddbdVdqWdq,
    VphaddbqVdqWdq,
    VphaddwdVdqWdq,
    VphaddwqVdqWdq,
    VphadddqVdqWdq,
    VphaddubwVdqWdq,
    VphaddubdVdqWdq,
    VphaddubqVdqWdq,
    VphadduwdVdqWdq,
    VphadduwqVdqWdq,
    VphaddudqVdqWdq,
    VphsubbwVdqWdq,
    VphsubwdVdqWdq,
    VphsubdqVdqWdq,
    BextrGdEdId,
    BextrGqEqId,
    BlcfillBdEd,
    BlcfillBqEq,
    BlciBdEd,
    BlciBqEq,
    BlcicBdEd,
    BlcicBqEq,
    BlcmskBdEd,
    BlcmskBqEq,
    BlcsBdEd,
    BlcsBqEq,
    BlsfillBdEd,
    BlsfillBqEq,
    BlsicBdEd,
    BlsicBqEq,
    T1mskcBdEd,
    T1mskcBqEq,
    TzmskBdEd,
    TzmskBqEq,
    TzcntGwEw,
    TzcntGdEd,
    TzcntGqEq,
    LzcntGwEw,
    LzcntGdEd,
    LzcntGqEq,
    MovntssMssVss,
    MovntsdMsdVsd,
    ExtrqUdqIbIb,
    ExtrqVdqUq,
    InsertqVdqUqIbIb,
    InsertqVdqUdq,
    AdcxGdEd,
    AdoxGdEd,
    AdcxGqEq,
    AdoxGqEq,
    Stac,
    Clac,
    RdrandEw,
    RdrandEd,
    RdrandEq,
    RdseedEw,
    RdseedEd,
    RdseedEq,
    MovdiriMdGd,
    MovdiriMqGq,
    Movdir64bGdMdq,
    Movdir64bGqMdq,
    AaddEdGd,
    AandEdGd,
    AorEdGd,
    AxorEdGd,
    AaddEqGq,
    AandEqGq,
    AorEqGq,
    AxorEqGq,
    Ldtilecfg,
    Sttilecfg,
    TileloaddTnnnMdq,
    Tileloaddt1TnnnMdq,
    TileloaddrsTnnnMdq,
    Tileloaddrst1TnnnMdq,
    TilestoredMdqTnnn,
    Tilerelease,
    TilezeroTnnn,
    TdpbssdTnnnTrmTreg,
    TdpbsudTnnnTrmTreg,
    TdpbusdTnnnTrmTreg,
    TdpbuudTnnnTrmTreg,
    Tdpbf16psTnnnTrmTreg,
    Tdpfp16psTnnnTrmTreg,
    Tcmmrlfp16psTnnnTrmTreg,
    Tcmmimfp16psTnnnTrmTreg,
    Tmmultf32psTnnnTrmTreg,
    Tdpbf8psTnnnTrmTreg,
    Tdphf8psTnnnTrmTreg,
    Tdpbhf8psTnnnTrmTreg,
    Tdphbf8psTnnnTrmTreg,
    KaddwKgwKhwKew,
    KaddqKgqKhqKeq,
    KaddbKgbKhbKeb,
    KadddKgdKhdKed,
    KandwKgwKhwKew,
    KandqKgqKhqKeq,
    KandbKgbKhbKeb,
    KanddKgdKhdKed,
    KandnwKgwKhwKew,
    KandnqKgqKhqKeq,
    KandnbKgbKhbKeb,
    KandndKgdKhdKed,
    KmovwKgwKew,
    KmovqKgqKeq,
    KmovbKgbKeb,
    KmovdKgdKed,
    KmovwKewKgw,
    KmovqKeqKgq,
    KmovbKebKgb,
    KmovdKedKgd,
    KmovbGdKeb,
    KmovwGdKew,
    KmovdGdKed,
    KmovqGqKeq,
    KmovbKgbEb,
    KmovwKgwEw,
    KmovdKgdEd,
    KmovqKgqEq,
    KunpckbwKgwKhbKeb,
    KunpckwdKgdKhwKew,
    KunpckdqKgqKhdKed,
    KnotwKgwKew,
    KnotqKgqKeq,
    KnotbKgbKeb,
    KnotdKgdKed,
    KorwKgwKhwKew,
    KorqKgqKhqKeq,
    KorbKgbKhbKeb,
    KordKgdKhdKed,
    KortestwKgwKew,
    KortestqKgqKeq,
    KortestbKgbKeb,
    KortestdKgdKed,
    KshiftlbKgbKebIb,
    KshiftlwKgwKewIb,
    KshiftldKgdKedIb,
    KshiftlqKgqKeqIb,
    KshiftrbKgbKebIb,
    KshiftrwKgwKewIb,
    KshiftrdKgdKedIb,
    KshiftrqKgqKeqIb,
    KxnorwKgwKhwKew,
    KxnorqKgqKhqKeq,
    KxnorbKgbKhbKeb,
    KxnordKgdKhdKed,
    KxorwKgwKhwKew,
    KxorqKgqKhqKeq,
    KxorbKgbKhbKeb,
    KxordKgdKhdKed,
    KtestwKgwKew,
    KtestqKgqKeq,
    KtestbKgbKeb,
    KtestdKgdKed,
    RdmsrEqId,
    WrmsrnsIdEq,
    MovrsGbEb,
    MovrsGwEw,
    MovrsGdEd,
    MovrsGqEq,
    Erets,
    Eretu,
    LkgsEw,
    EvexVaddpsVpsHpsWps,
    EvexVaddpdVpdHpdWpd,
    EvexVaddssVssHpsWss,
    EvexVaddsdVsdHpdWsd,
    EvexVaddpsVpsHpsWpsKmask,
    EvexVaddpdVpdHpdWpdKmask,
    EvexVaddssVssHpsWssKmask,
    EvexVaddsdVsdHpdWsdKmask,
    EvexVsubpsVpsHpsWps,
    EvexVsubpdVpdHpdWpd,
    EvexVsubssVssHpsWss,
    EvexVsubsdVsdHpdWsd,
    EvexVsubpsVpsHpsWpsKmask,
    EvexVsubpdVpdHpdWpdKmask,
    EvexVsubssVssHpsWssKmask,
    EvexVsubsdVsdHpdWsdKmask,
    EvexVmulpsVpsHpsWps,
    EvexVmulpdVpdHpdWpd,
    EvexVmulssVssHpsWss,
    EvexVmulsdVsdHpdWsd,
    EvexVmulpsVpsHpsWpsKmask,
    EvexVmulpdVpdHpdWpdKmask,
    EvexVmulssVssHpsWssKmask,
    EvexVmulsdVsdHpdWsdKmask,
    EvexVdivpsVpsHpsWps,
    EvexVdivpdVpdHpdWpd,
    EvexVdivssVssHpsWss,
    EvexVdivsdVsdHpdWsd,
    EvexVdivpsVpsHpsWpsKmask,
    EvexVdivpdVpdHpdWpdKmask,
    EvexVdivssVssHpsWssKmask,
    EvexVdivsdVsdHpdWsdKmask,
    EvexVminpsVpsHpsWps,
    EvexVminpdVpdHpdWpd,
    EvexVminssVssHpsWss,
    EvexVminsdVsdHpdWsd,
    EvexVminpsVpsHpsWpsKmask,
    EvexVminpdVpdHpdWpdKmask,
    EvexVminssVssHpsWssKmask,
    EvexVminsdVsdHpdWsdKmask,
    EvexVmaxpsVpsHpsWps,
    EvexVmaxpdVpdHpdWpd,
    EvexVmaxssVssHpsWss,
    EvexVmaxsdVsdHpdWsd,
    EvexVmaxpsVpsHpsWpsKmask,
    EvexVmaxpdVpdHpdWpdKmask,
    EvexVmaxssVssHpsWssKmask,
    EvexVmaxsdVsdHpdWsdKmask,
    EvexVsqrtpsVpsWps,
    EvexVsqrtpdVpdWpd,
    EvexVsqrtssVssHpsWss,
    EvexVsqrtsdVsdHpdWsd,
    EvexVsqrtpsVpsWpsKmask,
    EvexVsqrtpdVpdWpdKmask,
    EvexVsqrtssVssHpsWssKmask,
    EvexVsqrtsdVsdHpdWsdKmask,
    EvexVcmppsKgwHpsWpsIb,
    EvexVcmppdKgbHpdWpdIb,
    EvexVcmpssKgbHssWssIb,
    EvexVcmpsdKgbHsdWsdIb,
    EvexVrndscalepsVpsWpsIbKmask,
    EvexVrndscalepdVpdWpdIbKmask,
    EvexVrndscalessVssHpsWssIbKmask,
    EvexVrndscalesdVsdHpdWsdIbKmask,
    EvexVunpcklpsVpsHpsWps,
    EvexVunpcklpdVpdHpdWpd,
    EvexVunpcklpsVpsHpsWpsKmask,
    EvexVunpcklpdVpdHpdWpdKmask,
    EvexVunpckhpsVpsHpsWps,
    EvexVunpckhpdVpdHpdWpd,
    EvexVunpckhpsVpsHpsWpsKmask,
    EvexVunpckhpdVpdHpdWpdKmask,
    EvexVpunpckldqVdqHdqWdq,
    EvexVpunpcklqdqVdqHdqWdq,
    EvexVpunpckldqVdqHdqWdqKmask,
    EvexVpunpcklqdqVdqHdqWdqKmask,
    EvexVpunpckhdqVdqHdqWdq,
    EvexVpunpckhqdqVdqHdqWdq,
    EvexVpunpckhdqVdqHdqWdqKmask,
    EvexVpunpckhqdqVdqHdqWdqKmask,
    EvexVpmuldqVdqHdqWdq,
    EvexVpmuludqVdqHdqWdq,
    EvexVpmuldqVdqHdqWdqKmask,
    EvexVpmuludqVdqHdqWdqKmask,
    EvexVucomissVssWss,
    EvexVcomissVssWss,
    EvexVucomisdVsdWsd,
    EvexVcomisdVsdWsd,
    EvexVcvtss2sdVsdWss,
    EvexVcvtsd2ssVssWsd,
    EvexVcvtps2pdVpdWps,
    EvexVcvtpd2psVpsWpd,
    EvexVcvtss2sdVsdWssKmask,
    EvexVcvtsd2ssVssWsdKmask,
    EvexVcvtps2pdVpdWpsKmask,
    EvexVcvtpd2psVpsWpdKmask,
    EvexVcvtps2dqVdqWps,
    EvexVcvtps2dqVdqWpsKmask,
    EvexVcvttps2dqVdqWps,
    EvexVcvttps2dqVdqWpsKmask,
    EvexVcvtpd2dqVdqWpd,
    EvexVcvtpd2dqVdqWpdKmask,
    EvexVcvttpd2dqVdqWpd,
    EvexVcvttpd2dqVdqWpdKmask,
    EvexVcvtph2psVpsWps,
    EvexVcvtph2psVpsWpsKmask,
    EvexVcvtps2phWpsVpsIb,
    EvexVcvtps2phWpsVpsIbKmask,
    EvexVcvtneps2bf16VphWpsKmask,
    EvexVcvtne2ps2bf16VphHpsWpsKmask,
    EvexVdpbf16psVpsHdqWdqKmask,
    EvexVmovapsVpsWps,
    EvexVmovapsVpsWpsKmask,
    EvexVmovapsWpsVps,
    EvexVmovapsWpsVpsKmask,
    EvexVmovapdVpdWpd,
    EvexVmovapdVpdWpdKmask,
    EvexVmovapdWpdVpd,
    EvexVmovapdWpdVpdKmask,
    EvexVmovupsVpsWps,
    EvexVmovupsVpsWpsKmask,
    EvexVmovupsWpsVps,
    EvexVmovupsWpsVpsKmask,
    EvexVmovupdVpdWpd,
    EvexVmovupdVpdWpdKmask,
    EvexVmovupdWpdVpd,
    EvexVmovupdWpdVpdKmask,
    EvexVmovsdVsdHpdWsd,
    EvexVmovssVssHpsWss,
    EvexVmovsdWsdHpdVsd,
    EvexVmovssWssHpsVss,
    EvexVmovsdVsdWsd,
    EvexVmovssVssWss,
    EvexVmovsdWsdVsd,
    EvexVmovssWssVss,
    EvexVmovsdVsdHpdWsdKmask,
    EvexVmovssVssHpsWssKmask,
    EvexVmovsdWsdHpdVsdKmask,
    EvexVmovssWssHpsVssKmask,
    EvexVmovsdVsdWsdKmask,
    EvexVmovssVssWssKmask,
    EvexVmovsdWsdVsdKmask,
    EvexVmovssWssVssKmask,
    EvexVpabsbVdqWdq,
    EvexVpabswVdqWdq,
    EvexVpabsdVdqWdq,
    EvexVpabsqVdqWdq,
    EvexVpabsbVdqWdqKmask,
    EvexVpabswVdqWdqKmask,
    EvexVpabsdVdqWdqKmask,
    EvexVpabsqVdqWdqKmask,
    EvexVmovntdqaVdqMdq,
    EvexVmovntpsMpsVps,
    EvexVmovntpdMpdVpd,
    EvexVmovntdqMdqVdq,
    EvexVpcmpeqbKgqHdqWdq,
    EvexVpcmpeqwKgdHdqWdq,
    EvexVpcmpgtbKgqHdqWdq,
    EvexVpcmpgtwKgdHdqWdq,
    EvexVpcmpeqdKgwHdqWdq,
    EvexVpcmpeqqKgbHdqWdq,
    EvexVpcmpgtdKgwHdqWdq,
    EvexVpcmpgtqKgbHdqWdq,
    EvexVpsrlwVdqHdqWdq,
    EvexVpsrlwVdqHdqWdqKmask,
    EvexVpsrawVdqHdqWdq,
    EvexVpsrawVdqHdqWdqKmask,
    EvexVpsllwVdqHdqWdq,
    EvexVpsllwVdqHdqWdqKmask,
    EvexVpsrlwUdqIb,
    EvexVpsrlwUdqIbKmask,
    EvexVpsllwUdqIb,
    EvexVpsllwUdqIbKmask,
    EvexVpsrawUdqIb,
    EvexVpsrawUdqIbKmask,
    EvexVpsrldVdqHdqWdq,
    EvexVpsrlqVdqHdqWdq,
    EvexVpsrldVdqHdqWdqKmask,
    EvexVpsrlqVdqHdqWdqKmask,
    EvexVpslldVdqHdqWdq,
    EvexVpsllqVdqHdqWdq,
    EvexVpslldVdqHdqWdqKmask,
    EvexVpsllqVdqHdqWdqKmask,
    EvexVpsrldUdqIb,
    EvexVpsrldUdqIbKmask,
    EvexVpsrlqUdqIb,
    EvexVpsrlqUdqIbKmask,
    EvexVpslldUdqIb,
    EvexVpslldUdqIbKmask,
    EvexVpsllqUdqIb,
    EvexVpsllqUdqIbKmask,
    EvexVpshufbVdqHdqWdq,
    EvexVpshufbVdqHdqWdqKmask,
    EvexVpermqVdqWdqIbKmask,
    EvexVpermpdVpdWpdIbKmask,
    EvexVshufpsVpsHpsWpsIb,
    EvexVshufpdVpdHpdWpdIb,
    EvexVshufpsVpsHpsWpsIbKmask,
    EvexVshufpdVpdHpdWpdIbKmask,
    EvexVpermilpsVpsHpsWps,
    EvexVpermilpdVpdHpdWpd,
    EvexVpermilpsVpsHpsWpsKmask,
    EvexVpermilpdVpdHpdWpdKmask,
    EvexVpermilpsVpsWpsIb,
    EvexVpermilpdVpdWpdIb,
    EvexVpermilpsVpsWpsIbKmask,
    EvexVpermilpdVpdWpdIbKmask,
    EvexVpshufdVdqWdqIb,
    EvexVpshufdVdqWdqIbKmask,
    EvexVpshuflwVdqWdqIb,
    EvexVpshuflwVdqWdqIbKmask,
    EvexVpshufhwVdqWdqIb,
    EvexVpshufhwVdqWdqIbKmask,
    EvexVpbroadcastbVdqEb,
    EvexVpbroadcastbVdqEbKmask,
    EvexVpbroadcastwVdqEw,
    EvexVpbroadcastwVdqEwKmask,
    EvexVpbroadcastdVdqEd,
    EvexVpbroadcastdVdqEdKmask,
    EvexVpbroadcastqVdqEq,
    EvexVpbroadcastqVdqEqKmask,
    EvexVpbroadcastbVdqWb,
    EvexVpbroadcastbVdqWbKmask,
    EvexVpbroadcastwVdqWw,
    EvexVpbroadcastwVdqWwKmask,
    EvexVpbroadcastdVdqWd,
    EvexVpbroadcastdVdqWdKmask,
    EvexVpbroadcastqVdqWq,
    EvexVpbroadcastqVdqWqKmask,
    EvexVbroadcastssVpsWss,
    EvexVbroadcastssVpsWssKmask,
    EvexVbroadcastsdVpdWsd,
    EvexVbroadcastsdVpdWsdKmask,
    EvexVmovqWqVq,
    EvexVmovqVqWq,
    EvexVinsertpsVpsWssIb,
    EvexVextractpsEdVpsIb,
    EvexVmovlpsVpsHpsMq,
    EvexVmovhlpsVpsHpsWps,
    EvexVmovhpsVpsHpsMq,
    EvexVmovlhpsVpsHpsWps,
    EvexVmovlpsMqVps,
    EvexVmovhpsMqVps,
    EvexVmovlpdMqVsd,
    EvexVmovhpdMqVsd,
    EvexVmovlpdVpdHpdMq,
    EvexVmovhpdVpdHpdMq,
    EvexVmovddupVpdWpd,
    EvexVmovsldupVpsWps,
    EvexVmovshdupVpsWps,
    EvexVmovddupVpdWpdKmask,
    EvexVmovsldupVpsWpsKmask,
    EvexVmovshdupVpsWpsKmask,
    EvexVpmovqbWdqVdq,
    EvexVpmovdbWdqVdq,
    EvexVpmovwbWdqVdq,
    EvexVpmovdwWdqVdq,
    EvexVpmovqwWdqVdq,
    EvexVpmovqdWdqVdq,
    EvexVpmovqbWdqVdqKmask,
    EvexVpmovdbWdqVdqKmask,
    EvexVpmovwbWdqVdqKmask,
    EvexVpmovdwWdqVdqKmask,
    EvexVpmovqwWdqVdqKmask,
    EvexVpmovqdWdqVdqKmask,
    EvexVpmovusqbWdqVdq,
    EvexVpmovusdbWdqVdq,
    EvexVpmovuswbWdqVdq,
    EvexVpmovusdwWdqVdq,
    EvexVpmovusqwWdqVdq,
    EvexVpmovusqdWdqVdq,
    EvexVpmovusqbWdqVdqKmask,
    EvexVpmovusdbWdqVdqKmask,
    EvexVpmovuswbWdqVdqKmask,
    EvexVpmovusdwWdqVdqKmask,
    EvexVpmovusqwWdqVdqKmask,
    EvexVpmovusqdWdqVdqKmask,
    EvexVpmovsqbWdqVdq,
    EvexVpmovsdbWdqVdq,
    EvexVpmovswbWdqVdq,
    EvexVpmovsdwWdqVdq,
    EvexVpmovsqwWdqVdq,
    EvexVpmovsqdWdqVdq,
    EvexVpmovsqbWdqVdqKmask,
    EvexVpmovsdbWdqVdqKmask,
    EvexVpmovswbWdqVdqKmask,
    EvexVpmovsdwWdqVdqKmask,
    EvexVpmovsqwWdqVdqKmask,
    EvexVpmovsqdWdqVdqKmask,
    EvexVpmovsxbwVdqWdq,
    EvexVpmovsxbdVdqWdq,
    EvexVpmovsxbqVdqWdq,
    EvexVpmovsxwdVdqWdq,
    EvexVpmovsxwqVdqWdq,
    EvexVpmovsxdqVdqWdq,
    EvexVpmovsxbwVdqWdqKmask,
    EvexVpmovsxbdVdqWdqKmask,
    EvexVpmovsxbqVdqWdqKmask,
    EvexVpmovsxwdVdqWdqKmask,
    EvexVpmovsxwqVdqWdqKmask,
    EvexVpmovsxdqVdqWdqKmask,
    EvexVpmovzxbwVdqWdq,
    EvexVpmovzxbdVdqWdq,
    EvexVpmovzxbqVdqWdq,
    EvexVpmovzxwdVdqWdq,
    EvexVpmovzxwqVdqWdq,
    EvexVpmovzxdqVdqWdq,
    EvexVpmovzxbwVdqWdqKmask,
    EvexVpmovzxbdVdqWdqKmask,
    EvexVpmovzxbqVdqWdqKmask,
    EvexVpmovzxwdVdqWdqKmask,
    EvexVpmovzxwqVdqWdqKmask,
    EvexVpmovzxdqVdqWdqKmask,
    EvexVpsubbVdqHdqWdq,
    EvexVpsubsbVdqHdqWdq,
    EvexVpsubusbVdqHdqWdq,
    EvexVpsubwVdqHdqWdq,
    EvexVpsubswVdqHdqWdq,
    EvexVpsubuswVdqHdqWdq,
    EvexVpaddbVdqHdqWdq,
    EvexVpaddsbVdqHdqWdq,
    EvexVpaddusbVdqHdqWdq,
    EvexVpaddwVdqHdqWdq,
    EvexVpaddswVdqHdqWdq,
    EvexVpadduswVdqHdqWdq,
    EvexVpsubbVdqHdqWdqKmask,
    EvexVpsubsbVdqHdqWdqKmask,
    EvexVpsubusbVdqHdqWdqKmask,
    EvexVpsubwVdqHdqWdqKmask,
    EvexVpsubswVdqHdqWdqKmask,
    EvexVpsubuswVdqHdqWdqKmask,
    EvexVpaddbVdqHdqWdqKmask,
    EvexVpaddsbVdqHdqWdqKmask,
    EvexVpaddusbVdqHdqWdqKmask,
    EvexVpaddwVdqHdqWdqKmask,
    EvexVpaddswVdqHdqWdqKmask,
    EvexVpadduswVdqHdqWdqKmask,
    EvexVpminsbVdqHdqWdq,
    EvexVpminubVdqHdqWdq,
    EvexVpmaxubVdqHdqWdq,
    EvexVpmaxsbVdqHdqWdq,
    EvexVpminswVdqHdqWdq,
    EvexVpminuwVdqHdqWdq,
    EvexVpmaxswVdqHdqWdq,
    EvexVpmaxuwVdqHdqWdq,
    EvexVpminsbVdqHdqWdqKmask,
    EvexVpminubVdqHdqWdqKmask,
    EvexVpmaxubVdqHdqWdqKmask,
    EvexVpmaxsbVdqHdqWdqKmask,
    EvexVpminswVdqHdqWdqKmask,
    EvexVpminuwVdqHdqWdqKmask,
    EvexVpmaxswVdqHdqWdqKmask,
    EvexVpmaxuwVdqHdqWdqKmask,
    EvexVpacksswbVdqHdqWdq,
    EvexVpacksswbVdqHdqWdqKmask,
    EvexVpackuswbVdqHdqWdq,
    EvexVpackuswbVdqHdqWdqKmask,
    EvexVpackssdwVdqHdqWdq,
    EvexVpackssdwVdqHdqWdqKmask,
    EvexVpackusdwVdqHdqWdq,
    EvexVpackusdwVdqHdqWdqKmask,
    EvexVpunpcklbwVdqHdqWdq,
    EvexVpunpckhbwVdqHdqWdq,
    EvexVpunpcklbwVdqHdqWdqKmask,
    EvexVpunpckhbwVdqHdqWdqKmask,
    EvexVpunpcklwdVdqHdqWdq,
    EvexVpunpckhwdVdqHdqWdq,
    EvexVpunpcklwdVdqHdqWdqKmask,
    EvexVpunpckhwdVdqHdqWdqKmask,
    EvexVpavgbVdqHdqWdq,
    EvexVpavgwVdqHdqWdq,
    EvexVpavgbVdqHdqWdqKmask,
    EvexVpavgwVdqHdqWdqKmask,
    EvexVpmaddubswVdqHdqWdq,
    EvexVpmaddubswVdqHdqWdqKmask,
    EvexVpmullwVdqHdqWdq,
    EvexVpmulhwVdqHdqWdq,
    EvexVpmulhuwVdqHdqWdq,
    EvexVpmulhrswVdqHdqWdq,
    EvexVpmullwVdqHdqWdqKmask,
    EvexVpmulhwVdqHdqWdqKmask,
    EvexVpmulhuwVdqHdqWdqKmask,
    EvexVpmulhrswVdqHdqWdqKmask,
    EvexVpsrldqUdqIb,
    EvexVpslldqUdqIb,
    EvexVpsadbwVdqHdqWdq,
    EvexVpmaddwdVdqHdqWdq,
    EvexVpmaddwdVdqHdqWdqKmask,
    EvexVpmadd52luqVdqHdqWdq,
    EvexVpmadd52luqVdqHdqWdqKmask,
    EvexVpmadd52huqVdqHdqWdq,
    EvexVpmadd52huqVdqHdqWdqKmask,
    EvexVpmultishiftqbVdqHdqWdq,
    EvexVpmultishiftqbVdqHdqWdqKmask,
    EvexVpermbVdqHdqWdqKmask,
    EvexVpermwVdqHdqWdqKmask,
    EvexVpermt2bVdqHdqWdqKmask,
    EvexVpermt2wVdqHdqWdqKmask,
    EvexVpermi2bVdqHdqWdqKmask,
    EvexVpermi2wVdqHdqWdqKmask,
    EvexVinsertf32x4VpsHpsWpsIb,
    EvexVinsertf64x2VpdHpdWpdIb,
    EvexVinsertf32x4VpsHpsWpsIbKmask,
    EvexVinsertf64x2VpdHpdWpdIbKmask,
    EvexVinsertf32x8VpsHpsWpsIb,
    EvexVinsertf64x4VpdHpdWpdIb,
    EvexVinsertf32x8VpsHpsWpsIbKmask,
    EvexVinsertf64x4VpdHpdWpdIbKmask,
    EvexVinserti32x4VdqHdqWdqIb,
    EvexVinserti64x2VdqHdqWdqIb,
    EvexVinserti32x4VdqHdqWdqIbKmask,
    EvexVinserti64x2VdqHdqWdqIbKmask,
    EvexVinserti32x8VdqHdqWdqIb,
    EvexVinserti64x4VdqHdqWdqIb,
    EvexVinserti32x8VdqHdqWdqIbKmask,
    EvexVinserti64x4VdqHdqWdqIbKmask,
    EvexVextractf32x4WpsVpsIb,
    EvexVextractf64x2WpdVpdIb,
    EvexVextractf32x4WpsVpsIbKmask,
    EvexVextractf64x2WpdVpdIbKmask,
    EvexVextractf32x8WpsVpsIb,
    EvexVextractf64x4WpdVpdIb,
    EvexVextractf32x8WpsVpsIbKmask,
    EvexVextractf64x4WpdVpdIbKmask,
    EvexVextracti32x4WdqVdqIb,
    EvexVextracti64x2WdqVdqIb,
    EvexVextracti32x4WdqVdqIbKmask,
    EvexVextracti64x2WdqVdqIbKmask,
    EvexVextracti32x8WdqVdqIb,
    EvexVextracti64x4WdqVdqIb,
    EvexVextracti32x8WdqVdqIbKmask,
    EvexVextracti64x4WdqVdqIbKmask,
    EvexVbroadcastf32x2VpsWq,
    EvexVbroadcastf32x2VpsWqKmask,
    EvexVbroadcasti32x2VdqWq,
    EvexVbroadcasti32x2VdqWqKmask,
    EvexVbroadcastf32x4VpsWps,
    EvexVbroadcastf64x2VpdWpd,
    EvexVbroadcastf32x4VpsWpsKmask,
    EvexVbroadcastf64x2VpdWpdKmask,
    EvexVbroadcastf32x8VpsWps,
    EvexVbroadcastf64x4VpdWpd,
    EvexVbroadcastf32x8VpsWpsKmask,
    EvexVbroadcastf64x4VpdWpdKmask,
    EvexVbroadcasti32x4VdqWdq,
    EvexVbroadcasti64x2VdqWdq,
    EvexVbroadcasti32x4VdqWdqKmask,
    EvexVbroadcasti64x2VdqWdqKmask,
    EvexVbroadcasti32x8VdqWdq,
    EvexVbroadcasti64x4VdqWdq,
    EvexVbroadcasti32x8VdqWdqKmask,
    EvexVbroadcasti64x4VdqWdqKmask,
    EvexVpmulldVdqHdqWdq,
    EvexVpmullqVdqHdqWdq,
    EvexVpmulldVdqHdqWdqKmask,
    EvexVpmullqVdqHdqWdqKmask,
    EvexVpadddVdqHdqWdq,
    EvexVpaddqVdqHdqWdq,
    EvexVpadddVdqHdqWdqKmask,
    EvexVpaddqVdqHdqWdqKmask,
    EvexVpsubdVdqHdqWdq,
    EvexVpsubqVdqHdqWdq,
    EvexVpsubdVdqHdqWdqKmask,
    EvexVpsubqVdqHdqWdqKmask,
    EvexVpanddVdqHdqWdq,
    EvexVpandqVdqHdqWdq,
    EvexVpanddVdqHdqWdqKmask,
    EvexVpandqVdqHdqWdqKmask,
    EvexVpandndVdqHdqWdq,
    EvexVpandnqVdqHdqWdq,
    EvexVpandndVdqHdqWdqKmask,
    EvexVpandnqVdqHdqWdqKmask,
    EvexVpordVdqHdqWdq,
    EvexVporqVdqHdqWdq,
    EvexVpordVdqHdqWdqKmask,
    EvexVporqVdqHdqWdqKmask,
    EvexVpxordVdqHdqWdq,
    EvexVpxorqVdqHdqWdq,
    EvexVpxordVdqHdqWdqKmask,
    EvexVpxorqVdqHdqWdqKmask,
    EvexVandpsVpsHpsWps,
    EvexVandpdVpdHpdWpd,
    EvexVandpsVpsHpsWpsKmask,
    EvexVandpdVpdHpdWpdKmask,
    EvexVandnpsVpsHpsWps,
    EvexVandnpdVpdHpdWpd,
    EvexVandnpsVpsHpsWpsKmask,
    EvexVandnpdVpdHpdWpdKmask,
    EvexVorpsVpsHpsWps,
    EvexVorpdVpdHpdWpd,
    EvexVorpsVpsHpsWpsKmask,
    EvexVorpdVpdHpdWpdKmask,
    EvexVxorpsVpsHpsWps,
    EvexVxorpdVpdHpdWpd,
    EvexVxorpsVpsHpsWpsKmask,
    EvexVxorpdVpdHpdWpdKmask,
    EvexVpmaxsdVdqHdqWdq,
    EvexVpmaxsqVdqHdqWdq,
    EvexVpmaxsdVdqHdqWdqKmask,
    EvexVpmaxsqVdqHdqWdqKmask,
    EvexVpmaxudVdqHdqWdq,
    EvexVpmaxuqVdqHdqWdq,
    EvexVpmaxudVdqHdqWdqKmask,
    EvexVpmaxuqVdqHdqWdqKmask,
    EvexVpminsdVdqHdqWdq,
    EvexVpminsqVdqHdqWdq,
    EvexVpminsdVdqHdqWdqKmask,
    EvexVpminsqVdqHdqWdqKmask,
    EvexVpminudVdqHdqWdq,
    EvexVpminuqVdqHdqWdq,
    EvexVpminudVdqHdqWdqKmask,
    EvexVpminuqVdqHdqWdqKmask,
    EvexValigndVdqHdqWdqIbKmask,
    EvexValignqVdqHdqWdqIbKmask,
    EvexVpalignrVdqHdqWdqIb,
    EvexVpalignrVdqHdqWdqIbKmask,
    EvexVdbpsadbwVdqHdqWdqIbKmask,
    EvexVpsrlvwVdqHdqWdq,
    EvexVpsrlvdVdqHdqWdq,
    EvexVpsrlvqVdqHdqWdq,
    EvexVpsravwVdqHdqWdq,
    EvexVpsravdVdqHdqWdq,
    EvexVpsravqVdqHdqWdq,
    EvexVpsllvwVdqHdqWdq,
    EvexVpsllvdVdqHdqWdq,
    EvexVpsllvqVdqHdqWdq,
    EvexVprolvdVdqHdqWdq,
    EvexVprolvqVdqHdqWdq,
    EvexVprorvdVdqHdqWdq,
    EvexVprorvqVdqHdqWdq,
    EvexVpsrlvwVdqHdqWdqKmask,
    EvexVpsrlvdVdqHdqWdqKmask,
    EvexVpsrlvqVdqHdqWdqKmask,
    EvexVpsravwVdqHdqWdqKmask,
    EvexVpsravdVdqHdqWdqKmask,
    EvexVpsravqVdqHdqWdqKmask,
    EvexVpsllvwVdqHdqWdqKmask,
    EvexVpsllvdVdqHdqWdqKmask,
    EvexVpsllvqVdqHdqWdqKmask,
    EvexVprolvdVdqHdqWdqKmask,
    EvexVprolvqVdqHdqWdqKmask,
    EvexVprorvdVdqHdqWdqKmask,
    EvexVprorvqVdqHdqWdqKmask,
    EvexVpsradVdqHdqWdq,
    EvexVpsraqVdqHdqWdq,
    EvexVpsradVdqHdqWdqKmask,
    EvexVpsraqVdqHdqWdqKmask,
    EvexVpsradUdqIb,
    EvexVpsraqUdqIb,
    EvexVprordUdqIb,
    EvexVprorqUdqIb,
    EvexVproldUdqIb,
    EvexVprolqUdqIb,
    EvexVpsradUdqIbKmask,
    EvexVpsraqUdqIbKmask,
    EvexVprordUdqIbKmask,
    EvexVprorqUdqIbKmask,
    EvexVproldUdqIbKmask,
    EvexVprolqUdqIbKmask,
    EvexVmovdqu8VdqWdq,
    EvexVmovdqu16VdqWdq,
    EvexVmovdqu8VdqWdqKmask,
    EvexVmovdqu16VdqWdqKmask,
    EvexVmovdqu8WdqVdq,
    EvexVmovdqu16WdqVdq,
    EvexVmovdqu8WdqVdqKmask,
    EvexVmovdqu16WdqVdqKmask,
    EvexVmovdqu32VdqWdq,
    EvexVmovdqu64VdqWdq,
    EvexVmovdqu32VdqWdqKmask,
    EvexVmovdqu64VdqWdqKmask,
    EvexVmovdqu32WdqVdq,
    EvexVmovdqu64WdqVdq,
    EvexVmovdqu32WdqVdqKmask,
    EvexVmovdqu64WdqVdqKmask,
    EvexVmovdqa32VdqWdq,
    EvexVmovdqa64VdqWdq,
    EvexVmovdqa32VdqWdqKmask,
    EvexVmovdqa64VdqWdqKmask,
    EvexVmovdqa32WdqVdq,
    EvexVmovdqa64WdqVdq,
    EvexVmovdqa32WdqVdqKmask,
    EvexVmovdqa64WdqVdqKmask,
    EvexVrangepsVpsHpsWpsIbKmask,
    EvexVrangepdVpdHpdWpdIbKmask,
    EvexVrangessVssHpsWssIbKmask,
    EvexVrangesdVsdHpdWsdIbKmask,
    EvexVgetexppsVpsWps,
    EvexVgetexppdVpdWpd,
    EvexVgetexpssVssHpsWss,
    EvexVgetexpsdVsdHpdWsd,
    EvexVgetexppsVpsWpsKmask,
    EvexVgetexppdVpdWpdKmask,
    EvexVgetexpssVssHpsWssKmask,
    EvexVgetexpsdVsdHpdWsdKmask,
    EvexVgetmantpsVpsWpsIbKmask,
    EvexVgetmantpdVpdWpdIbKmask,
    EvexVgetmantssVssHpsWssIbKmask,
    EvexVgetmantsdVsdHpdWsdIbKmask,
    EvexVscalefpsVpsHpsWps,
    EvexVscalefpdVpdHpdWpd,
    EvexVscalefssVssHpsWss,
    EvexVscalefsdVsdHpdWsd,
    EvexVscalefpsVpsHpsWpsKmask,
    EvexVscalefpdVpdHpdWpdKmask,
    EvexVscalefssVssHpsWssKmask,
    EvexVscalefsdVsdHpdWsdKmask,
    EvexVrcp14psVpsWpsKmask,
    EvexVrcp14pdVpdWpdKmask,
    EvexVrcp14ssVssHpsWssKmask,
    EvexVrcp14sdVsdHpdWsdKmask,
    EvexVrsqrt14psVpsWpsKmask,
    EvexVrsqrt14pdVpdWpdKmask,
    EvexVrsqrt14ssVssHpsWssKmask,
    EvexVrsqrt14sdVsdHpdWsdKmask,
    EvexVcvtps2uqqVdqWps,
    EvexVcvtpd2uqqVdqWpd,
    EvexVcvtps2uqqVdqWpsKmask,
    EvexVcvtpd2uqqVdqWpdKmask,
    EvexVcvttps2uqqVdqWps,
    EvexVcvttps2uqqVdqWpsKmask,
    EvexVcvttpd2uqqVdqWpd,
    EvexVcvttpd2uqqVdqWpdKmask,
    EvexVcvtps2qqVdqWps,
    EvexVcvtps2qqVdqWpsKmask,
    EvexVcvtpd2qqVdqWpd,
    EvexVcvtpd2qqVdqWpdKmask,
    EvexVcvttps2qqVdqWps,
    EvexVcvttps2qqVdqWpsKmask,
    EvexVcvttpd2qqVdqWpd,
    EvexVcvttpd2qqVdqWpdKmask,
    EvexVcvttps2udqVdqWps,
    EvexVcvttpd2udqVdqWpd,
    EvexVcvttps2udqVdqWpsKmask,
    EvexVcvttpd2udqVdqWpdKmask,
    EvexVcvtps2udqVdqWps,
    EvexVcvtpd2udqVdqWpd,
    EvexVcvtps2udqVdqWpsKmask,
    EvexVcvtpd2udqVdqWpdKmask,
    EvexVcvtudq2pdVpdWdq,
    EvexVcvtudq2pdVpdWdqKmask,
    EvexVcvtuqq2pdVpdWdq,
    EvexVcvtuqq2pdVpdWdqKmask,
    EvexVcvtudq2psVpsWdq,
    EvexVcvtudq2psVpsWdqKmask,
    EvexVcvtuqq2psVpsWdq,
    EvexVcvtuqq2psVpsWdqKmask,
    EvexVcvtdq2pdVpdWdq,
    EvexVcvtdq2pdVpdWdqKmask,
    EvexVcvtqq2pdVpdWdq,
    EvexVcvtqq2pdVpdWdqKmask,
    EvexVcvtdq2psVpsWdq,
    EvexVcvtdq2psVpsWdqKmask,
    EvexVcvtqq2psVpsWdq,
    EvexVcvtqq2psVpsWdqKmask,
    EvexVfmadd132psVpsHpsWps,
    EvexVfmadd132pdVpdHpdWpd,
    EvexVfmadd213psVpsHpsWps,
    EvexVfmadd213pdVpdHpdWpd,
    EvexVfmadd231psVpsHpsWps,
    EvexVfmadd231pdVpdHpdWpd,
    EvexVfmadd132psVpsHpsWpsKmask,
    EvexVfmadd132pdVpdHpdWpdKmask,
    EvexVfmadd213psVpsHpsWpsKmask,
    EvexVfmadd213pdVpdHpdWpdKmask,
    EvexVfmadd231psVpsHpsWpsKmask,
    EvexVfmadd231pdVpdHpdWpdKmask,
    EvexVfmadd132ssVpsHssWss,
    EvexVfmadd132sdVpdHsdWsd,
    EvexVfmadd213ssVpsHssWss,
    EvexVfmadd213sdVpdHsdWsd,
    EvexVfmadd231ssVpsHssWss,
    EvexVfmadd231sdVpdHsdWsd,
    EvexVfmadd132ssVpsHssWssKmask,
    EvexVfmadd132sdVpdHsdWsdKmask,
    EvexVfmadd213ssVpsHssWssKmask,
    EvexVfmadd213sdVpdHsdWsdKmask,
    EvexVfmadd231ssVpsHssWssKmask,
    EvexVfmadd231sdVpdHsdWsdKmask,
    EvexVfmaddsub132psVpsHpsWps,
    EvexVfmaddsub132pdVpdHpdWpd,
    EvexVfmaddsub213psVpsHpsWps,
    EvexVfmaddsub213pdVpdHpdWpd,
    EvexVfmaddsub231psVpsHpsWps,
    EvexVfmaddsub231pdVpdHpdWpd,
    EvexVfmaddsub132psVpsHpsWpsKmask,
    EvexVfmaddsub132pdVpdHpdWpdKmask,
    EvexVfmaddsub213psVpsHpsWpsKmask,
    EvexVfmaddsub213pdVpdHpdWpdKmask,
    EvexVfmaddsub231psVpsHpsWpsKmask,
    EvexVfmaddsub231pdVpdHpdWpdKmask,
    EvexVfmsubadd132psVpsHpsWps,
    EvexVfmsubadd132pdVpdHpdWpd,
    EvexVfmsubadd213psVpsHpsWps,
    EvexVfmsubadd213pdVpdHpdWpd,
    EvexVfmsubadd231psVpsHpsWps,
    EvexVfmsubadd231pdVpdHpdWpd,
    EvexVfmsubadd132psVpsHpsWpsKmask,
    EvexVfmsubadd132pdVpdHpdWpdKmask,
    EvexVfmsubadd213psVpsHpsWpsKmask,
    EvexVfmsubadd213pdVpdHpdWpdKmask,
    EvexVfmsubadd231psVpsHpsWpsKmask,
    EvexVfmsubadd231pdVpdHpdWpdKmask,
    EvexVfmsub132psVpsHpsWps,
    EvexVfmsub132pdVpdHpdWpd,
    EvexVfmsub213psVpsHpsWps,
    EvexVfmsub213pdVpdHpdWpd,
    EvexVfmsub231psVpsHpsWps,
    EvexVfmsub231pdVpdHpdWpd,
    EvexVfmsub132psVpsHpsWpsKmask,
    EvexVfmsub132pdVpdHpdWpdKmask,
    EvexVfmsub213psVpsHpsWpsKmask,
    EvexVfmsub213pdVpdHpdWpdKmask,
    EvexVfmsub231psVpsHpsWpsKmask,
    EvexVfmsub231pdVpdHpdWpdKmask,
    EvexVfmsub132ssVpsHssWss,
    EvexVfmsub132sdVpdHsdWsd,
    EvexVfmsub213ssVpsHssWss,
    EvexVfmsub213sdVpdHsdWsd,
    EvexVfmsub231ssVpsHssWss,
    EvexVfmsub231sdVpdHsdWsd,
    EvexVfmsub132ssVpsHssWssKmask,
    EvexVfmsub132sdVpdHsdWsdKmask,
    EvexVfmsub213ssVpsHssWssKmask,
    EvexVfmsub213sdVpdHsdWsdKmask,
    EvexVfmsub231ssVpsHssWssKmask,
    EvexVfmsub231sdVpdHsdWsdKmask,
    EvexVfnmadd132psVpsHpsWps,
    EvexVfnmadd132pdVpdHpdWpd,
    EvexVfnmadd213psVpsHpsWps,
    EvexVfnmadd213pdVpdHpdWpd,
    EvexVfnmadd231psVpsHpsWps,
    EvexVfnmadd231pdVpdHpdWpd,
    EvexVfnmadd132psVpsHpsWpsKmask,
    EvexVfnmadd132pdVpdHpdWpdKmask,
    EvexVfnmadd213psVpsHpsWpsKmask,
    EvexVfnmadd213pdVpdHpdWpdKmask,
    EvexVfnmadd231psVpsHpsWpsKmask,
    EvexVfnmadd231pdVpdHpdWpdKmask,
    EvexVfnmadd132ssVpsHssWss,
    EvexVfnmadd132sdVpdHsdWsd,
    EvexVfnmadd213ssVpsHssWss,
    EvexVfnmadd213sdVpdHsdWsd,
    EvexVfnmadd231ssVpsHssWss,
    EvexVfnmadd231sdVpdHsdWsd,
    EvexVfnmadd132ssVpsHssWssKmask,
    EvexVfnmadd132sdVpdHsdWsdKmask,
    EvexVfnmadd213ssVpsHssWssKmask,
    EvexVfnmadd213sdVpdHsdWsdKmask,
    EvexVfnmadd231ssVpsHssWssKmask,
    EvexVfnmadd231sdVpdHsdWsdKmask,
    EvexVfnmsub132psVpsHpsWps,
    EvexVfnmsub132pdVpdHpdWpd,
    EvexVfnmsub213psVpsHpsWps,
    EvexVfnmsub213pdVpdHpdWpd,
    EvexVfnmsub231psVpsHpsWps,
    EvexVfnmsub231pdVpdHpdWpd,
    EvexVfnmsub132psVpsHpsWpsKmask,
    EvexVfnmsub132pdVpdHpdWpdKmask,
    EvexVfnmsub213psVpsHpsWpsKmask,
    EvexVfnmsub213pdVpdHpdWpdKmask,
    EvexVfnmsub231psVpsHpsWpsKmask,
    EvexVfnmsub231pdVpdHpdWpdKmask,
    EvexVfnmsub132ssVpsHssWss,
    EvexVfnmsub132sdVpdHsdWsd,
    EvexVfnmsub213ssVpsHssWss,
    EvexVfnmsub213sdVpdHsdWsd,
    EvexVfnmsub231ssVpsHssWss,
    EvexVfnmsub231sdVpdHsdWsd,
    EvexVfnmsub132ssVpsHssWssKmask,
    EvexVfnmsub132sdVpdHsdWsdKmask,
    EvexVfnmsub213ssVpsHssWssKmask,
    EvexVfnmsub213sdVpdHsdWsdKmask,
    EvexVfnmsub231ssVpsHssWssKmask,
    EvexVfnmsub231sdVpdHsdWsdKmask,
    EvexVpcmpbKgqHdqWdqIb,
    EvexVpcmpwKgdHdqWdqIb,
    EvexVpcmpubKgqHdqWdqIb,
    EvexVpcmpuwKgdHdqWdqIb,
    EvexVpcmpdKgwHdqWdqIb,
    EvexVpcmpqKgbHdqWdqIb,
    EvexVpcmpudKgwHdqWdqIb,
    EvexVpcmpuqKgbHdqWdqIb,
    EvexVptestmbKgqHdqWdq,
    EvexVptestmwKgdHdqWdq,
    EvexVptestnmbKgqHdqWdq,
    EvexVptestnmwKgdHdqWdq,
    EvexVptestmdKgwHdqWdq,
    EvexVptestmqKgbHdqWdq,
    EvexVptestnmdKgwHdqWdq,
    EvexVptestnmqKgbHdqWdq,
    EvexVpternlogdVdqHdqWdqIb,
    EvexVpternlogqVdqHdqWdqIb,
    EvexVpternlogdVdqHdqWdqIbKmask,
    EvexVpternlogqVdqHdqWdqIbKmask,
    EvexVgatherdpsVpsVsib,
    EvexVgatherdpdVpdVsib,
    EvexVgatherqpsVpsVsib,
    EvexVgatherqpdVpdVsib,
    EvexVgatherddVdqVsib,
    EvexVgatherdqVdqVsib,
    EvexVgatherqdVdqVsib,
    EvexVgatherqqVdqVsib,
    EvexVscatterdpsVsibVps,
    EvexVscatterdpdVsibVpd,
    EvexVscatterqpsVsibVps,
    EvexVscatterqpdVsibVpd,
    EvexVscatterddVsibVdq,
    EvexVscatterdqVsibVdq,
    EvexVscatterqdVsibVdq,
    EvexVscatterqqVsibVdq,
    EvexVblendmpsVpsHpsWps,
    EvexVblendmpdVpdHpdWpd,
    EvexVpblendmdVdqHdqWdq,
    EvexVpblendmqVdqHdqWdq,
    EvexVpblendmbVdqHdqWdq,
    EvexVpblendmwVdqHdqWdq,
    EvexVshufi32x4VdqHdqWdqIbKmask,
    EvexVshufi64x2VdqHdqWdqIbKmask,
    EvexVshuff32x4VpsHpsWpsIbKmask,
    EvexVshuff64x2VpdHpdWpdIbKmask,
    EvexVexpandpsVpsWps,
    EvexVexpandpdVpdWpd,
    EvexVexpandpsVpsWpsKmask,
    EvexVexpandpdVpdWpdKmask,
    EvexVcompresspsWpsVps,
    EvexVcompresspdWpdVpd,
    EvexVcompresspsWpsVpsKmask,
    EvexVcompresspdWpdVpdKmask,
    EvexVpexpandbVdqWdq,
    EvexVpexpandwVdqWdq,
    EvexVpexpandbVdqWdqKmask,
    EvexVpexpandwVdqWdqKmask,
    EvexVpexpanddVdqWdq,
    EvexVpexpandqVdqWdq,
    EvexVpexpanddVdqWdqKmask,
    EvexVpexpandqVdqWdqKmask,
    EvexVpcompressbWdqVdq,
    EvexVpcompresswWdqVdq,
    EvexVpcompressbWdqVdqKmask,
    EvexVpcompresswWdqVdqKmask,
    EvexVpcompressdWdqVdq,
    EvexVpcompressqWdqVdq,
    EvexVpcompressdWdqVdqKmask,
    EvexVpcompressqWdqVdqKmask,
    EvexVfixupimmssVssHssWssIbKmask,
    EvexVfixupimmsdVsdHsdWsdIbKmask,
    EvexVfixupimmpsVpsHpsWpsIb,
    EvexVfixupimmpdVpdHpdWpdIb,
    EvexVfixupimmpsVpsHpsWpsIbKmask,
    EvexVfixupimmpdVpdHpdWpdIbKmask,
    EvexVfpclasspsKgwWpsIbKmask,
    EvexVfpclasspdKgbWpdIbKmask,
    EvexVfpclassssKgbWssIbKmask,
    EvexVfpclasssdKgbWsdIbKmask,
    EvexVreducepsVpsWpsIbKmask,
    EvexVreducepdVpdWpdIbKmask,
    EvexVreducessVssHpsWssIbKmask,
    EvexVreducesdVsdHpdWsdIbKmask,
    EvexVpermt2dVdqHdqWdqKmask,
    EvexVpermt2qVdqHdqWdqKmask,
    EvexVpermi2dVdqHdqWdqKmask,
    EvexVpermi2qVdqHdqWdqKmask,
    EvexVpermt2psVpsHpsWpsKmask,
    EvexVpermt2pdVpdHpdWpdKmask,
    EvexVpermi2psVpsHpsWpsKmask,
    EvexVpermi2pdVpdHpdWpdKmask,
    EvexVpermdVdqHdqWdqKmask,
    EvexVpermqVdqHdqWdqKmask,
    EvexVpermpsVpsHpsWpsKmask,
    EvexVpermpdVpdHpdWpdKmask,
    EvexVpconflictdVdqWdqKmask,
    EvexVpconflictqVdqWdqKmask,
    EvexVplzcntdVdqWdqKmask,
    EvexVplzcntqVdqWdqKmask,
    EvexVpmovm2bVdqKeq,
    EvexVpmovm2wVdqKed,
    EvexVpmovm2dVdqKew,
    EvexVpmovm2qVdqKeb,
    EvexVpmovb2mKgqWdq,
    EvexVpmovw2mKgdWdq,
    EvexVpmovd2mKgwWdq,
    EvexVpmovq2mKgbWdq,
    EvexVpopcntbVdqWdqKmask,
    EvexVpopcntwVdqWdqKmask,
    EvexVpopcntdVdqWdqKmask,
    EvexVpopcntqVdqWdqKmask,
    EvexVpshrddVdqHdqWdqIbKmask,
    EvexVpshrdqVdqHdqWdqIbKmask,
    EvexVpshrdvdVdqHdqWdqKmask,
    EvexVpshrdvqVdqHdqWdqKmask,
    EvexVpshlddVdqHdqWdqIbKmask,
    EvexVpshldqVdqHdqWdqIbKmask,
    EvexVpshldvdVdqHdqWdqKmask,
    EvexVpshldvqVdqHdqWdqKmask,
    EvexVcvtss2siGdWss,
    EvexVcvtss2siGqWss,
    EvexVcvtsd2siGdWsd,
    EvexVcvtsd2siGqWsd,
    EvexVcvttss2siGdWss,
    EvexVcvttss2siGqWss,
    EvexVcvttsd2siGdWsd,
    EvexVcvttsd2siGqWsd,
    EvexVmovdVdqEd,
    EvexVmovqVdqEq,
    EvexVmovdEdVd,
    EvexVmovqEqVq,
    EvexVcvtsi2ssVssEd,
    EvexVcvtsi2ssVssEq,
    EvexVcvtsi2sdVsdEd,
    EvexVcvtsi2sdVsdEq,
    EvexVcvtusi2ssVssEd,
    EvexVcvtusi2ssVssEq,
    EvexVcvtusi2sdVsdEd,
    EvexVcvtusi2sdVsdEq,
    EvexVcvtss2usiGdWss,
    EvexVcvtss2usiGqWss,
    EvexVcvtsd2usiGdWsd,
    EvexVcvtsd2usiGqWsd,
    EvexVcvttss2usiGdWss,
    EvexVcvttss2usiGqWss,
    EvexVcvttsd2usiGdWsd,
    EvexVcvttsd2usiGqWsd,
    EvexVpinsrbVdqEbIb,
    EvexVpinsrwVdqEwIb,
    EvexVpextrwGdUdqIb,
    EvexVpextrbEdVdqIbR,
    EvexVpextrbMbVdqIbM,
    EvexVpextrwEdVdqIbR,
    EvexVpextrwMwVdqIbM,
    EvexVpinsrdVdqEdIb,
    EvexVpinsrqVdqEqIb,
    EvexVpextrdEdVdqIb,
    EvexVpextrqEqVdqIb,
    EvexVpbroadcastmb2qVdqKeb,
    EvexVpbroadcastmw2dVdqKew,
    EvexVpdpbusdVdqHdqWdq,
    EvexVpdpbusdsVdqHdqWdq,
    EvexVpdpwssdVdqHdqWdq,
    EvexVpdpwssdsVdqHdqWdq,
    EvexVpdpbusdVdqHdqWdqKmask,
    EvexVpdpbusdsVdqHdqWdqKmask,
    EvexVpdpwssdVdqHdqWdqKmask,
    EvexVpdpwssdsVdqHdqWdqKmask,
    EvexVpshufbitqmbKgqHdqWdqKmask,
    EvexVp2intersectdKgqHdqWdq,
    EvexVp2intersectqKgqHdqWdq,
    EvexVpshrdwVdqHdqWdqIbKmask,
    EvexVpshrdvwVdqHdqWdqKmask,
    EvexVpshldwVdqHdqWdqIbKmask,
    EvexVpshldvwVdqHdqWdqKmask,
    EvexVaddshVshHphWsh,
    EvexVaddshVshHphWshKmask,
    EvexVsubshVshHphWsh,
    EvexVsubshVshHphWshKmask,
    EvexVmulshVshHphWsh,
    EvexVmulshVshHphWshKmask,
    EvexVdivshVshHphWsh,
    EvexVdivshVshHphWshKmask,
    EvexVminshVshHphWsh,
    EvexVminshVshHphWshKmask,
    EvexVmaxshVshHphWsh,
    EvexVmaxshVshHphWshKmask,
    EvexVscalefshVshHphWsh,
    EvexVscalefshVshHphWshKmask,
    EvexVaddphVphHphWph,
    EvexVaddphVphHphWphKmask,
    EvexVsubphVphHphWph,
    EvexVsubphVphHphWphKmask,
    EvexVmulphVphHphWph,
    EvexVmulphVphHphWphKmask,
    EvexVdivphVphHphWph,
    EvexVdivphVphHphWphKmask,
    EvexVminphVphHphWph,
    EvexVminphVphHphWphKmask,
    EvexVmaxphVphHphWph,
    EvexVmaxphVphHphWphKmask,
    EvexVscalefphVphHphWph,
    EvexVscalefphVphHphWphKmask,
    EvexVfmadd132shVphHshWsh,
    EvexVfmadd132shVphHshWshKmask,
    EvexVfmadd213shVphHshWsh,
    EvexVfmadd213shVphHshWshKmask,
    EvexVfmadd231shVphHshWsh,
    EvexVfmadd231shVphHshWshKmask,
    EvexVfnmadd132shVphHshWsh,
    EvexVfnmadd132shVphHshWshKmask,
    EvexVfnmadd213shVphHshWsh,
    EvexVfnmadd213shVphHshWshKmask,
    EvexVfnmadd231shVphHshWsh,
    EvexVfnmadd231shVphHshWshKmask,
    EvexVfmsub132shVphHshWsh,
    EvexVfmsub132shVphHshWshKmask,
    EvexVfmsub213shVphHshWsh,
    EvexVfmsub213shVphHshWshKmask,
    EvexVfmsub231shVphHshWsh,
    EvexVfmsub231shVphHshWshKmask,
    EvexVfnmsub132shVphHshWsh,
    EvexVfnmsub132shVphHshWshKmask,
    EvexVfnmsub213shVphHshWsh,
    EvexVfnmsub213shVphHshWshKmask,
    EvexVfnmsub231shVphHshWsh,
    EvexVfnmsub231shVphHshWshKmask,
    EvexVfmadd132phVphHphWph,
    EvexVfmadd132phVphHphWphKmask,
    EvexVfmadd213phVphHphWph,
    EvexVfmadd213phVphHphWphKmask,
    EvexVfmadd231phVphHphWph,
    EvexVfmadd231phVphHphWphKmask,
    EvexVfnmadd132phVphHphWph,
    EvexVfnmadd132phVphHphWphKmask,
    EvexVfnmadd213phVphHphWph,
    EvexVfnmadd213phVphHphWphKmask,
    EvexVfnmadd231phVphHphWph,
    EvexVfnmadd231phVphHphWphKmask,
    EvexVfmsub132phVphHphWph,
    EvexVfmsub132phVphHphWphKmask,
    EvexVfmsub213phVphHphWph,
    EvexVfmsub213phVphHphWphKmask,
    EvexVfmsub231phVphHphWph,
    EvexVfmsub231phVphHphWphKmask,
    EvexVfnmsub132phVphHphWph,
    EvexVfnmsub132phVphHphWphKmask,
    EvexVfnmsub213phVphHphWph,
    EvexVfnmsub213phVphHphWphKmask,
    EvexVfnmsub231phVphHphWph,
    EvexVfnmsub231phVphHphWphKmask,
    EvexVfmaddsub132phVphHphWph,
    EvexVfmaddsub132phVphHphWphKmask,
    EvexVfmaddsub213phVphHphWph,
    EvexVfmaddsub213phVphHphWphKmask,
    EvexVfmaddsub231phVphHphWph,
    EvexVfmaddsub231phVphHphWphKmask,
    EvexVfmsubadd132phVphHphWph,
    EvexVfmsubadd132phVphHphWphKmask,
    EvexVfmsubadd213phVphHphWph,
    EvexVfmsubadd213phVphHphWphKmask,
    EvexVfmsubadd231phVphHphWph,
    EvexVfmsubadd231phVphHphWphKmask,
    EvexVfpclassphKgdWphIbKmask,
    EvexVfpclassshKgbWshIbKmask,
    EvexVucomishVshWsh,
    EvexVcomishVshWsh,
    EvexVcmpphKgdHphWphIb,
    EvexVcmpshKgbHshWshIb,
    EvexVsqrtphVphWph,
    EvexVsqrtphVphWphKmask,
    EvexVsqrtshVshHphWsh,
    EvexVsqrtshVshHphWshKmask,
    EvexVgetexpphVphWph,
    EvexVgetexpphVphWphKmask,
    EvexVgetexpshVshHphWsh,
    EvexVgetexpshVshHphWshKmask,
    EvexVmovshVshWsh,
    EvexVmovshWshVsh,
    EvexVmovshVshWshKmask,
    EvexVmovshWshVshKmask,
    EvexVmovshVshHphWsh,
    EvexVmovshWshHphVsh,
    EvexVmovshVshHphWshKmask,
    EvexVmovshWshHphVshKmask,
    EvexVmovwVshEw,
    EvexVmovwEdVsh,
    EvexVcvtph2uwVdqWps,
    EvexVcvtph2uwVdqWpsKmask,
    EvexVcvtph2wVdqWps,
    EvexVcvtph2wVdqWpsKmask,
    EvexVcvttph2uwVdqWps,
    EvexVcvttph2uwVdqWpsKmask,
    EvexVcvttph2wVdqWps,
    EvexVcvttph2wVdqWpsKmask,
    EvexVcvtuw2phVphWdq,
    EvexVcvtuw2phVphWdqKmask,
    EvexVcvtw2phVphWdq,
    EvexVcvtw2phVphWdqKmask,
    EvexVcvtph2psxVpsWph,
    EvexVcvtph2psxVpsWphKmask,
    EvexVcvtph2dqVdqWph,
    EvexVcvtph2dqVdqWphKmask,
    EvexVcvtph2udqVdqWph,
    EvexVcvtph2udqVdqWphKmask,
    EvexVcvttph2dqVdqWph,
    EvexVcvttph2dqVdqWphKmask,
    EvexVcvttph2udqVdqWph,
    EvexVcvttph2udqVdqWphKmask,
    EvexVcvtph2pdVpdWph,
    EvexVcvtph2pdVpdWphKmask,
    EvexVcvtph2qqVdqWph,
    EvexVcvtph2qqVdqWphKmask,
    EvexVcvtph2uqqVdqWph,
    EvexVcvtph2uqqVdqWphKmask,
    EvexVcvttph2qqVdqWph,
    EvexVcvttph2qqVdqWphKmask,
    EvexVcvttph2uqqVdqWph,
    EvexVcvttph2uqqVdqWphKmask,
    EvexVcvtps2phxVphWdq,
    EvexVcvtps2phxVphWdqKmask,
    EvexVcvtdq2phVphWdq,
    EvexVcvtdq2phVphWdqKmask,
    EvexVcvtudq2phVphWdq,
    EvexVcvtudq2phVphWdqKmask,
    EvexVcvtpd2phVphWdq,
    EvexVcvtpd2phVphWdqKmask,
    EvexVcvtqq2phVphWdq,
    EvexVcvtqq2phVphWdqKmask,
    EvexVcvtuqq2phVphWdq,
    EvexVcvtuqq2phVphWdqKmask,
    EvexVcvtsh2ssVssWsh,
    EvexVcvtsh2ssVssWshKmask,
    EvexVcvtsh2sdVsdWsh,
    EvexVcvtsh2sdVsdWshKmask,
    EvexVcvtss2shVssWsh,
    EvexVcvtss2shVssWshKmask,
    EvexVcvtsd2shVssWsh,
    EvexVcvtsd2shVssWshKmask,
    EvexVcvtsh2siGdWss,
    EvexVcvtsh2siGqWss,
    EvexVcvtsh2usiGdWss,
    EvexVcvtsh2usiGqWss,
    EvexVcvttsh2siGdWss,
    EvexVcvttsh2siGqWss,
    EvexVcvttsh2usiGdWss,
    EvexVcvttsh2usiGqWss,
    EvexVcvtsi2shVshEd,
    EvexVcvtsi2shVshEq,
    EvexVcvtusi2shVshEd,
    EvexVcvtusi2shVshEq,
    EvexVgetmantphVphWphIbKmask,
    EvexVgetmantshVshHphWshIbKmask,
    EvexVreducephVphWphIbKmask,
    EvexVreduceshVshHphWshIbKmask,
    EvexVrndscalephVphWphIbKmask,
    EvexVrndscaleshVshHphWshIbKmask,
    EvexVrcpphVphWphKmask,
    EvexVrcpshVshHphWshKmask,
    EvexVrsqrtphVphWphKmask,
    EvexVrsqrtshVshHphWshKmask,
    EvexVfmulcshVshHphWshKmask,
    EvexVfcmulcshVshHphWshKmask,
    EvexVfmulcphVphHphWphKmask,
    EvexVfcmulcphVphHphWphKmask,
    EvexVfmaddcshVshHphWshKmask,
    EvexVfcmaddcshVshHphWshKmask,
    EvexVfmaddcphVphHphWphKmask,
    EvexVfcmaddcphVphHphWphKmask,
    EvexVaesencVdqHdqWdq,
    EvexVaesenclastVdqHdqWdq,
    EvexVaesdecVdqHdqWdq,
    EvexVaesdeclastVdqHdqWdq,
    EvexVpclmulqdqVdqHdqWdqIb,
    EvexVgf2p8affineqbVdqHdqWdqIbKmask,
    EvexVgf2p8affineinvqbVdqHdqWdqIbKmask,
    EvexVgf2p8mulbVdqHdqWdqKmask,
    EvexVsm4key4VdqHdqWdq,
    EvexVsm4rnds4VdqHdqWdq,
    EvexVucomxssVssWss,
    EvexVcomxssVssWss,
    EvexVucomxsdVsdWsd,
    EvexVcomxsdVsdWsd,
    EvexVucomxshVshWsh,
    EvexVcomxshVshWsh,
    EvexVpdpbssdVdqHdqWdq,
    EvexVpdpbssdsVdqHdqWdq,
    EvexVpdpbsudVdqHdqWdq,
    EvexVpdpbsudsVdqHdqWdq,
    EvexVpdpbuudVdqHdqWdq,
    EvexVpdpbuudsVdqHdqWdq,
    EvexVpdpbssdVdqHdqWdqKmask,
    EvexVpdpbssdsVdqHdqWdqKmask,
    EvexVpdpbsudVdqHdqWdqKmask,
    EvexVpdpbsudsVdqHdqWdqKmask,
    EvexVpdpbuudVdqHdqWdqKmask,
    EvexVpdpbuudsVdqHdqWdqKmask,
    EvexVpdpwsudVdqHdqWdq,
    EvexVpdpwsudsVdqHdqWdq,
    EvexVpdpwusdVdqHdqWdq,
    EvexVpdpwusdsVdqHdqWdq,
    EvexVpdpwuudVdqHdqWdq,
    EvexVpdpwuudsVdqHdqWdq,
    EvexVpdpwsudVdqHdqWdqKmask,
    EvexVpdpwsudsVdqHdqWdqKmask,
    EvexVpdpwusdVdqHdqWdqKmask,
    EvexVpdpwusdsVdqHdqWdqKmask,
    EvexVpdpwuudVdqHdqWdqKmask,
    EvexVpdpwuudsVdqHdqWdqKmask,
    EvexVmpsadbwVdqHdqWdqIb,
    EvexVmpsadbwVdqHdqWdqIbKmask,
    EvexVdpphpsVpsHdqWdqKmask,
    EvexVaddbf16VphHphWph,
    EvexVaddbf16VphHphWphKmask,
    EvexVsubbf16VphHphWph,
    EvexVsubbf16VphHphWphKmask,
    EvexVdivbf16VphHphWph,
    EvexVdivbf16VphHphWphKmask,
    EvexVmulbf16VphHphWph,
    EvexVmulbf16VphHphWphKmask,
    EvexVminpbf16VphHphWph,
    EvexVminpbf16VphHphWphKmask,
    EvexVmaxpbf16VphHphWph,
    EvexVmaxpbf16VphHphWphKmask,
    EvexVscalefpbf16VphHphWph,
    EvexVscalefpbf16VphHphWphKmask,
    EvexVsqrtbf16VphWph,
    EvexVsqrtbf16VphWphKmask,
    EvexVgetexppbf16VphWph,
    EvexVgetexppbf16VphWphKmask,
    EvexVfmadd132bf16VphHphWph,
    EvexVfmadd132bf16VphHphWphKmask,
    EvexVfmadd213bf16VphHphWph,
    EvexVfmadd213bf16VphHphWphKmask,
    EvexVfmadd231bf16VphHphWph,
    EvexVfmadd231bf16VphHphWphKmask,
    EvexVfmsub132bf16VphHphWph,
    EvexVfmsub132bf16VphHphWphKmask,
    EvexVfmsub213bf16VphHphWph,
    EvexVfmsub213bf16VphHphWphKmask,
    EvexVfmsub231bf16VphHphWph,
    EvexVfmsub231bf16VphHphWphKmask,
    EvexVfnmadd132bf16VphHphWph,
    EvexVfnmadd132bf16VphHphWphKmask,
    EvexVfnmadd213bf16VphHphWph,
    EvexVfnmadd213bf16VphHphWphKmask,
    EvexVfnmadd231bf16VphHphWph,
    EvexVfnmadd231bf16VphHphWphKmask,
    EvexVfnmsub132bf16VphHphWph,
    EvexVfnmsub132bf16VphHphWphKmask,
    EvexVfnmsub213bf16VphHphWph,
    EvexVfnmsub213bf16VphHphWphKmask,
    EvexVfnmsub231bf16VphHphWph,
    EvexVfnmsub231bf16VphHphWphKmask,
    EvexVfpclasspbf16KgdWphIbKmask,
    EvexVcmppbf16KgdHphWphIb,
    EvexVcomisbf16VshWsh,
    EvexVgetmantpbf16VphWphIbKmask,
    EvexVreducebf16VphWphIbKmask,
    EvexVrndscalebf16VphWphIbKmask,
    EvexVrcppbf16VphWph,
    EvexVrcppbf16VphWphKmask,
    EvexVrsqrtpbf16VphWph,
    EvexVrsqrtpbf16VphWphKmask,
    EvexVminmaxpsVpsHpsWpsIbKmask,
    EvexVminmaxssVssHpsWssIbKmask,
    EvexVminmaxpdVpdHpdWpdIbKmask,
    EvexVminmaxsdVsdHpdWsdIbKmask,
    EvexVminmaxphVphHphWphIbKmask,
    EvexVminmaxshVshHphWshIbKmask,
    EvexVminmaxbf16VphHphWphIbKmask,
    EvexVcvt2ps2phxVphHpsWpsKmask,
    EvexVcvttps2qqsVdqWps,
    EvexVcvttps2qqsVdqWpsKmask,
    EvexVcvttpd2qqsVdqWpd,
    EvexVcvttpd2qqsVdqWpdKmask,
    EvexVcvttps2uqqsVdqWps,
    EvexVcvttps2uqqsVdqWpsKmask,
    EvexVcvttpd2uqqsVdqWpd,
    EvexVcvttpd2uqqsVdqWpdKmask,
    EvexVcvttps2dqsVdqWps,
    EvexVcvttps2dqsVdqWpsKmask,
    EvexVcvttpd2dqsVdqWpd,
    EvexVcvttpd2dqsVdqWpdKmask,
    EvexVcvttps2udqsVdqWps,
    EvexVcvttpd2udqsVdqWpd,
    EvexVcvttps2udqsVdqWpsKmask,
    EvexVcvttpd2udqsVdqWpdKmask,
    EvexVcvttss2sisGdWss,
    EvexVcvttss2sisGqWss,
    EvexVcvttsd2sisGdWsd,
    EvexVcvttsd2sisGqWsd,
    EvexVcvttss2usisGdWss,
    EvexVcvttss2usisGqWss,
    EvexVcvttsd2usisGdWsd,
    EvexVcvttsd2usisGqWsd,
    EvexVmovwVshWsh,
    EvexVmovwWshVsh,
    EvexVmovdVdWd,
    EvexVmovdWdVd,
    EvexVcvthf82phVphWf8Kmask,
    EvexVcvtph2bf8Vf8hdqWphKmask,
    EvexVcvtph2bf8sVf8hdqWphKmask,
    EvexVcvt2ph2bf8Vf8hdqWphKmask,
    EvexVcvt2ph2bf8sVf8hdqWphKmask,
    EvexVcvtbiasph2bf8Vf8hdqWphKmask,
    EvexVcvtbiasph2bf8sVf8hdqWphKmask,
    EvexVcvtph2hf8Vf8hdqWphKmask,
    EvexVcvtph2hf8sVf8hdqWphKmask,
    EvexVcvt2ph2hf8Vf8hdqWphKmask,
    EvexVcvt2ph2hf8sVf8hdqWphKmask,
    EvexVcvtbiasph2hf8Vf8hdqWphKmask,
    EvexVcvtbiasph2hf8sVf8hdqWphKmask,
    EvexVcvtbf162ibsV8bWph,
    EvexVcvtbf162ibsV8bWphKmask,
    EvexVcvtbf162iubsV8bWph,
    EvexVcvtbf162iubsV8bWphKmask,
    EvexVcvttbf162ibsV8bWph,
    EvexVcvttbf162ibsV8bWphKmask,
    EvexVcvttbf162iubsV8bWph,
    EvexVcvttbf162iubsV8bWphKmask,
    EvexVcvtph2ibsV8bWph,
    EvexVcvtph2ibsV8bWphKmask,
    EvexVcvtph2iubsV8bWph,
    EvexVcvtph2iubsV8bWphKmask,
    EvexVcvttph2ibsV8bWph,
    EvexVcvttph2ibsV8bWphKmask,
    EvexVcvttph2iubsV8bWph,
    EvexVcvttph2iubsV8bWphKmask,
    EvexVcvtps2ibsV8bWps,
    EvexVcvtps2ibsV8bWpsKmask,
    EvexVcvtps2iubsV8bWps,
    EvexVcvtps2iubsV8bWpsKmask,
    EvexVcvttps2ibsV8bWps,
    EvexVcvttps2ibsV8bWpsKmask,
    EvexVcvttps2iubsV8bWps,
    EvexVcvttps2iubsV8bWpsKmask,
    EvexTilemovrowVdqTrmIb,
    EvexTilemovrowVdqTrmBd,
    EvexTcvtrowd2psVpsTrmIb,
    EvexTcvtrowd2psVpsTrmBd,
    EvexTcvtrowps2phlVphTrmIb,
    EvexTcvtrowps2phlVphTrmBd,
    EvexTcvtrowps2phhVphTrmIb,
    EvexTcvtrowps2phhVphTrmBd,
    EvexTcvtrowps2bf16lVphTrmIb,
    EvexTcvtrowps2bf16lVphTrmBd,
    EvexTcvtrowps2bf16hVphTrmIb,
    EvexTcvtrowps2bf16hVphTrmBd,
    EvexVmovrsbVdqWdq,
    EvexVmovrsbVdqWdqKmask,
    EvexVmovrswVdqWdq,
    EvexVmovrswVdqWdqKmask,
    EvexVmovrsdVdqWdq,
    EvexVmovrsdVdqWdqKmask,
    EvexVmovrsqVdqWdq,
    EvexVmovrsqVdqWdqKmask,
    NoAvxState,
    NoEvexState,
}

impl Default for Opcode {
    /// The default opcode is `IaError`, the opcode of an undecoded instruction.
    fn default() -> (r: Self)
        ensures
            r == Opcode::IaError,
    {
        Opcode::IaError
    }
}

} // verus!
