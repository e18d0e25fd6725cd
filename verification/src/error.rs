//! Decoding errors.

use vstd::prelude::*;

verus! {

/// Decoder error codes, in the order of the Bochs decoder's status codes.
#[derive(Clone, Copy, PartialEq, Eq, Structural, Debug)]
pub enum BxDecodeError {
    BxDecodeOk,
    BxIllegalOpcode,
    BxIllegalLockPrefix,
    BxIllegalVexXopVvv,
    BxIllegalVexXopWithSsePrefix,
    BxIllegalVexXopWithRexPrefix,
    BxIllegalVexXopOpcodeMap,
    BxVexXopW0Only,
    BxVexXopW1Only,
    BxVexXopBadVectorLength,
    BxVsibForbiddenAsize16,
    BxVsibIllegalSibIndex,
    BxEvexReservedBitsSet,
    BxEvexIllegalEvexBSaeNotAllowed,
    BxEvexIllegalEvexBBroadcastNotAllowed,
    BxEvexIllegalKmaskRegister,
    BxEvexIllegalZeroMaskingNoOpmask,
    BxEvexIllegalZeroMaskingVsib,
    BxEvexIllegalZeroMaskingMemoryDestination,
    BxAmxIllegalTileRegister,
}

/// Why an instruction could not be decoded.
///
/// The `*BufferUnderflow` variants say which part of the instruction the
/// byte buffer ended in.
#[derive(Clone, Copy, PartialEq, Eq, Structural, Debug)]
pub enum DecodeError {
    /// The buffer holds no byte at all.
    BufferUnderflow,
    /// The buffer ends inside (or right after) the legacy/REX prefixes.
    PrefixBufferUnderflow,
    /// The buffer ends inside a multi-byte opcode (`0F`, `0F 38`, `0F 3A`).
    OpcodeBufferUnderflow,
    /// The buffer ends before the ModRM byte.
    ModRmBufferUnderflow,
    /// The buffer ends before the SIB byte.
    SibBufferUnderflow,
    /// The buffer ends inside the displacement.
    DisplacementBufferUnderflow,
    /// The buffer ends inside the immediate (or the 3DNow! suffix byte).
    ImmediateBufferUnderflow,
    /// `MOV Ew,Sw` / `MOV Sw,Ew` names a segment register that does not exist.
    InvalidSegmentRegister { index: u8, opcode: u8 },
    /// The bytes are complete but do not form a valid instruction.
    Decoder(BxDecodeError),
}

/// Result of decoding one instruction.
pub type DecodeResult<T> = Result<T, DecodeError>;

} // verus!
