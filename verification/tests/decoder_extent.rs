use rusty_box_decoder::{fetch_decode32, fetch_decode64, BxDecodeError, DecodeError, Opcode};

/// Instructions of several shapes: one byte, ModRM with SIB and
/// displacement, prefixes, immediates, x87, 3DNow!, 0F 38 and 0F 3A.
const SAMPLES_32: &[&[u8]] = &[
    &[0x90],
    &[0x8B, 0x45, 0x08],
    &[0x8B, 0x44, 0x8B, 0x10],
    &[0x8B, 0x05, 0x78, 0x56, 0x34, 0x12],
    &[0x66, 0xB8, 0x34, 0x12],
    &[0xF3, 0xA4],
    &[0x83, 0xC0, 0xFF],
    &[0x9A, 0x78, 0x56, 0x34, 0x12, 0x08, 0x00],
    &[0xC8, 0x10, 0x00, 0x01],
    &[0xD9, 0xE8],
    &[0x0F, 0x0F, 0xC1, 0x9E],
    &[0x0F, 0x38, 0x00, 0xC1],
    &[0x0F, 0x3A, 0x0F, 0xC1, 0x08],
];

const SAMPLES_64: &[&[u8]] = &[
    &[0x90],
    &[0x48, 0x8B, 0x05, 0x10, 0x00, 0x00, 0x00],
    &[0x48, 0xB8, 0x88, 0x77, 0x66, 0x55, 0x44, 0x33, 0x22, 0x11],
    &[0x41, 0x8B, 0x44, 0x24, 0x08],
    &[0x66, 0x0F, 0x38, 0x00, 0xC1],
    &[0xF0, 0x48, 0x0F, 0xB1, 0x0E],
    &[0x0F, 0x84, 0x00, 0x01, 0x00, 0x00],
];

fn shown<T: std::fmt::Debug>(x: &T) -> String {
    format!("{:?}", x)
}

#[test]
fn decode32_length_within_buffer() {
    for bytes in SAMPLES_32 {
        for is_32 in [true, false] {
            if let Ok(i) = fetch_decode32(bytes, is_32) {
                assert!(i.ilen() >= 1);
                assert!(i.ilen() as usize <= bytes.len().min(15));
            }
        }
    }
    let i = fetch_decode32(&[0x8B, 0x05, 0x78, 0x56, 0x34, 0x12], true).unwrap();
    assert_eq!(i.ilen(), 6);
}

#[test]
fn decode32_trailing_bytes_change_nothing() {
    for bytes in SAMPLES_32 {
        for is_32 in [true, false] {
            let alone = fetch_decode32(bytes, is_32);
            if alone.is_ok() {
                let mut longer = bytes.to_vec();
                longer.extend_from_slice(&[0xCC, 0x0F, 0x66, 0xFF]);
                assert_eq!(shown(&fetch_decode32(&longer, is_32)), shown(&alone));
            }
        }
    }
}

#[test]
fn decode32_own_bytes_suffice() {
    for bytes in SAMPLES_32 {
        let mut longer = bytes.to_vec();
        longer.extend_from_slice(&[0x00, 0x11, 0x22]);
        let whole = fetch_decode32(&longer, true).unwrap();
        let own = fetch_decode32(&longer[..whole.ilen() as usize], true);
        assert_eq!(shown(&own), shown(&Ok::<_, DecodeError>(whole)));
    }
}

#[test]
fn decode32_reads_at_most_15_bytes() {
    // 14 operand-size prefixes and a NOP: the longest instruction.
    let mut bytes = vec![0x66u8; 14];
    bytes.push(0x90);
    bytes.push(0x90);
    let i = fetch_decode32(&bytes, true).unwrap();
    assert_eq!(i.ilen(), 15);
    // 15 prefixes: the opcode lies outside the first 15 bytes.
    let mut bytes = vec![0x66u8; 15];
    bytes.push(0x90);
    assert_eq!(fetch_decode32(&bytes, true).unwrap_err(), DecodeError::PrefixBufferUnderflow);
    assert_eq!(
        shown(&fetch_decode32(&bytes, true)),
        shown(&fetch_decode32(&bytes[..15], true))
    );
}

#[test]
fn decode64_length_within_buffer() {
    for bytes in SAMPLES_64 {
        let i = fetch_decode64(bytes).unwrap();
        assert!(i.ilen() >= 1);
        assert_eq!(i.ilen() as usize, bytes.len());
    }
}

#[test]
fn decode64_trailing_bytes_change_nothing() {
    for bytes in SAMPLES_64 {
        let alone = fetch_decode64(bytes);
        let mut longer = bytes.to_vec();
        longer.extend_from_slice(&[0x62, 0x00, 0x00, 0x00]);
        assert_eq!(shown(&fetch_decode64(&longer)), shown(&alone));
    }
    // ENTER takes Iw and Ib.
    let enter = fetch_decode64(&[0xC8, 0x10, 0x00, 0x01]).unwrap();
    assert_eq!(enter.get_ia_opcode(), Opcode::EnterOp64IwIb);
    assert_eq!(enter.ilen(), 4);
    assert_eq!(enter.id(), 0x10);
    assert_eq!(enter.displ32u(), 1);
    assert_eq!(
        shown(&fetch_decode64(&[0xC8, 0x10, 0x00, 0x01, 0x90])),
        shown(&Ok::<_, DecodeError>(enter))
    );
}

#[test]
fn decode64_own_bytes_suffice() {
    let mut all = SAMPLES_64.to_vec();
    all.push(&[0xC8, 0x10, 0x00, 0x01]);
    for bytes in all {
        let mut longer = bytes.to_vec();
        longer.extend_from_slice(&[0x90, 0x90]);
        let whole = fetch_decode64(&longer).unwrap();
        let own = fetch_decode64(&longer[..whole.ilen() as usize]);
        assert_eq!(shown(&own), shown(&Ok::<_, DecodeError>(whole)));
    }
}

#[test]
fn shorter_parts_do_not_decode() {
    for bytes in SAMPLES_32 {
        let i = fetch_decode32(bytes, true).unwrap();
        for k in 0..i.ilen() as usize {
            assert!(fetch_decode32(&bytes[..k], true).is_err());
        }
    }
    for bytes in SAMPLES_64 {
        let i = fetch_decode64(bytes).unwrap();
        for k in 0..i.ilen() as usize {
            assert!(fetch_decode64(&bytes[..k]).is_err());
        }
    }
    for k in 0..4 {
        assert!(fetch_decode64(&[0xC8, 0x10, 0x00, 0x01][..k]).is_err());
    }
    // Only the empty buffer is reported as empty.
    assert_eq!(fetch_decode32(&[], false).unwrap_err(), DecodeError::BufferUnderflow);
    assert_ne!(fetch_decode32(&[0x66], false).unwrap_err(), DecodeError::BufferUnderflow);
    assert_ne!(fetch_decode64(&[0x0F]).unwrap_err(), DecodeError::BufferUnderflow);
}

#[test]
fn sse_prefix_columns_by_mode() {
    for bytes in [[0x0Fu8, 0x10, 0xC1, 0x90], [0x66, 0x0F, 0x10, 0xC1]] {
        let a = fetch_decode32(&bytes, true).unwrap().get_ia_opcode();
        let b = fetch_decode64(&bytes).unwrap().get_ia_opcode();
        assert_eq!(a, b);
    }
    // 64-bit mode: F3 selects column 2 (MOVSS), F2 column 3 (MOVSD).
    assert_eq!(fetch_decode64(&[0xF3, 0x0F, 0x10, 0xC1]).unwrap().get_ia_opcode(), Opcode::MovssVssWss);
    assert_eq!(fetch_decode64(&[0xF2, 0x0F, 0x10, 0xC1]).unwrap().get_ia_opcode(), Opcode::MovsdVsdWsd);
    // 16/32-bit mode: F2 selects column 2 and F3 column 3.
    assert_eq!(
        fetch_decode32(&[0xF2, 0x0F, 0x10, 0xC1], true).unwrap().get_ia_opcode(),
        Opcode::MovssVssWss
    );
    assert_eq!(
        fetch_decode32(&[0xF3, 0x0F, 0x10, 0xC1], true).unwrap().get_ia_opcode(),
        Opcode::MovsdVsdWsd
    );
}

#[test]
fn size_prefixes_toggle_once() {
    let i = fetch_decode32(&[0x67, 0x67, 0x8B, 0x00], true).unwrap();
    assert_eq!(i.as32_l(), 0);
    assert_eq!(i.ilen(), 4);
    let i = fetch_decode32(&[0x67, 0x8B, 0x00], false).unwrap();
    assert_ne!(i.as32_l(), 0);
    let i = fetch_decode32(&[0x66, 0x66, 0x89, 0xD8], false).unwrap();
    assert_ne!(i.os32_l(), 0);
    let i = fetch_decode32(&[0x66, 0x89, 0xD8], true).unwrap();
    assert_eq!(i.os32_l(), 0);
}

#[test]
fn rex_is_the_last_prefix() {
    let i = fetch_decode64(&[0x66, 0x48, 0x89, 0xD8]).unwrap();
    assert_ne!(i.extend8bit_l(), 0);
    assert_ne!(i.os64_l(), 0);
    let i = fetch_decode64(&[0x48, 0x66, 0x89, 0xD8]).unwrap();
    assert_eq!(i.extend8bit_l(), 0);
    assert_eq!(i.os64_l(), 0);
    let i = fetch_decode64(&[0x40, 0x88, 0xE0]).unwrap(); // MOV AL, SPL
    assert_ne!(i.extend8bit_l(), 0);
    assert_eq!(i.os64_l(), 0);
    assert_eq!(fetch_decode64(&[0x2E, 0x36, 0x8B, 0x00]).unwrap().seg(), 3);
    assert_eq!(fetch_decode64(&[0x65, 0x8B, 0x00]).unwrap().seg(), 5);
}

#[test]
fn decoded_operand_and_address_sizes() {
    let i = fetch_decode64(&[0x48, 0x89, 0xD8]).unwrap(); // MOV RAX, RBX
    assert_eq!(i.osize(), 2);
    assert_eq!(i.asize(), 2);
    let i = fetch_decode64(&[0x89, 0xD8]).unwrap(); // MOV EAX, EBX
    assert_eq!(i.osize(), 1);
    assert_eq!(i.asize(), 2);
    let i = fetch_decode64(&[0x67, 0x8B, 0x00]).unwrap(); // MOV EAX, [EAX]
    assert_eq!(i.asize(), 1);
    assert_ne!(i.as32_l(), 0);
    let i = fetch_decode32(&[0x66, 0x89, 0xD8], true).unwrap(); // MOV AX, BX
    assert_eq!(i.osize(), 0);
    assert_eq!(i.asize(), 1);
    let i = fetch_decode32(&[0x89, 0xD8], false).unwrap();
    assert_eq!(i.osize(), 0);
    assert_eq!(i.asize(), 0);
    let i = fetch_decode64(&[0xF3, 0xA4]).unwrap(); // REP MOVSB
    assert_eq!(i.rep_used_l(), 3);
    assert_eq!(i.lock_rep_used_value(), 3);
}

#[test]
fn decode_error_variants_32() {
    assert_eq!(fetch_decode32(&[], true).unwrap_err(), DecodeError::BufferUnderflow);
    assert_eq!(fetch_decode32(&[0x66, 0xF3], true).unwrap_err(), DecodeError::PrefixBufferUnderflow);
    assert_eq!(fetch_decode32(&[0x0F], true).unwrap_err(), DecodeError::OpcodeBufferUnderflow);
    assert_eq!(fetch_decode32(&[0x0F, 0x38], true).unwrap_err(), DecodeError::OpcodeBufferUnderflow);
    assert_eq!(fetch_decode32(&[0x8B], true).unwrap_err(), DecodeError::ModRmBufferUnderflow);
    assert_eq!(fetch_decode32(&[0x8B, 0x04], true).unwrap_err(), DecodeError::SibBufferUnderflow);
    assert_eq!(
        fetch_decode32(&[0x8B, 0x05, 0x00], true).unwrap_err(),
        DecodeError::DisplacementBufferUnderflow
    );
    assert_eq!(
        fetch_decode32(&[0x8B, 0x06, 0x00], false).unwrap_err(),
        DecodeError::DisplacementBufferUnderflow
    );
    assert_eq!(fetch_decode32(&[0xB8, 0x01], true).unwrap_err(), DecodeError::ImmediateBufferUnderflow);
    assert_eq!(
        fetch_decode32(&[0x0F, 0x0F, 0xC1], true).unwrap_err(),
        DecodeError::ImmediateBufferUnderflow
    );
    assert_eq!(
        fetch_decode32(&[0x8E, 0xF8], true).unwrap_err(),
        DecodeError::InvalidSegmentRegister { index: 7, opcode: 0x8E }
    );
    assert_eq!(
        fetch_decode32(&[0xC4, 0xC0, 0x00], true).unwrap_err(),
        DecodeError::Decoder(BxDecodeError::BxIllegalVexXopOpcodeMap)
    );
    assert_eq!(
        fetch_decode32(&[0x8F, 0xE8, 0x00], true).unwrap_err(),
        DecodeError::Decoder(BxDecodeError::BxIllegalVexXopOpcodeMap)
    );
    assert_eq!(
        fetch_decode32(&[0x0F, 0x04, 0xC0], true).unwrap_err(),
        DecodeError::Decoder(BxDecodeError::BxIllegalOpcode)
    );
}

#[test]
fn decode_error_variants_64() {
    assert_eq!(fetch_decode64(&[0x48]).unwrap_err(), DecodeError::PrefixBufferUnderflow);
    assert_eq!(
        fetch_decode64(&[0x62, 0x00, 0x00, 0x00]).unwrap_err(),
        DecodeError::Decoder(BxDecodeError::BxEvexReservedBitsSet)
    );
    assert_eq!(
        fetch_decode64(&[0x62]).unwrap_err(),
        DecodeError::Decoder(BxDecodeError::BxIllegalOpcode)
    );
    assert_eq!(
        fetch_decode64(&[0xC5, 0xF8, 0x77]).unwrap_err(),
        DecodeError::Decoder(BxDecodeError::BxIllegalVexXopOpcodeMap)
    );
    assert_eq!(
        fetch_decode64(&[0x48, 0xB8, 0x01, 0x02, 0x03, 0x04]).unwrap_err(),
        DecodeError::ImmediateBufferUnderflow
    );
    assert_eq!(
        fetch_decode64(&[0x8B, 0x05, 0x00, 0x00]).unwrap_err(),
        DecodeError::DisplacementBufferUnderflow
    );
}

#[test]
fn decoded_fields_in_range() {
    for bytes in SAMPLES_32 {
        for is_32 in [true, false] {
            if let Ok(i) = fetch_decode32(bytes, is_32) {
                assert!(i.dst() < 8 && i.src1() < 8);
                assert!(i.sib_base() < 8 || i.sib_base() == 19);
                assert!(i.sib_index() < 8 && i.sib_scale() < 4);
                assert!(i.seg() <= 5);
            }
        }
    }
    for bytes in SAMPLES_64 {
        let i = fetch_decode64(bytes).unwrap();
        assert!(i.dst() < 16 && i.src1() < 16);
        assert!(i.sib_base() < 17 || i.sib_base() == 19);
        assert!(i.sib_index() < 16 && i.sib_scale() < 4);
        assert!(i.seg() >= 3 && i.seg() <= 5);
    }
    // RIP-relative and absolute addressing in 64-bit mode
    assert_eq!(fetch_decode64(&[0x8B, 0x05, 0, 0, 0, 0]).unwrap().sib_base(), 16);
    assert_eq!(fetch_decode64(&[0x8B, 0x04, 0x25, 0, 0, 0, 0]).unwrap().sib_base(), 19);
    // segment defaults and overrides
    assert_eq!(fetch_decode64(&[0x64, 0x8B, 0x00]).unwrap().seg(), 4);
    assert_eq!(fetch_decode64(&[0x26, 0x8B, 0x00]).unwrap().seg(), 3);
    assert_eq!(fetch_decode32(&[0x8B, 0x45, 0x00], true).unwrap().seg(), 2);
    assert_eq!(fetch_decode32(&[0x8B, 0x46, 0x00], false).unwrap().seg(), 2);
    assert_eq!(fetch_decode32(&[0x8B, 0x47, 0x00], false).unwrap().seg(), 3);
    assert_eq!(fetch_decode32(&[0x2E, 0x8B, 0x45, 0x00], true).unwrap().seg(), 1);
}
