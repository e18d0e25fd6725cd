use rusty_box_decoder::{fetch_decode32, DecodeError, Opcode};

#[test]
fn fetchdecode32_test_nop() {
    // 0x90 is actually XCHG EAX,EAX which is the NOP encoding
    let i = fetch_decode32(&[0x90], true).unwrap();
    assert_eq!(i.ilen(), 1);
    // In 32-bit mode, this returns the XCHG opcode from the table
    assert_eq!(i.get_ia_opcode(), Opcode::XchgErxEax);
}

#[test]
fn fetchdecode32_test_ret() {
    let i = fetch_decode32(&[0xC3], true).unwrap();
    assert_eq!(i.ilen(), 1);
}

#[test]
fn test_inc_eax() {
    let i = fetch_decode32(&[0x40], true).unwrap(); // INC EAX
    assert_eq!(i.ilen(), 1);
}

#[test]
fn test_push_pop() {
    let i = fetch_decode32(&[0x50], true).unwrap(); // PUSH EAX
    assert_eq!(i.ilen(), 1);

    let i = fetch_decode32(&[0x5B], true).unwrap(); // POP EBX
    assert_eq!(i.ilen(), 1);
}

#[test]
fn fetchdecode32_test_modrm_reg() {
    let i = fetch_decode32(&[0x89, 0xD8], true).unwrap(); // MOV EAX, EBX
    assert_eq!(i.ilen(), 2);
    assert!(i.mod_c0());
}

#[test]
fn fetchdecode32_test_modrm_mem() {
    let i = fetch_decode32(&[0x8B, 0x03], true).unwrap(); // MOV EAX, [EBX]
    assert_eq!(i.ilen(), 2);
    assert!(!i.mod_c0());
}

#[test]
fn fetchdecode32_test_sib() {
    let i = fetch_decode32(&[0x8B, 0x04, 0x8B], true).unwrap(); // MOV EAX, [EBX+ECX*4]
    assert_eq!(i.ilen(), 3);
    assert_eq!(i.sib_scale(), 2); // *4
}

#[test]
fn test_16bit_mode() {
    let i = fetch_decode32(&[0x8B, 0x00], false).unwrap(); // MOV AX, [BX+SI]
    assert_eq!(i.ilen(), 2);
}

#[test]
fn test_16bit_disp() {
    let i = fetch_decode32(&[0x8B, 0x06, 0x34, 0x12], false).unwrap(); // MOV AX, [0x1234]
    assert_eq!(i.ilen(), 4);
    assert_eq!(i.modrm_form.displacement.displ32u(), 0x1234);
}

#[test]
fn test_os_override_32() {
    let i = fetch_decode32(&[0x66, 0xB8, 0x01, 0x02], true).unwrap();
    assert_eq!(i.ilen(), 4);
    assert_eq!(i.modrm_form.operand_data.id(), 0x0201);
}

#[test]
fn test_os_override_16() {
    let i = fetch_decode32(&[0x66, 0xB8, 0x01, 0x02, 0x03, 0x04], false).unwrap();
    assert_eq!(i.ilen(), 6);
    assert_eq!(i.modrm_form.operand_data.id(), 0x04030201);
}

#[test]
fn fetchdecode32_test_disp8() {
    let i = fetch_decode32(&[0x8B, 0x43, 0x10], true).unwrap(); // MOV EAX, [EBX+0x10]
    assert_eq!(i.ilen(), 3);
    assert_eq!(i.modrm_form.displacement.displ32u(), 0x10);
}

#[test]
fn fetchdecode32_test_disp32() {
    let i = fetch_decode32(&[0x8B, 0x83, 0x78, 0x56, 0x34, 0x12], true).unwrap();
    assert_eq!(i.ilen(), 6);
    assert_eq!(i.modrm_form.displacement.displ32u(), 0x12345678);
}

#[test]
fn fetchdecode32_test_imm32() {
    let i = fetch_decode32(&[0x68, 0x78, 0x56, 0x34, 0x12], true).unwrap();
    assert_eq!(i.ilen(), 5);
    assert_eq!(i.modrm_form.operand_data.id(), 0x12345678);
}

#[test]
fn test_enter() {
    let i = fetch_decode32(&[0xC8, 0x10, 0x00, 0x01], true).unwrap(); // ENTER 0x10, 1
    assert_eq!(i.ilen(), 4);
    assert_eq!(i.modrm_form.operand_data.id(), 0x10);
    assert_eq!(i.modrm_form.displacement.displ32u(), 1);
}

#[test]
fn fetchdecode32_test_0f_opcode() {
    let i = fetch_decode32(&[0x0F, 0xA2], true).unwrap(); // CPUID
    assert_eq!(i.ilen(), 2);
}

#[test]
fn fetchdecode32_test_lock() {
    let i = fetch_decode32(&[0xF0, 0x87, 0x03], true).unwrap(); // LOCK XCHG
    assert_eq!(i.ilen(), 3);
    assert!(i.get_lock());
}

#[test]
fn test_segment() {
    let i = fetch_decode32(&[0x2E, 0x8B, 0x00], true).unwrap(); // CS: prefix
    assert_eq!(i.ilen(), 3);
    assert_eq!(i.seg(), 1); // CS
}

#[test]
fn fetchdecode32_test_empty() {
    let result = fetch_decode32(&[], true);
    assert!(result.is_err());
    assert!(matches!(result.unwrap_err(), DecodeError::BufferUnderflow));
}

#[test]
fn fetchdecode32_test_0f38() {
    let i = fetch_decode32(&[0x66, 0x0F, 0x38, 0x00, 0xC1], true).unwrap(); // PSHUFB
    assert_eq!(i.ilen(), 5);
}

#[test]
fn test_out_instruction() {
    let i = fetch_decode32(&[0xE6, 0x0d], false).unwrap(); // OUT 0x0D, AL
    assert_eq!(i.ilen(), 2);
    assert_eq!(i.get_ia_opcode(), Opcode::OutIbAl);
    assert_eq!(i.modrm_form.operand_data.id(), 0x0d);
    assert_eq!(i.modrm_form.displacement.displ32u(), 0x00);
}

/// Test that valid segment registers (0-5) decode successfully for MOV Ew,Sw and MOV Sw,Ew
#[test]
fn fetchdecode32_test_mov_segment_valid() {
    // Test opcodes 0x8C (MOV r/m16, Sreg) and 0x8E (MOV Sreg, r/m16) with nnn=0 through nnn=5
    for seg in 0..=5 {
        let modrm = 0xC0 | (seg << 3); // MOD=11, REG=seg, R/M=0 (AX)

        // 0x8C: MOV r/m16, Sreg
        let bytes = vec![0x8C, modrm];
        let result = fetch_decode32(&bytes, true);
        assert!(
            result.is_ok(),
            "Failed to decode MOV Ew,Sw with valid segment {} (0x8C {:#04x})",
            seg,
            modrm
        );
        let instr = result.unwrap();
        assert_eq!(instr.get_ia_opcode(), Opcode::MovEwSw);
        assert_eq!(instr.meta_data[1], seg); // Source segment register

        // 0x8E: MOV Sreg, r/m16
        let bytes = vec![0x8E, modrm];
        let result = fetch_decode32(&bytes, true);
        assert!(
            result.is_ok(),
            "Failed to decode MOV Sw,Ew with valid segment {} (0x8E {:#04x})",
            seg,
            modrm
        );
        let instr = result.unwrap();
        assert_eq!(instr.get_ia_opcode(), Opcode::MovSwEw);
        assert_eq!(instr.meta_data[0], seg); // Destination segment register
    }
}

/// Test that invalid segment registers (6-7) are rejected with InvalidSegmentRegister error
#[test]
fn fetchdecode32_test_mov_segment_invalid() {
    // Test opcodes 0x8C and 0x8E with nnn=6 and nnn=7
    for seg in 6..=7 {
        let modrm = 0xC0 | (seg << 3); // MOD=11, REG=seg, R/M=0

        // 0x8C: MOV r/m16, Sreg - should fail with InvalidSegmentRegister
        let bytes = vec![0x8C, modrm];
        let result = fetch_decode32(&bytes, true);
        assert!(
            matches!(result, Err(DecodeError::InvalidSegmentRegister { index, opcode: 0x8C }) if index == seg),
            "Should reject invalid segment register {} for opcode 0x8C, got: {:?}",
            seg,
            result
        );

        // 0x8E: MOV Sreg, r/m16 - should fail with InvalidSegmentRegister
        let bytes = vec![0x8E, modrm];
        let result = fetch_decode32(&bytes, true);
        assert!(
            matches!(result, Err(DecodeError::InvalidSegmentRegister { index, opcode: 0x8E }) if index == seg),
            "Should reject invalid segment register {} for opcode 0x8E, got: {:?}",
            seg,
            result
        );
    }
}

/// Test that 0x83 (Group 1 EdsIb) sign-extends the immediate byte
#[test]
fn test_0x83_sign_extension() {
    // 83 C3 FD = ADD EBX, -3 (sign-extended 0xFD to 0xFFFFFFFD)
    let bytes = vec![0x83, 0xC3, 0xFD];
    let instr = fetch_decode32(&bytes, true).unwrap();
    assert_eq!(
        instr.id(),
        0xFFFFFFFD,
        "0x83 imm8 0xFD should be sign-extended to 0xFFFFFFFD, got {:#x}",
        instr.id()
    );

    // 83 C3 08 = ADD EBX, 8 (positive stays same)
    let bytes = vec![0x83, 0xC3, 0x08];
    let instr = fetch_decode32(&bytes, true).unwrap();
    assert_eq!(
        instr.id(),
        0x00000008,
        "0x83 imm8 0x08 should stay 0x00000008, got {:#x}",
        instr.id()
    );

    // 83 FB FF = CMP EBX, -1 (sign-extended)
    let bytes = vec![0x83, 0xFB, 0xFF];
    let instr = fetch_decode32(&bytes, true).unwrap();
    assert_eq!(
        instr.id(),
        0xFFFFFFFF,
        "0x83 imm8 0xFF should be sign-extended to 0xFFFFFFFF, got {:#x}",
        instr.id()
    );
}
