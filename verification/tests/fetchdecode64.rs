use rusty_box_decoder::instr_generated::Instruction;
use rusty_box_decoder::{fetch_decode64, DecodeError, Opcode};

#[test]
fn fetchdecode64_test_nop() {
    // 0x90 is actually XCHG EAX,EAX which is the NOP encoding
    // In 64-bit mode with no REX.W, operand size is 32-bit
    let i = fetch_decode64(&[0x90]).unwrap();
    assert_eq!(i.ilen(), 1);
    // XchgErxEax is the 32-bit XCHG EAX,r32 - NOP is encoded as XCHG EAX,EAX
    assert_eq!(i.get_ia_opcode(), Opcode::XchgErxEax);
}

#[test]
fn fetchdecode64_test_ret() {
    let i = fetch_decode64(&[0xC3]).unwrap();
    assert_eq!(i.ilen(), 1);
    assert_eq!(i.get_ia_opcode(), Opcode::RetOp64);
}

#[test]
fn test_int3() {
    let i = fetch_decode64(&[0xCC]).unwrap();
    assert_eq!(i.ilen(), 1);
    assert_eq!(i.get_ia_opcode(), Opcode::INT3);
}

#[test]
fn test_rex_w() {
    let i = fetch_decode64(&[0x48, 0x89, 0xC0]).unwrap(); // MOV RAX, RAX
    assert_eq!(i.ilen(), 3);
    assert!(i.os64_l() != 0);
}

#[test]
fn fetchdecode64_test_modrm_reg() {
    let i = fetch_decode64(&[0x89, 0xD8]).unwrap(); // MOV EAX, EBX
    assert_eq!(i.ilen(), 2);
    assert!(i.mod_c0());
}

#[test]
fn fetchdecode64_test_modrm_mem() {
    let i = fetch_decode64(&[0x8B, 0x03]).unwrap(); // MOV EAX, [RBX]
    assert_eq!(i.ilen(), 2);
    assert!(!i.mod_c0());
}

#[test]
fn fetchdecode64_test_sib() {
    let i = fetch_decode64(&[0x8B, 0x04, 0x8B]).unwrap(); // MOV EAX, [RBX+RCX*4]
    assert_eq!(i.ilen(), 3);
    assert_eq!(i.sib_scale(), 2); // *4
}

#[test]
fn fetchdecode64_test_disp8() {
    let i = fetch_decode64(&[0x8B, 0x43, 0x10]).unwrap(); // MOV EAX, [RBX+0x10]
    assert_eq!(i.ilen(), 3);
    assert_eq!(i.modrm_form.displacement.displ32u(), 0x10);
}

#[test]
fn fetchdecode64_test_disp32() {
    let i = fetch_decode64(&[0x8B, 0x83, 0x78, 0x56, 0x34, 0x12]).unwrap();
    assert_eq!(i.ilen(), 6);
    assert_eq!(i.modrm_form.displacement.displ32u(), 0x12345678);
}

#[test]
fn test_imm8() {
    let i = fetch_decode64(&[0x6A, 0x42]).unwrap(); // PUSH 0x42
    assert_eq!(i.ilen(), 2);
    assert_eq!(i.modrm_form.operand_data.id(), 0x42);
}

#[test]
fn fetchdecode64_test_imm32() {
    let i = fetch_decode64(&[0x68, 0x78, 0x56, 0x34, 0x12]).unwrap(); // PUSH 0x12345678
    println!("{i:#x?}");
    let i2 = fetch_decode64(&[0x68, 0x78, 0x56, 0x34, 0x12]); // PUSH 0x12345678
    println!("{i2:#x?}");
    assert_eq!(i.ilen(), 5);
    assert_eq!(i.modrm_form.operand_data.id(), 0x12345678);
}

#[test]
fn fetchdecode64_test_0f_opcode() {
    let i = fetch_decode64(&[0x0F, 0xA2]).unwrap(); // CPUID
    assert_eq!(i.ilen(), 2);
}

#[test]
fn test_jcc_rel32() {
    let i = fetch_decode64(&[0x0F, 0x84, 0x78, 0x56, 0x34, 0x12]).unwrap(); // JE
    assert_eq!(i.ilen(), 6);
    assert_eq!(i.modrm_form.operand_data.id(), 0x12345678);
}

#[test]
fn fetchdecode64_test_lock() {
    let i = fetch_decode64(&[0xF0, 0x87, 0x03]).unwrap(); // LOCK XCHG
    assert_eq!(i.ilen(), 3);
    // Check raw bits - expect bit 6 set for LOCK
    let bits = i.meta_info.metainfo1.bits();
    assert_eq!(
        i.lock_rep_used_value(),
        1,
        "lock_rep_used_value wrong, bits={}",
        bits
    );
    assert!(i.get_lock());
}

#[test]
fn test_rep() {
    let i = fetch_decode64(&[0xF3, 0xA4]).unwrap(); // REP MOVSB
    assert_eq!(i.ilen(), 2);
    assert_eq!(i.lock_rep_used_value(), 3);
}

#[test]
fn fetchdecode64_test_empty() {
    let result = fetch_decode64(&[]);
    assert!(result.is_err());
    assert!(matches!(result.unwrap_err(), DecodeError::BufferUnderflow));
}

#[test]
fn fetchdecode64_test_0f38() {
    let i = fetch_decode64(&[0x66, 0x0F, 0x38, 0x00, 0xC1]).unwrap(); // PSHUFB
    assert_eq!(i.ilen(), 5);
}

#[test]
fn test_0f3a() {
    let i = fetch_decode64(&[0x66, 0x0F, 0x3A, 0x0F, 0xC1, 0x05]).unwrap(); // PALIGNR
    assert_eq!(i.ilen(), 6);
}

#[test]
fn test_zydis_example_64bit() {
    //
    // xor rdi, rdi
    // xor rsi, rsi
    // xor rdx, rdx
    // xor rax, rax
    // push rax
    // mov rbx, 0x68732F2F6E69622F
    // push rbx
    // mov rdi, rsp
    // mov al, 0x3B
    // syscall
    let data = [
        0x48, 0x31, 0xff, 0x48, 0x31, 0xf6, 0x48, 0x31, 0xd2, 0x48, 0x31, 0xc0, 0x50, 0x48, 0xbb,
        0x2f, 0x62, 0x69, 0x6e, 0x2f, 0x2f, 0x73, 0x68, 0x53, 0x48, 0x89, 0xe7, 0xb0, 0x3b, 0x0f,
        0x05,
    ];

    let runtime_address = 0x007FFFFFFF400000;
    let instructions = const_disassemble_sequence_64bit(&data, runtime_address);

    for (_, instruction) in instructions {
        println!(
            "{:?} {} {} {:#x?}",
            instruction.get_ia_opcode(),
            instruction.dst(),
            instruction.src(),
            instruction
        );
    }
}

fn const_disassemble_sequence_64bit(data: &[u8], runtime_address: u64) -> Vec<(u64, Instruction)> {
    let mut offset = 0;
    let mut current_address = runtime_address;
    let mut instructions = Vec::new();

    while offset < data.len() {
        let remaining = &data[offset..];

        let decoded = match fetch_decode64(remaining) {
            Ok(instr) => instr,
            Err(_) => break,
        };

        let length = decoded.meta_info.ilen as usize;

        if length == 0 || offset + length > data.len() {
            // Invalid instruction or out of bounds
            println!("Invalid instruction length at offset {}", offset);
            break;
        }

        instructions.push((current_address, decoded));
        offset += length;
        current_address += length as u64;
        if decoded.get_ia_opcode() == Opcode::IaError {
            println!("Decode error at offset {}", offset);
        }
    }

    instructions
}

/// Test that valid segment registers (0-5) decode successfully for MOV Ew,Sw and MOV Sw,Ew
#[test]
fn fetchdecode64_test_mov_segment_valid() {
    // Test opcodes 0x8C (MOV r/m16, Sreg) and 0x8E (MOV Sreg, r/m16) with nnn=0 through nnn=5
    for seg in 0..=5 {
        let modrm = 0xC0 | (seg << 3); // MOD=11, REG=seg, R/M=0 (AX/RAX)

        // 0x8C: MOV r/m16, Sreg
        let bytes = vec![0x8C, modrm];
        let result = fetch_decode64(&bytes);
        assert!(
            result.is_ok(),
            "Failed to decode MOV Ew,Sw with valid segment {} (0x8C {:#04x})",
            seg,
            modrm
        );
        let instr = result.unwrap();
        assert_eq!(instr.get_ia_opcode(), Opcode::MovEwSw);
        assert_eq!(instr.meta_data[1], seg); // Source segment register

        // 0x8E: MOV Sreg, r/m16
        let bytes = vec![0x8E, modrm];
        let result = fetch_decode64(&bytes);
        assert!(
            result.is_ok(),
            "Failed to decode MOV Sw,Ew with valid segment {} (0x8E {:#04x})",
            seg,
            modrm
        );
        let instr = result.unwrap();
        assert_eq!(instr.get_ia_opcode(), Opcode::MovSwEw);
        assert_eq!(instr.meta_data[0], seg); // Destination segment register
    }
}

/// Test that invalid segment registers (6-7) are rejected with InvalidSegmentRegister error
#[test]
fn fetchdecode64_test_mov_segment_invalid() {
    // Test opcodes 0x8C and 0x8E with nnn=6 and nnn=7
    for seg in 6..=7 {
        let modrm = 0xC0 | (seg << 3); // MOD=11, REG=seg, R/M=0

        // 0x8C: MOV r/m16, Sreg - should fail with InvalidSegmentRegister
        let bytes = vec![0x8C, modrm];
        let result = fetch_decode64(&bytes);
        assert!(
            matches!(result, Err(DecodeError::InvalidSegmentRegister { index, opcode: 0x8C }) if index == seg),
            "Should reject invalid segment register {} for opcode 0x8C, got: {:?}",
            seg,
            result
        );

        // 0x8E: MOV Sreg, r/m16 - should fail with InvalidSegmentRegister
        let bytes = vec![0x8E, modrm];
        let result = fetch_decode64(&bytes);
        assert!(
            matches!(result, Err(DecodeError::InvalidSegmentRegister { index, opcode: 0x8E }) if index == seg),
            "Should reject invalid segment register {} for opcode 0x8E, got: {:?}",
            seg,
            result
        );
    }
}
