use rusty_box_decoder::instr_generated::Instruction as BxInstruction;
use rusty_box_decoder::instruction::{GprIndex, Instruction, InstructionFlags, RepPrefix};
use rusty_box_decoder::{fetch_decode64, BxSegregs};

#[test]
fn flat_avx_attributes_round_trip_and_keep_ib() {
    let mut i = Instruction::default();
    i.immediate = 0xA5;
    i.set_vl(2);
    i.set_vex_w(1);
    i.set_evex_b(3); // only bit 0 counts
    i.set_zero_masking(0);
    i.set_rc(0x7); // only bits 1..0 count
    i.set_opmask(5);
    assert_eq!(i.get_vl(), 2);
    assert_eq!(i.get_vex_w(), 1);
    assert_eq!(i.get_evex_b(), 1);
    assert_eq!(i.is_zero_masking(), 0);
    assert_eq!(i.get_rc(), 3);
    assert_eq!(i.opmask(), 5);
    assert_eq!(i.ib(), 0xA5);
    assert_eq!(i.immediate, 0x05_1B_02_A5);
    i.set_vex_w(0);
    assert_eq!(i.get_vex_w(), 0);
    assert_eq!(i.get_evex_b(), 1);
    assert_eq!(i.get_rc(), 3);
}

#[test]
fn flat_lock_rep_round_trip_keeps_other_flags() {
    let mut i = Instruction::default();
    i.init(1, 1, 0, 0);
    i.assert_mod_c0();
    i.set_lock_rep_used(3);
    assert_eq!(i.lock_rep_used_value(), 3);
    assert_eq!(i.rep_prefix(), RepPrefix::RepE);
    assert_eq!(i.rep_used_l(), 3);
    assert!(i.mod_c0());
    assert_ne!(i.os32_l(), 0);
    i.set_lock();
    assert!(i.get_lock());
    assert_eq!(i.rep_prefix(), RepPrefix::Lock);
    assert!(i.mod_c0());
    i.set_lock_rep_used(0);
    assert_eq!(i.rep_prefix(), RepPrefix::NoPrefix);
    assert_eq!(i.flags.bits(), 0x15);
}

#[test]
fn flat_size_flags_round_trip() {
    let mut i = Instruction::default();
    i.set_os32_b(true);
    i.set_as32_b(true);
    assert_ne!(i.os32_l(), 0);
    assert_ne!(i.as32_l(), 0);
    i.set_os32_b(false);
    assert_eq!(i.os32_l(), 0);
    assert_ne!(i.as32_l(), 0);
    assert_eq!(i.osize(), 0);
    i.assert_os32();
    assert_eq!(i.osize(), 1);
    i.set_os32_b(false);
    i.assert_os64();
    assert_eq!(i.osize(), 2);
    i.assert_os32();
    assert_eq!(i.osize(), 2);
    i.set_os32_b(false);
    assert_eq!(i.flags, InstructionFlags::from_bits_retain(0x09));
}

#[test]
fn flat_iq_and_foo_round_trip() {
    let mut i = Instruction::default();
    i.set_iq(0x1122_3344_5566_7788);
    assert_eq!(i.iq(), 0x1122_3344_5566_7788);
    assert_eq!(i.id(), 0x5566_7788);
    assert_eq!(i.id2(), 0x1122_3344);
    i.set_foo(0x07E8);
    assert_eq!(i.foo(), 0x07E8);
    assert_eq!(i.b1(), 0x07);
    assert_eq!(i.immediate, 0x5566_07E8);
}

#[test]
fn flat_src_reg_round_trip() {
    let mut i = Instruction::default();
    for k in 0..4usize {
        i.set_src_reg(k, 10 + k as u8);
    }
    for k in 0..4usize {
        assert_eq!(i.get_src_reg(k), 10 + k as u8);
    }
    i.set_src_reg(7, 99);
    assert_eq!(i.get_src_reg(7), 0);
    assert_eq!(i.dst_reg(), GprIndex::R10);
    assert_eq!(i.src1_reg(), GprIndex::R11);
}

#[test]
fn flat_segment_and_sib_round_trip() {
    let mut i = Instruction::default();
    i.set_seg(BxSegregs::Gs);
    assert_eq!(i.seg(), 5);
    assert_eq!(i.segment_reg(), BxSegregs::Gs);
    i.set_sib_scale(3);
    i.set_sib_index(4);
    i.set_sib_base(19);
    assert_eq!(i.sib_scale(), 3);
    assert_eq!(i.index_reg(), GprIndex::Rsp);
    assert_eq!(i.base_reg(), GprIndex::Nil);
}

#[test]
fn bochs_layout_attributes_round_trip() {
    let mut i = fetch_decode64(&[0xB0, 0x7F]).unwrap(); // MOV AL, 0x7F
    assert_eq!(i.ib(), 0x7F);
    i.set_vl(1);
    i.set_vex_w(1);
    i.set_rc(2);
    i.set_opmask(7);
    assert_eq!(i.get_vl(), 1);
    assert_eq!(i.get_vex_w(), 1);
    assert_eq!(i.get_rc(), 2);
    assert_eq!(i.opmask(), 7);
    assert_eq!(i.ib(), 0x7F);
    i.set_iq(0xFFFF_0000_0000_0001);
    assert_eq!(i.iq(), 0xFFFF_0000_0000_0001);
    i.set_foo(0x05C1);
    assert_eq!(i.foo(), 0x05C1);
    assert_eq!(i.b1(), 0x05);
}

#[test]
fn bochs_layout_registers_round_trip() {
    let mut i = BxInstruction::default();
    i.set_src_reg(2, 9);
    assert_eq!(i.get_src_reg(2), 9);
    assert_eq!(i.src2(), 9);
    assert_eq!(i.get_src_reg(4), 0);
    i.set_lock_rep_used(2);
    assert_eq!(i.lock_rep_used_value(), 2);
    i.set_seg(BxSegregs::Fs);
    assert_eq!(i.seg(), 4);
    i.set_ilen(7);
    assert_eq!(i.ilen(), 7);
}

#[test]
fn gpr_index_and_segment_codes() {
    for v in 0u8..=25 {
        let g = GprIndex::from_u8(v);
        if v <= 19 {
            assert_eq!(g.as_usize(), v as usize);
        } else {
            assert_eq!(g, GprIndex::Nil);
        }
    }
    assert_eq!(BxSegregs::from_u8(2), BxSegregs::Ss);
    assert_eq!(BxSegregs::from_u8(6), BxSegregs::Ds);
    assert_eq!(BxSegregs::from(7u8), BxSegregs::Null);
    assert!(rusty_box_decoder::is_null_seg_reg(7));
    assert!(!rusty_box_decoder::is_null_seg_reg(3));
    for v in [0u8, 1, 2, 3, 4, 5, 7] {
        assert_eq!(BxSegregs::from_u8(v).as_u8(), v);
    }
}
