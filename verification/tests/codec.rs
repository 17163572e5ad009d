use lc3_vm::instructions::{
    DesiredConditionFlags, Immediate5, Instruction, Offset6, PcOffset11, PcOffset9, Register,
};

#[test]
fn main_add_instr() {
    let add = Instruction::add(Register::R0, Register::R1, Register::R2);
    let add_imm = Instruction::add_imm(Register::R0, Register::R1, 5);

    assert_eq!(format!("0b{:016b}", add.encode()), "0b0001000001000010");
    assert_eq!(format!("0b{:016b}", add_imm.encode()), "0b0001000001100101");

    assert!(add.is_add());
    assert!(add_imm.is_add());
}

#[test]
fn main_and_instr() {
    let and = Instruction::and(Register::R0, Register::R1, Register::R2);
    let and_imm = Instruction::and_imm(Register::R0, Register::R1, 5);

    assert_eq!(format!("0b{:016b}", and.encode()), "0b0101000001000010");
    assert_eq!(format!("0b{:016b}", and_imm.encode()), "0b0101000001100101");

    assert!(and.is_and());
    assert!(and_imm.is_and());
}

#[test]
fn main_not_instr() {
    let not = Instruction::not(Register::R0, Register::R1);

    assert_eq!(format!("0b{:016b}", not.encode()), "0b1001000001111111");
}

#[test]
fn tests_add_instr() {
    let add = Instruction::Add(Register::R0, Register::R1, Register::R2).encode();
    let add_imm =
        Instruction::AddImmediate(Register::R0, Register::R1, Immediate5::from_bits(5)).encode();

    assert_eq!(format!("{add:016b}"), "0001000001000010");
    assert_eq!(format!("{add_imm:016b}"), "0001000001100101");
}

#[test]
fn tests_and_instr() {
    let and = Instruction::And(Register::R0, Register::R1, Register::R2).encode();
    let and_imm =
        Instruction::AndImmediate(Register::R0, Register::R1, Immediate5::from_bits(5)).encode();

    assert_eq!(format!("{and:016b}"), "0101000001000010");
    assert_eq!(format!("{and_imm:016b}"), "0101000001100101");
}

#[test]
fn tests_not_instr() {
    let not = Instruction::Not(Register::R0, Register::R1).encode();

    assert_eq!(format!("{not:016b}"), "1001000001111111");
}

#[test]
fn check_branch_bits() {
    let branch =
        Instruction::Branch(DesiredConditionFlags::from_bits(0b111), PcOffset9::from_bits(-1))
            .encode();

    assert_eq!(format!("{branch:016b}"), "0000111111111111");

    let branch = Instruction::decode(branch);

    assert_eq!(
        branch,
        Instruction::Branch(DesiredConditionFlags::from_bits(0b111), PcOffset9::from_bits(-1))
    );
}

/// One sample per opcode layout, checked bit for bit against the
/// instruction table.
#[test]
fn encode_matches_table() {
    let cases: Vec<(Instruction, u16)> = vec![
        (Instruction::Add(Register::R1, Register::R2, Register::R3), 0x1283),
        (
            Instruction::AddImmediate(Register::R1, Register::R2, Immediate5::from_bits(-1)),
            0x12BF,
        ),
        (Instruction::And(Register::R4, Register::R5, Register::R6), 0x5946),
        (
            Instruction::AndImmediate(Register::R4, Register::R5, Immediate5::from_bits(-16)),
            0x5970,
        ),
        (
            Instruction::Branch(DesiredConditionFlags::from_bits(0b100), PcOffset9::from_bits(-2)),
            0x09FE,
        ),
        (
            Instruction::Branch(DesiredConditionFlags::from_bits(0b001), PcOffset9::from_bits(1)),
            0x0201,
        ),
        (Instruction::Jump(Register::R7), 0xC1C0),
        (Instruction::JumpSubroutine(PcOffset11::from_bits(-1024)), 0x4C00),
        (Instruction::JumpSubroutineRegister(Register::R2), 0x4080),
        (Instruction::Load(Register::R0, PcOffset9::from_bits(255)), 0x20FF),
        (Instruction::LoadIndirect(Register::R7, PcOffset9::from_bits(-256)), 0xAF00),
        (
            Instruction::LoadRegister(Register::R1, Register::R2, Offset6::from_bits(-32)),
            0x62A0,
        ),
        (Instruction::LoadEffectiveAddress(Register::R3, PcOffset9::from_bits(-1)), 0xE7FF),
        (Instruction::Not(Register::R0, Register::R1), 0x907F),
        (Instruction::ReturnFromInterrupt, 0x8000),
        (Instruction::Store(Register::R2, PcOffset9::from_bits(10)), 0x340A),
        (Instruction::StoreIndirect(Register::R3, PcOffset9::from_bits(-5)), 0xB7FB),
        (
            Instruction::StoreRegister(Register::R4, Register::R5, Offset6::from_bits(31)),
            0x795F,
        ),
        (Instruction::Trap(0x25), 0xF025),
        (Instruction::Reserved, 0xD000),
    ];
    for (instr, word) in cases {
        assert_eq!(instr.encode(), word);
        assert_eq!(Instruction::decode(word), instr);
    }
}

/// Decoding the encoding restores the instruction, across every variant.
#[test]
fn decode_encode_round_trip() {
    let samples: Vec<Instruction> = vec![
        Instruction::Add(Register::R7, Register::R0, Register::R5),
        Instruction::AddImmediate(Register::R6, Register::R3, Immediate5::from_bits(15)),
        Instruction::And(Register::R2, Register::R2, Register::R2),
        Instruction::AndImmediate(Register::R0, Register::R7, Immediate5::from_bits(-16)),
        Instruction::Branch(DesiredConditionFlags::from_bits(0b010), PcOffset9::from_bits(100)),
        Instruction::Jump(Register::R3),
        Instruction::JumpSubroutine(PcOffset11::from_bits(1023)),
        Instruction::JumpSubroutineRegister(Register::R7),
        Instruction::Load(Register::R4, PcOffset9::from_bits(-100)),
        Instruction::LoadIndirect(Register::R5, PcOffset9::from_bits(0)),
        Instruction::LoadRegister(Register::R6, Register::R1, Offset6::from_bits(17)),
        Instruction::LoadEffectiveAddress(Register::R7, PcOffset9::from_bits(255)),
        Instruction::Not(Register::R5, Register::R4),
        Instruction::ReturnFromInterrupt,
        Instruction::Store(Register::R1, PcOffset9::from_bits(-256)),
        Instruction::StoreIndirect(Register::R0, PcOffset9::from_bits(7)),
        Instruction::StoreRegister(Register::R7, Register::R0, Offset6::from_bits(-1)),
        Instruction::Trap(0x20),
        Instruction::Trap(0xFF),
        Instruction::Reserved,
    ];
    for instr in samples {
        assert_eq!(Instruction::decode(instr.encode()), instr);
    }
}

/// Decode is total: every opcode nibble yields a variant, and junk in the
/// unused bits of the reserved and return-from-interrupt layouts is
/// ignored.
#[test]
fn decode_is_total() {
    assert_eq!(Instruction::decode(0xD123), Instruction::Reserved);
    assert_eq!(Instruction::decode(0x8FFF), Instruction::ReturnFromInterrupt);
    assert_eq!(Instruction::decode(0x0000).encode(), 0x0000);
    for op in 0..16u16 {
        // decoding any opcode must give a word back when re-encoded
        let _ = Instruction::decode(op << 12).encode();
    }
}

/// The narrow fields round-trip at both ends of their ranges, and
/// out-of-range construction is rejected.
#[test]
fn narrow_field_ranges() {
    assert_eq!(Immediate5::new(-16), Some(Immediate5::from_bits(-16)));
    assert_eq!(Immediate5::new(15).map(|v| v.into_inner()), Some(15));
    assert_eq!(Immediate5::new(-17), None);
    assert_eq!(Immediate5::new(16), None);

    assert_eq!(Offset6::new(-32).map(|v| v.into_inner()), Some(-32));
    assert_eq!(Offset6::new(31).map(|v| v.into_inner()), Some(31));
    assert_eq!(Offset6::new(-33), None);
    assert_eq!(Offset6::new(32), None);

    assert_eq!(PcOffset9::new(-256).map(|v| v.into_inner()), Some(-256));
    assert_eq!(PcOffset9::new(255).map(|v| v.into_inner()), Some(255));
    assert_eq!(PcOffset9::new(-257), None);
    assert_eq!(PcOffset9::new(256), None);

    assert_eq!(PcOffset11::new(-1024).map(|v| v.into_inner()), Some(-1024));
    assert_eq!(PcOffset11::new(1023).map(|v| v.into_inner()), Some(1023));
    assert_eq!(PcOffset11::new(-1025), None);
    assert_eq!(PcOffset11::new(1024), None);

    // minimum and maximum of each width survive the codec
    let min_imm = Instruction::AddImmediate(Register::R0, Register::R0, Immediate5::new(-16).unwrap());
    assert_eq!(Instruction::decode(min_imm.encode()), min_imm);
    let max_imm = Instruction::AddImmediate(Register::R0, Register::R0, Immediate5::new(15).unwrap());
    assert_eq!(Instruction::decode(max_imm.encode()), max_imm);
    let min_off6 = Instruction::LoadRegister(Register::R0, Register::R1, Offset6::new(-32).unwrap());
    assert_eq!(Instruction::decode(min_off6.encode()), min_off6);
    let max_off6 = Instruction::LoadRegister(Register::R0, Register::R1, Offset6::new(31).unwrap());
    assert_eq!(Instruction::decode(max_off6.encode()), max_off6);
    let min_off9 = Instruction::Load(Register::R0, PcOffset9::new(-256).unwrap());
    assert_eq!(Instruction::decode(min_off9.encode()), min_off9);
    let max_off9 = Instruction::Load(Register::R0, PcOffset9::new(255).unwrap());
    assert_eq!(Instruction::decode(max_off9.encode()), max_off9);
    let min_off11 = Instruction::JumpSubroutine(PcOffset11::new(-1024).unwrap());
    assert_eq!(Instruction::decode(min_off11.encode()), min_off11);
    let max_off11 = Instruction::JumpSubroutine(PcOffset11::new(1023).unwrap());
    assert_eq!(Instruction::decode(max_off11.encode()), max_off11);
}

/// The word-level accessors answer for their own opcode and no other.
#[test]
fn getters_match_variants() {
    let br = Instruction::branch(0b101, -3);
    assert_eq!(br.get_branch(), Some((0b101u8, -3i16)));
    assert_eq!(br.get_jmp(), None);

    let jmp = Instruction::jmp(Register::R6);
    assert_eq!(jmp.get_jmp(), Some(Register::R6));
    assert_eq!(jmp.get_branch(), None);

    let ld = Instruction::ld(Register::R2, -2);
    assert_eq!(ld.get_ld(), Some((Register::R2, -2i16)));
    assert_eq!(ld.get_lea(), None);

    let lea = Instruction::lea(Register::R3, 9);
    assert_eq!(lea.get_lea(), Some((Register::R3, 9i16)));
    assert_eq!(lea.get_ld(), None);

    let trap = Instruction::trap(0x21);
    assert_eq!(trap.get_trap_vector(), Some(0x21));
    assert_eq!(Instruction::not(Register::R0, Register::R0).get_trap_vector(), None);
    assert!(Instruction::not(Register::R0, Register::R0).is_not());
    assert!(!trap.is_not());

    assert_eq!(Instruction::trap_get_c(), Instruction::Trap(0x20));
    assert_eq!(Instruction::trap_out(), Instruction::Trap(0x21));
    assert_eq!(Instruction::trap_puts(), Instruction::Trap(0x22));
    assert_eq!(Instruction::trap_in(), Instruction::Trap(0x23));
    assert_eq!(Instruction::trap_halt(), Instruction::Trap(0x25));

    assert_eq!(Instruction::get_header(0xD123), 0xD);
    assert_eq!(Instruction::get_header(0x0001), 0x0);
}

/// The flag-mask wrappers agree in both directions.
#[test]
fn flag_mask_round_trip() {
    for bits in 0..8u16 {
        let f = DesiredConditionFlags::from_bits(bits);
        assert_eq!(f.into_flags() as u16, bits);
    }
    let f = DesiredConditionFlags { negative: true, zero: false, positive: true };
    assert_eq!(f.into_flags(), 0b101);
}

/// The register indices are the three-bit field values.
#[test]
fn register_indices() {
    for idx in 0..8u8 {
        let r = Register::from_index(idx);
        assert_eq!(r.to_index(), idx);
    }
    assert_eq!(Register::from_index(7), Register::R7);
}
