use gb_core::instruction::{ArithmeticTarget, Instruction, JumpTest, LoadType};
use gb_core::registers::{FlagsRegister, Registers};

#[test]
fn af_keeps_only_the_top_nibble_of_f() {
    let mut r = Registers::default();
    for x in [0x0000u16, 0x12FF, 0xFFFF, 0xAB5A, 0x01F0, 0x800F] {
        r.set_af(x);
        assert_eq!(r.get_af(), (x & 0xFF00) | (x & 0x00F0));
        assert_eq!(r.get_af() & 0x000F, 0);
    }
}

#[test]
fn pairs_round_trip() {
    let mut r = Registers::default();
    for v in [0u16, 1, 0x1234, 0xFF00, 0x00FF, 0xFFFF] {
        r.set_hl(v);
        assert_eq!(r.get_hl(), v);
        r.set_bc(v);
        assert_eq!(r.get_bc(), v);
        r.set_de(v);
        assert_eq!(r.get_de(), v);
    }
    r.set_bc(0xBEEF);
    assert_eq!(r.b, 0xBE);
    assert_eq!(r.c, 0xEF);
}

#[test]
fn flags_pack_into_the_top_nibble() {
    let f = FlagsRegister { zero: true, subtract: false, half_carry: true, carry: true };
    assert_eq!(f.to_byte(), 0xB0);
    assert_eq!(FlagsRegister::from_byte(0xB7), f);
}

#[test]
fn primary_table() {
    assert_eq!(Instruction::from_byte(0x3C, false), Some(Instruction::INC8(ArithmeticTarget::A)));
    assert_eq!(Instruction::from_byte(0xC3, false), Some(Instruction::JP(JumpTest::Always)));
    assert_eq!(
        Instruction::from_byte(0x42, false),
        Some(Instruction::LD(LoadType::Byte(ArithmeticTarget::B, ArithmeticTarget::D)))
    );
    assert_eq!(Instruction::from_byte(0x35, false), Some(Instruction::DEC8(ArithmeticTarget::HL)));
    assert_eq!(Instruction::from_byte(0x76, false), Some(Instruction::HALT()));
    assert_eq!(Instruction::from_byte(0xCB, false), None);
    for b in [0xD3u8, 0xDB, 0xDD, 0xE3, 0xE4, 0xEB, 0xEC, 0xED, 0xF4, 0xFC, 0xFD] {
        assert_eq!(Instruction::from_byte(b, false), None);
    }
}

#[test]
fn secondary_table() {
    assert_eq!(Instruction::from_byte(0x7C, true), Some(Instruction::BIT(ArithmeticTarget::H, 7)));
    assert_eq!(Instruction::from_byte(0x37, true), Some(Instruction::SWAP(ArithmeticTarget::A)));
    assert_eq!(Instruction::from_byte(0x86, true), Some(Instruction::RES(ArithmeticTarget::HL, 0)));
    assert_eq!(Instruction::from_byte(0xFF, true), Some(Instruction::SET(ArithmeticTarget::A, 7)));
    for b in 0u8..=255 {
        assert!(Instruction::from_byte(b, true).is_some());
    }
}
