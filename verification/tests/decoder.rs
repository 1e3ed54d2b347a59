use gb_core::instructions::AddByteTarget;
use gb_core::instructions::AddTargetType;
use gb_core::instructions::ArithmeticByteTarget;
use gb_core::instructions::BitPosition;
use gb_core::instructions::BitRegister;
use gb_core::instructions::Instruction;
use gb_core::instructions::JpAddrLoc;
use gb_core::instructions::JumpTest;
use gb_core::instructions::LoadByteSource;
use gb_core::instructions::LoadByteTarget;
use gb_core::instructions::LoadType;

const ILLEGAL: [u8; 12] = [
    0xCB, 0xD3, 0xDB, 0xDD, 0xE3, 0xE4, 0xEB, 0xEC, 0xED, 0xF4, 0xFC, 0xFD,
];

#[test]
fn test_all_decodes() {
    for opcode in 0..=0xFFu8 {
        assert!(
            Instruction::from_byte(opcode, true).is_some(),
            "failed prefixed opcode: 0x{:x}",
            opcode
        );
        if ILLEGAL.contains(&opcode) {
            assert!(
                Instruction::from_byte(opcode, false).is_none(),
                "illegal opcode decoded: 0x{:x}",
                opcode
            );
        } else {
            assert!(
                Instruction::from_byte(opcode, false).is_some(),
                "failed non_prefixed opcode: 0x{:x}",
                opcode
            );
        }
    }
}

#[test]
fn test_decode_specific_unprefixed() {
    assert_eq!(Instruction::from_byte(0x00, false), Some(Instruction::NOP));
    assert_eq!(Instruction::from_byte(0x76, false), Some(Instruction::HALT));
    assert_eq!(
        Instruction::from_byte(0x3E, false),
        Some(Instruction::LD(LoadType::Byte(LoadByteTarget::A, LoadByteSource::D8)))
    );
    assert_eq!(
        Instruction::from_byte(0xC3, false),
        Some(Instruction::JP(JumpTest::Always, JpAddrLoc::A16))
    );
    assert_eq!(
        Instruction::from_byte(0xC6, false),
        Some(Instruction::ADD(AddTargetType::Byte(AddByteTarget::D8)))
    );
    assert_eq!(Instruction::from_byte(0x27, false), Some(Instruction::DAA));
    assert_eq!(Instruction::from_byte(0x10, false), Some(Instruction::STOP));
    assert_eq!(Instruction::from_byte(0xD9, false), Some(Instruction::RETI));
    assert_eq!(Instruction::from_byte(0xF3, false), Some(Instruction::DI));
    assert_eq!(Instruction::from_byte(0xFB, false), Some(Instruction::EI));
}

#[test]
fn test_decode_specific_prefixed() {
    assert_eq!(
        Instruction::from_byte(0x00, true),
        Some(Instruction::RLC(ArithmeticByteTarget::B))
    );
    assert_eq!(
        Instruction::from_byte(0x7C, true),
        Some(Instruction::BIT(BitPosition::Seven, BitRegister::H))
    );
    assert_eq!(
        Instruction::from_byte(0xFF, true),
        Some(Instruction::SET(BitPosition::Seven, BitRegister::A))
    );
    assert_eq!(
        Instruction::from_byte(0x37, true),
        Some(Instruction::SWAP(ArithmeticByteTarget::A))
    );
}
