use gb_core::registers::FlagsRegister;
use gb_core::registers::Registers;

#[test]
fn test_register_pair_round_trip() {
    let mut regs = Registers::new_zeroed();
    for &v in &[0x0000u16, 0x0001, 0x00FF, 0x0100, 0xABCD, 0xFF00, 0xFFFF] {
        regs.set_bc(v);
        assert_eq!(regs.get_bc(), v);
        assert_eq!(((regs.b as u16) << 8) | (regs.c as u16), v);
        regs.set_de(v);
        assert_eq!(regs.get_de(), v);
        assert_eq!(((regs.d as u16) << 8) | (regs.e as u16), v);
        regs.set_hl(v);
        assert_eq!(regs.get_hl(), v);
        assert_eq!(((regs.h as u16) << 8) | (regs.l as u16), v);
    }
}

#[test]
fn test_register_pair_bytes() {
    let mut regs = Registers::new_zeroed();
    regs.set_bc(0x1234);
    assert_eq!(regs.b, 0x12);
    assert_eq!(regs.c, 0x34);
}

#[test]
fn test_flag_byte_round_trip() {
    for v in 0..=0xFFu8 {
        let flags = FlagsRegister::from_byte(v);
        assert_eq!(flags.to_byte(), v & 0xF0, "flag byte 0x{:x}", v);
    }
}

#[test]
fn test_flag_bits() {
    let flags = FlagsRegister::from_byte(0x90);
    assert!(flags.zero);
    assert!(!flags.subtraction);
    assert!(!flags.half_carry);
    assert!(flags.carry);
}

#[test]
fn test_af_low_nibble_zero() {
    let mut regs = Registers::new_zeroed();
    regs.set_af(0x12FF);
    assert_eq!(regs.a, 0x12);
    assert_eq!(regs.get_af(), 0x12F0);
}
