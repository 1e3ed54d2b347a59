use gb_core::cartridge::mbc1::MBC1Cartridge;
use gb_core::cpu::CPU;
use gb_core::instructions::AddTargetType;
use gb_core::instructions::ArithmeticByteTarget;
use gb_core::instructions::ArithmeticWordTarget;
use gb_core::instructions::Instruction;
use gb_core::ppu::oam::OAMEntry;

#[test]
fn test_add_word_flags() {
    let mut cpu = CPU::new_and_empty();
    cpu.registers.set_hl(0x0FFF);
    cpu.registers.set_bc(0x0001);
    let _ = cpu.execute(Instruction::ADD(AddTargetType::Word(ArithmeticWordTarget::BC))).unwrap();
    assert_eq!(cpu.registers.get_hl(), 0x1000);
    assert!(cpu.registers.f.half_carry);
    assert!(!cpu.registers.f.carry);
    cpu.registers.set_hl(0xFFFF);
    cpu.registers.set_de(0x0002);
    let _ = cpu.execute(Instruction::ADD(AddTargetType::Word(ArithmeticWordTarget::DE))).unwrap();
    assert_eq!(cpu.registers.get_hl(), 0x0001);
    assert!(cpu.registers.f.carry);
}

#[test]
fn test_word_inc_dec_wrap() {
    let mut cpu = CPU::new_and_empty();
    cpu.registers.set_bc(0xFFFF);
    let _ = cpu.execute(Instruction::INC(
        gb_core::instructions::ArithmeticTargetType::Word(ArithmeticWordTarget::BC),
    )).unwrap();
    assert_eq!(cpu.registers.get_bc(), 0);
    let _ = cpu.execute(Instruction::DEC(
        gb_core::instructions::ArithmeticTargetType::Word(ArithmeticWordTarget::BC),
    )).unwrap();
    assert_eq!(cpu.registers.get_bc(), 0xFFFF);
}

#[test]
fn test_rla_and_rra_through_carry() {
    let mut cpu = CPU::new_and_empty();
    cpu.registers.a = 0b1000_0001;
    cpu.registers.f.carry = false;
    let _ = cpu.execute(Instruction::RLA).unwrap();
    assert_eq!(cpu.registers.a, 0b0000_0010);
    assert!(cpu.registers.f.carry);
    let _ = cpu.execute(Instruction::RLA).unwrap();
    assert_eq!(cpu.registers.a, 0b0000_0101);
    assert!(!cpu.registers.f.carry);

    cpu.registers.a = 0b0000_0001;
    cpu.registers.f.carry = false;
    let _ = cpu.execute(Instruction::RRA).unwrap();
    assert_eq!(cpu.registers.a, 0);
    assert!(cpu.registers.f.carry);
    let _ = cpu.execute(Instruction::RRA).unwrap();
    assert_eq!(cpu.registers.a, 0b1000_0000);
    assert!(!cpu.registers.f.carry);
}

#[test]
fn test_rl_register_sets_zero() {
    let mut cpu = CPU::new_and_empty();
    cpu.registers.b = 0b1000_0000;
    cpu.registers.f.carry = false;
    let _ = cpu.execute(Instruction::RL(ArithmeticByteTarget::B)).unwrap();
    assert_eq!(cpu.registers.b, 0);
    assert!(cpu.registers.f.zero);
    assert!(cpu.registers.f.carry);
}

#[test]
fn test_srl_and_sla() {
    let mut cpu = CPU::new_and_empty();
    cpu.registers.c = 0b1000_0001;
    let _ = cpu.execute(Instruction::SRL(ArithmeticByteTarget::C)).unwrap();
    assert_eq!(cpu.registers.c, 0b0100_0000);
    assert!(cpu.registers.f.carry);
    let _ = cpu.execute(Instruction::SLA(ArithmeticByteTarget::C)).unwrap();
    assert_eq!(cpu.registers.c, 0b1000_0000);
    assert!(!cpu.registers.f.carry);
}

#[test]
fn test_sra_keeps_sign_bit() {
    let mut cpu = CPU::new_and_empty();
    cpu.registers.d = 0b1000_0010;
    let _ = cpu.execute(Instruction::SRA(ArithmeticByteTarget::D)).unwrap();
    assert_eq!(cpu.registers.d, 0b1100_0001);
    assert!(!cpu.registers.f.carry);
}

#[test]
fn test_cpl_complements() {
    let mut cpu = CPU::new_and_empty();
    cpu.registers.a = 0b1010_0101;
    let _ = cpu.execute(Instruction::CPL).unwrap();
    assert_eq!(cpu.registers.a, 0b0101_1010);
    assert!(cpu.registers.f.subtraction);
    assert!(cpu.registers.f.half_carry);
}

#[test]
fn test_scf_and_ccf() {
    let mut cpu = CPU::new_and_empty();
    let _ = cpu.execute(Instruction::SCF).unwrap();
    assert!(cpu.registers.f.carry);
    let _ = cpu.execute(Instruction::CCF).unwrap();
    assert!(!cpu.registers.f.carry);
}

#[test]
fn test_oam_entry_byte_round_trip() {
    let mut entry = OAMEntry::from_zeros();
    entry.write_byte(0, 0x44);
    entry.write_byte(3, 0xA5);
    assert_eq!(entry.to_byte(0), 0x44);
    // the flag byte reads back with its low nibble forced to zero
    assert_eq!(entry.to_byte(3), 0xA0);
    assert!(entry.priority);
    assert!(!entry.y_flip);
    assert!(entry.x_flip);
    assert_eq!(entry.palette, 0);
}

#[test]
fn test_mbc1_mode_one_ram_banking() {
    let rom = vec![0u8; 2 * 0x4000];
    let mut cart = MBC1Cartridge::new(rom, 4, 2);
    cart.write_byte(0x0000, 0x0A); // enable RAM
    cart.write_byte(0x6000, 1); // mode 1: the secondary bank selects RAM
    cart.write_byte(0x4000, 2); // RAM bank 2
    cart.write_byte(0xA000, 0x66);
    // the same address in bank 0 is untouched
    cart.write_byte(0x6000, 0);
    assert_eq!(cart.read_byte(0xA000), 0x00);
    cart.write_byte(0x6000, 1);
    assert_eq!(cart.read_byte(0xA000), 0x66);
}
