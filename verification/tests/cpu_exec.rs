use gb_core::cpu::CpuError;
use gb_core::cpu::CPU;
use gb_core::instructions::AddByteTarget;
use gb_core::instructions::AddTargetType;
use gb_core::instructions::AndTargetType;
use gb_core::instructions::ArithmeticByteTarget;
use gb_core::instructions::ArithmeticTargetType;
use gb_core::instructions::Instruction;
use gb_core::instructions::JumpTest;
use gb_core::instructions::StackTarget;
use gb_core::instructions::SubByteTarget;

/// A CPU whose program counter sits in working RAM with the given bytes
/// written there, so that programs run without a cartridge.
fn cpu_with_program(program: &[u8]) -> CPU {
    let mut cpu = CPU::new_and_empty();
    cpu.pc = 0xC000;
    for (i, &b) in program.iter().enumerate() {
        cpu.bus.write_byte(0xC000 + i as u16, b);
    }
    cpu
}

#[test]
fn test_add_sets_carry_and_half_carry() {
    let mut cpu = CPU::new_and_empty();
    cpu.registers.a = 250;
    cpu.registers.b = 10;
    let next = cpu.execute(Instruction::ADD(AddTargetType::Byte(AddByteTarget::B))).unwrap();
    assert_eq!(cpu.registers.a, 4);
    assert!(cpu.registers.f.carry);
    assert!(cpu.registers.f.half_carry);
    assert!(!cpu.registers.f.zero);
    assert!(!cpu.registers.f.subtraction);
    assert_eq!(next, 1);
}

#[test]
fn test_sub_to_zero() {
    let mut cpu = CPU::new_and_empty();
    cpu.registers.a = 0x42;
    let _ = cpu.execute(Instruction::SUB(SubByteTarget::A)).unwrap();
    assert_eq!(cpu.registers.a, 0);
    assert!(cpu.registers.f.zero);
    assert!(cpu.registers.f.subtraction);
    assert!(!cpu.registers.f.carry);
}

#[test]
fn test_sub_borrow() {
    let mut cpu = CPU::new_and_empty();
    cpu.registers.a = 0x10;
    cpu.registers.c = 0x20;
    let _ = cpu.execute(Instruction::SUB(SubByteTarget::C)).unwrap();
    assert_eq!(cpu.registers.a, 0xF0);
    assert!(cpu.registers.f.carry);
}

#[test]
fn test_and_clears_carry() {
    let mut cpu = CPU::new_and_empty();
    cpu.registers.f.carry = true;
    cpu.registers.a = 0b1100;
    cpu.registers.d = 0b1010;
    let _ = cpu.execute(Instruction::AND(AndTargetType::D)).unwrap();
    assert_eq!(cpu.registers.a, 0b1000);
    assert!(!cpu.registers.f.carry);
    assert!(!cpu.registers.f.half_carry);
}

#[test]
fn test_inc_preserves_carry() {
    let mut cpu = CPU::new_and_empty();
    cpu.registers.f.carry = true;
    cpu.registers.e = 0x0F;
    let _ = cpu.execute(Instruction::INC(ArithmeticTargetType::Byte(ArithmeticByteTarget::E)))
        .unwrap();
    assert_eq!(cpu.registers.e, 0x10);
    assert!(cpu.registers.f.carry);
    assert!(cpu.registers.f.half_carry);
}

#[test]
fn test_dec_wraps() {
    let mut cpu = CPU::new_and_empty();
    cpu.registers.b = 0;
    let _ = cpu.execute(Instruction::DEC(ArithmeticTargetType::Byte(ArithmeticByteTarget::B)))
        .unwrap();
    assert_eq!(cpu.registers.b, 0xFF);
    assert!(cpu.registers.f.subtraction);
    assert!(cpu.registers.f.half_carry);
}

#[test]
fn test_push_pop_inverse() {
    let mut cpu = CPU::new_and_empty();
    cpu.sp = 0xFFFE;
    for &v in &[0x0000u16, 0x1234, 0xBEEF, 0xFFFF] {
        cpu.push(v);
        assert_eq!(cpu.sp, 0xFFFC);
        assert_eq!(cpu.pop(), v);
        assert_eq!(cpu.sp, 0xFFFE);
    }
}

#[test]
fn test_push_pop_through_stack_targets() {
    let mut cpu = CPU::new_and_empty();
    cpu.sp = 0xD000;
    cpu.registers.set_bc(0xA1B2);
    let _ = cpu.execute(Instruction::PUSH(StackTarget::BC)).unwrap();
    let _ = cpu.execute(Instruction::POP(StackTarget::DE)).unwrap();
    assert_eq!(cpu.registers.get_de(), 0xA1B2);
    assert_eq!(cpu.sp, 0xD000);
}

#[test]
fn test_stack_grows_downward_high_byte_first() {
    let mut cpu = CPU::new_and_empty();
    cpu.sp = 0xC100;
    cpu.push(0x1234);
    assert_eq!(cpu.bus.read_byte(0xC0FF), 0x12);
    assert_eq!(cpu.bus.read_byte(0xC0FE), 0x34);
}

#[test]
fn test_jp_unconditional() {
    let mut cpu = cpu_with_program(&[0xC3, 0x34, 0x12]);
    assert_eq!(cpu.step(), Ok(true));
    assert_eq!(cpu.pc, 0x1234);
}

#[test]
fn test_jr_forward_and_backward() {
    // JR always, displacement +3: target is PC + 2 + 3
    let mut cpu = cpu_with_program(&[0x18, 0x03]);
    assert_eq!(cpu.step(), Ok(true));
    assert_eq!(cpu.pc, 0xC005);
    // JR always, displacement -2: a tight loop back onto the opcode
    let mut cpu = cpu_with_program(&[0x18, 0xFE]);
    assert_eq!(cpu.step(), Ok(true));
    assert_eq!(cpu.pc, 0xC000);
}

#[test]
fn test_jr_not_taken() {
    // JR NZ with the zero flag set falls through to the next instruction
    let mut cpu = cpu_with_program(&[0x20, 0x10]);
    cpu.registers.f.zero = true;
    assert_eq!(cpu.step(), Ok(true));
    assert_eq!(cpu.pc, 0xC002);
}

#[test]
fn test_call_and_ret() {
    let mut cpu = cpu_with_program(&[0xCD, 0x00, 0xD0]);
    cpu.sp = 0xFFFE;
    assert_eq!(cpu.step(), Ok(true));
    assert_eq!(cpu.pc, 0xD000);
    assert_eq!(cpu.sp, 0xFFFC);
    // the pushed return address is the byte after the 3-byte CALL
    assert_eq!(cpu.bus.read_byte(0xFFFD), 0xC0);
    assert_eq!(cpu.bus.read_byte(0xFFFC), 0x03);
    // RET at the call target resumes just past the CALL
    cpu.bus.write_byte(0xD000, 0xC9);
    assert_eq!(cpu.step(), Ok(true));
    assert_eq!(cpu.pc, 0xC003);
    assert_eq!(cpu.sp, 0xFFFE);
}

#[test]
fn test_conditional_jump_tests() {
    let mut cpu = CPU::new_and_empty();
    cpu.registers.f.zero = true;
    cpu.registers.f.carry = false;
    assert!(cpu.jmp_test(JumpTest::Zero));
    assert!(!cpu.jmp_test(JumpTest::NotZero));
    assert!(!cpu.jmp_test(JumpTest::Carry));
    assert!(cpu.jmp_test(JumpTest::NotCarry));
    assert!(cpu.jmp_test(JumpTest::Always));
}

#[test]
fn test_unknown_instruction_error() {
    let mut cpu = cpu_with_program(&[0xD3]);
    assert_eq!(
        cpu.step(),
        Err(CpuError::UnknownInstruction { byte: 0xD3, prefixed: false, pc: 0xC000 })
    );
    // nothing moved
    assert_eq!(cpu.pc, 0xC000);
}

#[test]
fn test_unimplemented_instruction_error() {
    let mut cpu = cpu_with_program(&[0x27]);
    assert_eq!(cpu.step(), Err(CpuError::Unimplemented(Instruction::DAA)));
    assert_eq!(cpu.pc, 0xC000);
}

#[test]
fn test_prefixed_fetch_and_execute() {
    // CB 37: SWAP A
    let mut cpu = cpu_with_program(&[0xCB, 0x37]);
    cpu.registers.a = 0xAB;
    assert_eq!(cpu.step(), Ok(true));
    assert_eq!(cpu.registers.a, 0xBA);
    assert_eq!(cpu.pc, 0xC002);
}

#[test]
fn test_ld_between_registers_and_memory() {
    // LD B, 0x7E ; LD (HL), B with HL pointed into working RAM
    let mut cpu = cpu_with_program(&[0x06, 0x7E, 0x70]);
    cpu.registers.set_hl(0xC800);
    assert_eq!(cpu.step(), Ok(true));
    assert_eq!(cpu.registers.b, 0x7E);
    assert_eq!(cpu.step(), Ok(true));
    assert_eq!(cpu.bus.read_byte(0xC800), 0x7E);
    assert_eq!(cpu.pc, 0xC003);
}

#[test]
fn test_ld_hl_increment_decrement() {
    // LD A,(HL+) twice through working RAM
    let mut cpu = cpu_with_program(&[0x2A, 0x2A]);
    cpu.registers.set_hl(0xC900);
    cpu.bus.write_byte(0xC900, 0x11);
    cpu.bus.write_byte(0xC901, 0x22);
    assert_eq!(cpu.step(), Ok(true));
    assert_eq!(cpu.registers.a, 0x11);
    assert_eq!(cpu.registers.get_hl(), 0xC901);
    assert_eq!(cpu.step(), Ok(true));
    assert_eq!(cpu.registers.a, 0x22);
}

#[test]
fn test_bit_res_set() {
    // CB 40: BIT 0,B ; CB C0: SET 0,B ; CB 80: RES 0,B
    let mut cpu = cpu_with_program(&[0xCB, 0xC0, 0xCB, 0x40, 0xCB, 0x80]);
    cpu.registers.b = 0;
    assert_eq!(cpu.step(), Ok(true));
    assert_eq!(cpu.registers.b, 1);
    assert_eq!(cpu.step(), Ok(true));
    assert!(cpu.registers.f.zero); // this engine stores the tested bit itself
    assert_eq!(cpu.step(), Ok(true));
    assert_eq!(cpu.registers.b, 0);
}
