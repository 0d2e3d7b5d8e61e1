use gbemu_rs::cpu::CPU;
use gbemu_rs::opcode::{
    ADDHLOperand, ALUOperand, BitPosition, IncDecTarget, Indirect, JCondition, LDSource,
    LDTarget, LDType, LDWordTarget, Opcode, PrefixOperand, PrefixedOpcode, RSTAddress,
    StackTarget,
};
use gbemu_rs::registers::Flag;

fn machine(program: &[u8]) -> CPU {
    let mut rom = vec![0u8; 0x8000];
    let mut i = 0;
    while i < program.len() {
        rom[0x100 + i] = program[i];
        i += 1;
    }
    CPU::new(rom, None, false).unwrap()
}

fn steps(cpu: &mut CPU, n: usize) -> u32 {
    let mut total = 0u32;
    let mut i = 0;
    while i < n {
        total += cpu.step().unwrap() as u32;
        i += 1;
    }
    total
}

#[test]
fn load_then_increment() {
    let mut rom = vec![0u8; 0x8000];
    rom[0] = 0x3E;
    rom[1] = 0x05;
    rom[2] = 0x3C;
    let mut cpu = CPU::new(rom, None, false).unwrap();
    cpu.reg.pc = 0;
    let first = cpu.step().unwrap();
    assert_eq!(cpu.reg.a, 5);
    assert_eq!(cpu.reg.pc, 2);
    let second = cpu.step().unwrap();
    assert_eq!(cpu.reg.a, 6);
    assert_eq!(cpu.reg.pc, 3);
    assert!(!cpu.reg.get_flag(Flag::Z));
    assert!(!cpu.reg.get_flag(Flag::N));
    assert!(!cpu.reg.get_flag(Flag::H));
    assert_eq!(first, 8);
    assert_eq!(second, 4);
    assert_eq!(first as u32 + second as u32, 12);
}

#[test]
fn new_machine() {
    let cpu = machine(&[]);
    assert_eq!(cpu.reg.pc, 0x100);
    assert!(cpu.running);
    assert!(cpu.ime);
    assert!(!cpu.debug);
    assert!(!cpu.stepping);
    assert_eq!(cpu.breakpoints, vec![0u16]);
    assert!(CPU::new(vec![0u8; 0x100], None, false).is_err());
    assert!(CPU::new(vec![0u8; 0x8000], Some(vec![0u8; 0xFF]), false).is_err());
    let booted = CPU::new(vec![0u8; 0x8000], Some(vec![0x31u8; 0x100]), true).unwrap();
    assert_eq!(booted.reg.pc, 0);
    assert!(booted.debug);
    assert_eq!(booted.memory_bus.read_byte(0), 0x31);
    assert_eq!(cpu.pixel_buffer().len(), 160 * 144);
    assert_eq!(CPU::calculate_cycles(70224999), 70224);
    assert_eq!(CPU::calculate_cycles(999), 0);
}

#[test]
fn decode_samples() {
    assert_eq!(Opcode::try_from(0x00), Ok(Opcode::NOP));
    assert_eq!(Opcode::try_from(0x01), Ok(Opcode::LD(LDType::Word(LDWordTarget::BC))));
    assert_eq!(Opcode::try_from(0x08), Ok(Opcode::LD(LDType::IndirectFromSP)));
    assert_eq!(Opcode::try_from(0x09), Ok(Opcode::ADDHL(ADDHLOperand::BC)));
    assert_eq!(
        Opcode::try_from(0x22),
        Ok(Opcode::LD(LDType::IndirectFromA(Indirect::HLIndirectInc)))
    );
    assert_eq!(
        Opcode::try_from(0x3A),
        Ok(Opcode::LD(LDType::AFromIndirect(Indirect::HLIndirectDec)))
    );
    assert_eq!(Opcode::try_from(0x34), Ok(Opcode::INC(IncDecTarget::HLIndirect)));
    assert_eq!(
        Opcode::try_from(0x36),
        Ok(Opcode::LD(LDType::Byte(LDTarget::HLIndirect, LDSource::D8)))
    );
    assert_eq!(Opcode::try_from(0x41), Ok(Opcode::LD(LDType::Byte(LDTarget::B, LDSource::C))));
    assert_eq!(Opcode::try_from(0x76), Ok(Opcode::HALT));
    assert_eq!(Opcode::try_from(0x7E), Ok(Opcode::LD(LDType::Byte(LDTarget::A, LDSource::HLIndirect))));
    assert_eq!(Opcode::try_from(0x86), Ok(Opcode::ADD(ALUOperand::HLIndirect)));
    assert_eq!(Opcode::try_from(0xA8), Ok(Opcode::XOR(ALUOperand::B)));
    assert_eq!(Opcode::try_from(0xB0), Ok(Opcode::OR(ALUOperand::B)));
    assert_eq!(Opcode::try_from(0xBF), Ok(Opcode::CP(ALUOperand::A)));
    assert_eq!(Opcode::try_from(0xC3), Ok(Opcode::JP(JCondition::Nothing)));
    assert_eq!(Opcode::try_from(0xC8), Ok(Opcode::RET(JCondition::Z)));
    assert_eq!(Opcode::try_from(0xCB), Ok(Opcode::PREFIX));
    assert_eq!(Opcode::try_from(0xD4), Ok(Opcode::CALL(JCondition::NC)));
    assert_eq!(Opcode::try_from(0xDF), Ok(Opcode::RST(RSTAddress::X18)));
    assert_eq!(Opcode::try_from(0xE0), Ok(Opcode::LD(LDType::AddressFromA)));
    assert_eq!(Opcode::try_from(0xF0), Ok(Opcode::LD(LDType::AFromAddress)));
    assert_eq!(
        Opcode::try_from(0xE2),
        Ok(Opcode::LD(LDType::IndirectFromA(Indirect::LastByteIndirect)))
    );
    assert_eq!(
        Opcode::try_from(0xFA),
        Ok(Opcode::LD(LDType::AFromIndirect(Indirect::WordIndirect)))
    );
    assert_eq!(Opcode::try_from(0xF1), Ok(Opcode::POP(StackTarget::AF)));
    assert_eq!(Opcode::try_from(0xF8), Ok(Opcode::LD(LDType::HLFromSPOffset)));
    assert_eq!(Opcode::try_from(0xF9), Ok(Opcode::LD(LDType::SPFromHL)));
    assert_eq!(Opcode::try_from(0xFE), Ok(Opcode::CP(ALUOperand::D8)));
}

#[test]
fn undefined_opcodes() {
    let undefined = [0x10u8, 0xD3, 0xDB, 0xDD, 0xE3, 0xE4, 0xEB, 0xEC, 0xED, 0xF4, 0xFC, 0xFD];
    let mut count = 0;
    let mut b: u16 = 0;
    while b < 256 {
        let r = Opcode::try_from(b as u8);
        if undefined.contains(&(b as u8)) {
            assert_eq!(r, Err("unknown opcode"));
        } else {
            assert!(r.is_ok());
            count += 1;
        }
        b += 1;
    }
    assert_eq!(count, 244);
}

#[test]
fn prefixed_decode_samples() {
    assert_eq!(PrefixedOpcode::try_from(0x00), Ok(PrefixedOpcode::RLC(PrefixOperand::B)));
    assert_eq!(PrefixedOpcode::try_from(0x0F), Ok(PrefixedOpcode::RRC(PrefixOperand::A)));
    assert_eq!(PrefixedOpcode::try_from(0x16), Ok(PrefixedOpcode::RL(PrefixOperand::HLIndirect)));
    assert_eq!(PrefixedOpcode::try_from(0x19), Ok(PrefixedOpcode::RR(PrefixOperand::C)));
    assert_eq!(PrefixedOpcode::try_from(0x22), Ok(PrefixedOpcode::SLA(PrefixOperand::D)));
    assert_eq!(PrefixedOpcode::try_from(0x2B), Ok(PrefixedOpcode::SRA(PrefixOperand::E)));
    assert_eq!(PrefixedOpcode::try_from(0x34), Ok(PrefixedOpcode::SWAP(PrefixOperand::H)));
    assert_eq!(PrefixedOpcode::try_from(0x3D), Ok(PrefixedOpcode::SRL(PrefixOperand::L)));
    assert_eq!(
        PrefixedOpcode::try_from(0x7C),
        Ok(PrefixedOpcode::BIT(PrefixOperand::H, BitPosition::B7))
    );
    assert_eq!(
        PrefixedOpcode::try_from(0x86),
        Ok(PrefixedOpcode::RES(PrefixOperand::HLIndirect, BitPosition::B0))
    );
    assert_eq!(
        PrefixedOpcode::try_from(0xFF),
        Ok(PrefixedOpcode::SET(PrefixOperand::A, BitPosition::B7))
    );
}

#[test]
fn undefined_opcode_stops_the_step() {
    let mut cpu = machine(&[0x00, 0xD3]);
    assert_eq!(cpu.step(), Ok(4));
    assert_eq!(cpu.fetch_byte(), Err("unknown opcode"));
    assert_eq!(cpu.step(), Err("unknown opcode"));
    assert_eq!(cpu.reg.pc, 0x101);
    assert_eq!(cpu.cycle(), Err("unknown opcode"));
    let (cycles, undefined) = cpu.run(1000);
    assert_eq!(cycles, 0);
    assert!(undefined);
}

#[test]
fn byte_loads() {
    let mut cpu = machine(&[
        0x06, 0x12, // LD B,0x12
        0x48, // LD C,B
        0x21, 0x00, 0xC0, // LD HL,0xC000
        0x70, // LD (HL),B
        0x5E, // LD E,(HL)
        0x36, 0x99, // LD (HL),0x99
        0x7E, // LD A,(HL)
    ]);
    assert_eq!(steps(&mut cpu, 7), 8 + 4 + 12 + 8 + 8 + 12 + 8);
    assert_eq!(cpu.reg.b, 0x12);
    assert_eq!(cpu.reg.c, 0x12);
    assert_eq!(cpu.reg.e, 0x12);
    assert_eq!(cpu.reg.a, 0x99);
    assert_eq!(cpu.reg.hl(), 0xC000);
    assert_eq!(cpu.memory_bus.read_byte(0xC000), 0x99);
    assert_eq!(cpu.reg.pc, 0x100 + 11);
}

#[test]
fn word_loads_are_little_endian() {
    let mut cpu = machine(&[
        0x01, 0x34, 0x12, // LD BC,0x1234
        0x11, 0x78, 0x56, // LD DE,0x5678
        0x31, 0xFE, 0xDF, // LD SP,0xDFFE
        0x08, 0x00, 0xC1, // LD (0xC100),SP
        0x21, 0xCD, 0xAB, // LD HL,0xABCD
        0xF9, // LD SP,HL
    ]);
    assert_eq!(steps(&mut cpu, 6), 12 + 12 + 12 + 20 + 12 + 8);
    assert_eq!(cpu.reg.bc(), 0x1234);
    assert_eq!(cpu.reg.de(), 0x5678);
    assert_eq!(cpu.memory_bus.read_byte(0xC100), 0xFE);
    assert_eq!(cpu.memory_bus.read_byte(0xC101), 0xDF);
    assert_eq!(cpu.reg.sp, 0xABCD);
}

#[test]
fn indirect_loads_move_hl_after_the_access() {
    let mut cpu = machine(&[
        0x21, 0x00, 0xC0, // LD HL,0xC000
        0x3E, 0x11, // LD A,0x11
        0x22, // LD (HL+),A
        0x3E, 0x22, // LD A,0x22
        0x32, // LD (HL-),A
        0x2A, // LD A,(HL+)
        0x3A, // LD A,(HL-)
        0x01, 0x01, 0xC0, // LD BC,0xC001
        0x0A, // LD A,(BC)
        0x11, 0x02, 0xC0, // LD DE,0xC002
        0x12, // LD (DE),A
    ]);
    assert_eq!(steps(&mut cpu, 3), 12 + 8 + 8);
    assert_eq!(cpu.memory_bus.read_byte(0xC000), 0x11);
    assert_eq!(cpu.reg.hl(), 0xC001);
    steps(&mut cpu, 2);
    assert_eq!(cpu.memory_bus.read_byte(0xC001), 0x22);
    assert_eq!(cpu.reg.hl(), 0xC000);
    steps(&mut cpu, 1);
    assert_eq!(cpu.reg.a, 0x11);
    assert_eq!(cpu.reg.hl(), 0xC001);
    steps(&mut cpu, 1);
    assert_eq!(cpu.reg.a, 0x22);
    assert_eq!(cpu.reg.hl(), 0xC000);
    assert_eq!(steps(&mut cpu, 4), 12 + 8 + 12 + 8);
    assert_eq!(cpu.memory_bus.read_byte(0xC002), 0x22);
}

#[test]
fn high_page_and_absolute_loads() {
    let mut cpu = machine(&[
        0x3E, 0x5A, // LD A,0x5A
        0xE0, 0x80, // LDH (0x80),A
        0x0E, 0x81, // LD C,0x81
        0xE2, // LD (C),A
        0xEA, 0x10, 0xC0, // LD (0xC010),A
        0x3E, 0x00, // LD A,0
        0xF0, 0x80, // LDH A,(0x80)
        0x47, // LD B,A
        0x3E, 0x00, // LD A,0
        0xF2, // LD A,(C)
        0x57, // LD D,A
        0x3E, 0x00, // LD A,0
        0xFA, 0x10, 0xC0, // LD A,(0xC010)
    ]);
    assert_eq!(steps(&mut cpu, 4), 8 + 12 + 8 + 8);
    assert_eq!(cpu.memory_bus.read_byte(0xFF80), 0x5A);
    assert_eq!(cpu.memory_bus.read_byte(0xFF81), 0x5A);
    assert_eq!(steps(&mut cpu, 1), 16);
    assert_eq!(cpu.memory_bus.read_byte(0xC010), 0x5A);
    assert_eq!(steps(&mut cpu, 2), 8 + 12);
    assert_eq!(cpu.reg.a, 0x5A);
    assert_eq!(steps(&mut cpu, 3), 4 + 8 + 8);
    assert_eq!(cpu.reg.a, 0x5A);
    assert_eq!(steps(&mut cpu, 3), 4 + 8 + 16);
    assert_eq!(cpu.reg.a, 0x5A);
    assert_eq!(cpu.reg.b, 0x5A);
    assert_eq!(cpu.reg.d, 0x5A);
}

#[test]
fn sp_plus_offset_into_hl() {
    let mut cpu = machine(&[
        0x31, 0x00, 0xD0, // LD SP,0xD000
        0xF8, 0xFE, // LD HL,SP-2
        0xE8, 0x7F, // ADD SP,0x7F
        0xF8, 0x01, // LD HL,SP+1
    ]);
    assert_eq!(steps(&mut cpu, 2), 12 + 12);
    assert_eq!(cpu.reg.hl(), 0xCFFE);
    assert_eq!(cpu.reg.sp, 0xD000);
    assert_eq!(cpu.reg.f, 0x00);
    assert_eq!(steps(&mut cpu, 1), 16);
    assert_eq!(cpu.reg.sp, 0xD07F);
    assert_eq!(steps(&mut cpu, 1), 12);
    assert_eq!(cpu.reg.hl(), 0xD080);
    assert_eq!(cpu.reg.f, 0x20);
}

#[test]
fn increments_and_decrements() {
    let mut cpu = machine(&[
        0x04, // INC B
        0x0D, // DEC C
        0x03, // INC BC
        0x1B, // DEC DE
        0x21, 0x00, 0xC0, // LD HL,0xC000
        0x34, // INC (HL)
        0x35, // DEC (HL)
        0x35, // DEC (HL)
        0x33, // INC SP
        0x2B, // DEC HL
    ]);
    assert_eq!(steps(&mut cpu, 2), 8);
    assert_eq!(cpu.reg.b, 1);
    assert_eq!(cpu.reg.c, 0xFF);
    assert_eq!(cpu.reg.f, 0x60);
    assert_eq!(steps(&mut cpu, 2), 16);
    assert_eq!(cpu.reg.bc(), 0x0200);
    assert_eq!(cpu.reg.de(), 0xFFFF);
    assert_eq!(cpu.reg.f, 0x60);
    assert_eq!(steps(&mut cpu, 2), 12 + 12);
    assert_eq!(cpu.memory_bus.read_byte(0xC000), 1);
    assert_eq!(steps(&mut cpu, 2), 24);
    assert_eq!(cpu.memory_bus.read_byte(0xC000), 0xFF);
    assert_eq!(cpu.reg.f, 0x60);
    assert_eq!(steps(&mut cpu, 2), 16);
    assert_eq!(cpu.reg.sp, 1);
    assert_eq!(cpu.reg.hl(), 0xBFFF);
}

#[test]
fn arithmetic_on_registers_memory_and_immediates() {
    let mut cpu = machine(&[
        0x3E, 0x0F, // LD A,0x0F
        0x06, 0x01, // LD B,1
        0x80, // ADD A,B
        0xC6, 0xF0, // ADD A,0xF0
        0x21, 0x00, 0xC0, // LD HL,0xC000
        0x36, 0x05, // LD (HL),5
        0x86, // ADD A,(HL)
        0x96, // SUB (HL)
        0xD6, 0x01, // SUB 1
        0xCE, 0x00, // ADC A,0
        0xE6, 0x0F, // AND 0x0F
        0xF6, 0xF0, // OR 0xF0
        0xEE, 0xFF, // XOR 0xFF
        0xFE, 0x00, // CP 0
        0x9F, // SBC A,A
        0x09, // ADD HL,BC
        0x29, // ADD HL,HL
    ]);
    assert_eq!(steps(&mut cpu, 3), 8 + 8 + 4);
    assert_eq!(cpu.reg.a, 0x10);
    assert_eq!(cpu.reg.f, 0x20);
    assert_eq!(steps(&mut cpu, 1), 8);
    assert_eq!(cpu.reg.a, 0x00);
    assert_eq!(cpu.reg.f, 0x90);
    assert_eq!(steps(&mut cpu, 3), 12 + 12 + 8);
    assert_eq!(cpu.reg.a, 0x05);
    assert_eq!(steps(&mut cpu, 1), 8);
    assert_eq!(cpu.reg.a, 0x00);
    assert_eq!(cpu.reg.f, 0xC0);
    assert_eq!(steps(&mut cpu, 1), 8);
    assert_eq!(cpu.reg.a, 0xFF);
    assert_eq!(cpu.reg.f, 0x70);
    assert_eq!(steps(&mut cpu, 1), 8);
    assert_eq!(cpu.reg.a, 0x00);
    assert_eq!(cpu.reg.f, 0xB0);
    steps(&mut cpu, 1);
    assert_eq!(cpu.reg.a, 0x00);
    assert_eq!(cpu.reg.f, 0xA0);
    steps(&mut cpu, 1);
    assert_eq!(cpu.reg.a, 0xF0);
    assert_eq!(cpu.reg.f, 0x00);
    steps(&mut cpu, 1);
    assert_eq!(cpu.reg.a, 0x0F);
    steps(&mut cpu, 1);
    assert_eq!(cpu.reg.a, 0x0F);
    assert_eq!(cpu.reg.f, 0x40);
    assert_eq!(steps(&mut cpu, 1), 4);
    assert_eq!(cpu.reg.a, 0x00);
    assert_eq!(cpu.reg.f, 0xC0);
    assert_eq!(steps(&mut cpu, 2), 16);
    assert_eq!(cpu.reg.hl(), 0x8200);
    assert_eq!(cpu.reg.f, 0x90);
}

#[test]
fn accumulator_rotates_clear_zero() {
    let mut cpu = machine(&[
        0x3E, 0x80, // LD A,0x80
        0x07, // RLCA
        0x0F, // RRCA
        0x17, // RLA
        0x1F, // RRA
        0x3E, 0x00, // LD A,0
        0x07, // RLCA
        0x2F, // CPL
        0x37, // SCF
        0x3F, // CCF
        0x27, // DAA
    ]);
    assert_eq!(steps(&mut cpu, 2), 12);
    assert_eq!(cpu.reg.a, 0x01);
    assert_eq!(cpu.reg.f, 0x10);
    steps(&mut cpu, 1);
    assert_eq!(cpu.reg.a, 0x80);
    assert_eq!(cpu.reg.f, 0x10);
    steps(&mut cpu, 1);
    assert_eq!(cpu.reg.a, 0x01);
    assert_eq!(cpu.reg.f, 0x10);
    steps(&mut cpu, 1);
    assert_eq!(cpu.reg.a, 0x80);
    assert_eq!(cpu.reg.f, 0x10);
    steps(&mut cpu, 2);
    assert_eq!(cpu.reg.a, 0x00);
    assert_eq!(cpu.reg.f, 0x00);
    assert_eq!(steps(&mut cpu, 4), 16);
    assert_eq!(cpu.reg.a, 0x65);
    assert_eq!(cpu.reg.f, 0x10);
}

#[test]
fn jumps() {
    let mut cpu = machine(&[
        0xC3, 0x10, 0x01, // JP 0x0110
    ]);
    assert_eq!(cpu.step(), Ok(16));
    assert_eq!(cpu.reg.pc, 0x0110);

    let mut cpu = machine(&[
        0xAF, // XOR A  (Z set)
        0xC2, 0x00, 0x02, // JP NZ,0x0200 (not taken)
        0xCA, 0x00, 0x02, // JP Z,0x0200 (taken)
    ]);
    assert_eq!(steps(&mut cpu, 2), 4 + 12);
    assert_eq!(cpu.reg.pc, 0x104);
    assert_eq!(cpu.step(), Ok(16));
    assert_eq!(cpu.reg.pc, 0x0200);

    let mut cpu = machine(&[
        0x21, 0x34, 0x12, // LD HL,0x1234
        0xE9, // JP HL
    ]);
    assert_eq!(steps(&mut cpu, 2), 12 + 4);
    assert_eq!(cpu.reg.pc, 0x1234);

    let mut cpu = machine(&[
        0x37, // SCF
        0xD2, 0x00, 0x02, // JP NC (not taken)
        0xDA, 0x00, 0x03, // JP C (taken)
    ]);
    assert_eq!(steps(&mut cpu, 3), 4 + 12 + 16);
    assert_eq!(cpu.reg.pc, 0x0300);
}

#[test]
fn relative_jumps_sign_extend() {
    let mut cpu = machine(&[
        0x18, 0x02, // JR +2
        0x00, 0x00, //
        0x18, 0xFA, // JR -6
    ]);
    assert_eq!(cpu.step(), Ok(12));
    assert_eq!(cpu.reg.pc, 0x104);
    assert_eq!(cpu.step(), Ok(12));
    assert_eq!(cpu.reg.pc, 0x100);

    let mut cpu = machine(&[
        0xAF, // XOR A (Z set, C clear)
        0x20, 0x10, // JR NZ (not taken)
        0x38, 0x10, // JR C (not taken)
        0x30, 0x80, // JR NC,-128 (taken)
    ]);
    assert_eq!(steps(&mut cpu, 3), 4 + 8 + 8);
    assert_eq!(cpu.reg.pc, 0x105);
    assert_eq!(cpu.step(), Ok(12));
    assert_eq!(cpu.reg.pc, 0x107 - 128);

    let mut cpu = machine(&[0xAF, 0x28, 0x7F]);
    assert_eq!(steps(&mut cpu, 2), 4 + 12);
    assert_eq!(cpu.reg.pc, 0x103 + 127);
}

#[test]
fn calls_and_returns() {
    let mut cpu = machine(&[
        0x31, 0x00, 0xD0, // LD SP,0xD000
        0xCD, 0x10, 0x01, // CALL 0x0110
        0x00, 0x00, 0x00, 0x00, 0x00, 0x00, 0x00, 0x00, 0x00, 0x00, //
        0xC9, // 0x0110: RET
    ]);
    assert_eq!(steps(&mut cpu, 2), 12 + 24);
    assert_eq!(cpu.reg.pc, 0x0110);
    assert_eq!(cpu.reg.sp, 0xCFFE);
    assert_eq!(cpu.memory_bus.read_byte(0xCFFF), 0x01);
    assert_eq!(cpu.memory_bus.read_byte(0xCFFE), 0x06);
    assert_eq!(cpu.step(), Ok(16));
    assert_eq!(cpu.reg.pc, 0x0106);
    assert_eq!(cpu.reg.sp, 0xD000);
}

#[test]
fn conditional_calls_and_returns_cost_more_when_taken() {
    let mut cpu = machine(&[
        0x31, 0x00, 0xD0, // LD SP,0xD000
        0xAF, // XOR A (Z set)
        0xC4, 0x00, 0x02, // CALL NZ (not taken)
        0xCC, 0x10, 0x01, // CALL Z,0x0110 (taken)
        0x00, 0x00, 0x00, 0x00, 0x00, 0x00, //
        0xC0, // 0x0110: RET NZ (not taken)
        0xC8, // RET Z (taken)
    ]);
    assert_eq!(steps(&mut cpu, 3), 12 + 4 + 12);
    assert_eq!(cpu.reg.pc, 0x107);
    assert_eq!(cpu.step(), Ok(24));
    assert_eq!(cpu.reg.pc, 0x110);
    assert_eq!(cpu.step(), Ok(8));
    assert_eq!(cpu.reg.pc, 0x111);
    assert_eq!(cpu.step(), Ok(20));
    assert_eq!(cpu.reg.pc, 0x10A);
    assert_eq!(cpu.reg.sp, 0xD000);
}

#[test]
fn restart_and_reti() {
    let mut rom = vec![0u8; 0x8000];
    rom[0x100] = 0xF3; // DI
    rom[0x101] = 0xEF; // RST 0x28
    rom[0x28] = 0xD9; // RETI
    let mut cpu = CPU::new(rom, None, false).unwrap();
    cpu.reg.sp = 0xD000;
    assert_eq!(cpu.step(), Ok(4));
    assert!(!cpu.ime);
    assert_eq!(cpu.step(), Ok(16));
    assert_eq!(cpu.reg.pc, 0x28);
    assert_eq!(cpu.reg.sp, 0xCFFE);
    assert_eq!(cpu.step(), Ok(16));
    assert_eq!(cpu.reg.pc, 0x102);
    assert!(cpu.ime);
}

#[test]
fn push_and_pop() {
    let mut cpu = machine(&[
        0x31, 0x00, 0xD0, // LD SP,0xD000
        0x01, 0x34, 0x12, // LD BC,0x1234
        0xC5, // PUSH BC
        0xD1, // POP DE
        0x21, 0xFF, 0xAB, // LD HL,0xABFF
        0xE5, // PUSH HL
        0xF1, // POP AF
        0xF5, // PUSH AF
        0xE1, // POP HL
    ]);
    assert_eq!(steps(&mut cpu, 3), 12 + 12 + 16);
    assert_eq!(cpu.reg.sp, 0xCFFE);
    assert_eq!(cpu.memory_bus.read_byte(0xCFFF), 0x12);
    assert_eq!(cpu.memory_bus.read_byte(0xCFFE), 0x34);
    assert_eq!(cpu.step(), Ok(12));
    assert_eq!(cpu.reg.de(), 0x1234);
    assert_eq!(cpu.reg.sp, 0xD000);
    steps(&mut cpu, 3);
    assert_eq!(cpu.reg.a, 0xAB);
    assert_eq!(cpu.reg.f, 0xF0);
    steps(&mut cpu, 2);
    assert_eq!(cpu.reg.hl(), 0xABF0);
}

#[test]
fn stack_pointer_wraps() {
    let mut cpu = machine(&[0xC5]);
    cpu.reg.sp = 0;
    cpu.reg.set_bc(0xBEEF);
    assert_eq!(cpu.step(), Ok(16));
    assert_eq!(cpu.reg.sp, 0xFFFE);
    assert_eq!(cpu.memory_bus.read_byte(0xFFFE), 0xEF);
    assert_eq!(cpu.memory_bus.read_byte(0xFFFF), 0x1E);
}

#[test]
fn prefixed_operations() {
    let mut cpu = machine(&[
        0x06, 0x81, // LD B,0x81
        0xCB, 0x00, // RLC B
        0xCB, 0x38, // SRL B
        0xCB, 0x30, // SWAP B
        0xCB, 0x40, // BIT 0,B
        0xCB, 0x60, // BIT 4,B
        0xCB, 0xC0, // SET 0,B
        0xCB, 0xA0, // RES 4,B
        0x21, 0x00, 0xC0, // LD HL,0xC000
        0xCB, 0xFE, // SET 7,(HL)
        0xCB, 0x7E, // BIT 7,(HL)
        0xCB, 0x2E, // SRA (HL)
        0xCB, 0xBE, // RES 7,(HL)
        0xCB, 0x16, // RL (HL)
    ]);
    assert_eq!(steps(&mut cpu, 2), 8 + 8);
    assert_eq!(cpu.reg.b, 0x03);
    assert_eq!(cpu.reg.f, 0x10);
    assert_eq!(cpu.reg.pc, 0x104);
    assert_eq!(steps(&mut cpu, 1), 8);
    assert_eq!(cpu.reg.b, 0x01);
    assert_eq!(cpu.reg.f, 0x10);
    steps(&mut cpu, 1);
    assert_eq!(cpu.reg.b, 0x10);
    assert_eq!(cpu.reg.f, 0x00);
    steps(&mut cpu, 1);
    assert_eq!(cpu.reg.b, 0x10);
    assert_eq!(cpu.reg.f, 0xA0);
    steps(&mut cpu, 1);
    assert_eq!(cpu.reg.f, 0x20);
    steps(&mut cpu, 1);
    assert_eq!(cpu.reg.b, 0x11);
    assert_eq!(cpu.reg.f, 0x20);
    steps(&mut cpu, 1);
    assert_eq!(cpu.reg.b, 0x01);
    assert_eq!(steps(&mut cpu, 2), 12 + 16);
    assert_eq!(cpu.memory_bus.read_byte(0xC000), 0x80);
    assert_eq!(steps(&mut cpu, 1), 12);
    assert_eq!(cpu.reg.f, 0x20);
    assert_eq!(steps(&mut cpu, 1), 16);
    assert_eq!(cpu.memory_bus.read_byte(0xC000), 0xC0);
    assert_eq!(cpu.reg.f, 0x00);
    steps(&mut cpu, 1);
    assert_eq!(cpu.memory_bus.read_byte(0xC000), 0x40);
    steps(&mut cpu, 1);
    assert_eq!(cpu.memory_bus.read_byte(0xC000), 0x80);
    assert_eq!(cpu.reg.f, 0x00);
    assert_eq!(cpu.reg.pc, 0x100 + 29);
}

#[test]
fn ei_takes_effect_at_once() {
    let mut cpu = machine(&[
        0xFB, // EI
        0x3C, // INC A
    ]);
    cpu.reg.sp = 0xD000;
    cpu.ime = false;
    cpu.memory_bus.write_byte(0xFFFF, 0x01);
    cpu.memory_bus.write_byte(0xFF0F, 0x01);
    assert_eq!(cpu.step(), Ok(4));
    assert!(cpu.ime);
    assert_eq!(cpu.reg.pc, 0x101);
    assert_eq!(cpu.step(), Ok(20));
    assert_eq!(cpu.reg.pc, 0x40);
    assert_eq!(cpu.reg.a, 0);
    assert!(!cpu.ime);
    assert_eq!(cpu.memory_bus.read_byte(0xCFFE), 0x01);
    assert_eq!(cpu.memory_bus.read_byte(0xCFFF), 0x01);
}

#[test]
fn interrupts_are_dispatched_by_priority() {
    let mut cpu = machine(&[0x00, 0x00]);
    cpu.reg.sp = 0xD000;
    cpu.memory_bus.write_byte(0xFFFF, 0x1F);
    cpu.memory_bus.write_byte(0xFF0F, 0x14);
    assert_eq!(cpu.due(), Some(gbemu_rs::memory_bus::InterruptKind::Timer));
    assert_eq!(cpu.step(), Ok(20));
    assert_eq!(cpu.reg.pc, 0x50);
    assert_eq!(cpu.reg.sp, 0xCFFE);
    assert_eq!(cpu.memory_bus.read_byte(0xCFFF), 0x01);
    assert_eq!(cpu.memory_bus.read_byte(0xCFFE), 0x00);
    assert!(!cpu.ime);
    assert_eq!(cpu.memory_bus.read_byte(0xFF0F), 0x10);
    assert_eq!(cpu.step(), Ok(4));
    assert_eq!(cpu.reg.pc, 0x51);
    assert_eq!(cpu.memory_bus.read_byte(0xFF0F), 0x10);
}

#[test]
fn every_interrupt_has_its_vector() {
    let vectors: [(u8, u16); 5] = [(0x01, 0x40), (0x02, 0x48), (0x04, 0x50), (0x08, 0x58), (0x10, 0x60)];
    for (bit, vector) in vectors {
        let mut cpu = machine(&[0x00]);
        cpu.reg.sp = 0xD000;
        cpu.memory_bus.write_byte(0xFFFF, 0x1F);
        cpu.memory_bus.write_byte(0xFF0F, bit);
        assert_eq!(cpu.step(), Ok(20));
        assert_eq!(cpu.reg.pc, vector);
        assert_eq!(cpu.memory_bus.read_byte(0xFF0F), 0);
    }
}

#[test]
fn disabled_interrupts_are_not_dispatched() {
    let mut cpu = machine(&[0x00, 0x00]);
    cpu.memory_bus.write_byte(0xFFFF, 0x02);
    cpu.memory_bus.write_byte(0xFF0F, 0x01);
    assert_eq!(cpu.due(), None);
    assert_eq!(cpu.step(), Ok(4));
    assert_eq!(cpu.reg.pc, 0x101);
    let mut cpu = machine(&[0x00, 0x00]);
    cpu.ime = false;
    cpu.memory_bus.write_byte(0xFFFF, 0x01);
    cpu.memory_bus.write_byte(0xFF0F, 0x01);
    assert_eq!(cpu.due(), None);
    assert_eq!(steps(&mut cpu, 2), 8);
    assert_eq!(cpu.reg.pc, 0x102);
    assert_eq!(cpu.memory_bus.read_byte(0xFF0F), 0x01);
}

#[test]
fn halt_waits_for_an_interrupt() {
    let mut cpu = machine(&[0x76, 0x3C]);
    cpu.reg.sp = 0xD000;
    cpu.memory_bus.write_byte(0xFFFF, 0x04);
    assert_eq!(cpu.step(), Ok(4));
    assert!(!cpu.running);
    assert_eq!(cpu.reg.pc, 0x101);
    assert_eq!(cpu.step(), Ok(4));
    assert_eq!(cpu.step(), Ok(4));
    assert_eq!(cpu.reg.pc, 0x101);
    assert_eq!(cpu.reg.a, 0);
    cpu.memory_bus.write_byte(0xFF0F, 0x04);
    assert_eq!(cpu.step(), Ok(20));
    assert!(cpu.running);
    assert_eq!(cpu.reg.pc, 0x50);
}

#[test]
fn halt_wakes_without_dispatch_when_the_master_enable_is_off() {
    let mut cpu = machine(&[0xF3, 0x76, 0x3C]);
    assert_eq!(steps(&mut cpu, 2), 8);
    assert!(!cpu.running);
    assert_eq!(cpu.step(), Ok(4));
    assert_eq!(cpu.reg.a, 0);
    cpu.memory_bus.write_byte(0xFF0F, 0x01);
    assert_eq!(cpu.step(), Ok(4));
    assert!(cpu.running);
    assert_eq!(cpu.reg.a, 1);
    assert_eq!(cpu.reg.pc, 0x103);
    assert_eq!(cpu.memory_bus.read_byte(0xFF0F), 0x01);
}

#[test]
fn halted_machine_is_woken_by_the_timer() {
    let mut cpu = machine(&[
        0x3E, 0x04, // LD A,4
        0xE0, 0x07, // LDH (0x07),A   timer on, 1024 cycles per count
        0x3E, 0xFF, // LD A,0xFF
        0xE0, 0x05, // LDH (0x05),A   counter at 0xFF
        0x3E, 0x04, // LD A,4
        0xE0, 0xFF, // LDH (0xFF),A   timer interrupt enabled
        0x76, // HALT
    ]);
    cpu.reg.sp = 0xD000;
    let mut total = 0u32;
    let mut i = 0;
    let mut halted_steps = 0;
    while cpu.reg.pc != 0x50 {
        total += cpu.cycle().unwrap() as u32;
        if !cpu.running {
            halted_steps += 1;
        }
        i += 1;
        assert!(i < 1000);
    }
    assert!(cpu.running);
    assert!(halted_steps > 200);
    assert_eq!(cpu.memory_bus.read_byte(0xFF05), 0x00);
    assert_eq!(cpu.memory_bus.read_byte(0xFF0F) & 0x04, 0);
    assert_eq!(total, 8 + 1024 + 20);
}

#[test]
fn run_spends_its_budget() {
    let mut cpu = machine(&[0x00, 0x00, 0x00, 0xC3, 0x00, 0x01]);
    let (cycles, undefined) = cpu.run(28);
    assert_eq!(cycles, 28);
    assert!(!undefined);
    assert_eq!(cpu.reg.pc, 0x100);
    let (cycles, undefined) = cpu.run(1);
    assert_eq!(cycles, 4);
    assert!(!undefined);
    assert_eq!(cpu.reg.pc, 0x101);
    let (cycles, _) = cpu.run(0);
    assert_eq!(cycles, 4);
    let (cycles, _) = cpu.run(9);
    assert_eq!(cycles, 20);
    assert_eq!(cpu.reg.pc, 0x100);
}

#[test]
fn run_drives_the_pixel_processor() {
    let mut cpu = machine(&[
        0x3E, 0x91, // LD A,0x91
        0xE0, 0x40, // LDH (0x40),A   display on
        0x18, 0xFE, // JR -2
    ]);
    let (cycles, undefined) = cpu.run(20 + 70224);
    assert!(!undefined);
    assert_eq!(cycles, 20 + 70224);
    assert_eq!(cpu.memory_bus.read_byte(0xFF44), 0);
    assert_eq!(cpu.memory_bus.read_byte(0xFF0F) & 0x01, 0x01);
    assert_eq!(cpu.pixel_buffer()[0], 0xffffffff);
    assert_eq!(cpu.pixel_buffer()[160 * 144 - 1], 0xffffffff);
}

#[test]
fn execute_needs_a_defined_opcode() {
    let mut cpu = machine(&[0x3E, 0x07]);
    assert!(cpu.fetch_byte().is_ok());
    assert_eq!(cpu.execute(), 8);
    assert_eq!(cpu.reg.a, 7);
    assert_eq!(cpu.execute_opcode(Opcode::INC(IncDecTarget::A)), 4);
    assert_eq!(cpu.reg.a, 8);
    assert_eq!(cpu.fetch_prefixed_byte(), PrefixedOpcode::RLC(PrefixOperand::B));
}
