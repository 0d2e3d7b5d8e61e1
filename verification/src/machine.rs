//! What each instruction does, as a function from one state of the machine
//! to the next, and what it costs in cycles.

use vstd::prelude::*;
use crate::memory::MemoryView;
use crate::memory_bus::{BusView, InterruptKind};
use crate::opcode::{
    decode, decode_prefixed, ADDHLOperand, ALUOperand, BitPosition, IncDecTarget, Indirect,
    JCondition, LDSource, LDTarget, LDType, LDWordTarget, Opcode, PrefixOperand, PrefixedOpcode,
    RSTAddress, StackTarget, WordRegister,
};
use crate::registers::{
    add_value, high_byte, low_byte, offset_value, pair, res_value, rl_value, rlc_value, rr_value,
    rrc_value, set_value, sla_value, sra_value, srl_value, sub_value, swap_value, Registers,
};

verus! {

/// The state of the machine: the registers of the processor, everything
/// behind the bus, and the processor's own flags.
pub struct CpuView {
    pub reg: Registers,
    pub bus: BusView,
    pub running: bool,
    pub ime: bool,
    pub breakpoints: Seq<u16>,
    pub debug: bool,
    pub stepping: bool,
}

/// An integer wrapped to 16 bits.
pub open spec fn wrap16(v: int) -> u16 {
    (v % 0x10000) as u16
}

/// Cycles that the dispatch of an interrupt takes.
pub const DISPATCH_CYCLES: u8 = 20;

/// Cycles that pass in one step of a halted processor.
pub const HALTED_CYCLES: u8 = 4;

impl CpuView {
    /// The machine as it starts: a fresh bus with the ROM image installed
    /// and the cartridge type taken from its header, the boot ROM mapped if
    /// there is one, all registers zero but the program counter, which is at
    /// the entry point `0x0100` of the cartridge or at the start of the boot
    /// ROM, the processor running with the master enable set, and a breakpoint
    /// at address 0.
    pub open spec fn started(rom: Seq<u8>, boot_rom: Option<Seq<u8>>, debug: bool) -> CpuView {
        let memory = MemoryView { rom, cartridge_type: rom[0x0147], ..MemoryView::fresh() };
        CpuView {
            reg: Registers {
                a: 0,
                b: 0,
                c: 0,
                d: 0,
                e: 0,
                f: 0,
                h: 0,
                l: 0,
                sp: 0,
                pc: if boot_rom is Some {
                    0u16
                } else {
                    0x100u16
                },
            },
            bus: BusView {
                memory: match boot_rom {
                    Some(image) => MemoryView { boot_rom: image, expose_boot_rom: true, ..memory },
                    None => memory,
                },
                ..BusView::fresh()
            },
            running: true,
            ime: true,
            breakpoints: seq![0u16],
            debug,
            stepping: false,
        }
    }

    /// The byte on the bus at `address`.
    pub open spec fn read(self, address: u16) -> u8 {
        self.bus.read(address)
    }

    /// The state after a write to the bus.
    pub open spec fn wrote(self, address: u16, val: u8) -> CpuView {
        CpuView { bus: self.bus.write(address, val), ..self }
    }

    /// The state with the registers replaced.
    pub open spec fn with_reg(self, reg: Registers) -> CpuView {
        CpuView { reg, ..self }
    }

    /// The state with the program counter at `pc`.
    pub open spec fn jumped(self, pc: u16) -> CpuView {
        CpuView { reg: Registers { pc, ..self.reg }, ..self }
    }

    /// The state with the program counter moved on by `n` bytes.
    pub open spec fn advanced(self, n: int) -> CpuView {
        self.jumped(wrap16(self.reg.pc + n))
    }

    /// The byte after the opcode.
    pub open spec fn imm8(self) -> u8 {
        self.read(wrap16(self.reg.pc + 1))
    }

    /// The word after the opcode, low byte first.
    pub open spec fn imm16(self) -> u16 {
        pair(self.read(wrap16(self.reg.pc + 2)), self.read(wrap16(self.reg.pc + 1)))
    }

    /// The value of an 8-bit operand: a register, or the byte at `(HL)`.
    #[verifier::opaque]
    pub open spec fn operand(self, place: PrefixOperand) -> u8 {
        match place {
            PrefixOperand::A => self.reg.a,
            PrefixOperand::B => self.reg.b,
            PrefixOperand::C => self.reg.c,
            PrefixOperand::D => self.reg.d,
            PrefixOperand::E => self.reg.e,
            PrefixOperand::H => self.reg.h,
            PrefixOperand::L => self.reg.l,
            PrefixOperand::HLIndirect => self.read(self.reg.spec_hl()),
        }
    }

    /// The state after `v` is stored in an 8-bit operand.
    #[verifier::opaque]
    pub open spec fn with_operand(self, place: PrefixOperand, v: u8) -> CpuView {
        match place {
            PrefixOperand::A => self.with_reg(Registers { a: v, ..self.reg }),
            PrefixOperand::B => self.with_reg(Registers { b: v, ..self.reg }),
            PrefixOperand::C => self.with_reg(Registers { c: v, ..self.reg }),
            PrefixOperand::D => self.with_reg(Registers { d: v, ..self.reg }),
            PrefixOperand::E => self.with_reg(Registers { e: v, ..self.reg }),
            PrefixOperand::H => self.with_reg(Registers { h: v, ..self.reg }),
            PrefixOperand::L => self.with_reg(Registers { l: v, ..self.reg }),
            PrefixOperand::HLIndirect => self.wrote(self.reg.spec_hl(), v),
        }
    }

    /// The value of an operand that may be the immediate byte.
    #[verifier::opaque]
    pub open spec fn value(self, place: Option<PrefixOperand>) -> u8 {
        match place {
            Some(p) => self.operand(p),
            None => self.imm8(),
        }
    }

    /// The value of a 16-bit register.
    #[verifier::opaque]
    pub open spec fn word(self, r: WordRegister) -> u16 {
        match r {
            WordRegister::AF => self.reg.spec_af(),
            WordRegister::BC => self.reg.spec_bc(),
            WordRegister::DE => self.reg.spec_de(),
            WordRegister::HL => self.reg.spec_hl(),
            WordRegister::SP => self.reg.sp,
        }
    }

    /// The state after `v` is stored in a 16-bit register.
    #[verifier::opaque]
    pub open spec fn with_word(self, r: WordRegister, v: u16) -> CpuView {
        match r {
            WordRegister::AF => self.with_reg(self.reg.with_af(v)),
            WordRegister::BC => self.with_reg(self.reg.with_bc(v)),
            WordRegister::DE => self.with_reg(self.reg.with_de(v)),
            WordRegister::HL => self.with_reg(self.reg.with_hl(v)),
            WordRegister::SP => self.with_reg(Registers { sp: v, ..self.reg }),
        }
    }

    /// Whether a condition holds.
    #[verifier::opaque]
    pub open spec fn holds(self, condition: JCondition) -> bool {
        match condition {
            JCondition::Nothing => true,
            JCondition::NZ => !self.reg.zf(),
            JCondition::Z => self.reg.zf(),
            JCondition::NC => !self.reg.cf(),
            JCondition::C => self.reg.cf(),
        }
    }

    /// The state after `v` is pushed: the stack pointer goes down by two,
    /// the high byte is stored above the low byte.
    #[verifier::opaque]
    pub open spec fn pushed(self, v: u16) -> CpuView {
        let top = wrap16(self.reg.sp - 2);
        self.wrote(wrap16(self.reg.sp - 1), high_byte(v)).wrote(top, low_byte(v)).with_reg(
            Registers { sp: top, ..self.reg },
        )
    }

    /// The word on top of the stack.
    #[verifier::opaque]
    pub open spec fn top(self) -> u16 {
        pair(self.read(wrap16(self.reg.sp + 1)), self.read(self.reg.sp))
    }

    /// The state after a word is popped: the stack pointer goes up by two.
    #[verifier::opaque]
    pub open spec fn popped(self) -> CpuView {
        self.with_reg(Registers { sp: wrap16(self.reg.sp + 2), ..self.reg })
    }

    /// The address that an indirect addressing mode names.
    #[verifier::opaque]
    pub open spec fn address(self, indirect: Indirect) -> u16 {
        match indirect {
            Indirect::BCIndirect => self.reg.spec_bc(),
            Indirect::DEIndirect => self.reg.spec_de(),
            Indirect::HLIndirectInc => self.reg.spec_hl(),
            Indirect::HLIndirectDec => self.reg.spec_hl(),
            Indirect::WordIndirect => self.imm16(),
            Indirect::LastByteIndirect => (0xFF00 + self.reg.c) as u16,
        }
    }

    /// The state after the access through an indirect addressing mode: `HL`
    /// is moved where the mode says so, and the program counter passes the
    /// instruction.
    #[verifier::opaque]
    pub open spec fn after_access(self, indirect: Indirect) -> CpuView {
        match indirect {
            Indirect::HLIndirectInc => self.with_word(
                WordRegister::HL,
                wrap16(self.reg.spec_hl() + 1),
            ).advanced(1),
            Indirect::HLIndirectDec => self.with_word(
                WordRegister::HL,
                wrap16(self.reg.spec_hl() - 1),
            ).advanced(1),
            Indirect::WordIndirect => self.advanced(3),
            _ => self.advanced(1),
        }
    }

    /// The state after a byte load between registers, `(HL)` and the
    /// immediate byte.
    #[verifier::opaque]
    pub open spec fn load_byte(self, target: LDTarget, source: LDSource) -> CpuView {
        self.with_operand(target.spec_place(), self.value(source.spec_place())).advanced(
            if source == LDSource::D8 {
                2
            } else {
                1
            },
        )
    }

    /// The state after a register pair is loaded with the immediate word.
    #[verifier::opaque]
    pub open spec fn load_word(self, target: LDWordTarget) -> CpuView {
        self.with_word(target.spec_word(), self.imm16()).advanced(3)
    }

    /// The state after `A` is loaded through an indirect address.
    #[verifier::opaque]
    pub open spec fn load_a(self, indirect: Indirect) -> CpuView {
        self.with_operand(PrefixOperand::A, self.read(self.address(indirect))).after_access(
            indirect,
        )
    }

    /// The state after `A` is stored through an indirect address.
    #[verifier::opaque]
    pub open spec fn store_a(self, indirect: Indirect) -> CpuView {
        self.wrote(self.address(indirect), self.reg.a).after_access(indirect)
    }

    /// The state after `A` is loaded from the high page at the immediate
    /// byte.
    #[verifier::opaque]
    pub open spec fn load_high(self) -> CpuView {
        self.with_operand(PrefixOperand::A, self.read((0xFF00 + self.imm8()) as u16)).advanced(2)
    }

    /// The state after `A` is stored in the high page at the immediate
    /// byte.
    #[verifier::opaque]
    pub open spec fn store_high(self) -> CpuView {
        self.wrote((0xFF00 + self.imm8()) as u16, self.reg.a).advanced(2)
    }

    /// The state after `SP` is stored at the immediate address, low byte
    /// first.
    #[verifier::opaque]
    pub open spec fn store_sp(self) -> CpuView {
        self.wrote(self.imm16(), low_byte(self.reg.sp)).wrote(
            wrap16(self.imm16() + 1),
            high_byte(self.reg.sp),
        ).advanced(3)
    }

    /// The state after `HL` is loaded with `SP` plus the signed immediate
    /// byte; the flags are those of the addition to `SP`.
    #[verifier::opaque]
    pub open spec fn load_hl_offset(self) -> CpuView {
        self.with_reg(
            self.reg.offset_flags(self.imm8()).with_hl(offset_value(self.reg.sp, self.imm8())),
        ).advanced(2)
    }

    /// The state after a load.
    #[verifier::opaque]
    pub open spec fn load(self, ld: LDType) -> CpuView {
        match ld {
            LDType::Byte(target, source) => self.load_byte(target, source),
            LDType::Word(target) => self.load_word(target),
            LDType::AFromIndirect(indirect) => self.load_a(indirect),
            LDType::IndirectFromA(indirect) => self.store_a(indirect),
            LDType::AFromAddress => self.load_high(),
            LDType::AddressFromA => self.store_high(),
            LDType::SPFromHL => self.with_word(WordRegister::SP, self.reg.spec_hl()).advanced(1),
            LDType::IndirectFromSP => self.store_sp(),
            LDType::HLFromSPOffset => self.load_hl_offset(),
        }
    }

    /// Cycles of a load.
    pub open spec fn load_cost(ld: LDType) -> u8 {
        match ld {
            LDType::Byte(target, source) => (4 + (if source == LDSource::D8 || source
                == LDSource::HLIndirect {
                4int
            } else {
                0int
            }) + (if target == LDTarget::HLIndirect {
                4int
            } else {
                0int
            })) as u8,
            LDType::Word(_) => 12,
            LDType::AFromIndirect(indirect) | LDType::IndirectFromA(indirect) => if indirect
                == Indirect::WordIndirect {
                16
            } else {
                8
            },
            LDType::AFromAddress | LDType::AddressFromA => 12,
            LDType::SPFromHL => 8,
            LDType::IndirectFromSP => 20,
            LDType::HLFromSPOffset => 12,
        }
    }

    /// The state after an increment (`up`) or decrement. The 8-bit forms set
    /// the flags, the 16-bit forms do not.
    #[verifier::opaque]
    pub open spec fn stepped(self, target: IncDecTarget, up: bool) -> CpuView {
        match target.spec_place() {
            Some(place) => {
                let v = self.operand(place);
                let r = if up {
                    add_value(v, 1, false)
                } else {
                    sub_value(v, 1, false)
                };
                let flags = if up {
                    self.reg.inc_flags(v)
                } else {
                    self.reg.dec_flags(v)
                };
                self.with_reg(flags).with_operand(place, r).advanced(1)
            },
            None => {
                let v = self.word(target.spec_word());
                self.with_word(
                    target.spec_word(),
                    if up {
                        wrap16(v + 1)
                    } else {
                        wrap16(v - 1)
                    },
                ).advanced(1)
            },
        }
    }

    /// Cycles of an increment or decrement.
    pub open spec fn stepped_cost(target: IncDecTarget) -> u8 {
        match target.spec_place() {
            Some(PrefixOperand::HLIndirect) => 12,
            Some(_) => 4,
            None => 8,
        }
    }

    /// The registers after the 8-bit ALU operation `op` with second operand
    /// `v`. For an opcode that is no ALU operation they are unchanged.
    #[verifier::opaque]
    pub open spec fn alu(self, op: Opcode, v: u8) -> Registers {
        match op {
            Opcode::ADD(_) => self.reg.added(v, false),
            Opcode::ADC(_) => self.reg.added(v, self.reg.cf()),
            Opcode::SUB(_) => self.reg.subtracted(v, false),
            Opcode::SBC(_) => self.reg.subtracted(v, self.reg.cf()),
            Opcode::AND(_) => self.reg.anded(v),
            Opcode::XOR(_) => self.reg.xored(v),
            Opcode::OR(_) => self.reg.ored(v),
            Opcode::CP(_) => self.reg.compared(v),
            _ => self.reg,
        }
    }

    /// The state after an 8-bit ALU instruction.
    #[verifier::opaque]
    pub open spec fn computed(self, op: Opcode, operand: ALUOperand) -> CpuView {
        self.with_reg(self.alu(op, self.value(operand.spec_place()))).advanced(
            if operand == ALUOperand::D8 {
                2
            } else {
                1
            },
        )
    }

    /// Cycles of an 8-bit ALU instruction.
    pub open spec fn computed_cost(operand: ALUOperand) -> u8 {
        if operand == ALUOperand::D8 || operand == ALUOperand::HLIndirect {
            8
        } else {
            4
        }
    }

    /// The state after a rotation of the accumulator; these clear `Z`.
    #[verifier::opaque]
    pub open spec fn rotated(self, op: Opcode) -> CpuView {
        let a = self.reg.a;
        let r = match op {
            Opcode::RLCA => rlc_value(a),
            Opcode::RRCA => rrc_value(a),
            Opcode::RLA => rl_value(a, self.reg.cf()),
            _ => rr_value(a, self.reg.cf()),
        };
        let carry = match op {
            Opcode::RLCA | Opcode::RLA => a >= 128,
            _ => a % 2 == 1,
        };
        self.with_reg(Registers { a: r, ..self.reg.shift_flags(r, false, carry) }).advanced(1)
    }

    /// The state after a jump to the immediate address.
    #[verifier::opaque]
    pub open spec fn jump(self, condition: JCondition) -> CpuView {
        if self.holds(condition) {
            self.jumped(self.imm16())
        } else {
            self.advanced(3)
        }
    }

    /// The state after a relative jump: the immediate byte is a signed
    /// offset from the address of the next instruction.
    #[verifier::opaque]
    pub open spec fn jump_relative(self, condition: JCondition) -> CpuView {
        if self.holds(condition) {
            self.jumped(offset_value(wrap16(self.reg.pc + 2), self.imm8()))
        } else {
            self.advanced(2)
        }
    }

    /// The state after a call: the address of the next instruction is
    /// pushed.
    #[verifier::opaque]
    pub open spec fn call(self, condition: JCondition) -> CpuView {
        if self.holds(condition) {
            self.pushed(wrap16(self.reg.pc + 3)).jumped(self.imm16())
        } else {
            self.advanced(3)
        }
    }

    /// The state after a return.
    #[verifier::opaque]
    pub open spec fn ret(self, condition: JCondition) -> CpuView {
        if self.holds(condition) {
            self.popped().jumped(self.top())
        } else {
            self.advanced(1)
        }
    }

    /// The state after a restart.
    #[verifier::opaque]
    pub open spec fn restart(self, address: RSTAddress) -> CpuView {
        self.pushed(wrap16(self.reg.pc + 1)).jumped(address.spec_address())
    }

    /// The state after a pop into a register pair. The low nibble of `F`
    /// cannot be set this way.
    #[verifier::opaque]
    pub open spec fn pop(self, target: StackTarget) -> CpuView {
        let v = self.top();
        let v = if target == StackTarget::AF {
            pair(high_byte(v), low_byte(v) & 0xF0)
        } else {
            v
        };
        self.popped().with_word(target.spec_word(), v).advanced(1)
    }

    /// What a prefixed operation makes of the byte `v`.
    #[verifier::opaque]
    pub open spec fn prefixed_value(self, op: PrefixedOpcode, v: u8) -> u8 {
        match op {
            PrefixedOpcode::RLC(_) => rlc_value(v),
            PrefixedOpcode::RRC(_) => rrc_value(v),
            PrefixedOpcode::RL(_) => rl_value(v, self.reg.cf()),
            PrefixedOpcode::RR(_) => rr_value(v, self.reg.cf()),
            PrefixedOpcode::SLA(_) => sla_value(v),
            PrefixedOpcode::SRA(_) => sra_value(v),
            PrefixedOpcode::SRL(_) => srl_value(v),
            PrefixedOpcode::SWAP(_) => swap_value(v),
            PrefixedOpcode::BIT(_, _) => v,
            PrefixedOpcode::RES(_, bit) => res_value(v, bit.spec_index()),
            PrefixedOpcode::SET(_, bit) => set_value(v, bit.spec_index()),
        }
    }

    /// The registers after the flags of a prefixed operation on the byte
    /// `v` are set. Clearing and setting a bit leave the flags alone.
    #[verifier::opaque]
    pub open spec fn prefixed_flags(self, op: PrefixedOpcode, v: u8) -> Registers {
        let r = self.prefixed_value(op, v);
        match op {
            PrefixedOpcode::RLC(_) | PrefixedOpcode::RL(_) | PrefixedOpcode::SLA(
                _,
            ) => self.reg.shift_flags(r, true, v >= 128),
            PrefixedOpcode::RRC(_) | PrefixedOpcode::RR(_) | PrefixedOpcode::SRA(
                _,
            ) | PrefixedOpcode::SRL(_) => self.reg.shift_flags(r, true, v % 2 == 1),
            PrefixedOpcode::SWAP(_) => self.reg.shift_flags(r, true, false),
            PrefixedOpcode::BIT(_, bit) => self.reg.bit_flags(v, bit.spec_index()),
            PrefixedOpcode::RES(_, _) | PrefixedOpcode::SET(_, _) => self.reg,
        }
    }

    /// The state after a prefixed instruction, which is two bytes long. The
    /// bit test stores nothing.
    #[verifier::opaque]
    pub open spec fn execute_prefixed(self, op: PrefixedOpcode) -> CpuView {
        let place = prefixed_operand(op);
        let v = self.operand(place);
        let flagged = self.with_reg(self.prefixed_flags(op, v));
        match op {
            PrefixedOpcode::BIT(_, _) => flagged.advanced(2),
            _ => flagged.with_operand(place, self.prefixed_value(op, v)).advanced(2),
        }
    }

    /// Cycles of a prefixed instruction.
    pub open spec fn cost_prefixed(op: PrefixedOpcode) -> u8 {
        if prefixed_operand(op) == PrefixOperand::HLIndirect {
            match op {
                PrefixedOpcode::BIT(_, _) => 12,
                _ => 16,
            }
        } else {
            8
        }
    }

    /// The prefixed operation that follows a prefix byte at the program
    /// counter.
    #[verifier::opaque]
    pub open spec fn fetched_prefixed(self) -> PrefixedOpcode {
        decode_prefixed(self.imm8())
    }

    /// The state after the instruction `op`, which begins at the program
    /// counter.
    #[verifier::opaque]
    pub open spec fn execute(self, op: Opcode) -> CpuView {
        match op {
            Opcode::NOP => self.advanced(1),
            Opcode::LD(ld) => self.load(ld),
            Opcode::INC(target) => self.stepped(target, true),
            Opcode::DEC(target) => self.stepped(target, false),
            Opcode::PUSH(target) => self.pushed(self.word(target.spec_word())).advanced(1),
            Opcode::POP(target) => self.pop(target),
            Opcode::JP(condition) => self.jump(condition),
            Opcode::JPI => self.jumped(self.reg.spec_hl()),
            Opcode::JR(condition) => self.jump_relative(condition),
            Opcode::ADD(operand) | Opcode::ADC(operand) | Opcode::SUB(operand) | Opcode::SBC(
                operand,
            ) | Opcode::AND(operand) | Opcode::OR(operand) | Opcode::XOR(operand) | Opcode::CP(
                operand,
            ) => self.computed(op, operand),
            Opcode::ADDHL(operand) => self.with_reg(
                self.reg.added_hl(self.word(operand.spec_word())),
            ).advanced(1),
            Opcode::ADDSP => self.with_reg(self.reg.added_sp(self.imm8())).advanced(2),
            Opcode::CPL => self.with_reg(self.reg.complemented()).advanced(1),
            Opcode::CCF => self.with_reg(self.reg.carry_flipped()).advanced(1),
            Opcode::SCF => self.with_reg(self.reg.carry_set()).advanced(1),
            Opcode::DAA => self.with_reg(self.reg.adjusted()).advanced(1),
            Opcode::RLCA | Opcode::RLA | Opcode::RRCA | Opcode::RRA => self.rotated(op),
            Opcode::CALL(condition) => self.call(condition),
            Opcode::RET(condition) => self.ret(condition),
            Opcode::RETI => CpuView { ime: true, ..self.ret(JCondition::Nothing) },
            Opcode::RST(address) => self.restart(address),
            Opcode::DI => CpuView { ime: false, ..self.advanced(1) },
            Opcode::EI => CpuView { ime: true, ..self.advanced(1) },
            Opcode::HALT => CpuView { running: false, ..self.advanced(1) },
            Opcode::PREFIX => self.execute_prefixed(self.fetched_prefixed()),
        }
    }

    /// Cycles of the instruction `op`, which begins at the program counter.
    /// A conditional jump, call or return costs more when it is taken.
    #[verifier::opaque]
    pub open spec fn cost(self, op: Opcode) -> u8 {
        match op {
            Opcode::NOP => 4,
            Opcode::LD(ld) => Self::load_cost(ld),
            Opcode::INC(target) | Opcode::DEC(target) => Self::stepped_cost(target),
            Opcode::PUSH(_) => 16,
            Opcode::POP(_) => 12,
            Opcode::JP(condition) => if self.holds(condition) {
                16
            } else {
                12
            },
            Opcode::JPI => 4,
            Opcode::JR(condition) => if self.holds(condition) {
                12
            } else {
                8
            },
            Opcode::ADD(operand) | Opcode::ADC(operand) | Opcode::SUB(operand) | Opcode::SBC(
                operand,
            ) | Opcode::AND(operand) | Opcode::OR(operand) | Opcode::XOR(operand) | Opcode::CP(
                operand,
            ) => Self::computed_cost(operand),
            Opcode::ADDHL(_) => 8,
            Opcode::ADDSP => 16,
            Opcode::CPL | Opcode::CCF | Opcode::SCF | Opcode::DAA => 4,
            Opcode::RLCA | Opcode::RLA | Opcode::RRCA | Opcode::RRA => 4,
            Opcode::CALL(condition) => if self.holds(condition) {
                24
            } else {
                12
            },
            Opcode::RET(condition) => if condition == JCondition::Nothing {
                16
            } else if self.holds(condition) {
                20
            } else {
                8
            },
            Opcode::RETI => 16,
            Opcode::RST(_) => 16,
            Opcode::DI | Opcode::EI | Opcode::HALT => 4,
            Opcode::PREFIX => Self::cost_prefixed(self.fetched_prefixed()),
        }
    }

    /// The instruction at the program counter, if the byte there names one.
    #[verifier::opaque]
    pub open spec fn fetched(self) -> Option<Opcode> {
        decode(self.read(self.reg.pc))
    }

    /// Whether a halted processor wakes up: an interrupt is both requested
    /// and enabled, or, with the master enable off, any interrupt is
    /// requested.
    pub open spec fn wakes(self) -> bool {
        !self.bus.pending().is_empty() || (!self.ime && !self.bus.interrupt_flag.is_empty())
    }

    /// The interrupt that is dispatched at the top of the next step, if
    /// any: with the master enable on, the requested and enabled interrupt of
    /// highest priority.
    pub open spec fn due(self) -> Option<InterruptKind> {
        if self.ime {
            self.bus.pending().spec_first()
        } else {
            None
        }
    }

    /// The state after the dispatch of interrupt `k`: the program counter is
    /// pushed, the master enable and the request are cleared, and execution
    /// continues at the vector of the interrupt.
    #[verifier::opaque]
    pub open spec fn dispatched(self, k: InterruptKind) -> CpuView {
        let s = self.pushed(self.reg.pc).jumped(k.spec_vector());
        CpuView {
            ime: false,
            running: true,
            bus: BusView { interrupt_flag: s.bus.interrupt_flag.without(k), ..s.bus },
            ..s
        }
    }

    /// The state with a halted processor woken up if it is to wake.
    pub open spec fn woken(self) -> CpuView {
        CpuView { running: self.running || self.wakes(), ..self }
    }

    /// The outcome of one step: the cycles it takes, or the refusal of an
    /// undefined opcode.
    #[verifier::opaque]
    pub open spec fn step_cycles(self) -> Option<u8> {
        let s = self.woken();
        if s.due() is Some {
            Some(20u8)
        } else if !s.running {
            Some(4u8)
        } else {
            match s.fetched() {
                Some(op) => Some(s.cost(op)),
                None => None,
            }
        }
    }

    /// The state after one step. An interrupt that is due is dispatched; a
    /// halted processor idles; otherwise the instruction at the program
    /// counter is executed, unless its opcode is undefined.
    #[verifier::opaque]
    pub open spec fn stepped_once(self) -> CpuView {
        let s = self.woken();
        match s.due() {
            Some(k) => s.dispatched(k),
            None => if !s.running {
                s
            } else {
                match s.fetched() {
                    Some(op) => s.execute(op),
                    None => s,
                }
            },
        }
    }

    /// The state after one step and the run of the pixel processor and the
    /// timer for the cycles that the step took.
    #[verifier::opaque]
    pub open spec fn cycled(self) -> CpuView {
        match self.step_cycles() {
            Some(cycles) => CpuView {
                bus: self.stepped_once().bus.after(cycles as int),
                ..self.stepped_once()
            },
            None => self.stepped_once(),
        }
    }

    /// The state after a run with a budget of `budget` cycles: steps are
    /// made, at least one, until the budget is used up or an undefined opcode
    /// is met.
    pub open spec fn ran(self, budget: int) -> CpuView
        decreases budget,
    {
        match self.step_cycles() {
            Some(cycles) => if budget - cycles <= 0 || cycles == 0 {
                self.cycled()
            } else {
                self.cycled().ran(budget - cycles)
            },
            None => self.cycled(),
        }
    }

    /// The cycles that a run with a budget of `budget` cycles takes.
    pub open spec fn ran_cycles(self, budget: int) -> int
        decreases budget,
    {
        match self.step_cycles() {
            Some(cycles) => if budget - cycles <= 0 || cycles == 0 {
                cycles as int
            } else {
                cycles + self.cycled().ran_cycles(budget - cycles)
            },
            None => 0,
        }
    }

    /// Whether a run with a budget of `budget` cycles ends at an undefined
    /// opcode.
    pub open spec fn ran_into_undefined(self, budget: int) -> bool
        decreases budget,
    {
        match self.step_cycles() {
            Some(cycles) => if budget - cycles <= 0 || cycles == 0 {
                false
            } else {
                self.cycled().ran_into_undefined(budget - cycles)
            },
            None => true,
        }
    }
}

/// The operand of a prefixed operation.
pub open spec fn prefixed_operand(op: PrefixedOpcode) -> PrefixOperand {
    match op {
        PrefixedOpcode::RLC(r) | PrefixedOpcode::RRC(r) | PrefixedOpcode::RL(r) | PrefixedOpcode::RR(
            r,
        ) | PrefixedOpcode::SLA(r) | PrefixedOpcode::SRA(r) | PrefixedOpcode::SRL(
            r,
        ) | PrefixedOpcode::SWAP(r) => r,
        PrefixedOpcode::BIT(r, _) | PrefixedOpcode::RES(r, _) | PrefixedOpcode::SET(r, _) => r,
    }
}

} // verus!
