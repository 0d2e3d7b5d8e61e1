//! The processor: it fetches the byte at the program counter, decodes it and
//! carries the instruction out on its registers and on the bus.

use vstd::prelude::*;
use crate::machine::{prefixed_operand, wrap16, CpuView, DISPATCH_CYCLES, HALTED_CYCLES};
use crate::memory_bus::{InterruptKind, MemoryBus};
use crate::opcode::{
    decode, decode_prefixed, ALUOperand, IncDecTarget, Indirect, JCondition, LDSource, LDTarget,
    LDType, Opcode, PrefixOperand, PrefixedOpcode, RSTAddress, StackTarget, WordRegister,
};
use crate::registers::{
    clear_bit, high_byte, lemma_pair_bits, low_byte, pair, raise_bit, Flag, Registers,
};

verus! {

/// The processor with the bus it drives.
pub struct CPU {
    pub reg: Registers,
    pub memory_bus: MemoryBus,
    /// Addresses at which a debugger wants to stop.
    pub breakpoints: Vec<u16>,
    /// Cleared by `HALT`, set again when an interrupt wakes the processor.
    pub running: bool,
    /// The interrupt master enable.
    pub ime: bool,
    pub debug: bool,
    pub stepping: bool,
}

impl View for CPU {
    type V = CpuView;

    open spec fn view(&self) -> CpuView {
        CpuView {
            reg: self.reg,
            bus: self.memory_bus@,
            running: self.running,
            ime: self.ime,
            breakpoints: self.breakpoints@,
            debug: self.debug,
            stepping: self.stepping,
        }
    }
}

/// The word made of a high and a low byte.
fn word_of(hi: u8, lo: u8) -> (w: u16)
    ensures
        w == pair(hi, lo),
{
    proof {
        lemma_pair_bits(hi, lo);
    }
    ((hi as u16) << 8) | (lo as u16)
}

/// The high byte of a word.
fn high_of(w: u16) -> (b: u8)
    ensures
        b == high_byte(w),
{
    (w / 256) as u8
}

/// The low byte of a word.
fn low_of(w: u16) -> (b: u8)
    ensures
        b == low_byte(w),
{
    (w % 256) as u8
}

impl CPU {
    /// The invariant of the processor: that of its bus.
    pub open spec fn wf(&self) -> bool {
        self.memory_bus.wf()
    }

    /// A processor on a fresh bus with the ROM image `rom` installed and,
    /// if one is given, the boot ROM mapped. Execution starts at the entry
    /// point of the cartridge, or at address 0 of the boot ROM. The master
    /// enable is set, and address 0 is a breakpoint.
    pub fn new(rom: Vec<u8>, boot_rom: Option<Vec<u8>>, debug: bool) -> (r: Result<
        CPU,
        &'static str,
    >)
        ensures
            r is Ok <==> rom@.len() > 0x0147 && (boot_rom is Some ==> boot_rom->0@.len() == 0x100),
            r is Err ==> r->Err_0 == (if rom@.len() <= 0x0147 {
                "rom image has no header"
            } else {
                "boot rom is not 256 bytes long"
            }),
            r is Ok ==> r->Ok_0.wf() && r->Ok_0@ == CpuView::started(
                rom@,
                match boot_rom {
                    Some(image) => Some(image@),
                    None => None,
                },
                debug,
            ),
    {
        let mut bus = MemoryBus::new();
        match bus.read_rom(rom) {
            Err(e) => {
                return Err(e);
            },
            Ok(_) => {},
        }
        let mut reg = Registers::new();
        match &boot_rom {
            Some(image) => {
                match bus.read_boot_rom(image) {
                    Err(e) => {
                        return Err(e);
                    },
                    Ok(_) => {},
                }
                reg.pc = 0;
            },
            None => {},
        }
        let mut breakpoints: Vec<u16> = Vec::new();
        breakpoints.push(0x0);
        let cpu = CPU {
            reg,
            memory_bus: bus,
            breakpoints,
            running: true,
            ime: true,
            debug,
            stepping: false,
        };
        proof {
            assert(cpu@.breakpoints =~= seq![0u16]);
        }
        Ok(cpu)
    }

    /// The output buffer of the pixel processor: 144 rows of 160 pixels.
    pub fn pixel_buffer(&self) -> (canvas: &[u32; 23040])
        ensures
            canvas@ == self@.bus.gpu.canvas,
    {
        self.memory_bus.gpu.canvas()
    }

    /// The cycles that fit into `duration`, one cycle per thousand units.
    pub fn calculate_cycles(duration: u32) -> (cycles: i32)
        ensures
            cycles == duration / 1000,
    {
        (duration / 1000) as i32
    }

    fn read(&self, address: u16) -> (b: u8)
        ensures
            b == self@.read(address),
    {
        self.memory_bus.read_byte(address)
    }

    fn write(&mut self, address: u16, val: u8)
        requires
            old(self).wf(),
        ensures
            final(self).wf(),
            final(self)@ == old(self)@.wrote(address, val),
    {
        self.memory_bus.write_byte(address, val);
    }

    fn set_reg(&mut self, reg: Registers)
        requires
            old(self).wf(),
        ensures
            final(self).wf(),
            final(self)@ == old(self)@.with_reg(reg),
    {
        self.reg = reg;
    }

    fn set_ime(&mut self, ime: bool)
        requires
            old(self).wf(),
        ensures
            final(self).wf(),
            final(self)@ == (CpuView { ime, ..old(self)@ }),
    {
        self.ime = ime;
    }

    fn set_running(&mut self, running: bool)
        requires
            old(self).wf(),
        ensures
            final(self).wf(),
            final(self)@ == (CpuView { running, ..old(self)@ }),
    {
        self.running = running;
    }

    fn jump_to(&mut self, pc: u16)
        requires
            old(self).wf(),
        ensures
            final(self).wf(),
            final(self)@ == old(self)@.jumped(pc),
    {
        let mut reg = self.reg;
        reg.pc = pc;
        self.set_reg(reg);
    }

    fn advance(&mut self, n: u16)
        requires
            old(self).wf(),
        ensures
            final(self).wf(),
            final(self)@ == old(self)@.advanced(n as int),
    {
        let pc = self.reg.pc.wrapping_add(n);
        self.jump_to(pc);
    }

    fn imm8(&self) -> (b: u8)
        ensures
            b == self@.imm8(),
    {
        self.read(self.reg.pc.wrapping_add(1))
    }

    fn imm16(&self) -> (w: u16)
        ensures
            w == self@.imm16(),
    {
        let lsb = self.read(self.reg.pc.wrapping_add(1));
        let msb = self.read(self.reg.pc.wrapping_add(2));
        word_of(msb, lsb)
    }

    fn get8(&self, place: PrefixOperand) -> (v: u8)
        ensures
            v == self@.operand(place),
    {
        proof {
            reveal(CpuView::operand);
        }
        match place {
            PrefixOperand::A => self.reg.a,
            PrefixOperand::B => self.reg.b,
            PrefixOperand::C => self.reg.c,
            PrefixOperand::D => self.reg.d,
            PrefixOperand::E => self.reg.e,
            PrefixOperand::H => self.reg.h,
            PrefixOperand::L => self.reg.l,
            PrefixOperand::HLIndirect => self.read(self.reg.hl()),
        }
    }

    fn put8(&mut self, place: PrefixOperand, v: u8)
        requires
            old(self).wf(),
        ensures
            final(self).wf(),
            final(self)@ == old(self)@.with_operand(place, v),
    {
        proof {
            reveal(CpuView::with_operand);
        }
        let mut reg = self.reg;
        match place {
            PrefixOperand::A => {
                reg.a = v;
            },
            PrefixOperand::B => {
                reg.b = v;
            },
            PrefixOperand::C => {
                reg.c = v;
            },
            PrefixOperand::D => {
                reg.d = v;
            },
            PrefixOperand::E => {
                reg.e = v;
            },
            PrefixOperand::H => {
                reg.h = v;
            },
            PrefixOperand::L => {
                reg.l = v;
            },
            PrefixOperand::HLIndirect => {
                let address = self.reg.hl();
                self.write(address, v);
                return ;
            },
        }
        self.set_reg(reg);
    }

    fn value(&self, place: Option<PrefixOperand>) -> (v: u8)
        ensures
            v == self@.value(place),
    {
        proof {
            reveal(CpuView::value);
        }
        match place {
            Some(p) => self.get8(p),
            None => self.imm8(),
        }
    }

    fn get16(&self, r: WordRegister) -> (v: u16)
        ensures
            v == self@.word(r),
    {
        proof {
            reveal(CpuView::word);
        }
        match r {
            WordRegister::AF => self.reg.af(),
            WordRegister::BC => self.reg.bc(),
            WordRegister::DE => self.reg.de(),
            WordRegister::HL => self.reg.hl(),
            WordRegister::SP => self.reg.sp,
        }
    }

    fn put16(&mut self, r: WordRegister, v: u16)
        requires
            old(self).wf(),
        ensures
            final(self).wf(),
            final(self)@ == old(self)@.with_word(r, v),
    {
        proof {
            reveal(CpuView::with_word);
        }
        let mut reg = self.reg;
        match r {
            WordRegister::AF => reg.set_af(v),
            WordRegister::BC => reg.set_bc(v),
            WordRegister::DE => reg.set_de(v),
            WordRegister::HL => reg.set_hl(v),
            WordRegister::SP => {
                reg.sp = v;
            },
        }
        self.set_reg(reg);
    }

    fn holds(&self, condition: JCondition) -> (h: bool)
        ensures
            h == self@.holds(condition),
    {
        proof {
            reveal(CpuView::holds);
        }
        match condition {
            JCondition::Nothing => true,
            JCondition::NZ => !self.reg.get_flag(Flag::Z),
            JCondition::Z => self.reg.get_flag(Flag::Z),
            JCondition::NC => !self.reg.get_flag(Flag::C),
            JCondition::C => self.reg.get_flag(Flag::C),
        }
    }

    fn push(&mut self, v: u16)
        requires
            old(self).wf(),
        ensures
            final(self).wf(),
            final(self)@ == old(self)@.pushed(v),
    {
        proof {
            reveal(CpuView::pushed);
        }
        let upper = self.reg.sp.wrapping_sub(1);
        let top = self.reg.sp.wrapping_sub(2);
        self.write(upper, high_of(v));
        self.write(top, low_of(v));
        let mut reg = self.reg;
        reg.sp = top;
        self.set_reg(reg);
    }

    fn pop_word(&mut self) -> (v: u16)
        requires
            old(self).wf(),
        ensures
            final(self).wf(),
            v == old(self)@.top(),
            final(self)@ == old(self)@.popped(),
    {
        proof {
            reveal(CpuView::top);
            reveal(CpuView::popped);
        }
        let lsb = self.read(self.reg.sp);
        let msb = self.read(self.reg.sp.wrapping_add(1));
        let mut reg = self.reg;
        reg.sp = self.reg.sp.wrapping_add(2);
        self.set_reg(reg);
        word_of(msb, lsb)
    }

    fn address(&self, indirect: Indirect) -> (a: u16)
        ensures
            a == self@.address(indirect),
    {
        proof {
            reveal(CpuView::address);
        }
        match indirect {
            Indirect::BCIndirect => self.reg.bc(),
            Indirect::DEIndirect => self.reg.de(),
            Indirect::HLIndirectInc => self.reg.hl(),
            Indirect::HLIndirectDec => self.reg.hl(),
            Indirect::WordIndirect => self.imm16(),
            Indirect::LastByteIndirect => 0xFF00 + self.reg.c as u16,
        }
    }

    fn finish_access(&mut self, indirect: Indirect)
        requires
            old(self).wf(),
        ensures
            final(self).wf(),
            final(self)@ == old(self)@.after_access(indirect),
    {
        proof {
            reveal(CpuView::after_access);
        }
        match indirect {
            Indirect::HLIndirectInc => {
                let hl = self.reg.hl().wrapping_add(1);
                self.put16(WordRegister::HL, hl);
                self.advance(1);
            },
            Indirect::HLIndirectDec => {
                let hl = self.reg.hl().wrapping_sub(1);
                self.put16(WordRegister::HL, hl);
                self.advance(1);
            },
            Indirect::WordIndirect => self.advance(3),
            _ => self.advance(1),
        }
    }

    fn load_byte(&mut self, target: LDTarget, source: LDSource) -> (cycles: u8)
        requires
            old(self).wf(),
        ensures
            final(self).wf(),
            final(self)@ == old(self)@.load(LDType::Byte(target, source)),
            cycles == CpuView::load_cost(LDType::Byte(target, source)),
    {
        proof {
            reveal(CpuView::load);
            reveal(CpuView::load_byte);
        }
        let v = self.value(source.place());
        self.put8(target.place(), v);
        let immediate = match source {
            LDSource::D8 => true,
            _ => false,
        };
        let from_memory = match source {
            LDSource::D8 | LDSource::HLIndirect => true,
            _ => false,
        };
        let to_memory = match target {
            LDTarget::HLIndirect => true,
            _ => false,
        };
        self.advance(if immediate { 2 } else { 1 });
        let mut cycles: u8 = 4;
        if from_memory {
            cycles = cycles + 4;
        }
        if to_memory {
            cycles = cycles + 4;
        }
        cycles
    }

    fn load_a(&mut self, indirect: Indirect) -> (cycles: u8)
        requires
            old(self).wf(),
        ensures
            final(self).wf(),
            final(self)@ == old(self)@.load(LDType::AFromIndirect(indirect)),
            cycles == CpuView::load_cost(LDType::AFromIndirect(indirect)),
    {
        proof {
            reveal(CpuView::load);
            reveal(CpuView::load_a);
        }
        let address = self.address(indirect);
        let v = self.read(address);
        self.put8(PrefixOperand::A, v);
        self.finish_access(indirect);
        match indirect {
            Indirect::WordIndirect => 16,
            _ => 8,
        }
    }

    fn store_a(&mut self, indirect: Indirect) -> (cycles: u8)
        requires
            old(self).wf(),
        ensures
            final(self).wf(),
            final(self)@ == old(self)@.load(LDType::IndirectFromA(indirect)),
            cycles == CpuView::load_cost(LDType::IndirectFromA(indirect)),
    {
        proof {
            reveal(CpuView::load);
            reveal(CpuView::store_a);
        }
        let address = self.address(indirect);
        let a = self.reg.a;
        self.write(address, a);
        self.finish_access(indirect);
        match indirect {
            Indirect::WordIndirect => 16,
            _ => 8,
        }
    }

    fn store_sp(&mut self) -> (cycles: u8)
        requires
            old(self).wf(),
        ensures
            final(self).wf(),
            final(self)@ == old(self)@.load(LDType::IndirectFromSP),
            cycles == CpuView::load_cost(LDType::IndirectFromSP),
    {
        proof {
            reveal(CpuView::load);
            reveal(CpuView::store_sp);
        }
        let address = self.imm16();
        let sp = self.reg.sp;
        self.write(address, low_of(sp));
        self.write(address.wrapping_add(1), high_of(sp));
        self.advance(3);
        20
    }

    fn load_hl_offset(&mut self) -> (cycles: u8)
        requires
            old(self).wf(),
        ensures
            final(self).wf(),
            final(self)@ == old(self)@.load(LDType::HLFromSPOffset),
            cycles == CpuView::load_cost(LDType::HLFromSPOffset),
    {
        proof {
            reveal(CpuView::load);
            reveal(CpuView::load_hl_offset);
        }
        let offset = self.imm8();
        let mut reg = self.reg;
        let sum = reg.alu_offset_sp(offset);
        reg.set_hl(sum);
        self.set_reg(reg);
        self.advance(2);
        12
    }

    fn load_high(&mut self, to_a: bool) -> (cycles: u8)
        requires
            old(self).wf(),
        ensures
            final(self).wf(),
            to_a ==> final(self)@ == old(self)@.load(LDType::AFromAddress),
            !to_a ==> final(self)@ == old(self)@.load(LDType::AddressFromA),
            cycles == 12,
    {
        proof {
            reveal(CpuView::load);
            reveal(CpuView::load_high);
            reveal(CpuView::store_high);
        }
        let address = 0xFF00 + self.imm8() as u16;
        if to_a {
            let v = self.read(address);
            self.put8(PrefixOperand::A, v);
        } else {
            let a = self.reg.a;
            self.write(address, a);
        }
        self.advance(2);
        12
    }

    /// Carries out a load.
    fn load(&mut self, ld: LDType) -> (cycles: u8)
        requires
            old(self).wf(),
        ensures
            final(self).wf(),
            final(self)@ == old(self)@.load(ld),
            cycles == CpuView::load_cost(ld),
    {
        proof {
            reveal(CpuView::load);
            reveal(CpuView::load_word);
        }
        match ld {
            LDType::Byte(target, source) => self.load_byte(target, source),
            LDType::Word(target) => {
                let v = self.imm16();
                self.put16(target.word(), v);
                self.advance(3);
                12
            },
            LDType::AFromIndirect(indirect) => self.load_a(indirect),
            LDType::IndirectFromA(indirect) => self.store_a(indirect),
            LDType::AFromAddress => self.load_high(true),
            LDType::AddressFromA => self.load_high(false),
            LDType::SPFromHL => {
                let hl = self.reg.hl();
                self.put16(WordRegister::SP, hl);
                self.advance(1);
                8
            },
            LDType::IndirectFromSP => self.store_sp(),
            LDType::HLFromSPOffset => self.load_hl_offset(),
        }
    }

    /// Carries out an increment (`up`) or a decrement.
    fn step_target(&mut self, target: IncDecTarget, up: bool) -> (cycles: u8)
        requires
            old(self).wf(),
        ensures
            final(self).wf(),
            final(self)@ == old(self)@.stepped(target, up),
            cycles == CpuView::stepped_cost(target),
    {
        proof {
            reveal(CpuView::stepped);
        }
        match target.place() {
            Some(place) => {
                let v = self.get8(place);
                let mut reg = self.reg;
                let r = if up { reg.alu_inc(v) } else { reg.alu_dec(v) };
                self.set_reg(reg);
                self.put8(place, r);
                self.advance(1);
                match place {
                    PrefixOperand::HLIndirect => 12,
                    _ => 4,
                }
            },
            None => {
                let v = self.get16(target.word());
                let r = if up { v.wrapping_add(1) } else { v.wrapping_sub(1) };
                self.put16(target.word(), r);
                self.advance(1);
                8
            },
        }
    }

    /// The registers after an 8-bit ALU operation with second operand `v`.
    fn alu(&self, op: Opcode, v: u8) -> (reg: Registers)
        ensures
            reg == self@.alu(op, v),
    {
        proof {
            reveal(CpuView::alu);
        }
        let mut reg = self.reg;
        match op {
            Opcode::ADD(_) => reg.alu_add(v),
            Opcode::ADC(_) => reg.alu_adc(v),
            Opcode::SUB(_) => reg.alu_sub(v),
            Opcode::SBC(_) => reg.alu_sbc(v),
            Opcode::AND(_) => reg.alu_and(v),
            Opcode::XOR(_) => reg.alu_xor(v),
            Opcode::OR(_) => reg.alu_or(v),
            Opcode::CP(_) => reg.alu_cp(v),
            _ => {},
        }
        reg
    }

    /// Carries out an 8-bit ALU instruction.
    fn compute(&mut self, op: Opcode, operand: ALUOperand) -> (cycles: u8)
        requires
            old(self).wf(),
        ensures
            final(self).wf(),
            final(self)@ == old(self)@.computed(op, operand),
            cycles == CpuView::computed_cost(operand),
    {
        proof {
            reveal(CpuView::computed);
        }
        let v = self.value(operand.place());
        let reg = self.alu(op, v);
        self.set_reg(reg);
        match operand {
            ALUOperand::D8 => {
                self.advance(2);
                8
            },
            ALUOperand::HLIndirect => {
                self.advance(1);
                8
            },
            _ => {
                self.advance(1);
                4
            },
        }
    }

    /// Carries out a rotation of the accumulator.
    fn rotate(&mut self, op: Opcode) -> (cycles: u8)
        requires
            old(self).wf(),
        ensures
            final(self).wf(),
            final(self)@ == old(self)@.rotated(op),
            cycles == 4,
    {
        proof {
            reveal(CpuView::rotated);
        }
        let mut reg = self.reg;
        let a = reg.a;
        let r = match op {
            Opcode::RLCA => reg.alu_rlc(a, false),
            Opcode::RRCA => reg.alu_rrc(a, false),
            Opcode::RLA => reg.alu_rl(a, false),
            _ => reg.alu_rr(a, false),
        };
        reg.a = r;
        self.set_reg(reg);
        self.advance(1);
        4
    }

    /// Carries out an instruction that works on the registers alone and is
    /// one byte long.
    fn adjust(&mut self, op: Opcode) -> (cycles: u8)
        requires
            old(self).wf(),
            op == Opcode::CPL || op == Opcode::CCF || op == Opcode::SCF || op == Opcode::DAA,
        ensures
            final(self).wf(),
            final(self)@ == old(self)@.execute(op),
            cycles == old(self)@.cost(op),
    {
        proof {
            reveal(CpuView::execute);
            reveal(CpuView::cost);
        }
        let mut reg = self.reg;
        match op {
            Opcode::CPL => reg.alu_cpl(),
            Opcode::CCF => reg.alu_ccf(),
            Opcode::SCF => reg.alu_scf(),
            _ => reg.alu_daa(),
        }
        self.set_reg(reg);
        self.advance(1);
        4
    }

    fn jump(&mut self, condition: JCondition) -> (cycles: u8)
        requires
            old(self).wf(),
        ensures
            final(self).wf(),
            final(self)@ == old(self)@.jump(condition),
            cycles == old(self)@.cost(Opcode::JP(condition)),
    {
        proof {
            reveal(CpuView::jump);
            reveal(CpuView::cost);
        }
        if self.holds(condition) {
            let target = self.imm16();
            self.jump_to(target);
            16
        } else {
            self.advance(3);
            12
        }
    }

    fn jump_relative(&mut self, condition: JCondition) -> (cycles: u8)
        requires
            old(self).wf(),
        ensures
            final(self).wf(),
            final(self)@ == old(self)@.jump_relative(condition),
            cycles == old(self)@.cost(Opcode::JR(condition)),
    {
        proof {
            reveal(CpuView::jump_relative);
            reveal(CpuView::cost);
        }
        if self.holds(condition) {
            let offset = self.imm8();
            let next = self.reg.pc.wrapping_add(2);
            let extended: u16 = if offset < 128 { offset as u16 } else { 0xFF00 + offset as u16 };
            self.jump_to(next.wrapping_add(extended));
            12
        } else {
            self.advance(2);
            8
        }
    }

    fn call(&mut self, condition: JCondition) -> (cycles: u8)
        requires
            old(self).wf(),
        ensures
            final(self).wf(),
            final(self)@ == old(self)@.call(condition),
            cycles == old(self)@.cost(Opcode::CALL(condition)),
    {
        proof {
            reveal(CpuView::call);
            reveal(CpuView::cost);
        }
        if self.holds(condition) {
            let target = self.imm16();
            let next = self.reg.pc.wrapping_add(3);
            self.push(next);
            self.jump_to(target);
            24
        } else {
            self.advance(3);
            12
        }
    }

    fn ret(&mut self, condition: JCondition) -> (cycles: u8)
        requires
            old(self).wf(),
        ensures
            final(self).wf(),
            final(self)@ == old(self)@.ret(condition),
            cycles == old(self)@.cost(Opcode::RET(condition)),
    {
        proof {
            reveal(CpuView::ret);
            reveal(CpuView::cost);
            reveal(CpuView::holds);
        }
        if self.holds(condition) {
            let target = self.pop_word();
            self.jump_to(target);
            match condition {
                JCondition::Nothing => 16,
                _ => 20,
            }
        } else {
            self.advance(1);
            8
        }
    }

    fn restart(&mut self, address: RSTAddress) -> (cycles: u8)
        requires
            old(self).wf(),
        ensures
            final(self).wf(),
            final(self)@ == old(self)@.restart(address),
            cycles == 16,
    {
        proof {
            reveal(CpuView::restart);
        }
        let next = self.reg.pc.wrapping_add(1);
        self.push(next);
        self.jump_to(address.address());
        16
    }

    fn push_pair(&mut self, target: StackTarget) -> (cycles: u8)
        requires
            old(self).wf(),
        ensures
            final(self).wf(),
            final(self)@ == old(self)@.execute(Opcode::PUSH(target)),
            cycles == old(self)@.cost(Opcode::PUSH(target)),
    {
        proof {
            reveal(CpuView::execute);
            reveal(CpuView::cost);
        }
        let v = self.get16(target.word());
        self.push(v);
        self.advance(1);
        16
    }

    fn pop_pair(&mut self, target: StackTarget) -> (cycles: u8)
        requires
            old(self).wf(),
        ensures
            final(self).wf(),
            final(self)@ == old(self)@.pop(target),
            cycles == 12,
    {
        proof {
            reveal(CpuView::pop);
        }
        let v = self.pop_word();
        let v = match target {
            StackTarget::AF => word_of(high_of(v), low_of(v) & 0xF0),
            _ => v,
        };
        self.put16(target.word(), v);
        self.advance(1);
        12
    }

    /// What a prefixed operation makes of the byte `v`, with the flags it
    /// leaves.
    fn prefixed_result(&self, op: PrefixedOpcode, v: u8) -> (r: (u8, Registers))
        ensures
            r.0 == self@.prefixed_value(op, v),
            r.1 == self@.prefixed_flags(op, v),
    {
        proof {
            reveal(CpuView::prefixed_value);
            reveal(CpuView::prefixed_flags);
        }
        let mut reg = self.reg;
        let value = match op {
            PrefixedOpcode::RLC(_) => reg.alu_rlc(v, true),
            PrefixedOpcode::RRC(_) => reg.alu_rrc(v, true),
            PrefixedOpcode::RL(_) => reg.alu_rl(v, true),
            PrefixedOpcode::RR(_) => reg.alu_rr(v, true),
            PrefixedOpcode::SLA(_) => reg.alu_sla(v),
            PrefixedOpcode::SRA(_) => reg.alu_sra(v),
            PrefixedOpcode::SRL(_) => reg.alu_srl(v),
            PrefixedOpcode::SWAP(_) => reg.alu_swap(v),
            PrefixedOpcode::BIT(_, bit) => {
                reg.alu_bit(v, bit.index());
                v
            },
            PrefixedOpcode::RES(_, bit) => clear_bit(v, bit.index()),
            PrefixedOpcode::SET(_, bit) => raise_bit(v, bit.index()),
        };
        (value, reg)
    }

    /// Carries out the prefixed instruction whose second byte names `op`.
    fn execute_prefixed(&mut self, op: PrefixedOpcode) -> (cycles: u8)
        requires
            old(self).wf(),
        ensures
            final(self).wf(),
            final(self)@ == old(self)@.execute_prefixed(op),
            cycles == CpuView::cost_prefixed(op),
    {
        proof {
            reveal(CpuView::execute_prefixed);
        }
        let place = match op {
            PrefixedOpcode::RLC(r) | PrefixedOpcode::RRC(r) | PrefixedOpcode::RL(r)
            | PrefixedOpcode::RR(r) | PrefixedOpcode::SLA(r) | PrefixedOpcode::SRA(r)
            | PrefixedOpcode::SRL(r) | PrefixedOpcode::SWAP(r) => r,
            PrefixedOpcode::BIT(r, _) | PrefixedOpcode::RES(r, _) | PrefixedOpcode::SET(r, _) => r,
        };
        let test_only = match op {
            PrefixedOpcode::BIT(_, _) => true,
            _ => false,
        };
        let in_memory = match place {
            PrefixOperand::HLIndirect => true,
            _ => false,
        };
        let v = self.get8(place);
        let (value, reg) = self.prefixed_result(op, v);
        self.set_reg(reg);
        if !test_only {
            self.put8(place, value);
        }
        self.advance(2);
        if in_memory {
            if test_only {
                12
            } else {
                16
            }
        } else {
            8
        }
    }

    /// Carries out the prefixed instruction at the program counter.
    fn prefixed(&mut self) -> (cycles: u8)
        requires
            old(self).wf(),
        ensures
            final(self).wf(),
            final(self)@ == old(self)@.execute(Opcode::PREFIX),
            cycles == old(self)@.cost(Opcode::PREFIX),
    {
        proof {
            reveal(CpuView::execute);
            reveal(CpuView::cost);
        }
        let op = self.fetch_prefixed_byte();
        self.execute_prefixed(op)
    }

    /// Carries out `DI` or `EI`: the master enable is cleared or set at
    /// once.
    fn op_set_ime(&mut self, enable: bool) -> (cycles: u8)
        requires
            old(self).wf(),
        ensures
            final(self).wf(),
            final(self)@ == old(self)@.execute(
                if enable {
                    Opcode::EI
                } else {
                    Opcode::DI
                },
            ),
            cycles == 4,
            cycles == old(self)@.cost(Opcode::EI),
            cycles == old(self)@.cost(Opcode::DI),
    {
        proof {
            reveal(CpuView::execute);
            reveal(CpuView::cost);
        }
        self.advance(1);
        self.set_ime(enable);
        4
    }

    /// Carries out `HALT`.
    fn op_halt(&mut self) -> (cycles: u8)
        requires
            old(self).wf(),
        ensures
            final(self).wf(),
            final(self)@ == old(self)@.execute(Opcode::HALT),
            cycles == old(self)@.cost(Opcode::HALT),
    {
        proof {
            reveal(CpuView::execute);
            reveal(CpuView::cost);
        }
        self.advance(1);
        self.set_running(false);
        4
    }

    /// Carries out `RETI`: a return that sets the master enable.
    fn op_reti(&mut self) -> (cycles: u8)
        requires
            old(self).wf(),
        ensures
            final(self).wf(),
            final(self)@ == old(self)@.execute(Opcode::RETI),
            cycles == old(self)@.cost(Opcode::RETI),
    {
        proof {
            reveal(CpuView::execute);
            reveal(CpuView::cost);
        }
        let c = self.ret(JCondition::Nothing);
        self.set_ime(true);
        c
    }

    /// Carries out an instruction that only moves the program counter or
    /// adds to a 16-bit register.
    fn simple(&mut self, op: Opcode) -> (cycles: u8)
        requires
            old(self).wf(),
            op == Opcode::NOP || op == Opcode::JPI || op == Opcode::ADDSP || op is ADDHL,
        ensures
            final(self).wf(),
            final(self)@ == old(self)@.execute(op),
            cycles == old(self)@.cost(op),
    {
        proof {
            reveal(CpuView::execute);
            reveal(CpuView::cost);
        }
        match op {
            Opcode::NOP => {
                self.advance(1);
                4
            },
            Opcode::JPI => {
                let hl = self.reg.hl();
                self.jump_to(hl);
                4
            },
            Opcode::ADDSP => {
                let offset = self.imm8();
                let mut reg = self.reg;
                reg.alu_addsp(offset);
                self.set_reg(reg);
                self.advance(2);
                16
            },
            Opcode::ADDHL(operand) => {
                let v = self.get16(operand.word());
                let mut reg = self.reg;
                reg.alu_addhl(v);
                self.set_reg(reg);
                self.advance(1);
                8
            },
            _ => 4,
        }
    }

    fn op_load(&mut self, ld: LDType) -> (cycles: u8)
        requires
            old(self).wf(),
        ensures
            final(self).wf(),
            final(self)@ == old(self)@.execute(Opcode::LD(ld)),
            cycles == old(self)@.cost(Opcode::LD(ld)),
    {
        proof {
            reveal(CpuView::execute);
            reveal(CpuView::cost);
        }
        self.load(ld)
    }

    fn op_inc(&mut self, target: IncDecTarget) -> (cycles: u8)
        requires
            old(self).wf(),
        ensures
            final(self).wf(),
            final(self)@ == old(self)@.execute(Opcode::INC(target)),
            cycles == old(self)@.cost(Opcode::INC(target)),
    {
        proof {
            reveal(CpuView::execute);
            reveal(CpuView::cost);
        }
        self.step_target(target, true)
    }

    fn op_dec(&mut self, target: IncDecTarget) -> (cycles: u8)
        requires
            old(self).wf(),
        ensures
            final(self).wf(),
            final(self)@ == old(self)@.execute(Opcode::DEC(target)),
            cycles == old(self)@.cost(Opcode::DEC(target)),
    {
        proof {
            reveal(CpuView::execute);
            reveal(CpuView::cost);
        }
        self.step_target(target, false)
    }

    fn op_pop(&mut self, target: StackTarget) -> (cycles: u8)
        requires
            old(self).wf(),
        ensures
            final(self).wf(),
            final(self)@ == old(self)@.execute(Opcode::POP(target)),
            cycles == old(self)@.cost(Opcode::POP(target)),
    {
        proof {
            reveal(CpuView::execute);
            reveal(CpuView::cost);
        }
        self.pop_pair(target)
    }

    fn op_jp(&mut self, condition: JCondition) -> (cycles: u8)
        requires
            old(self).wf(),
        ensures
            final(self).wf(),
            final(self)@ == old(self)@.execute(Opcode::JP(condition)),
            cycles == old(self)@.cost(Opcode::JP(condition)),
    {
        proof {
            reveal(CpuView::execute);
            reveal(CpuView::cost);
        }
        self.jump(condition)
    }

    fn op_jr(&mut self, condition: JCondition) -> (cycles: u8)
        requires
            old(self).wf(),
        ensures
            final(self).wf(),
            final(self)@ == old(self)@.execute(Opcode::JR(condition)),
            cycles == old(self)@.cost(Opcode::JR(condition)),
    {
        proof {
            reveal(CpuView::execute);
            reveal(CpuView::cost);
        }
        self.jump_relative(condition)
    }

    fn op_call(&mut self, condition: JCondition) -> (cycles: u8)
        requires
            old(self).wf(),
        ensures
            final(self).wf(),
            final(self)@ == old(self)@.execute(Opcode::CALL(condition)),
            cycles == old(self)@.cost(Opcode::CALL(condition)),
    {
        proof {
            reveal(CpuView::execute);
            reveal(CpuView::cost);
        }
        self.call(condition)
    }

    fn op_ret(&mut self, condition: JCondition) -> (cycles: u8)
        requires
            old(self).wf(),
        ensures
            final(self).wf(),
            final(self)@ == old(self)@.execute(Opcode::RET(condition)),
            cycles == old(self)@.cost(Opcode::RET(condition)),
    {
        proof {
            reveal(CpuView::execute);
            reveal(CpuView::cost);
        }
        self.ret(condition)
    }

    fn op_rst(&mut self, address: RSTAddress) -> (cycles: u8)
        requires
            old(self).wf(),
        ensures
            final(self).wf(),
            final(self)@ == old(self)@.execute(Opcode::RST(address)),
            cycles == old(self)@.cost(Opcode::RST(address)),
    {
        proof {
            reveal(CpuView::execute);
            reveal(CpuView::cost);
        }
        self.restart(address)
    }

    fn op_alu(&mut self, op: Opcode, operand: ALUOperand) -> (cycles: u8)
        requires
            old(self).wf(),
            op == Opcode::ADD(operand) || op == Opcode::ADC(operand) || op == Opcode::SUB(operand)
                || op == Opcode::SBC(operand) || op == Opcode::AND(operand) || op == Opcode::OR(
                operand,
            ) || op == Opcode::XOR(operand) || op == Opcode::CP(operand),
        ensures
            final(self).wf(),
            final(self)@ == old(self)@.execute(op),
            cycles == old(self)@.cost(op),
    {
        proof {
            reveal(CpuView::execute);
            reveal(CpuView::cost);
        }
        self.compute(op, operand)
    }

    fn op_rotate(&mut self, op: Opcode) -> (cycles: u8)
        requires
            old(self).wf(),
            op == Opcode::RLCA || op == Opcode::RLA || op == Opcode::RRCA || op == Opcode::RRA,
        ensures
            final(self).wf(),
            final(self)@ == old(self)@.execute(op),
            cycles == old(self)@.cost(op),
    {
        proof {
            reveal(CpuView::execute);
            reveal(CpuView::cost);
        }
        self.rotate(op)
    }

    /// Carries out a load, an increment or decrement, or a stack transfer.
    fn execute_transfer(&mut self, opcode: Opcode) -> (cycles: u8)
        requires
            old(self).wf(),
            opcode is LD || opcode is INC || opcode is DEC || opcode is PUSH || opcode is POP,
        ensures
            final(self).wf(),
            final(self)@ == old(self)@.execute(opcode),
            cycles == old(self)@.cost(opcode),
    {
        match opcode {
            Opcode::LD(ld) => self.op_load(ld),
            Opcode::INC(target) => self.op_inc(target),
            Opcode::DEC(target) => self.op_dec(target),
            Opcode::PUSH(target) => self.push_pair(target),
            Opcode::POP(target) => self.op_pop(target),
            _ => 0,
        }
    }

    /// Carries out an 8-bit ALU instruction.
    fn execute_arithmetic(&mut self, opcode: Opcode) -> (cycles: u8)
        requires
            old(self).wf(),
            opcode is ADD || opcode is ADC || opcode is SUB || opcode is SBC || opcode is AND || opcode is OR
                || opcode is XOR || opcode is CP,
        ensures
            final(self).wf(),
            final(self)@ == old(self)@.execute(opcode),
            cycles == old(self)@.cost(opcode),
    {
        match opcode {
            Opcode::ADD(operand) => self.op_alu(opcode, operand),
            Opcode::ADC(operand) => self.op_alu(opcode, operand),
            Opcode::SUB(operand) => self.op_alu(opcode, operand),
            Opcode::SBC(operand) => self.op_alu(opcode, operand),
            Opcode::AND(operand) => self.op_alu(opcode, operand),
            Opcode::OR(operand) => self.op_alu(opcode, operand),
            Opcode::XOR(operand) => self.op_alu(opcode, operand),
            Opcode::CP(operand) => self.op_alu(opcode, operand),
            _ => 0,
        }
    }

    /// Carries out a jump, a call, a return or a restart.
    fn execute_flow(&mut self, opcode: Opcode) -> (cycles: u8)
        requires
            old(self).wf(),
            opcode is JP || opcode is JR || opcode is CALL || opcode is RET || opcode is RST || opcode
                == Opcode::RETI,
        ensures
            final(self).wf(),
            final(self)@ == old(self)@.execute(opcode),
            cycles == old(self)@.cost(opcode),
    {
        match opcode {
            Opcode::JP(condition) => self.op_jp(condition),
            Opcode::JR(condition) => self.op_jr(condition),
            Opcode::CALL(condition) => self.op_call(condition),
            Opcode::RET(condition) => self.op_ret(condition),
            Opcode::RST(address) => self.op_rst(address),
            Opcode::RETI => self.op_reti(),
            _ => 0,
        }
    }

    /// Carries out an instruction that changes a flag of the processor itself, or a prefixed instruction.
    fn execute_control(&mut self, opcode: Opcode) -> (cycles: u8)
        requires
            old(self).wf(),
            opcode == Opcode::DI || opcode == Opcode::EI || opcode == Opcode::HALT || opcode
                == Opcode::PREFIX,
        ensures
            final(self).wf(),
            final(self)@ == old(self)@.execute(opcode),
            cycles == old(self)@.cost(opcode),
    {
        match opcode {
            Opcode::DI => self.op_set_ime(false),
            Opcode::EI => self.op_set_ime(true),
            Opcode::HALT => self.op_halt(),
            Opcode::PREFIX => self.prefixed(),
            _ => 0,
        }
    }

    /// Carries out the instruction `opcode`, which begins at the program
    /// counter, and returns the cycles it took.
    pub fn execute_opcode(&mut self, opcode: Opcode) -> (cycles: u8)
        requires
            old(self).wf(),
        ensures
            final(self).wf(),
            final(self)@ == old(self)@.execute(opcode),
            cycles == old(self)@.cost(opcode),
    {
        match opcode {
            Opcode::NOP | Opcode::JPI | Opcode::ADDSP | Opcode::ADDHL(_) => self.simple(opcode),
            Opcode::LD(_) | Opcode::INC(_) | Opcode::DEC(_) | Opcode::PUSH(_) | Opcode::POP(
                _,
            ) => self.execute_transfer(opcode),
            Opcode::ADD(_) | Opcode::ADC(_) | Opcode::SUB(_) | Opcode::SBC(_) | Opcode::AND(_)
            | Opcode::OR(_) | Opcode::XOR(_) | Opcode::CP(_) => self.execute_arithmetic(opcode),
            Opcode::CPL | Opcode::CCF | Opcode::SCF | Opcode::DAA => self.adjust(opcode),
            Opcode::RLCA | Opcode::RLA | Opcode::RRCA | Opcode::RRA => self.op_rotate(opcode),
            Opcode::JP(_) | Opcode::JR(_) | Opcode::CALL(_) | Opcode::RET(_) | Opcode::RST(_)
            | Opcode::RETI => self.execute_flow(opcode),
            Opcode::DI | Opcode::EI | Opcode::HALT | Opcode::PREFIX => self.execute_control(opcode),
        }
    }

    /// The instruction at the program counter, or the refusal of a byte
    /// that names none.
    pub fn fetch_byte(&self) -> (r: Result<Opcode, &'static str>)
        ensures
            r is Ok <==> self@.fetched() is Some,
            r is Ok ==> r->Ok_0 == self@.fetched()->0,
            r is Err ==> r == Err::<Opcode, &'static str>("unknown opcode"),
    {
        proof {
            reveal(CpuView::fetched);
        }
        let b = self.read(self.reg.pc);
        Opcode::try_from(b)
    }

    /// The prefixed operation named by the byte after the program counter.
    pub fn fetch_prefixed_byte(&self) -> (op: PrefixedOpcode)
        ensures
            op == self@.fetched_prefixed(),
    {
        proof {
            reveal(CpuView::fetched_prefixed);
        }
        let b = self.imm8();
        match PrefixedOpcode::try_from(b) {
            Ok(op) => op,
            Err(_) => PrefixedOpcode::RLC(PrefixOperand::B),
        }
    }

    /// Fetches, decodes and carries out the instruction at the program
    /// counter and returns the cycles it took. The byte at the program
    /// counter must name an instruction.
    pub fn execute(&mut self) -> (cycles: u8)
        requires
            old(self).wf(),
            old(self)@.fetched() is Some,
        ensures
            final(self).wf(),
            final(self)@ == old(self)@.execute(old(self)@.fetched()->0),
            cycles == old(self)@.cost(old(self)@.fetched()->0),
    {
        match self.fetch_byte() {
            Ok(opcode) => self.execute_opcode(opcode),
            Err(_) => 0,
        }
    }

    /// The interrupt that the next step dispatches, if any.
    pub fn due(&self) -> (k: Option<InterruptKind>)
        ensures
            k == self@.due(),
    {
        if self.ime {
            self.memory_bus.interrupt_flag.and(self.memory_bus.interrupt_enable).first()
        } else {
            None
        }
    }

    fn acknowledge(&mut self, k: InterruptKind)
        requires
            old(self).wf(),
        ensures
            final(self).wf(),
            final(self)@ == (CpuView {
                bus: crate::memory_bus::BusView {
                    interrupt_flag: old(self)@.bus.interrupt_flag.without(k),
                    ..old(self)@.bus
                },
                ..old(self)@
            }),
    {
        self.memory_bus.acknowledge(k);
    }

    /// Dispatches interrupt `k`.
    fn dispatch(&mut self, k: InterruptKind)
        requires
            old(self).wf(),
        ensures
            final(self).wf(),
            final(self)@ == old(self)@.dispatched(k),
    {
        proof {
            reveal(CpuView::dispatched);
        }
        let pc = self.reg.pc;
        self.push(pc);
        self.jump_to(k.vector());
        self.set_ime(false);
        self.set_running(true);
        self.acknowledge(k);
    }

    /// Wakes a halted processor if an interrupt calls for it.
    fn wake(&mut self)
        requires
            old(self).wf(),
        ensures
            final(self).wf(),
            final(self)@ == old(self)@.woken(),
    {
        let flags = self.memory_bus.interrupt_flag;
        let pending = flags.and(self.memory_bus.interrupt_enable);
        let wakes = !pending.is_empty() || (!self.ime && !flags.is_empty());
        let running = self.running || wakes;
        self.set_running(running);
    }

    /// One step of the processor. An interrupt that is due is dispatched;
    /// a halted processor idles; otherwise the instruction at the program
    /// counter is carried out. Returns the cycles taken, or an error if the
    /// byte at the program counter names no instruction, in which case only a
    /// pending wake-up has taken effect.
    pub fn step(&mut self) -> (r: Result<u8, &'static str>)
        requires
            old(self).wf(),
        ensures
            final(self).wf(),
            final(self)@ == old(self)@.stepped_once(),
            r is Ok <==> old(self)@.step_cycles() is Some,
            r is Ok ==> Some(r->Ok_0) == old(self)@.step_cycles(),
            r is Err ==> r == Err::<u8, &'static str>("unknown opcode"),
    {
        proof {
            reveal(CpuView::stepped_once);
            reveal(CpuView::step_cycles);
        }
        self.wake();
        match self.due() {
            Some(k) => {
                self.dispatch(k);
                Ok(DISPATCH_CYCLES)
            },
            None => {
                if !self.running {
                    Ok(HALTED_CYCLES)
                } else {
                    match self.fetch_byte() {
                        Ok(opcode) => Ok(self.execute_opcode(opcode)),
                        Err(e) => Err(e),
                    }
                }
            },
        }
    }

    fn tick(&mut self, cycles: u32)
        requires
            old(self).wf(),
        ensures
            final(self).wf(),
            final(self)@ == (CpuView { bus: old(self)@.bus.after(cycles as int), ..old(self)@ }),
    {
        self.memory_bus.tick(cycles);
    }

    /// One step of the whole machine: a step of the processor, then the
    /// pixel processor and the timer run for the cycles it took.
    pub fn cycle(&mut self) -> (r: Result<u8, &'static str>)
        requires
            old(self).wf(),
        ensures
            final(self).wf(),
            final(self)@ == old(self)@.cycled(),
            r is Ok <==> old(self)@.step_cycles() is Some,
            r is Ok ==> Some(r->Ok_0) == old(self)@.step_cycles(),
            r is Err ==> r == Err::<u8, &'static str>("unknown opcode"),
    {
        proof {
            reveal(CpuView::cycled);
        }
        match self.step() {
            Ok(cycles) => {
                self.tick(cycles as u32);
                Ok(cycles)
            },
            Err(e) => Err(e),
        }
    }

    /// Runs the machine for a budget of `budget` cycles: steps are made, at
    /// least one, until the budget is used up or an undefined opcode is met.
    /// Returns the cycles taken and whether the run ended at an undefined
    /// opcode.
    pub fn run(&mut self, budget: u32) -> (r: (u64, bool))
        requires
            old(self).wf(),
        ensures
            final(self).wf(),
            final(self)@ == old(self)@.ran(budget as int),
            r.0 == old(self)@.ran_cycles(budget as int),
            r.1 == old(self)@.ran_into_undefined(budget as int),
    {
        let mut left: u32 = budget;
        let mut total: u64 = 0;
        loop
            invariant
                self.wf(),
                left <= budget,
                total + left == budget,
                old(self)@.ran(budget as int) == self@.ran(left as int),
                old(self)@.ran_cycles(budget as int) == total + self@.ran_cycles(left as int),
                old(self)@.ran_into_undefined(budget as int) == self@.ran_into_undefined(
                    left as int,
                ),
            decreases left,
        {
            match self.cycle() {
                Err(_) => {
                    return (total, true);
                },
                Ok(cycles) => {
                    total = total + cycles as u64;
                    if cycles as u32 >= left || cycles == 0 {
                        return (total, false);
                    }
                    left = left - cycles as u32;
                },
            }
        }
    }
}

} // verus!
