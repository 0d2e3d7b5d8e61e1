//! The register file and the arithmetic/logic unit.
//!
//! Every ALU primitive is specified by plain integer arithmetic on the
//! operands: the value it produces and the four condition flags it leaves in
//! `F`.

use vstd::prelude::*;

verus! {

/// The four condition flags held in the upper nibble of the `F` register.
#[derive(Clone, Copy, Debug, PartialEq, Eq, Structural)]
pub enum Flag {
    C,
    H,
    N,
    Z,
}

/// The eight 8-bit registers, the stack pointer and the program counter.
#[derive(Clone, Copy, Debug, PartialEq, Eq, Structural)]
pub struct Registers {
    pub a: u8,
    pub b: u8,
    pub c: u8,
    pub d: u8,
    pub e: u8,
    pub f: u8,
    pub h: u8,
    pub l: u8,
    pub sp: u16,
    pub pc: u16,
}

/// The bit of `F` that holds `flag`: carry is bit 4, half-carry bit 5,
/// subtract bit 6 and zero bit 7.
pub open spec fn flag_mask(flag: Flag) -> u8 {
    match flag {
        Flag::C => 0x10,
        Flag::H => 0x20,
        Flag::N => 0x40,
        Flag::Z => 0x80,
    }
}

/// Whether `flag` is set in the flag byte `f`.
pub open spec fn flag_is_set(f: u8, flag: Flag) -> bool {
    f & flag_mask(flag) != 0
}

/// The flag byte `f` with `flag` forced to `val` and every other bit kept.
pub open spec fn with_flag(f: u8, flag: Flag, val: bool) -> u8 {
    if val {
        f | flag_mask(flag)
    } else {
        f & !flag_mask(flag)
    }
}

/// The flag byte that keeps the low nibble of `f` and holds exactly the four
/// given flags in its high nibble.
pub open spec fn flags_byte(f: u8, z: bool, n: bool, h: bool, c: bool) -> u8 {
    (f & 0x0F) | (if z { 0x80u8 } else { 0u8 }) | (if n { 0x40u8 } else { 0u8 }) | (if h {
        0x20u8
    } else {
        0u8
    }) | (if c { 0x10u8 } else { 0u8 })
}

/// The 16-bit value whose high byte is `hi` and whose low byte is `lo`.
pub open spec fn pair(hi: u8, lo: u8) -> u16 {
    (hi as int * 256 + lo as int) as u16
}

/// The high byte of a 16-bit value.
pub open spec fn high_byte(v: u16) -> u8 {
    (v / 256) as u8
}

/// The low byte of a 16-bit value.
pub open spec fn low_byte(v: u16) -> u8 {
    (v % 256) as u8
}

/// `1` for a set carry-in, `0` otherwise.
pub open spec fn carry_in(c: bool) -> int {
    if c {
        1
    } else {
        0
    }
}

/// The 8-bit sum `a + b + carry`, wrapped to a byte.
pub open spec fn add_value(a: u8, b: u8, c: bool) -> u8 {
    ((a + b + carry_in(c)) % 256) as u8
}

/// Carry out of bit 3 of `a + b + carry`.
pub open spec fn add_half(a: u8, b: u8, c: bool) -> bool {
    a % 16 + b % 16 + carry_in(c) > 15
}

/// Carry out of bit 7 of `a + b + carry`.
pub open spec fn add_carry(a: u8, b: u8, c: bool) -> bool {
    a + b + carry_in(c) > 255
}

/// The 8-bit difference `a - b - carry`, wrapped to a byte.
pub open spec fn sub_value(a: u8, b: u8, c: bool) -> u8 {
    ((a - b - carry_in(c)) % 256) as u8
}

/// Borrow from bit 4 in `a - b - carry`.
pub open spec fn sub_half(a: u8, b: u8, c: bool) -> bool {
    a % 16 < b % 16 + carry_in(c)
}

/// Borrow out of the whole byte in `a - b - carry`: the subtrahend is larger.
pub open spec fn sub_borrow(a: u8, b: u8, c: bool) -> bool {
    a < b + carry_in(c)
}

/// An 8-bit operand read as a two's-complement offset and extended to 16 bits.
pub open spec fn sign_extend(b: u8) -> u16 {
    if b < 128 {
        b as u16
    } else {
        (0xFF00 + b) as u16
    }
}

/// `base + offset`, wrapped to 16 bits, with `offset` sign-extended first.
pub open spec fn offset_value(base: u16, offset: u8) -> u16 {
    ((base + sign_extend(offset)) % 0x10000) as u16
}

/// Carry out of bit 3 of the low-byte addition `base + offset`.
pub open spec fn offset_half(base: u16, offset: u8) -> bool {
    base % 16 + offset % 16 > 15
}

/// Carry out of bit 7 of the low-byte addition `base + offset`.
pub open spec fn offset_carry(base: u16, offset: u8) -> bool {
    base % 256 + offset > 255
}

/// The amount the decimal adjustment adds to (or, after a subtraction, takes
/// from) the accumulator, given the flags `n`, `h`, `c` left by the previous
/// operation.
pub open spec fn daa_correction(a: u8, n: bool, h: bool, c: bool) -> int {
    if !n {
        (if c || a > 0x99 { 0x60int } else { 0int }) + (if h || a % 16 > 9 { 0x06int } else { 0int })
    } else {
        (if c { 0x60int } else { 0int }) + (if h { 0x06int } else { 0int })
    }
}

/// The accumulator after decimal adjustment.
pub open spec fn daa_value(a: u8, n: bool, h: bool, c: bool) -> u8 {
    if !n {
        ((a + daa_correction(a, n, h, c)) % 256) as u8
    } else {
        ((a - daa_correction(a, n, h, c)) % 256) as u8
    }
}

/// The carry flag after decimal adjustment.
pub open spec fn daa_carry(a: u8, n: bool, c: bool) -> bool {
    c || (!n && a > 0x99)
}

/// Whether both nibbles of `v` are decimal digits.
pub open spec fn is_bcd(v: u8) -> bool {
    v / 16 <= 9 && v % 16 <= 9
}

/// The number in `0..100` that the packed decimal byte `v` stands for.
pub open spec fn bcd_number(v: u8) -> int {
    (v / 16) * 10 + v % 16
}

/// `v` rotated left by one bit.
pub open spec fn rlc_value(v: u8) -> u8 {
    ((v * 2) % 256 + v / 128) as u8
}

/// `v` rotated right by one bit.
pub open spec fn rrc_value(v: u8) -> u8 {
    (v / 2 + (v % 2) * 128) as u8
}

/// `v` shifted left by one bit with the old carry entering at bit 0.
pub open spec fn rl_value(v: u8, c: bool) -> u8 {
    ((v * 2) % 256 + carry_in(c)) as u8
}

/// `v` shifted right by one bit with the old carry entering at bit 7.
pub open spec fn rr_value(v: u8, c: bool) -> u8 {
    (v / 2 + carry_in(c) * 128) as u8
}

/// `v` shifted left by one bit.
pub open spec fn sla_value(v: u8) -> u8 {
    ((v * 2) % 256) as u8
}

/// `v` shifted right by one bit, bit 7 kept.
pub open spec fn sra_value(v: u8) -> u8 {
    (v / 2 + (v / 128) * 128) as u8
}

/// `v` shifted right by one bit.
pub open spec fn srl_value(v: u8) -> u8 {
    v / 2
}

/// `v` with its two nibbles exchanged.
pub open spec fn swap_value(v: u8) -> u8 {
    ((v % 16) * 16 + v / 16) as u8
}

/// The byte with only bit `bit` (0 to 7) set.
pub open spec fn bit_mask(bit: u8) -> u8 {
    1u8 << bit
}

/// Whether bit `bit` (0 to 7) of `v` is set.
pub open spec fn bit_is_set(v: u8, bit: u8) -> bool {
    v & bit_mask(bit) != 0
}

/// `v` with bit `bit` cleared.
pub open spec fn res_value(v: u8, bit: u8) -> u8 {
    v & !bit_mask(bit)
}

/// `v` with bit `bit` set.
pub open spec fn set_value(v: u8, bit: u8) -> u8 {
    v | bit_mask(bit)
}

/// Joining two bytes by shift and or is the arithmetic pairing.
pub proof fn lemma_pair_bits(hi: u8, lo: u8)
    by (bit_vector)
    ensures
        ((hi as u16) << 8) | (lo as u16) == (hi as u16) * 256 + (lo as u16),
{
}

/// Splitting a 16-bit value by mask and shift is division and remainder.
pub proof fn lemma_split_bits(v: u16)
    by (bit_vector)
    ensures
        (v & 0xff00) >> 8 == v / 256,
        v >> 8 == v / 256,
        v & 0xff == v % 256,
{
}

/// Setting or clearing the bits of a mask `m` makes the test of `m` come out
/// accordingly and leaves the test of any disjoint mask `k` as it was.
pub proof fn lemma_mask_update(f: u8, m: u8, k: u8)
    by (bit_vector)
    requires
        m != 0,
    ensures
        (f | m) & m != 0,
        (f & !m) & m == 0,
        m & k == 0 ==> (f | m) & k == f & k,
        m & k == 0 ==> (f & !m) & k == f & k,
{
}

/// Two different bits of a byte have disjoint, non-empty masks.
pub proof fn lemma_bit_masks(bit: u8, other: u8)
    by (bit_vector)
    requires
        bit < 8,
        other < 8,
    ensures
        1u8 << bit != 0,
        bit != other ==> (1u8 << bit) & (1u8 << other) == 0,
{
}

/// The packed flag byte holds exactly the four flags it was built from and
/// keeps the low nibble of the byte it replaces.
pub proof fn lemma_flags_byte(f: u8, z: bool, n: bool, h: bool, c: bool)
    ensures
        flag_is_set(flags_byte(f, z, n, h, c), Flag::Z) == z,
        flag_is_set(flags_byte(f, z, n, h, c), Flag::N) == n,
        flag_is_set(flags_byte(f, z, n, h, c), Flag::H) == h,
        flag_is_set(flags_byte(f, z, n, h, c), Flag::C) == c,
        flags_byte(f, z, n, h, c) & 0x0F == f & 0x0F,
{
    let zb = if z { 0x80u8 } else { 0u8 };
    let nb = if n { 0x40u8 } else { 0u8 };
    let hb = if h { 0x20u8 } else { 0u8 };
    let cb = if c { 0x10u8 } else { 0u8 };
    assert({
        let r = (f & 0x0F) | zb | nb | hb | cb;
        &&& (r & 0x80 != 0) == (zb == 0x80)
        &&& (r & 0x40 != 0) == (nb == 0x40)
        &&& (r & 0x20 != 0) == (hb == 0x20)
        &&& (r & 0x10 != 0) == (cb == 0x10)
        &&& r & 0x0F == f & 0x0F
    }) by (bit_vector)
        requires
            zb == 0x80 || zb == 0,
            nb == 0x40 || nb == 0,
            hb == 0x20 || hb == 0,
            cb == 0x10 || cb == 0,
    ;
}

/// Setting one flag is read back by `flag_is_set` and leaves the other three
/// flags as they were.
pub proof fn lemma_with_flag(f: u8, flag: Flag, val: bool, other: Flag)
    ensures
        flag_is_set(with_flag(f, flag, val), flag) == val,
        other != flag ==> flag_is_set(with_flag(f, flag, val), other) == flag_is_set(f, other),
{
    let m = flag_mask(flag);
    let k = flag_mask(other);
    if other != flag {
        assert(m & k == 0) by (bit_vector)
            requires
                m == 0x10 || m == 0x20 || m == 0x40 || m == 0x80,
                k == 0x10 || k == 0x20 || k == 0x40 || k == 0x80,
                m != k,
        ;
    }
    lemma_mask_update(f, m, k);
}

impl Registers {
    /// All registers zero, execution starting at the cartridge entry point
    /// `0x0100`.
    pub fn new() -> (r: Registers)
        ensures
            r == (Registers { a: 0, b: 0, c: 0, d: 0, e: 0, f: 0, h: 0, l: 0, sp: 0, pc: 0x100 }),
    {
        Registers { a: 0, b: 0, c: 0, d: 0, e: 0, f: 0, h: 0, l: 0, sp: 0, pc: 0x100 }
    }

    /// The pair `AF`: `A` is the high byte, `F` the low byte.
    pub open spec fn spec_af(&self) -> u16 {
        pair(self.a, self.f)
    }

    /// The pair `BC`.
    pub open spec fn spec_bc(&self) -> u16 {
        pair(self.b, self.c)
    }

    /// The pair `DE`.
    pub open spec fn spec_de(&self) -> u16 {
        pair(self.d, self.e)
    }

    /// The pair `HL`.
    pub open spec fn spec_hl(&self) -> u16 {
        pair(self.h, self.l)
    }

    /// The registers with `AF` replaced.
    pub open spec fn with_af(self, val: u16) -> Registers {
        Registers { a: high_byte(val), f: low_byte(val), ..self }
    }

    /// The registers with `BC` replaced.
    pub open spec fn with_bc(self, val: u16) -> Registers {
        Registers { b: high_byte(val), c: low_byte(val), ..self }
    }

    /// The registers with `DE` replaced.
    pub open spec fn with_de(self, val: u16) -> Registers {
        Registers { d: high_byte(val), e: low_byte(val), ..self }
    }

    /// The registers with `HL` replaced.
    pub open spec fn with_hl(self, val: u16) -> Registers {
        Registers { h: high_byte(val), l: low_byte(val), ..self }
    }

    /// The registers with all four flags replaced and the low nibble of `F`
    /// kept.
    pub open spec fn with_flags(self, z: bool, n: bool, h: bool, c: bool) -> Registers {
        Registers { f: flags_byte(self.f, z, n, h, c), ..self }
    }

    /// The zero flag.
    pub open spec fn zf(self) -> bool {
        flag_is_set(self.f, Flag::Z)
    }

    /// The subtract flag.
    pub open spec fn nf(self) -> bool {
        flag_is_set(self.f, Flag::N)
    }

    /// The half-carry flag.
    pub open spec fn hf(self) -> bool {
        flag_is_set(self.f, Flag::H)
    }

    /// The carry flag.
    pub open spec fn cf(self) -> bool {
        flag_is_set(self.f, Flag::C)
    }

    /// After `A <- A + b`, plus one if `carry`.
    pub open spec fn added(self, b: u8, carry: bool) -> Registers {
        Registers { a: add_value(self.a, b, carry), ..self }.with_flags(
            add_value(self.a, b, carry) == 0,
            false,
            add_half(self.a, b, carry),
            add_carry(self.a, b, carry),
        )
    }

    /// After `A <- A - b`, minus one if `carry`.
    pub open spec fn subtracted(self, b: u8, carry: bool) -> Registers {
        Registers { a: sub_value(self.a, b, carry), ..self }.with_flags(
            sub_value(self.a, b, carry) == 0,
            true,
            sub_half(self.a, b, carry),
            sub_borrow(self.a, b, carry),
        )
    }

    /// After the comparison of `A` with `b`: the flags of `A - b`, `A` kept.
    pub open spec fn compared(self, b: u8) -> Registers {
        self.with_flags(self.a == b, true, sub_half(self.a, b, false), sub_borrow(self.a, b, false))
    }

    /// After `A <- A & b`.
    pub open spec fn anded(self, b: u8) -> Registers {
        Registers { a: self.a & b, ..self }.with_flags(self.a & b == 0, false, true, false)
    }

    /// After `A <- A ^ b`.
    pub open spec fn xored(self, b: u8) -> Registers {
        Registers { a: self.a ^ b, ..self }.with_flags(self.a ^ b == 0, false, false, false)
    }

    /// After `A <- A | b`.
    pub open spec fn ored(self, b: u8) -> Registers {
        Registers { a: self.a | b, ..self }.with_flags(self.a | b == 0, false, false, false)
    }

    /// After `HL <- HL + b`: `Z` is kept, `N` cleared, `H` is the carry out
    /// of bit 11 and `C` the carry out of bit 15.
    pub open spec fn added_hl(self, b: u16) -> Registers {
        let hl = self.spec_hl();
        self.with_hl(((hl + b) % 0x10000) as u16).with_flags(
            self.zf(),
            false,
            hl % 0x1000 + b % 0x1000 > 0x0FFF,
            hl + b > 0xFFFF,
        )
    }

    /// The flags after `SP + b` with `b` a signed offset: `Z` and `N` are
    /// cleared, `H` and `C` come from the addition of the low bytes.
    pub open spec fn offset_flags(self, b: u8) -> Registers {
        self.with_flags(false, false, offset_half(self.sp, b), offset_carry(self.sp, b))
    }

    /// After `SP <- SP + b` with `b` sign-extended to 16 bits.
    pub open spec fn added_sp(self, b: u8) -> Registers {
        Registers { sp: offset_value(self.sp, b), ..self.offset_flags(b) }
    }

    /// The flags after the increment of the byte `v`; `C` is kept.
    pub open spec fn inc_flags(self, v: u8) -> Registers {
        self.with_flags(add_value(v, 1, false) == 0, false, v % 16 == 15, self.cf())
    }

    /// The flags after the decrement of the byte `v`; `C` is kept.
    pub open spec fn dec_flags(self, v: u8) -> Registers {
        self.with_flags(sub_value(v, 1, false) == 0, true, v % 16 == 0, self.cf())
    }

    /// After `A <- !A`; `N` and `H` are set, `Z` and `C` kept.
    pub open spec fn complemented(self) -> Registers {
        Registers { a: !self.a, ..self }.with_flags(self.zf(), true, true, self.cf())
    }

    /// After the carry flag is complemented; `N` and `H` are cleared.
    pub open spec fn carry_flipped(self) -> Registers {
        self.with_flags(self.zf(), false, false, !self.cf())
    }

    /// After the carry flag is set; `N` and `H` are cleared.
    pub open spec fn carry_set(self) -> Registers {
        self.with_flags(self.zf(), false, false, true)
    }

    /// After the decimal adjustment of `A`: `Z` follows the result, `H` is
    /// cleared, `N` kept.
    pub open spec fn adjusted(self) -> Registers {
        let r = daa_value(self.a, self.nf(), self.hf(), self.cf());
        Registers { a: r, ..self }.with_flags(
            r == 0,
            self.nf(),
            false,
            daa_carry(self.a, self.nf(), self.cf()),
        )
    }

    /// The flags after a rotation or shift that gave `r` and moved `carry`
    /// out: `N` and `H` are cleared.
    pub open spec fn shift_flags(self, r: u8, zero_from_result: bool, carry: bool) -> Registers {
        self.with_flags(zero_from_result && r == 0, false, false, carry)
    }

    /// The flags after the test of bit `bit` of `v`: `Z` is set when the bit
    /// is clear, `N` is cleared, `H` set and `C` kept.
    pub open spec fn bit_flags(self, v: u8, bit: u8) -> Registers {
        self.with_flags(!bit_is_set(v, bit), false, true, self.cf())
    }

    /// The pair `AF` as one 16-bit value.
    #[verifier::when_used_as_spec(spec_af)]
    pub fn af(&self) -> (v: u16)
        ensures
            v == pair(self.a, self.f),
    {
        proof {
            lemma_pair_bits(self.a, self.f);
        }
        ((self.a as u16) << 8) | (self.f as u16)
    }

    /// Stores a 16-bit value in the pair `AF`; reading the pair gives it back.
    pub fn set_af(&mut self, val: u16)
        ensures
            *final(self) == old(self).with_af(val),
            final(self).af() == val,
    {
        proof {
            lemma_split_bits(val);
        }
        self.a = ((val & 0xff00) >> 8) as u8;
        self.f = (val & 0xff) as u8;
    }

    /// The pair `BC` as one 16-bit value.
    #[verifier::when_used_as_spec(spec_bc)]
    pub fn bc(&self) -> (v: u16)
        ensures
            v == pair(self.b, self.c),
    {
        proof {
            lemma_pair_bits(self.b, self.c);
        }
        ((self.b as u16) << 8) | (self.c as u16)
    }

    /// Stores a 16-bit value in the pair `BC`; reading the pair gives it back.
    pub fn set_bc(&mut self, val: u16)
        ensures
            *final(self) == old(self).with_bc(val),
            final(self).bc() == val,
    {
        proof {
            lemma_split_bits(val);
        }
        self.b = ((val & 0xff00) >> 8) as u8;
        self.c = (val & 0xff) as u8;
    }

    /// The pair `DE` as one 16-bit value.
    #[verifier::when_used_as_spec(spec_de)]
    pub fn de(&self) -> (v: u16)
        ensures
            v == pair(self.d, self.e),
    {
        proof {
            lemma_pair_bits(self.d, self.e);
        }
        ((self.d as u16) << 8) | (self.e as u16)
    }

    /// Stores a 16-bit value in the pair `DE`; reading the pair gives it back.
    pub fn set_de(&mut self, val: u16)
        ensures
            *final(self) == old(self).with_de(val),
            final(self).de() == val,
    {
        proof {
            lemma_split_bits(val);
        }
        self.d = ((val & 0xff00) >> 8) as u8;
        self.e = (val & 0xff) as u8;
    }

    /// The pair `HL` as one 16-bit value.
    #[verifier::when_used_as_spec(spec_hl)]
    pub fn hl(&self) -> (v: u16)
        ensures
            v == pair(self.h, self.l),
    {
        proof {
            lemma_pair_bits(self.h, self.l);
        }
        ((self.h as u16) << 8) | (self.l as u16)
    }

    /// Stores a 16-bit value in the pair `HL`; reading the pair gives it back.
    pub fn set_hl(&mut self, val: u16)
        ensures
            *final(self) == old(self).with_hl(val),
            final(self).hl() == val,
    {
        proof {
            lemma_split_bits(val);
        }
        self.h = ((val & 0xff00) >> 8) as u8;
        self.l = (val & 0xff) as u8;
    }

    /// Whether `flag` is set.
    pub open spec fn spec_get_flag(&self, flag: Flag) -> bool {
        flag_is_set(self.f, flag)
    }

    /// Whether `flag` is set.
    #[verifier::when_used_as_spec(spec_get_flag)]
    pub fn get_flag(&self, flag: Flag) -> (set: bool)
        ensures
            set == flag_is_set(self.f, flag),
    {
        let mask: u8 = match flag {
            Flag::C => 0x10,
            Flag::H => 0x20,
            Flag::N => 0x40,
            Flag::Z => 0x80,
        };
        (self.f & mask) != 0
    }

    /// Sets or clears `flag` and leaves every other bit of `F` alone.
    pub fn set_flag(&mut self, flag: Flag, val: bool)
        ensures
            *final(self) == (Registers { f: with_flag(old(self).f, flag, val), ..*old(self) }),
    {
        let mask: u8 = match flag {
            Flag::C => 0x10,
            Flag::H => 0x20,
            Flag::N => 0x40,
            Flag::Z => 0x80,
        };
        if val {
            self.f |= mask
        } else {
            self.f &= !mask
        }
    }

    /// Replaces all four flags at once, keeping the low nibble of `F`.
    pub fn set_flags(&mut self, z: bool, n: bool, h: bool, c: bool)
        ensures
            *final(self) == old(self).with_flags(z, n, h, c),
    {
        let zb: u8 = if z { 0x80 } else { 0 };
        let nb: u8 = if n { 0x40 } else { 0 };
        let hb: u8 = if h { 0x20 } else { 0 };
        let cb: u8 = if c { 0x10 } else { 0 };
        self.f = (self.f & 0x0F) | zb | nb | hb | cb;
    }

    fn alu_add_internal(&mut self, b: u8, with_carry: bool)
        ensures
            *final(self) == old(self).added(b, with_carry && old(self).cf()),
    {
        let a = self.a;
        let c: u8 = if with_carry && self.get_flag(Flag::C) { 1 } else { 0 };
        let sum: u16 = a as u16 + b as u16 + c as u16;
        let r: u8 = (sum % 256) as u8;
        self.set_flags(r == 0, false, (a % 16) + (b % 16) + c > 15, sum > 0xFF);
        self.a = r;
    }

    /// `A <- A + b`.
    pub fn alu_add(&mut self, b: u8)
        ensures
            *final(self) == old(self).added(b, false),
    {
        self.alu_add_internal(b, false)
    }

    /// `A <- A + b + C`.
    pub fn alu_adc(&mut self, b: u8)
        ensures
            *final(self) == old(self).added(b, old(self).cf()),
    {
        self.alu_add_internal(b, true)
    }

    /// `HL <- HL + b`.
    pub fn alu_addhl(&mut self, b: u16)
        ensures
            *final(self) == old(self).added_hl(b),
    {
        let hl = self.hl();
        let sum: u32 = hl as u32 + b as u32;
        let r: u16 = (sum % 0x10000) as u16;
        let z = self.get_flag(Flag::Z);
        self.h = (r / 256) as u8;
        self.l = (r % 256) as u8;
        self.set_flags(z, false, (hl % 0x1000) + (b % 0x1000) > 0x0FFF, sum > 0xFFFF);
    }

    /// The value of `SP + b` with `b` a signed offset, and its flags; `SP`
    /// itself is left alone, so that the same primitive serves the
    /// instruction that stores the sum in `HL`.
    pub fn alu_offset_sp(&mut self, b: u8) -> (r: u16)
        ensures
            r == offset_value(old(self).sp, b),
            *final(self) == old(self).offset_flags(b),
    {
        let val: u16 = if b < 128 { b as u16 } else { 0xFF00 + b as u16 };
        let sum: u32 = self.sp as u32 + val as u32;
        let r: u16 = (sum % 0x10000) as u16;
        let half = (self.sp % 16) + (b as u16 % 16) > 15;
        let carry = (self.sp % 256) + b as u16 > 255;
        self.set_flags(false, false, half, carry);
        r
    }

    /// `SP <- SP + b` with `b` sign-extended to 16 bits.
    pub fn alu_addsp(&mut self, b: u8)
        ensures
            *final(self) == old(self).added_sp(b),
    {
        let r = self.alu_offset_sp(b);
        self.sp = r;
    }

    fn alu_sub_internal(&mut self, b: u8, with_carry: bool)
        ensures
            *final(self) == old(self).subtracted(b, with_carry && old(self).cf()),
    {
        let a = self.a;
        let c: u8 = if with_carry && self.get_flag(Flag::C) { 1 } else { 0 };
        let diff: u16 = 256 + a as u16 - b as u16 - c as u16;
        let r: u8 = (diff % 256) as u8;
        self.set_flags(
            r == 0,
            true,
            (a % 16) < (b % 16) + c,
            (a as u16) < (b as u16) + (c as u16),
        );
        self.a = r;
    }

    /// `A <- A - b`.
    pub fn alu_sub(&mut self, b: u8)
        ensures
            *final(self) == old(self).subtracted(b, false),
    {
        self.alu_sub_internal(b, false)
    }

    /// `A <- A - b - C`.
    pub fn alu_sbc(&mut self, b: u8)
        ensures
            *final(self) == old(self).subtracted(b, old(self).cf()),
    {
        self.alu_sub_internal(b, true)
    }

    /// `A <- A & b`.
    pub fn alu_and(&mut self, b: u8)
        ensures
            *final(self) == old(self).anded(b),
    {
        let r = self.a & b;
        self.set_flags(r == 0, false, true, false);
        self.a = r;
    }

    /// `A <- A ^ b`.
    pub fn alu_xor(&mut self, b: u8)
        ensures
            *final(self) == old(self).xored(b),
    {
        let r = self.a ^ b;
        self.set_flags(r == 0, false, false, false);
        self.a = r;
    }

    /// `A <- A | b`.
    pub fn alu_or(&mut self, b: u8)
        ensures
            *final(self) == old(self).ored(b),
    {
        let r = self.a | b;
        self.set_flags(r == 0, false, false, false);
        self.a = r;
    }

    /// Compares `A` with `b`.
    pub fn alu_cp(&mut self, b: u8)
        ensures
            *final(self) == old(self).compared(b),
    {
        let a = self.a;
        self.set_flags(a == b, true, (a % 16) < (b % 16), a < b);
    }

    /// `a + 1` wrapped to a byte, with its flags.
    pub fn alu_inc(&mut self, a: u8) -> (r: u8)
        ensures
            r == add_value(a, 1, false),
            *final(self) == old(self).inc_flags(a),
    {
        let r = a.wrapping_add(1);
        let c = self.get_flag(Flag::C);
        self.set_flags(r == 0, false, (a % 16) == 0xF, c);
        r
    }

    /// `a + 1` wrapped to 16 bits; no flag changes.
    pub fn alu_inc16(&mut self, a: u16) -> (r: u16)
        ensures
            r == ((a + 1) % 0x10000) as u16,
            *final(self) == *old(self),
    {
        a.wrapping_add(1)
    }

    /// `a - 1` wrapped to a byte, with its flags.
    pub fn alu_dec(&mut self, a: u8) -> (r: u8)
        ensures
            r == sub_value(a, 1, false),
            *final(self) == old(self).dec_flags(a),
    {
        let r = a.wrapping_sub(1);
        let c = self.get_flag(Flag::C);
        self.set_flags(r == 0, true, (a % 16) == 0, c);
        r
    }

    /// `a - 1` wrapped to 16 bits; no flag changes.
    pub fn alu_dec16(&mut self, a: u16) -> (r: u16)
        ensures
            r == ((a - 1) % 0x10000) as u16,
            *final(self) == *old(self),
    {
        a.wrapping_sub(1)
    }

    /// `A <- !A`.
    pub fn alu_cpl(&mut self)
        ensures
            *final(self) == old(self).complemented(),
    {
        let z = self.get_flag(Flag::Z);
        let c = self.get_flag(Flag::C);
        self.set_flags(z, true, true, c);
        self.a = !self.a;
    }

    /// Complements the carry flag.
    pub fn alu_ccf(&mut self)
        ensures
            *final(self) == old(self).carry_flipped(),
    {
        let z = self.get_flag(Flag::Z);
        let c = self.get_flag(Flag::C);
        self.set_flags(z, false, false, !c);
    }

    /// Sets the carry flag.
    pub fn alu_scf(&mut self)
        ensures
            *final(self) == old(self).carry_set(),
    {
        let z = self.get_flag(Flag::Z);
        self.set_flags(z, false, false, true);
    }

    /// Decimal adjustment of `A` after an addition or subtraction of packed
    /// decimal operands.
    pub fn alu_daa(&mut self)
        ensures
            *final(self) == old(self).adjusted(),
    {
        let mut a = self.a;
        let mut c = self.get_flag(Flag::C);
        let h = self.get_flag(Flag::H);
        let n = self.get_flag(Flag::N);
        if !n {
            if c || a > 0x99 {
                a = a.wrapping_add(0x60);
                c = true;
            }
            if h || (a % 16) > 0x09 {
                a = a.wrapping_add(0x06);
            }
        } else {
            if c {
                a = a.wrapping_sub(0x60);
            }
            if h {
                a = a.wrapping_sub(0x06);
            }
        }
        self.set_flags(a == 0, n, false, c);
        self.a = a;
    }

    /// Rotate left; `C` receives bit 7. `Z` follows the result only where
    /// `zero_from_result` is set (the accumulator forms always clear it).
    pub fn alu_rlc(&mut self, v: u8, zero_from_result: bool) -> (r: u8)
        ensures
            r == rlc_value(v),
            *final(self) == old(self).shift_flags(r, zero_from_result, v >= 128),
    {
        let r: u8 = ((v % 128) * 2) + v / 128;
        self.set_flags(zero_from_result && r == 0, false, false, v >= 128);
        r
    }

    /// Rotate right; `C` receives bit 0.
    pub fn alu_rrc(&mut self, v: u8, zero_from_result: bool) -> (r: u8)
        ensures
            r == rrc_value(v),
            *final(self) == old(self).shift_flags(r, zero_from_result, v % 2 == 1),
    {
        let r: u8 = v / 2 + (v % 2) * 128;
        self.set_flags(zero_from_result && r == 0, false, false, v % 2 == 1);
        r
    }

    /// Rotate left through the carry flag.
    pub fn alu_rl(&mut self, v: u8, zero_from_result: bool) -> (r: u8)
        ensures
            r == rl_value(v, old(self).cf()),
            *final(self) == old(self).shift_flags(r, zero_from_result, v >= 128),
    {
        let c: u8 = if self.get_flag(Flag::C) { 1 } else { 0 };
        let r: u8 = ((v % 128) * 2) + c;
        self.set_flags(zero_from_result && r == 0, false, false, v >= 128);
        r
    }

    /// Rotate right through the carry flag.
    pub fn alu_rr(&mut self, v: u8, zero_from_result: bool) -> (r: u8)
        ensures
            r == rr_value(v, old(self).cf()),
            *final(self) == old(self).shift_flags(r, zero_from_result, v % 2 == 1),
    {
        let c: u8 = if self.get_flag(Flag::C) { 128 } else { 0 };
        let r: u8 = v / 2 + c;
        self.set_flags(zero_from_result && r == 0, false, false, v % 2 == 1);
        r
    }

    /// Shift left; `C` receives bit 7.
    pub fn alu_sla(&mut self, v: u8) -> (r: u8)
        ensures
            r == sla_value(v),
            *final(self) == old(self).shift_flags(r, true, v >= 128),
    {
        let r: u8 = (v % 128) * 2;
        self.set_flags(r == 0, false, false, v >= 128);
        r
    }

    /// Arithmetic shift right: bit 7 is kept, `C` receives bit 0.
    pub fn alu_sra(&mut self, v: u8) -> (r: u8)
        ensures
            r == sra_value(v),
            *final(self) == old(self).shift_flags(r, true, v % 2 == 1),
    {
        let r: u8 = v / 2 + (v / 128) * 128;
        self.set_flags(r == 0, false, false, v % 2 == 1);
        r
    }

    /// Logical shift right; `C` receives bit 0.
    pub fn alu_srl(&mut self, v: u8) -> (r: u8)
        ensures
            r == srl_value(v),
            *final(self) == old(self).shift_flags(r, true, v % 2 == 1),
    {
        let r: u8 = v / 2;
        self.set_flags(r == 0, false, false, v % 2 == 1);
        r
    }

    /// Exchanges the nibbles of `v`; `C` is cleared.
    pub fn alu_swap(&mut self, v: u8) -> (r: u8)
        ensures
            r == swap_value(v),
            *final(self) == old(self).shift_flags(r, true, false),
    {
        let r: u8 = (v % 16) * 16 + v / 16;
        self.set_flags(r == 0, false, false, false);
        r
    }

    /// Tests bit `bit` of `v`.
    pub fn alu_bit(&mut self, v: u8, bit: u8)
        requires
            bit < 8,
        ensures
            *final(self) == old(self).bit_flags(v, bit),
    {
        let set = test_bit(v, bit);
        let c = self.get_flag(Flag::C);
        self.set_flags(!set, false, true, c);
    }
}

/// Whether bit `bit` of `v` is set.
pub fn test_bit(v: u8, bit: u8) -> (set: bool)
    requires
        bit < 8,
    ensures
        set == bit_is_set(v, bit),
{
    v & (1u8 << bit) != 0
}

/// `v` with bit `bit` cleared.
pub fn clear_bit(v: u8, bit: u8) -> (r: u8)
    requires
        bit < 8,
    ensures
        r == res_value(v, bit),
{
    v & !(1u8 << bit)
}

/// `v` with bit `bit` set.
pub fn raise_bit(v: u8, bit: u8) -> (r: u8)
    requires
        bit < 8,
    ensures
        r == set_value(v, bit),
{
    v | (1u8 << bit)
}

/// Clearing or setting one bit of a byte is read back by the bit test and
/// leaves every other bit as it was.
pub proof fn lemma_bit_update(v: u8, bit: u8, other: u8)
    requires
        bit < 8,
        other < 8,
    ensures
        !bit_is_set(res_value(v, bit), bit),
        bit_is_set(set_value(v, bit), bit),
        other != bit ==> bit_is_set(res_value(v, bit), other) == bit_is_set(v, other),
        other != bit ==> bit_is_set(set_value(v, bit), other) == bit_is_set(v, other),
{
    lemma_bit_masks(bit, other);
    lemma_mask_update(v, bit_mask(bit), bit_mask(other));
}

/// Adding two packed decimal bytes and then adjusting gives the packed
/// decimal form of the sum of the two numbers modulo 100, with the carry flag
/// telling whether the sum reached 100. In particular both nibbles of the
/// result are decimal digits.
pub proof fn lemma_daa_after_add(a: u8, b: u8)
    by (bit_vector)
    requires
        is_bcd(a),
        is_bcd(b),
    ensures
        ({
            let sum = add_value(a, b, false);
            let h = add_half(a, b, false);
            let c = add_carry(a, b, false);
            let r = daa_value(sum, false, h, c);
            &&& is_bcd(r)
            &&& bcd_number(r) == (bcd_number(a) + bcd_number(b)) % 100
            &&& daa_carry(sum, false, c) == (bcd_number(a) + bcd_number(b) >= 100)
        }),
{
}

} // verus!
