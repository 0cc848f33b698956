use vstd::prelude::*;

verus! {

/// Mask of the zero flag in the flags register.
pub open spec fn zero_mask() -> u8 {
    0x80
}

/// Value of the flags register with `mask` switched on or off, all other bits kept.
pub open spec fn with_bit(bits: u8, mask: u8, on: bool) -> u8 {
    if on {
        bits | mask
    } else {
        bits & !mask
    }
}

/// The zero flag of a flags byte.
pub open spec fn zero_of(bits: u8) -> bool {
    bits & 0x80 != 0
}

/// The subtract flag of a flags byte.
pub open spec fn subtract_of(bits: u8) -> bool {
    bits & 0x40 != 0
}

/// The half carry flag of a flags byte.
pub open spec fn half_carry_of(bits: u8) -> bool {
    bits & 0x20 != 0
}

/// The carry flag of a flags byte.
pub open spec fn carry_of(bits: u8) -> bool {
    bits & 0x10 != 0
}

/// A flags byte whose four flags are `z`, `n`, `h` and `c`, with the lower four bits of `bits`.
pub open spec fn with_flags(bits: u8, z: bool, n: bool, h: bool, c: bool) -> u8 {
    (bits & 0x0F) | (if z { 0x80u8 } else { 0u8 }) | (if n { 0x40u8 } else { 0u8 }) | (if h {
        0x20u8
    } else {
        0u8
    }) | (if c { 0x10u8 } else { 0u8 })
}

/// How switching one flag, or flipping the carry flag, changes a flags byte, and that every
/// flags byte is `with_flags` of its own four flags.
pub proof fn lemma_flags(bits: u8, z: bool, n: bool, h: bool, c: bool, x: bool)
    by (bit_vector)
    ensures
        with_bit(with_flags(bits, z, n, h, c), 0x80, x) == with_flags(bits, x, n, h, c),
        with_bit(with_flags(bits, z, n, h, c), 0x40, x) == with_flags(bits, z, x, h, c),
        with_bit(with_flags(bits, z, n, h, c), 0x20, x) == with_flags(bits, z, n, x, c),
        with_bit(with_flags(bits, z, n, h, c), 0x10, x) == with_flags(bits, z, n, h, x),
        with_flags(bits, z, n, h, c) ^ 0x10 == with_flags(bits, z, n, h, !c),
        zero_of(with_flags(bits, z, n, h, c)) == z,
        subtract_of(with_flags(bits, z, n, h, c)) == n,
        half_carry_of(with_flags(bits, z, n, h, c)) == h,
        carry_of(with_flags(bits, z, n, h, c)) == c,
        with_flags(bits, z, n, h, c) & 0x0F == bits & 0x0F,
        bits == with_flags(bits, zero_of(bits), subtract_of(bits), half_carry_of(bits), carry_of(bits)),
        with_flags(bits, z, n, h, c) & 0x80 == 0x80 <==> z,
        with_flags(bits, z, n, h, c) & 0x10 == 0x10 <==> c,
        with_flags(bits, z, n, h, c) & 0x40 == 0x40 <==> n,
        with_flags(bits, z, n, h, c) & 0x20 == 0x20 <==> h,
{
}

/// Setting zero, subtract, half carry and carry one after another gives `with_flags`.
pub proof fn lemma_set_znhc(bits: u8, z: bool, n: bool, h: bool, c: bool)
    ensures
        with_bit(with_bit(with_bit(with_bit(bits, 0x80, z), 0x40, n), 0x20, h), 0x10, c)
            == with_flags(bits, z, n, h, c),
{
    let (z0, n0, h0, c0) = (zero_of(bits), subtract_of(bits), half_carry_of(bits), carry_of(bits));
    lemma_flags(bits, z0, n0, h0, c0, z);
    lemma_flags(bits, z, n0, h0, c0, n);
    lemma_flags(bits, z, n, h0, c0, h);
    lemma_flags(bits, z, n, h, c0, c);
}

/// Setting subtract, half carry and zero one after another keeps the carry flag.
pub proof fn lemma_set_nhz(bits: u8, n: bool, h: bool, z: bool)
    ensures
        with_bit(with_bit(with_bit(bits, 0x40, n), 0x20, h), 0x80, z)
            == with_flags(bits, z, n, h, carry_of(bits)),
{
    let (z0, n0, h0, c0) = (zero_of(bits), subtract_of(bits), half_carry_of(bits), carry_of(bits));
    lemma_flags(bits, z0, n0, h0, c0, n);
    lemma_flags(bits, z0, n, h0, c0, h);
    lemma_flags(bits, z0, n, h, c0, z);
}

/// Setting zero, subtract and half carry one after another keeps the carry flag.
pub proof fn lemma_set_znh(bits: u8, z: bool, n: bool, h: bool)
    ensures
        with_bit(with_bit(with_bit(bits, 0x80, z), 0x40, n), 0x20, h)
            == with_flags(bits, z, n, h, carry_of(bits)),
{
    let (z0, n0, h0, c0) = (zero_of(bits), subtract_of(bits), half_carry_of(bits), carry_of(bits));
    lemma_flags(bits, z0, n0, h0, c0, z);
    lemma_flags(bits, z, n0, h0, c0, n);
    lemma_flags(bits, z, n, h0, c0, h);
}

/// Setting subtract, half carry and carry one after another keeps the zero flag.
pub proof fn lemma_set_nhc(bits: u8, n: bool, h: bool, c: bool)
    ensures
        with_bit(with_bit(with_bit(bits, 0x40, n), 0x20, h), 0x10, c)
            == with_flags(bits, zero_of(bits), n, h, c),
{
    let (z0, n0, h0, c0) = (zero_of(bits), subtract_of(bits), half_carry_of(bits), carry_of(bits));
    lemma_flags(bits, z0, n0, h0, c0, n);
    lemma_flags(bits, z0, n, h0, c0, h);
    lemma_flags(bits, z0, n, h, c0, c);
}

/// Setting subtract and half carry, then flipping carry, keeps the zero flag.
pub proof fn lemma_set_nh_toggle_c(bits: u8, n: bool, h: bool)
    ensures
        with_bit(with_bit(bits, 0x40, n), 0x20, h) ^ 0x10
            == with_flags(bits, zero_of(bits), n, h, !carry_of(bits)),
{
    let (z0, n0, h0, c0) = (zero_of(bits), subtract_of(bits), half_carry_of(bits), carry_of(bits));
    lemma_flags(bits, z0, n0, h0, c0, n);
    lemma_flags(bits, z0, n, h0, c0, h);
    lemma_flags(bits, z0, n, h, c0, false);
}

/// Setting zero, half carry and carry one after another keeps the subtract flag.
pub proof fn lemma_set_zhc(bits: u8, z: bool, h: bool, c: bool)
    ensures
        with_bit(with_bit(with_bit(bits, 0x80, z), 0x20, h), 0x10, c)
            == with_flags(bits, z, subtract_of(bits), h, c),
{
    let (z0, n0, h0, c0) = (zero_of(bits), subtract_of(bits), half_carry_of(bits), carry_of(bits));
    lemma_flags(bits, z0, n0, h0, c0, z);
    lemma_flags(bits, z, n0, h0, c0, h);
    lemma_flags(bits, z, n0, h, c0, c);
}

/// Setting subtract and half carry keeps zero and carry.
pub proof fn lemma_set_nh(bits: u8, n: bool, h: bool)
    ensures
        with_bit(with_bit(bits, 0x40, n), 0x20, h)
            == with_flags(bits, zero_of(bits), n, h, carry_of(bits)),
{
    let (z0, n0, h0, c0) = (zero_of(bits), subtract_of(bits), half_carry_of(bits), carry_of(bits));
    lemma_flags(bits, z0, n0, h0, c0, n);
    lemma_flags(bits, z0, n, h0, c0, h);
}

/// Flag bits kept by setting or clearing a flag mask: a flags byte with a clear lower nibble
/// keeps it clear under `or`, `and not` and `xor` with a mask whose lower nibble is clear.
pub proof fn lemma_flag_masks(bits: u8, mask: u8)
    by (bit_vector)
    requires
        bits & 0x0F == 0,
        mask & 0x0F == 0,
    ensures
        (bits | mask) & 0x0F == 0,
        (bits & !mask) & 0x0F == 0,
        (bits ^ mask) & 0x0F == 0,
{
}

/// A byte is a multiple of sixteen exactly when its lower nibble is clear.
pub proof fn lemma_low_nibble(b: u8)
    by (bit_vector)
    ensures
        (b & 0x0F == 0) <==> (b % 16 == 0),
        (b & 0xF0) & 0x0F == 0,
{
}

/// A flags byte with a clear lower nibble is fixed by its four flags alone.
pub proof fn lemma_flags_clear_low(bits: u8, z: bool, n: bool, h: bool, c: bool)
    by (bit_vector)
    requires
        bits & 0x0F == 0,
    ensures
        with_flags(bits, z, n, h, c) == with_flags(0, z, n, h, c),
{
}

/// The flags register of the CPU: the upper four bits hold the zero, subtract, half carry and
/// carry flags; the lower four bits always read as zero.
#[derive(Clone, Copy, Debug, PartialEq, Eq, Structural)]
pub struct Flags {
    bits: u8,
}

impl View for Flags {
    type V = u8;

    closed spec fn view(&self) -> u8 {
        self.bits
    }
}

impl Flags {
    pub const ZERO: u8 = 0b1000_0000;

    pub const SUBTRACT: u8 = 0b0100_0000;

    pub const HALF_CARRY: u8 = 0b0010_0000;

    pub const CARRY: u8 = 0b0001_0000;

    /// Only the four flag bits can be set.
    #[verifier::type_invariant]
    pub open spec fn only_flag_bits(self) -> bool {
        self@ & 0x0F == 0
    }

    /// Flags with no flag set.
    pub fn empty() -> (f: Flags)
        ensures
            f@ == 0,
    {
        assert(0u8 & 0x0F == 0) by (bit_vector);
        Flags { bits: 0 }
    }

    /// Flags taken from the upper four bits of `bits`; the lower four bits are dropped.
    pub fn from_bits_truncate(bits: u8) -> (f: Flags)
        ensures
            f@ == bits & 0xF0,
    {
        proof {
            lemma_low_nibble(bits);
        }
        Flags { bits: bits & 0xF0 }
    }

    /// The raw byte of the flags register; its lower four bits are clear.
    pub fn bits(&self) -> (b: u8)
        ensures
            b == self@,
            b & 0x0F == 0,
    {
        proof {
            use_type_invariant(self);
        }
        self.bits
    }

    /// Whether every bit of `mask` is set.
    pub fn contains(&self, mask: u8) -> (b: bool)
        ensures
            b == (self@ & mask == mask),
    {
        self.bits & mask == mask
    }

    /// Switch the flag bits of `mask` on or off; `mask` holds flag bits only.
    pub fn set(&mut self, mask: u8, on: bool)
        requires
            mask % 16 == 0,
        ensures
            final(self)@ == with_bit(old(self)@, mask, on),
            final(self)@ & 0x0F == 0,
    {
        proof {
            use_type_invariant(&*self);
            lemma_low_nibble(mask);
            lemma_flag_masks(self.bits, mask);
        }
        if on {
            self.bits = self.bits | mask;
        } else {
            self.bits = self.bits & !mask;
        }
    }

    /// Switch the flag bits of `mask` on; `mask` holds flag bits only.
    pub fn insert(&mut self, mask: u8)
        requires
            mask % 16 == 0,
        ensures
            final(self)@ == with_bit(old(self)@, mask, true),
            final(self)@ & 0x0F == 0,
    {
        self.set(mask, true);
    }

    /// Switch the flag bits of `mask` off; `mask` holds flag bits only.
    pub fn remove(&mut self, mask: u8)
        requires
            mask % 16 == 0,
        ensures
            final(self)@ == with_bit(old(self)@, mask, false),
            final(self)@ & 0x0F == 0,
    {
        self.set(mask, false);
    }

    /// Flip the flag bits of `mask`; `mask` holds flag bits only.
    pub fn toggle(&mut self, mask: u8)
        requires
            mask % 16 == 0,
        ensures
            final(self)@ == old(self)@ ^ mask,
            final(self)@ & 0x0F == 0,
    {
        proof {
            use_type_invariant(&*self);
            lemma_low_nibble(mask);
            lemma_flag_masks(self.bits, mask);
        }
        self.bits = self.bits ^ mask;
    }
}

/// A register of the CPU, either one 8-bit register or one 16-bit register pair.
#[derive(Debug, Eq, PartialEq, Structural)]
pub enum Register {
    Reg8(Reg8),
    Reg16(Reg16),
}

/// The 8-bit registers of the CPU.
#[derive(Debug, Eq, PartialEq, Structural)]
pub enum Reg8 {
    A,
    B,
    C,
    D,
    E,
    H,
    L,
}

/// The 16-bit registers of the CPU: the register pairs and the stack pointer.
#[derive(Debug, Eq, PartialEq, Structural)]
pub enum Reg16 {
    AF,
    BC,
    DE,
    HL,
    SP,
}

/// Registers for the CPU core
pub struct Registers {
    pub a: u8,
    pub f: Flags,
    pub b: u8,
    pub c: u8,
    pub d: u8,
    pub e: u8,
    pub h: u8,
    pub l: u8,
    pub pc: u16,
    pub sp: u16,
}

/// The registers as plain values, the flags register as its byte.
pub struct RegistersView {
    pub a: u8,
    pub f: u8,
    pub b: u8,
    pub c: u8,
    pub d: u8,
    pub e: u8,
    pub h: u8,
    pub l: u8,
    pub pc: u16,
    pub sp: u16,
}

impl View for Registers {
    type V = RegistersView;

    open spec fn view(&self) -> RegistersView {
        RegistersView {
            a: self.a,
            f: self.f@,
            b: self.b,
            c: self.c,
            d: self.d,
            e: self.e,
            h: self.h,
            l: self.l,
            pc: self.pc,
            sp: self.sp,
        }
    }
}

/// The 16-bit value made of a high and a low byte.
pub open spec fn word(high: u8, low: u8) -> u16 {
    ((high as u16) * 256 + (low as u16)) as u16
}

/// The high byte of a 16-bit value.
pub open spec fn high_byte(v: u16) -> u8 {
    (v / 256) as u8
}

/// The low byte of a 16-bit value.
pub open spec fn low_byte(v: u16) -> u8 {
    (v % 256) as u8
}

impl RegistersView {
    /// All registers zero.
    pub open spec fn zeroed() -> RegistersView {
        RegistersView { a: 0, f: 0, b: 0, c: 0, d: 0, e: 0, h: 0, l: 0, pc: 0, sp: 0 }
    }

    /// The register values the DMG boot rom leaves behind.
    pub open spec fn post_boot() -> RegistersView {
        RegistersView {
            a: 0x01,
            f: 0xB0,
            b: 0x00,
            c: 0x13,
            d: 0x00,
            e: 0xD8,
            h: 0x01,
            l: 0x4D,
            pc: 0x0100,
            sp: 0xFFFE,
        }
    }

    pub open spec fn read8(self, r8: Reg8) -> u8 {
        match r8 {
            Reg8::A => self.a,
            Reg8::B => self.b,
            Reg8::C => self.c,
            Reg8::D => self.d,
            Reg8::E => self.e,
            Reg8::H => self.h,
            Reg8::L => self.l,
        }
    }

    pub open spec fn write8(self, r8: Reg8, value: u8) -> RegistersView {
        match r8 {
            Reg8::A => RegistersView { a: value, ..self },
            Reg8::B => RegistersView { b: value, ..self },
            Reg8::C => RegistersView { c: value, ..self },
            Reg8::D => RegistersView { d: value, ..self },
            Reg8::E => RegistersView { e: value, ..self },
            Reg8::H => RegistersView { h: value, ..self },
            Reg8::L => RegistersView { l: value, ..self },
        }
    }

    pub open spec fn read16(self, r16: Reg16) -> u16 {
        match r16 {
            Reg16::AF => word(self.a, self.f),
            Reg16::BC => word(self.b, self.c),
            Reg16::DE => word(self.d, self.e),
            Reg16::HL => word(self.h, self.l),
            Reg16::SP => self.sp,
        }
    }

    /// Writing a register pair splits the value into its high and low byte; the flags register
    /// keeps only the upper nibble of the low byte.
    pub open spec fn write16(self, r16: Reg16, value: u16) -> RegistersView {
        match r16 {
            Reg16::AF => RegistersView {
                a: high_byte(value),
                f: low_byte(value) & 0xF0,
                ..self
            },
            Reg16::BC => RegistersView { b: high_byte(value), c: low_byte(value), ..self },
            Reg16::DE => RegistersView { d: high_byte(value), e: low_byte(value), ..self },
            Reg16::HL => RegistersView { h: high_byte(value), l: low_byte(value), ..self },
            Reg16::SP => RegistersView { sp: value, ..self },
        }
    }
}

/// A register pair whose low byte has a clear lower nibble has a clear lower nibble.
pub proof fn lemma_word_low_nibble(high: u8, low: u8)
    by (bit_vector)
    requires
        low & 0x0F == 0,
    ensures
        word(high, low) & 0x000F == 0,
{
}

/// An 8-bit register reads back what was last written to it; writing it leaves the other
/// 8-bit registers, the stack pointer and the program counter as they were.
pub proof fn lemma_write8_read8(regs: RegistersView, r8: Reg8, other: Reg8, value: u8)
    ensures
        regs.write8(r8, value).read8(r8) == value,
        other != r8 ==> regs.write8(r8, value).read8(other) == regs.read8(other),
        regs.write8(r8, value).f == regs.f,
        regs.write8(r8, value).sp == regs.sp,
        regs.write8(r8, value).pc == regs.pc,
{
}

/// A 16-bit register reads back what was last written to it, except that AF keeps no low
/// nibble; writing it leaves the program counter, and the stack pointer unless it is the
/// register written.
pub proof fn lemma_write16_read16(regs: RegistersView, r16: Reg16, value: u16)
    ensures
        regs.write16(r16, value).read16(r16) == (if r16 == Reg16::AF {
            value & 0xFFF0
        } else {
            value
        }),
        regs.write16(r16, value).pc == regs.pc,
        r16 != Reg16::SP ==> regs.write16(r16, value).sp == regs.sp,
{
    lemma_word_split(value);
    crate::bits::lemma_u16_high_low(value);
}

/// A register pair is its two 8-bit registers: writing the pair sets the first to the high
/// byte and the second to the low byte, and the pair reads as the word of the two.
pub proof fn lemma_register_pairs(regs: RegistersView, value: u16)
    ensures
        regs.write16(Reg16::BC, value).read8(Reg8::B) == high_byte(value),
        regs.write16(Reg16::BC, value).read8(Reg8::C) == low_byte(value),
        regs.write16(Reg16::DE, value).read8(Reg8::D) == high_byte(value),
        regs.write16(Reg16::DE, value).read8(Reg8::E) == low_byte(value),
        regs.write16(Reg16::HL, value).read8(Reg8::H) == high_byte(value),
        regs.write16(Reg16::HL, value).read8(Reg8::L) == low_byte(value),
        regs.write16(Reg16::AF, value).read8(Reg8::A) == high_byte(value),
        regs.read16(Reg16::BC) == word(regs.read8(Reg8::B), regs.read8(Reg8::C)),
        regs.read16(Reg16::DE) == word(regs.read8(Reg8::D), regs.read8(Reg8::E)),
        regs.read16(Reg16::HL) == word(regs.read8(Reg8::H), regs.read8(Reg8::L)),
{
}


pub proof fn lemma_word_split(v: u16)
    ensures
        (v >> 8) as u8 == high_byte(v),
        v as u8 == low_byte(v),
{
    assert((v >> 8) as u8 == (v / 256) as u8) by (bit_vector);
    assert(v as u8 == (v % 256) as u8) by (bit_vector);
}

pub proof fn lemma_word_join(high: u8, low: u8)
    by (bit_vector)
    ensures
        ((high as u16) << 8) | (low as u16) == ((high as u16) * 256 + (low as u16)) as u16,
        (low as u16) | ((high as u16) << 8) == ((high as u16) * 256 + (low as u16)) as u16,
{
}

impl Registers {
    pub fn new() -> (r: Registers)
        ensures
            r@ == RegistersView::zeroed(),
    {
        Registers {
            a: 0,
            f: Flags::empty(),
            b: 0,
            c: 0,
            d: 0,
            e: 0,
            h: 0,
            l: 0,
            pc: 0,
            sp: 0,
        }
    }

    /// Set the registers as the DMG boot rom leaves them.
    pub fn reset(&mut self)
        ensures
            final(self)@ == RegistersView::post_boot(),
    {
        self.a = 0x01;
        self.f = Flags::from_bits_truncate(Flags::ZERO | Flags::HALF_CARRY | Flags::CARRY);
        self.b = 0x00;
        self.c = 0x13;
        self.d = 0x00;
        self.e = 0xD8;
        self.h = 0x01;
        self.l = 0x4D;
        self.pc = 0x0100;
        self.sp = 0xFFFE;
        assert((0x80u8 | 0x20u8 | 0x10u8) & 0xF0u8 == 0xB0u8) by (bit_vector);
    }

    pub fn read8(&self, r8: &Reg8) -> (v: u8)
        ensures
            v == self@.read8(*r8),
    {
        match r8 {
            Reg8::A => self.a,
            Reg8::B => self.b,
            Reg8::C => self.c,
            Reg8::D => self.d,
            Reg8::E => self.e,
            Reg8::H => self.h,
            Reg8::L => self.l,
        }
    }

    pub fn write8(&mut self, r8: &Reg8, value: u8)
        ensures
            final(self)@ == old(self)@.write8(*r8, value),
    {
        match r8 {
            Reg8::A => self.a = value,
            Reg8::B => self.b = value,
            Reg8::C => self.c = value,
            Reg8::D => self.d = value,
            Reg8::E => self.e = value,
            Reg8::H => self.h = value,
            Reg8::L => self.l = value,
        }
    }

    pub fn read16(&self, r16: &Reg16) -> (v: u16)
        ensures
            v == self@.read16(*r16),
            *r16 == Reg16::AF ==> v & 0x000F == 0,
    {
        match r16 {
            Reg16::AF => {
                proof {
                    lemma_word_join(self.a, self.f@);
                    use_type_invariant(&self.f);
                    lemma_word_low_nibble(self.a, self.f@);
                }
                (u16::from(self.a) << 8) | (u16::from(self.f.bits()))
            },
            Reg16::BC => {
                proof {
                    lemma_word_join(self.b, self.c);
                }
                (u16::from(self.b) << 8) | (u16::from(self.c))
            },
            Reg16::DE => {
                proof {
                    lemma_word_join(self.d, self.e);
                }
                (u16::from(self.d) << 8) | (u16::from(self.e))
            },
            Reg16::HL => {
                proof {
                    lemma_word_join(self.h, self.l);
                }
                (u16::from(self.h) << 8) | (u16::from(self.l))
            },
            Reg16::SP => self.sp,
        }
    }

    pub fn write16(&mut self, r16: &Reg16, value: u16)
        ensures
            final(self)@ == old(self)@.write16(*r16, value),
    {
        proof {
            lemma_word_split(value);
        }
        match r16 {
            Reg16::AF => {
                self.a = (value >> 8) as u8;
                self.f = Flags::from_bits_truncate(value as u8)
            },
            Reg16::BC => {
                self.b = (value >> 8) as u8;
                self.c = value as u8
            },
            Reg16::DE => {
                self.d = (value >> 8) as u8;
                self.e = value as u8
            },
            Reg16::HL => {
                self.h = (value >> 8) as u8;
                self.l = value as u8
            },
            Reg16::SP => self.sp = value,
        }
    }
}

} // verus!
