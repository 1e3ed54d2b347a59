//! The CPU register file: eight 8-bit registers addressable individually or as
//! 16-bit pairs, and the four flag bits of the F register.

use vstd::prelude::*;

verus! {

/// High byte of a 16-bit value.
pub open spec fn high_byte(v: u16) -> u8 {
    (v / 256) as u8
}

/// Low byte of a 16-bit value.
pub open spec fn low_byte(v: u16) -> u8 {
    (v % 256) as u8
}

/// The 16-bit value spanned by a high and a low byte.
pub open spec fn word_from_bytes(hi: u8, lo: u8) -> u16 {
    (hi as u16 * 256 + lo as u16) as u16
}

/// The four semantic bits of the F register, kept as independent booleans
/// until serialized to or from the packed byte form.
#[derive(Clone, Copy, Debug, PartialEq, Eq, Structural)]
pub struct FlagsRegister {
    pub zero: bool,
    pub subtraction: bool,
    pub half_carry: bool,
    pub carry: bool,
}

/// The packed byte form of the flags: bit 7 = zero, bit 6 = subtraction,
/// bit 5 = half-carry, bit 4 = carry; the low nibble is always zero.
pub open spec fn pack_flags(zero: bool, subtraction: bool, half_carry: bool, carry: bool) -> u8 {
    (if zero { 0x80u8 } else { 0u8 })
    | (if subtraction { 0x40u8 } else { 0u8 })
    | (if half_carry { 0x20u8 } else { 0u8 })
    | (if carry { 0x10u8 } else { 0u8 })
}

impl FlagsRegister {
    pub open spec fn spec_to_byte(self) -> u8 {
        pack_flags(self.zero, self.subtraction, self.half_carry, self.carry)
    }

    pub open spec fn spec_from_byte(value: u8) -> FlagsRegister {
        FlagsRegister {
            zero: (value & 0x80) > 0,
            subtraction: (value & 0x40) > 0,
            half_carry: (value & 0x20) > 0,
            carry: (value & 0x10) > 0,
        }
    }

    pub fn new_cleared() -> (r: FlagsRegister)
        ensures
            r == (FlagsRegister { zero: false, subtraction: false, half_carry: false, carry: false }),
    {
        FlagsRegister { zero: false, subtraction: false, half_carry: false, carry: false }
    }

    pub fn to_byte(&self) -> (r: u8)
        ensures
            r == self.spec_to_byte(),
    {
        (if self.zero { 0x80u8 } else { 0u8 })
        | (if self.subtraction { 0x40u8 } else { 0u8 })
        | (if self.half_carry { 0x20u8 } else { 0u8 })
        | (if self.carry { 0x10u8 } else { 0u8 })
    }

    pub fn from_byte(value: u8) -> (r: FlagsRegister)
        ensures
            r == FlagsRegister::spec_from_byte(value),
    {
        FlagsRegister {
            zero: (value & 0x80) > 0,
            subtraction: (value & 0x40) > 0,
            half_carry: (value & 0x20) > 0,
            carry: (value & 0x10) > 0,
        }
    }
}

/// Law: serializing the flags read out of a byte reproduces that byte with
/// its low nibble forced to zero.
pub proof fn lemma_flag_byte_round_trip(value: u8)
    ensures
        FlagsRegister::spec_from_byte(value).spec_to_byte() == value & 0xF0,
{
    assert(pack_flags(
        (value & 0x80) > 0,
        (value & 0x40) > 0,
        (value & 0x20) > 0,
        (value & 0x10) > 0,
    ) == value & 0xF0) by (bit_vector);
}

/// Law: a 16-bit value split into its high and low bytes and re-joined is
/// itself, whether the bytes are joined arithmetically or as `(hi << 8) | lo`.
pub proof fn lemma_register_pair_round_trip(v: u16)
    ensures
        word_from_bytes(high_byte(v), low_byte(v)) == v,
        ((high_byte(v) as u16) << 8) | (low_byte(v) as u16) == v,
{
    assert(((v / 256) as u8) as u16 * 256 + ((v % 256) as u8) as u16 == v) by (bit_vector);
    assert((((v / 256) as u8) as u16) << 8 | ((v % 256) as u8) as u16 == v) by (bit_vector);
}

/// The CPU's eight 8-bit general registers. B/C, D/E and H/L are also
/// addressable as the 16-bit pairs BC, DE and HL (high byte first), and A
/// pairs with the flag byte as AF.
#[derive(Clone, Copy, Debug, PartialEq, Eq, Structural)]
pub struct Registers {
    pub a: u8,
    pub b: u8,
    pub c: u8,
    pub d: u8,
    pub e: u8,
    pub f: FlagsRegister,
    pub h: u8,
    pub l: u8,
}

impl Registers {
    pub open spec fn spec_bc(self) -> u16 {
        word_from_bytes(self.b, self.c)
    }

    pub open spec fn spec_de(self) -> u16 {
        word_from_bytes(self.d, self.e)
    }

    pub open spec fn spec_hl(self) -> u16 {
        word_from_bytes(self.h, self.l)
    }

    pub open spec fn spec_af(self) -> u16 {
        word_from_bytes(self.a, self.f.spec_to_byte())
    }

    pub fn new_zeroed() -> (r: Registers)
        ensures
            r == (Registers {
                a: 0u8, b: 0u8, c: 0u8, d: 0u8, e: 0u8,
                f: FlagsRegister { zero: false, subtraction: false, half_carry: false, carry: false },
                h: 0u8, l: 0u8,
            }),
    {
        Registers {
            a: 0,
            b: 0,
            c: 0,
            d: 0,
            e: 0,
            f: FlagsRegister::new_cleared(),
            h: 0,
            l: 0,
        }
    }

    pub fn get_bc(&self) -> (r: u16)
        ensures
            r == self.spec_bc(),
    {
        (self.b as u16) * 256 + (self.c as u16)
    }

    pub fn set_bc(&mut self, v: u16)
        ensures
            final(self).b == high_byte(v),
            final(self).c == low_byte(v),
            final(self).spec_bc() == v,
            *final(self) == (Registers { b: high_byte(v), c: low_byte(v), ..*old(self) }),
    {
        self.b = (v / 256) as u8;
        self.c = (v % 256) as u8;
        proof {
            lemma_register_pair_round_trip(v);
        }
    }

    pub fn get_de(&self) -> (r: u16)
        ensures
            r == self.spec_de(),
    {
        (self.d as u16) * 256 + (self.e as u16)
    }

    pub fn set_de(&mut self, v: u16)
        ensures
            final(self).d == high_byte(v),
            final(self).e == low_byte(v),
            final(self).spec_de() == v,
            *final(self) == (Registers { d: high_byte(v), e: low_byte(v), ..*old(self) }),
    {
        self.d = (v / 256) as u8;
        self.e = (v % 256) as u8;
        proof {
            lemma_register_pair_round_trip(v);
        }
    }

    pub fn get_hl(&self) -> (r: u16)
        ensures
            r == self.spec_hl(),
    {
        (self.h as u16) * 256 + (self.l as u16)
    }

    pub fn set_hl(&mut self, v: u16)
        ensures
            final(self).h == high_byte(v),
            final(self).l == low_byte(v),
            final(self).spec_hl() == v,
            *final(self) == (Registers { h: high_byte(v), l: low_byte(v), ..*old(self) }),
    {
        self.h = (v / 256) as u8;
        self.l = (v % 256) as u8;
        proof {
            lemma_register_pair_round_trip(v);
        }
    }

    pub fn get_af(&self) -> (r: u16)
        ensures
            r == self.spec_af(),
    {
        (self.a as u16) * 256 + (self.f.to_byte() as u16)
    }

    /// Setting AF stores the high byte in A and deserializes the low byte
    /// into the flag bits; the low nibble of the byte is discarded.
    pub fn set_af(&mut self, v: u16)
        ensures
            final(self).a == high_byte(v),
            final(self).f == FlagsRegister::spec_from_byte(low_byte(v)),
            *final(self) == (Registers {
                a: high_byte(v),
                f: FlagsRegister::spec_from_byte(low_byte(v)),
                ..*old(self)
            }),
    {
        self.a = (v / 256) as u8;
        self.f = FlagsRegister::from_byte((v % 256) as u8);
    }
}

} // verus!
