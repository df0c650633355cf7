//! The register file: eight 8-bit cells viewable as four 16-bit pairs, and
//! the flag register kept as four booleans with a packed byte form.

use vstd::prelude::*;

verus! {

/// The four CPU flags. In the byte form of F they occupy, from bit 7 down:
/// Z (zero), N (subtract), H (half-carry), C (carry); bits 3..0 are unused.
#[derive(Clone, Copy)]
pub struct FlagsRegister {
    pub zero: bool,
    pub subtract: bool,
    pub half_carry: bool,
    pub carry: bool,
}

/// Packed byte form of the flags: `(Z<<7) | (N<<6) | (H<<5) | (C<<4)`,
/// written as a sum of disjoint powers of two.
pub open spec fn flags_to_byte(f: FlagsRegister) -> u8 {
    ((if f.zero {
        0x80int
    } else {
        0int
    }) + (if f.subtract {
        0x40int
    } else {
        0int
    }) + (if f.half_carry {
        0x20int
    } else {
        0int
    }) + (if f.carry {
        0x10int
    } else {
        0int
    })) as u8
}

/// Flags recovered from a byte: Z, N, H, C from bits 7, 6, 5, 4; bits 3..0
/// are ignored.
pub open spec fn flags_of_byte(byte: u8) -> FlagsRegister {
    FlagsRegister {
        zero: (byte >> 7) & 1 != 0,
        subtract: (byte >> 6) & 1 != 0,
        half_carry: (byte >> 5) & 1 != 0,
        carry: (byte >> 4) & 1 != 0,
    }
}

/// A 16-bit word composed from a high and a low byte.
pub open spec fn word_from_bytes(high: u8, low: u8) -> u16 {
    (high * 0x100 + low) as u16
}

/// The high byte of a 16-bit word.
pub open spec fn high_byte(word: u16) -> u8 {
    (word / 0x100) as u8
}

/// The low byte of a 16-bit word.
pub open spec fn low_byte(word: u16) -> u8 {
    (word % 0x100) as u8
}

/// The packed byte of any flag value has a zero low nibble.
pub proof fn lemma_flags_byte_low_nibble(f: FlagsRegister)
    ensures
        flags_to_byte(f) & 0x0F == 0,
        flags_to_byte(f) % 16 == 0,
{
    let b = flags_to_byte(f);
    let z: u8 = if f.zero { 1 } else { 0 };
    let n: u8 = if f.subtract { 1 } else { 0 };
    let h: u8 = if f.half_carry { 1 } else { 0 };
    let c: u8 = if f.carry { 1 } else { 0 };
    assert(b == (z * 0x80 + n * 0x40 + h * 0x20 + c * 0x10) as u8);
    assert((z * 0x80 + n * 0x40 + h * 0x20 + c * 0x10) as u8 & 0x0F == 0
        && (z * 0x80 + n * 0x40 + h * 0x20 + c * 0x10) as u8 % 16 == 0) by (bit_vector)
        requires
            z <= 1 && n <= 1 && h <= 1 && c <= 1,
    ;
}

/// Unpacking the packed byte of a flag value yields the flags unchanged.
pub proof fn lemma_flags_roundtrip(f: FlagsRegister)
    ensures
        flags_of_byte(flags_to_byte(f)) == f,
{
    let b = flags_to_byte(f);
    let z: u8 = if f.zero { 1 } else { 0 };
    let n: u8 = if f.subtract { 1 } else { 0 };
    let h: u8 = if f.half_carry { 1 } else { 0 };
    let c: u8 = if f.carry { 1 } else { 0 };
    assert(b == (z * 0x80 + n * 0x40 + h * 0x20 + c * 0x10) as u8);
    assert({
        let s = (z * 0x80 + n * 0x40 + h * 0x20 + c * 0x10) as u8;
        ((s >> 7) & 1 != 0 <==> z == 1) && ((s >> 6) & 1 != 0 <==> n == 1) && ((s >> 5) & 1 != 0
            <==> h == 1) && ((s >> 4) & 1 != 0 <==> c == 1)
    }) by (bit_vector)
        requires
            z <= 1 && n <= 1 && h <= 1 && c <= 1,
    ;
}

/// Packing the flags unpacked from a byte recovers the byte's high nibble:
/// for every byte `b`, `flags_to_byte(flags_of_byte(b)) == b & 0xF0`.
pub proof fn lemma_byte_flags_roundtrip(byte: u8)
    ensures
        flags_to_byte(flags_of_byte(byte)) == byte & 0xF0,
{
    assert(((if (byte >> 7) & 1 != 0 {
        0x80int
    } else {
        0int
    }) + (if (byte >> 6) & 1 != 0 {
        0x40int
    } else {
        0int
    }) + (if (byte >> 5) & 1 != 0 {
        0x20int
    } else {
        0int
    }) + (if (byte >> 4) & 1 != 0 {
        0x10int
    } else {
        0int
    })) as u8 == byte & 0xF0) by (bit_vector);
}

/// Splitting a word into bytes and recombining them restores the word.
pub proof fn lemma_word_roundtrip(word: u16)
    ensures
        word_from_bytes(high_byte(word), low_byte(word)) == word,
{
    vstd::arithmetic::div_mod::lemma_fundamental_div_mod(word as int, 0x100);
}

/// The bytes of a composed word are the bytes it was composed from.
pub proof fn lemma_word_bytes(high: u8, low: u8)
    ensures
        high_byte(word_from_bytes(high, low)) == high,
        low_byte(word_from_bytes(high, low)) == low,
{
    let w = high * 0x100 + low;
    assert(w / 0x100 == high && w % 0x100 == low) by (nonlinear_arith)
        requires
            w == high * 0x100 + low && high <= 0xFF && low <= 0xFF,
    ;
}

impl FlagsRegister {
    /// Pack the flags into their byte form.
    pub fn to_byte(&self) -> (r: u8)
        ensures
            r == flags_to_byte(*self),
    {
        (if self.zero {
            0x80u8
        } else {
            0u8
        }) + (if self.subtract {
            0x40u8
        } else {
            0u8
        }) + (if self.half_carry {
            0x20u8
        } else {
            0u8
        }) + (if self.carry {
            0x10u8
        } else {
            0u8
        })
    }

    /// Unpack flags from a byte, ignoring its low nibble.
    pub fn from_byte(byte: u8) -> (r: FlagsRegister)
        ensures
            r == flags_of_byte(byte),
    {
        FlagsRegister {
            zero: (byte >> 7) & 1 != 0,
            subtract: (byte >> 6) & 1 != 0,
            half_carry: (byte >> 5) & 1 != 0,
            carry: (byte >> 4) & 1 != 0,
        }
    }
}

/// Eight 8-bit registers; A pairs with the flags as AF, and B/C, D/E, H/L
/// pair as BC, DE, HL with the first-named register as the high byte.
pub struct Registers {
    pub a: u8,
    pub b: u8,
    pub c: u8,
    pub d: u8,
    pub e: u8,
    pub f: FlagsRegister,
    pub h: u8,
    pub l: u8,
}

/// The value a masked flag update leaves in one flag.
pub open spec fn apply_flag(update: Option<bool>, current: bool) -> bool {
    match update {
        Some(value) => value,
        None => current,
    }
}

impl Registers {
    /// A register file with every register zero and every flag clear.
    pub fn new() -> (r: Registers)
        ensures
            r.a == 0 && r.b == 0 && r.c == 0 && r.d == 0 && r.e == 0 && r.h == 0 && r.l == 0,
            r.f == (FlagsRegister { zero: false, subtract: false, half_carry: false, carry: false }),
    {
        Registers {
            a: 0,
            b: 0,
            c: 0,
            d: 0,
            e: 0,
            f: FlagsRegister { zero: false, subtract: false, half_carry: false, carry: false },
            h: 0,
            l: 0,
        }
    }

    pub fn get_af(&self) -> (r: u16)
        ensures
            r == word_from_bytes(self.a, flags_to_byte(self.f)),
    {
        (self.a as u16) * 0x100 + (self.f.to_byte() as u16)
    }

    /// Writing AF restores the flags from the low byte, so the low nibble of
    /// the byte form of F stays zero.
    pub fn set_af(&mut self, value: u16)
        ensures
            *final(self) == (Registers {
                a: high_byte(value),
                f: flags_of_byte(low_byte(value)),
                ..*old(self)
            }),
    {
        self.a = (value / 0x100) as u8;
        self.f = FlagsRegister::from_byte((value % 0x100) as u8);
    }

    pub fn get_bc(&self) -> (r: u16)
        ensures
            r == word_from_bytes(self.b, self.c),
    {
        (self.b as u16) * 0x100 + (self.c as u16)
    }

    pub fn set_bc(&mut self, value: u16)
        ensures
            *final(self) == (Registers {
                b: high_byte(value),
                c: low_byte(value),
                ..*old(self)
            }),
    {
        self.b = (value / 0x100) as u8;
        self.c = (value % 0x100) as u8;
    }

    pub fn get_de(&self) -> (r: u16)
        ensures
            r == word_from_bytes(self.d, self.e),
    {
        (self.d as u16) * 0x100 + (self.e as u16)
    }

    pub fn set_de(&mut self, value: u16)
        ensures
            *final(self) == (Registers {
                d: high_byte(value),
                e: low_byte(value),
                ..*old(self)
            }),
    {
        self.d = (value / 0x100) as u8;
        self.e = (value % 0x100) as u8;
    }

    pub fn get_hl(&self) -> (r: u16)
        ensures
            r == word_from_bytes(self.h, self.l),
    {
        (self.h as u16) * 0x100 + (self.l as u16)
    }

    pub fn set_hl(&mut self, value: u16)
        ensures
            *final(self) == (Registers {
                h: high_byte(value),
                l: low_byte(value),
                ..*old(self)
            }),
    {
        self.h = (value / 0x100) as u8;
        self.l = (value % 0x100) as u8;
    }

    /// Masked flag update: only the flags whose option is present change.
    pub fn set_f(
        &mut self,
        zero: Option<bool>,
        subtract: Option<bool>,
        half_carry: Option<bool>,
        carry: Option<bool>,
    )
        ensures
            *final(self) == (Registers {
                f: FlagsRegister {
                    zero: apply_flag(zero, old(self).f.zero),
                    subtract: apply_flag(subtract, old(self).f.subtract),
                    half_carry: apply_flag(half_carry, old(self).f.half_carry),
                    carry: apply_flag(carry, old(self).f.carry),
                },
                ..*old(self)
            }),
    {
        if let Some(z) = zero {
            self.f.zero = z;
        }
        if let Some(n) = subtract {
            self.f.subtract = n;
        }
        if let Some(h) = half_carry {
            self.f.half_carry = h;
        }
        if let Some(c) = carry {
            self.f.carry = c;
        }
    }
}

} // verus!
