use vstd::prelude::*;

verus! {

/// The four condition flags.
#[derive(Debug, Clone, Copy, PartialEq, Eq, Structural)]
pub struct Flags {
    pub zero: bool,
    pub sub: bool,
    pub half_carry: bool,
    pub carry: bool,
}

/// The flags packed into a byte: Zero in bit 7, Subtract in bit 6, HalfCarry
/// in bit 5, Carry in bit 4, and the four low bits clear.
pub open spec fn pack(flags: Flags) -> u8 {
    bit_if(flags.zero, 0x80) | bit_if(flags.sub, 0x40) | bit_if(flags.half_carry, 0x20) | bit_if(
        flags.carry,
        0x10,
    )
}

/// `bit` where `on` holds, and no bit otherwise.
pub open spec fn bit_if(on: bool, bit: u8) -> u8 {
    if on {
        bit
    } else {
        0
    }
}

/// The flags that the four high bits of `byte` stand for.
pub open spec fn unpack(byte: u8) -> Flags {
    Flags {
        zero: byte & 0x80 != 0,
        sub: byte & 0x40 != 0,
        half_carry: byte & 0x20 != 0,
        carry: byte & 0x10 != 0,
    }
}

impl Flags {
    /// The flags as they stand after power-up.
    pub open spec fn boot() -> Flags {
        Flags { zero: true, sub: false, half_carry: true, carry: true }
    }

    /// The flags as they stand after power-up.
    pub fn new() -> (flags: Self)
        ensures
            flags == Flags::boot(),
    {
        Self { zero: true, sub: false, half_carry: true, carry: true }
    }

    /// Packs the flags into the byte that the F register shows.
    pub fn to_byte(&self) -> (byte: u8)
        ensures
            byte == pack(*self),
            byte & 0x0F == 0,
            unpack(byte) == *self,
    {
        let z: u8 = if self.zero { 0x80 } else { 0 };
        let n: u8 = if self.sub { 0x40 } else { 0 };
        let h: u8 = if self.half_carry { 0x20 } else { 0 };
        let c: u8 = if self.carry { 0x10 } else { 0 };
        proof {
            lemma_unpack_pack(*self);
        }
        z | n | h | c
    }

    /// Reads the flags off the four high bits of `byte`; the low bits are
    /// ignored.
    pub fn from_byte(byte: u8) -> (flags: Self)
        ensures
            flags == unpack(byte),
            pack(flags) == byte & 0xF0,
    {
        proof {
            lemma_pack_unpack(byte);
        }
        Self {
            zero: byte & 0x80 != 0,
            sub: byte & 0x40 != 0,
            half_carry: byte & 0x20 != 0,
            carry: byte & 0x10 != 0,
        }
    }
}

/// Packing flags and unpacking the byte gives the flags back, and the packed
/// byte has its four low bits clear.
pub proof fn lemma_unpack_pack(flags: Flags)
    ensures
        unpack(pack(flags)) == flags,
        pack(flags) & 0x0F == 0,
{
    let z: u8 = bit_if(flags.zero, 0x80);
    let n: u8 = bit_if(flags.sub, 0x40);
    let h: u8 = bit_if(flags.half_carry, 0x20);
    let c: u8 = bit_if(flags.carry, 0x10);
    let byte: u8 = z | n | h | c;
    assert(((byte & 0x80 != 0) == (z == 0x80)) && ((byte & 0x40 != 0) == (n == 0x40)) && ((byte
        & 0x20 != 0) == (h == 0x20)) && ((byte & 0x10 != 0) == (c == 0x10)) && byte & 0x0F == 0)
        by (bit_vector)
        requires
            z == 0x80 || z == 0,
            n == 0x40 || n == 0,
            h == 0x20 || h == 0,
            c == 0x10 || c == 0,
            byte == z | n | h | c,
    ;
}

/// Unpacking a byte and packing the flags gives the byte's four high bits.
pub proof fn lemma_pack_unpack(byte: u8)
    ensures
        pack(unpack(byte)) == byte & 0xF0,
{
    let z: u8 = bit_if(byte & 0x80 != 0, 0x80);
    let n: u8 = bit_if(byte & 0x40 != 0, 0x40);
    let h: u8 = bit_if(byte & 0x20 != 0, 0x20);
    let c: u8 = bit_if(byte & 0x10 != 0, 0x10);
    assert(z | n | h | c == byte & 0xF0) by (bit_vector)
        requires
            z == (if byte & 0x80 != 0 { 0x80u8 } else { 0 }),
            n == (if byte & 0x40 != 0 { 0x40u8 } else { 0 }),
            h == (if byte & 0x20 != 0 { 0x20u8 } else { 0 }),
            c == (if byte & 0x10 != 0 { 0x10u8 } else { 0 }),
    ;
}

} // verus!
