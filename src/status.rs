//! The processor status register: six independent flags and their byte
//! encoding.
use vstd::prelude::*;

verus! {

/// The six processor flags.
#[derive(Clone, Copy, Debug, PartialEq, Eq, Structural, Default)]
pub struct StatusRegister {
    pub carry: bool,
    pub zero: bool,
    pub irq_disabled: bool,
    pub decimal_mode: bool,
    pub overflow: bool,
    pub negative: bool,
}

/// `weight` where `b` holds, else zero.
pub open spec fn weight_if(b: bool, weight: int) -> int {
    if b {
        weight
    } else {
        0
    }
}

/// Bit `k` of a byte, counted from the least significant: bit 0 is
/// `v % 2`, bit 7 is `v / 128`.
pub open spec fn bit_of(v: u8, k: nat) -> bool
    recommends
        k < 8,
{
    (v as int / vstd::arithmetic::power2::pow2(k) as int) % 2 == 1
}

/// The byte that a status register is pushed as: carry in bit 0, zero in
/// bit 1, interrupt-disable in bit 2, decimal in bit 3, overflow in bit 6,
/// negative in bit 7, and bits 4 and 5 always set.
pub open spec fn status_byte(p: StatusRegister) -> u8 {
    (0x30 + weight_if(p.carry, 1) + weight_if(p.zero, 2) + weight_if(p.irq_disabled, 4)
        + weight_if(p.decimal_mode, 8) + weight_if(p.overflow, 64) + weight_if(
        p.negative,
        128,
    )) as u8
}

/// The flags that a byte holds, each read from its own bit; bits 4 and 5
/// are ignored.
pub open spec fn status_of_byte(v: u8) -> StatusRegister {
    StatusRegister {
        carry: bit_of(v, 0),
        zero: bit_of(v, 1),
        irq_disabled: bit_of(v, 2),
        decimal_mode: bit_of(v, 3),
        overflow: bit_of(v, 6),
        negative: bit_of(v, 7),
    }
}

/// Zero or the bit value `val`, as `b` says.
fn from_bool(b: bool, val: u8) -> (r: u8)
    ensures
        r == weight_if(b, val as int),
{
    if b {
        val
    } else {
        0
    }
}

impl StatusRegister {
    /// Sets the carry flag from a masked bit test: set when `val` is not zero.
    pub fn carry_from_u8(&mut self, val: u8)
        ensures
            *final(self) == (StatusRegister { carry: val != 0, ..*old(self) }),
    {
        self.carry = val != 0;
    }

    /// The carry flag as a number to add into 8-bit arithmetic.
    pub fn carry_into_u8(&self) -> (r: u8)
        ensures
            r == weight_if(self.carry, 1),
    {
        if self.carry {
            1
        } else {
            0
        }
    }

    /// Decodes a status byte, testing each flag's bit on its own.
    pub fn from_byte(val: u8) -> (r: StatusRegister)
        ensures
            r == status_of_byte(val),
    {
        proof {
            lemma_bits_of_byte(val);
        }
        StatusRegister {
            carry: val & 1 != 0,
            zero: val & 2 != 0,
            irq_disabled: val & 4 != 0,
            decimal_mode: val & 8 != 0,
            overflow: val & 64 != 0,
            negative: val & 128 != 0,
        }
    }

    /// Encodes the flags as a status byte, bits 4 and 5 set.
    pub fn to_byte(&self) -> (r: u8)
        ensures
            r == status_byte(*self),
    {
        let c = from_bool(self.carry, 1);
        let z = from_bool(self.zero, 2);
        let i = from_bool(self.irq_disabled, 4);
        let d = from_bool(self.decimal_mode, 8);
        let o = from_bool(self.overflow, 64);
        let n = from_bool(self.negative, 128);
        proof {
            lemma_or_of_distinct_bits(c, z, i, d, o, n);
        }
        0x30 | c | z | i | d | o | n
    }
}

impl From<u8> for StatusRegister {
    fn from(val: u8) -> (r: StatusRegister) {
        StatusRegister::from_byte(val)
    }
}

impl vstd::std_specs::convert::FromSpecImpl<u8> for StatusRegister {
    open spec fn obeys_from_spec() -> bool {
        true
    }

    open spec fn from_spec(v: u8) -> StatusRegister {
        status_of_byte(v)
    }
}

impl From<StatusRegister> for u8 {
    fn from(p: StatusRegister) -> (r: u8) {
        p.to_byte()
    }
}

impl vstd::std_specs::convert::FromSpecImpl<StatusRegister> for u8 {
    open spec fn obeys_from_spec() -> bool {
        true
    }

    open spec fn from_spec(p: StatusRegister) -> u8 {
        status_byte(p)
    }
}

proof fn lemma_bits_of_byte(v: u8)
    ensures
        (v & 1 != 0) == bit_of(v, 0),
        (v & 2 != 0) == bit_of(v, 1),
        (v & 4 != 0) == bit_of(v, 2),
        (v & 8 != 0) == bit_of(v, 3),
        (v & 64 != 0) == bit_of(v, 6),
        (v & 128 != 0) == bit_of(v, 7),
{
    vstd::arithmetic::power2::lemma2_to64();
    assert((v & 1 != 0) == (v % 2 == 1)) by (bit_vector);
    assert((v & 2 != 0) == ((v / 2) % 2 == 1)) by (bit_vector);
    assert((v & 4 != 0) == ((v / 4) % 2 == 1)) by (bit_vector);
    assert((v & 8 != 0) == ((v / 8) % 2 == 1)) by (bit_vector);
    assert((v & 64 != 0) == ((v / 64) % 2 == 1)) by (bit_vector);
    assert((v & 128 != 0) == ((v / 128) % 2 == 1)) by (bit_vector);
}

proof fn lemma_or_of_distinct_bits(c: u8, z: u8, i: u8, d: u8, o: u8, n: u8)
    requires
        c == 0 || c == 1,
        z == 0 || z == 2,
        i == 0 || i == 4,
        d == 0 || d == 8,
        o == 0 || o == 64,
        n == 0 || n == 128,
    ensures
        (0x30u8 | c | z | i | d | o | n) as int == 0x30 + c + z + i + d + o + n,
{
    assert((0x30u8 | c | z | i | d | o | n) == 0x30u8 + c + z + i + d + o + n) by (bit_vector)
        requires
            c == 0 || c == 1,
            z == 0 || z == 2,
            i == 0 || i == 4,
            d == 0 || d == 8,
            o == 0 || o == 64,
            n == 0 || n == 128,
    ;
}

/// Decoding an encoded status register gives back every flag, and the
/// encoding always has bits 4 and 5 set.
pub proof fn lemma_status_round_trip(p: StatusRegister)
    ensures
        status_of_byte(status_byte(p)) == p,
        bit_of(status_byte(p), 4),
        bit_of(status_byte(p), 5),
{
    vstd::arithmetic::power2::lemma2_to64();
    let v = status_byte(p);
    assert(v as int == 0x30 + weight_if(p.carry, 1) + weight_if(p.zero, 2) + weight_if(
        p.irq_disabled,
        4,
    ) + weight_if(p.decimal_mode, 8) + weight_if(p.overflow, 64) + weight_if(p.negative, 128));
}

} // verus!
