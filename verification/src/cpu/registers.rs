//! The register file: eight 8-bit registers that pair up into four 16-bit
//! ones, the flags among them, and the two pointers.
use vstd::prelude::*;
use vstd::arithmetic::power2::{lemma2_to64, pow2};
use vstd::bits::{lemma_u8_shl_is_mul, lemma_u8_shr_is_div};

verus! {

/// Position of the zero flag in `f`.
pub const ZERO_FLAG: u8 = 7;

/// Position of the subtraction flag in `f`.
pub const SUBTRACTION_FLAG: u8 = 6;

/// Position of the half-carry flag in `f`.
pub const HALF_CARRY_FLAG: u8 = 5;

/// Position of the carry flag in `f`.
pub const CARRY_FLAG: u8 = 4;

/// The register file.
pub struct Registers {
    pub a: u8,
    pub f: u8,
    pub b: u8,
    pub c: u8,
    pub d: u8,
    pub e: u8,
    pub h: u8,
    pub l: u8,
    pub stack_pointer: u16,
    pub program_counter: u16,
}

/// The 16-bit value of a register pair.
pub open spec fn pair(high: u8, low: u8) -> u16 {
    (high * 0x100 + low) as u16
}

/// The high byte of a 16-bit value.
pub open spec fn high_byte(value: u16) -> u8 {
    (value / 0x100) as u8
}

/// The low byte of a 16-bit value.
pub open spec fn low_byte(value: u16) -> u8 {
    (value % 0x100) as u8
}

/// Bit `index` of `value`, bit 0 being the lowest.
pub open spec fn bit(value: u8, index: u8) -> bool {
    (value as nat / pow2(index as nat)) % 2 == 1
}

/// `value` with bit `index` made `bit`: the place value of the bit is added
/// or taken away where the bit changes.
pub open spec fn with_bit(value: u8, index: u8, bit: bool) -> u8 {
    if self::bit(value, index) == bit {
        value
    } else if bit {
        (value + pow2(index as nat)) as u8
    } else {
        (value - pow2(index as nat)) as u8
    }
}

/// A 16-bit value is the pair of its two bytes, and the bytes of a pair are
/// the two that were paired.
pub proof fn lemma_pair_bytes(high: u8, low: u8, value: u16)
    ensures
        pair(high_byte(value), low_byte(value)) == value,
        high_byte(pair(high, low)) == high,
        low_byte(pair(high, low)) == low,
{
}

/// The place value of a bit of a byte is `1 << index`, and fits in the byte.
proof fn lemma_place_value(index: u8)
    requires
        index < 8,
    ensures
        1u8 << index == pow2(index as nat),
        0 < pow2(index as nat) <= 0x80,
{
    lemma2_to64();
    lemma_u8_shl_is_mul(1, index);
}

/// Bit `index` of `value` is the lowest bit of `value` shifted right by
/// `index`.
proof fn lemma_bit_is_shift_and(value: u8, index: u8)
    requires
        index < 8,
    ensures
        bit(value, index) == ((value >> index) & 1 == 1),
{
    let shifted = value >> index;
    lemma_u8_shr_is_div(value, index);
    assert((shifted & 1 == 1) == (shifted % 2 == 1)) by (bit_vector);
}

/// Setting a bit with `|` and clearing it with `& !` is `with_bit`.
proof fn lemma_set_bit(value: u8, index: u8)
    requires
        index < 8,
    ensures
        value | (1u8 << index) == with_bit(value, index, true),
        value & !(1u8 << index) == with_bit(value, index, false),
{
    lemma_place_value(index);
    lemma_bit_is_shift_and(value, index);
    let mask = 1u8 << index;
    let is_set = (value >> index) & 1 == 1;
    assert(is_set ==> value | mask == value && value & !mask == value - mask) by (bit_vector)
        requires
            index < 8,
            mask == 1u8 << index,
            is_set == ((value >> index) & 1 == 1),
    ;
    assert(!is_set ==> value | mask == value + mask && value & !mask == value) by (bit_vector)
        requires
            index < 8,
            mask == 1u8 << index,
            is_set == ((value >> index) & 1 == 1),
    ;
}

/// Making a bit of a byte takes effect on that bit and on no other.
pub proof fn lemma_with_bit(value: u8, index: u8, bit: bool, other: u8)
    requires
        index < 8,
        other < 8,
    ensures
        self::bit(with_bit(value, index, bit), index) == bit,
        other != index ==> self::bit(with_bit(value, index, bit), other) == self::bit(
            value,
            other,
        ),
{
    let changed = with_bit(value, index, bit);
    lemma_bit_is_shift_and(value, other);
    lemma_bit_is_shift_and(changed, index);
    lemma_bit_is_shift_and(changed, other);
    lemma_set_bit(value, index);
    let set = value | (1u8 << index);
    let cleared = value & !(1u8 << index);
    assert((set >> index) & 1 == 1 && (cleared >> index) & 1 == 0) by (bit_vector)
        requires
            index < 8,
            set == value | (1u8 << index),
            cleared == value & !(1u8 << index),
    ;
    assert(other != index ==> (set >> other) & 1 == (value >> other) & 1 && (cleared >> other) & 1
        == (value >> other) & 1) by (bit_vector)
        requires
            index < 8,
            other < 8,
            set == value | (1u8 << index),
            cleared == value & !(1u8 << index),
    ;
}

impl Registers {
    /// The registers after power-on.
    pub open spec fn initial() -> Registers {
        Registers {
            a: 0,
            f: 0,
            b: 0,
            c: 0,
            d: 0,
            e: 0,
            h: 0,
            l: 0,
            stack_pointer: 0,
            program_counter: 0x0100,
        }
    }

    /// The registers after power-on: all zero, but the program counter, which
    /// points at the entry point of the cartridge.
    pub fn new() -> (r: Self)
        ensures
            r == Registers::initial(),
    {
        Self {
            a: 0,
            f: 0,
            b: 0,
            c: 0,
            d: 0,
            e: 0,
            h: 0,
            l: 0,
            stack_pointer: 0,
            program_counter: 0x0100,
        }
    }

    /// The pair `af`.
    pub fn get_af(&self) -> (r: u16)
        ensures
            r == pair(self.a, self.f),
    {
        to_u16(self.a, self.f)
    }

    /// The pair `bc`.
    pub fn get_bc(&self) -> (r: u16)
        ensures
            r == pair(self.b, self.c),
    {
        to_u16(self.b, self.c)
    }

    /// The pair `de`.
    pub fn get_de(&self) -> (r: u16)
        ensures
            r == pair(self.d, self.e),
    {
        to_u16(self.d, self.e)
    }

    /// The pair `hl`.
    pub fn get_hl(&self) -> (r: u16)
        ensures
            r == pair(self.h, self.l),
    {
        to_u16(self.h, self.l)
    }

    /// Stores `value` in the pair `af`.
    pub fn set_af(&mut self, value: u16)
        ensures
            *final(self) == (Registers { a: high_byte(value), f: low_byte(value), ..*old(self) }),
    {
        let (high, low) = to_u8(value);
        self.a = high;
        self.f = low;
    }

    /// Stores `value` in the pair `bc`.
    pub fn set_bc(&mut self, value: u16)
        ensures
            *final(self) == (Registers { b: high_byte(value), c: low_byte(value), ..*old(self) }),
    {
        let (high, low) = to_u8(value);
        self.b = high;
        self.c = low;
    }

    /// Stores `value` in the pair `de`.
    pub fn set_de(&mut self, value: u16)
        ensures
            *final(self) == (Registers { d: high_byte(value), e: low_byte(value), ..*old(self) }),
    {
        let (high, low) = to_u8(value);
        self.d = high;
        self.e = low;
    }

    /// Stores `value` in the pair `hl`.
    pub fn set_hl(&mut self, value: u16)
        ensures
            *final(self) == (Registers { h: high_byte(value), l: low_byte(value), ..*old(self) }),
    {
        let (high, low) = to_u8(value);
        self.h = high;
        self.l = low;
    }

    /// The zero flag.
    pub fn get_zero_flag(&self) -> (r: bool)
        ensures
            r == bit(self.f, ZERO_FLAG),
    {
        get_bit(self.f, 7)
    }

    /// The subtraction flag.
    pub fn get_subtraction_flag(&self) -> (r: bool)
        ensures
            r == bit(self.f, SUBTRACTION_FLAG),
    {
        get_bit(self.f, 6)
    }

    /// The half-carry flag.
    pub fn get_half_carry_flag(&self) -> (r: bool)
        ensures
            r == bit(self.f, HALF_CARRY_FLAG),
    {
        get_bit(self.f, 5)
    }

    /// The carry flag.
    pub fn get_carry_flag(&self) -> (r: bool)
        ensures
            r == bit(self.f, CARRY_FLAG),
    {
        get_bit(self.f, 4)
    }

    /// Makes the zero flag `value`.
    pub fn set_zero_flag(&mut self, value: bool)
        ensures
            *final(self) == (Registers { f: with_bit(old(self).f, ZERO_FLAG, value), ..*old(self) }),
    {
        set_bit(7, value, &mut self.f)
    }

    /// Makes the subtraction flag `value`.
    pub fn set_subtraction_flag(&mut self, value: bool)
        ensures
            *final(self) == (Registers {
                f: with_bit(old(self).f, SUBTRACTION_FLAG, value),
                ..*old(self)
            }),
    {
        set_bit(6, value, &mut self.f)
    }

    /// Makes the half-carry flag `value`.
    pub fn set_half_carry_flag(&mut self, value: bool)
        ensures
            *final(self) == (Registers {
                f: with_bit(old(self).f, HALF_CARRY_FLAG, value),
                ..*old(self)
            }),
    {
        set_bit(5, value, &mut self.f)
    }

    /// Makes the carry flag `value`.
    pub fn set_carry_flag(&mut self, value: bool)
        ensures
            *final(self) == (Registers { f: with_bit(old(self).f, CARRY_FLAG, value), ..*old(self) }),
    {
        set_bit(4, value, &mut self.f)
    }
}

/// Pairs two bytes.
fn to_u16(high: u8, low: u8) -> (r: u16)
    ensures
        r == pair(high, low),
{
    assert(((high as u16) << 8 | (low as u16)) == (high as u16) * 0x100 + (low as u16))
        by (bit_vector);
    (high as u16) << 8 | (low as u16)
}

/// Splits a 16-bit value into its high and its low byte.
fn to_u8(value: u16) -> (r: (u8, u8))
    ensures
        r.0 == high_byte(value),
        r.1 == low_byte(value),
{
    assert((value >> 8) == value / 0x100 && (value >> 8) <= 0xff && (value & 0xff) == value % 0x100)
        by (bit_vector);
    ((value >> 8) as u8, (value & 0xff) as u8)
}

/// Reads bit `index` of `value`.
fn get_bit(value: u8, index: u8) -> (r: bool)
    requires
        index < 8,
    ensures
        r == bit(value, index),
{
    proof {
        lemma_bit_is_shift_and(value, index);
    }
    ((value >> index) & 1) == 1
}

/// Makes bit `index` of `value` `bit`.
fn set_bit(index: u8, bit: bool, value: &mut u8)
    requires
        index < 8,
    ensures
        *final(value) == with_bit(*old(value), index, bit),
{
    proof {
        lemma_set_bit(*value, index);
    }
    if bit {
        *value |= 1 << index;
    } else {
        *value &= !(1 << index);
    }
}

} // verus!
