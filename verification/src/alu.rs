//! Bytes, words and status flags: the arithmetic of the processor, apart from
//! its registers and its memory.
//!
//! The definitions are written as arithmetic on numbers; the laws at the end
//! say the same in bit operations.

use vstd::prelude::*;

verus! {

/// A flag of the status register.
#[derive(Clone, Copy, Debug, PartialEq, Eq, Structural)]
pub enum Flag {
    /// Negative.
    N,
    /// Overflow.
    V,
    /// Break.
    B,
    /// Decimal mode. It can be set and cleared, and changes no arithmetic.
    D,
    /// Interrupt disable.
    I,
    /// Zero.
    Z,
    /// Carry.
    C,
}

/// The bit of the status register that no flag uses; it reads as one.
pub const UNUSED_BIT: u8 = 0b0010_0000;

impl Flag {
    /// The flag's bit in the status register.
    pub open spec fn bit(self) -> u8 {
        match self {
            Flag::N => 0b1000_0000,
            Flag::V => 0b0100_0000,
            Flag::B => 0b0001_0000,
            Flag::D => 0b0000_1000,
            Flag::I => 0b0000_0100,
            Flag::Z => 0b0000_0010,
            Flag::C => 0b0000_0001,
        }
    }

    pub fn mask(self) -> (m: u8)
        ensures
            m == self.bit(),
    {
        match self {
            Flag::N => 0b1000_0000,
            Flag::V => 0b0100_0000,
            Flag::B => 0b0001_0000,
            Flag::D => 0b0000_1000,
            Flag::I => 0b0000_0100,
            Flag::Z => 0b0000_0010,
            Flag::C => 0b0000_0001,
        }
    }
}

/// Whether the bit of weight `weight`, a power of two, is set in a byte.
pub open spec fn bit_set(byte: u8, weight: u8) -> bool {
    (byte / weight) % 2 == 1
}

/// Whether a flag is set in a status byte.
pub open spec fn has_flag(status: u8, flag: Flag) -> bool {
    bit_set(status, flag.bit())
}

/// A status byte with one flag set or cleared.
pub open spec fn with_flag(status: u8, flag: Flag, on: bool) -> u8 {
    if has_flag(status, flag) == on {
        status
    } else if on {
        (status + flag.bit()) as u8
    } else {
        (status - flag.bit()) as u8
    }
}

/// Bit 7 of a byte, its sign as a two's-complement number.
pub open spec fn is_negative(value: u8) -> bool {
    value >= 0x80
}

/// A status byte with Z and N taken from a result.
pub open spec fn with_zn(status: u8, value: u8) -> u8 {
    with_flag(with_flag(status, Flag::Z, value == 0), Flag::N, is_negative(value))
}

/// The carry flag as a number.
pub open spec fn carry_of(status: u8) -> int {
    if has_flag(status, Flag::C) {
        1
    } else {
        0
    }
}

/// The 16-bit word with the given low and high bytes.
pub open spec fn word_of(lo: u8, hi: u8) -> u16 {
    (hi * 256 + lo) as u16
}

pub fn word(lo: u8, hi: u8) -> (w: u16)
    ensures
        w == word_of(lo, hi),
{
    (hi as u16) * 256 + (lo as u16)
}

/// The low byte of a word.
pub open spec fn low_of(w: u16) -> u8 {
    (w % 256) as u8
}

pub fn low(w: u16) -> (b: u8)
    ensures
        b == low_of(w),
{
    (w % 256) as u8
}

/// The high byte of a word.
pub open spec fn high_of(w: u16) -> u8 {
    (w / 256) as u8
}

pub fn high(w: u16) -> (b: u8)
    ensures
        b == high_of(w),
{
    (w / 256) as u8
}

/// A byte as an address in the zero page.
pub fn zero_page(b: u8) -> (w: u16)
    ensures
        w == b,
{
    b as u16
}

/// Where a taken branch lands: the operand is a signed offset in two's
/// complement, counted from the address behind it. The sum wraps at 16 bits.
pub open spec fn branch_target(next: u16, offset: u8) -> u16 {
    if offset < 0x80 {
        next.wrapping_add(offset as u16)
    } else {
        next.wrapping_sub((0x100 - offset) as u16)
    }
}

pub fn branch_to(next: u16, offset: u8) -> (target: u16)
    ensures
        target == branch_target(next, offset),
{
    if offset < 0x80 {
        next.wrapping_add(offset as u16)
    } else {
        next.wrapping_sub(0x100 - offset as u16)
    }
}

/// A branch offset as the signed number it stands for.
pub open spec fn signed_offset(offset: u8) -> int {
    if offset < 0x80 {
        offset as int
    } else {
        offset - 0x100
    }
}

/// A branch lands at the address behind its operand plus the signed offset,
/// kept to sixteen bits.
pub proof fn law_branch_target(next: u16, offset: u8)
    ensures
        branch_target(next, offset) == (next + signed_offset(offset)) % 0x1_0000,
{
}

/// Sum of an addition with carry, kept to eight bits.
pub open spec fn adc_value(a: u8, m: u8, carry: int) -> u8 {
    ((a + m + carry) % 256) as u8
}

/// Carry out of an addition with carry.
pub open spec fn adc_carry(a: u8, m: u8, carry: int) -> bool {
    a + m + carry > 255
}

/// Difference of a subtraction with borrow, kept to eight bits: `a - m - (1 -
/// carry)`.
pub open spec fn sbc_value(a: u8, m: u8, carry: int) -> u8 {
    ((a - m - (1 - carry)) % 256) as u8
}

/// Carry out of a subtraction with borrow: set when nothing was borrowed.
pub open spec fn sbc_carry(a: u8, m: u8, carry: int) -> bool {
    a - m - (1 - carry) >= 0
}

/// Carry out of bit 7 of a sum, told from the signs of the two operands and
/// of the sum: both operands are negative, or one is and the sum is not.
pub open spec fn carry_out(a: u8, b: u8, result: u8) -> bool {
    (is_negative(a) && is_negative(b)) || ((is_negative(a) || is_negative(b)) && !is_negative(
        result,
    ))
}

/// Signed overflow of a sum: the operands have one sign and the sum has the
/// other.
pub open spec fn signed_overflow(a: u8, b: u8, result: u8) -> bool {
    is_negative(a) == is_negative(b) && is_negative(a) != is_negative(result)
}

/// The status byte after an addition with carry of `m` to `a`.
pub open spec fn after_adc(status: u8, a: u8, m: u8) -> u8 {
    let sum = adc_value(a, m, carry_of(status));
    with_flag(
        with_flag(with_zn(status, sum), Flag::C, adc_carry(a, m, carry_of(status))),
        Flag::V,
        signed_overflow(a, m, sum),
    )
}

/// The status byte after a subtraction with borrow of `m` from `a`. The
/// overflow is that of adding `255 - m`, which is what the subtraction does.
pub open spec fn after_sbc(status: u8, a: u8, m: u8) -> u8 {
    let diff = sbc_value(a, m, carry_of(status));
    with_flag(
        with_flag(with_zn(status, diff), Flag::C, sbc_carry(a, m, carry_of(status))),
        Flag::V,
        signed_overflow(a, (255 - m) as u8, diff),
    )
}

/// The status byte after comparing a register with an operand: C when the
/// register is not below it, Z when they are equal, N from bit 7 of their
/// difference.
pub open spec fn after_compare(status: u8, register: u8, m: u8) -> u8 {
    with_flag(
        with_flag(with_flag(status, Flag::C, register >= m), Flag::Z, register == m),
        Flag::N,
        is_negative(register.wrapping_sub(m)),
    )
}

/// The status byte after a bit test of `m` under the mask `a`: Z when they
/// share no bit, N and V from bits 7 and 6 of `m`.
pub open spec fn after_bit(status: u8, a: u8, m: u8) -> u8 {
    with_flag(
        with_flag(with_flag(status, Flag::Z, a & m == 0), Flag::N, is_negative(m)),
        Flag::V,
        bit_set(m, 0b0100_0000),
    )
}

/// The four operations that push a byte through the carry flag.
#[derive(Clone, Copy, Debug, PartialEq, Eq, Structural)]
pub enum Shift {
    /// Shift left; bit 0 becomes zero.
    Asl,
    /// Shift right; bit 7 becomes zero.
    Lsr,
    /// Rotate left; bit 0 becomes the old carry.
    Rol,
    /// Rotate right; bit 7 becomes the old carry.
    Ror,
}

/// The carry flag as the bit that a rotation brings in.
pub open spec fn carry_bit(carry: bool) -> u8 {
    if carry {
        1
    } else {
        0
    }
}

/// The byte that a shift or rotation makes of `value`: twice the byte, or
/// half of it, with the carry coming in at the free end of a rotation.
pub open spec fn shifted(kind: Shift, value: u8, carry: bool) -> u8 {
    match kind {
        Shift::Asl => ((2 * value) % 256) as u8,
        Shift::Lsr => value / 2,
        Shift::Rol => ((2 * value + carry_bit(carry)) % 256) as u8,
        Shift::Ror => (value / 2 + 128 * carry_bit(carry)) as u8,
    }
}

/// The bit that a shift or rotation pushes out, which becomes the carry: bit
/// 7 to the left, bit 0 to the right.
pub open spec fn shifted_out(kind: Shift, value: u8) -> bool {
    match kind {
        Shift::Asl | Shift::Rol => is_negative(value),
        Shift::Lsr | Shift::Ror => value % 2 == 1,
    }
}

/// The status byte after a shift or rotation of `value`.
pub open spec fn after_shift(status: u8, kind: Shift, value: u8) -> u8 {
    with_zn(
        with_flag(status, Flag::C, shifted_out(kind, value)),
        shifted(kind, value, has_flag(status, Flag::C)),
    )
}

/// Shifts or rotates a byte; gives the new byte and the bit that went out.
pub fn shift(kind: Shift, value: u8, carry: bool) -> (r: (u8, bool))
    ensures
        r.0 == shifted(kind, value, carry),
        r.1 == shifted_out(kind, value),
{
    let bit: u8 = if carry {
        1
    } else {
        0
    };
    proof {
        law_shift_bits(value, carry);
        law_sign_bit(value);
    }
    match kind {
        Shift::Asl => (value << 1, value & 0b1000_0000 != 0),
        Shift::Lsr => (value >> 1, value & 0b0000_0001 != 0),
        Shift::Rol => ((value << 1) | bit, value & 0b1000_0000 != 0),
        Shift::Ror => ((value >> 1) | (bit << 7), value & 0b0000_0001 != 0),
    }
}

/// A flag is set when the and of the status byte with the flag's bit is not
/// zero; setting it is an or with the bit, clearing it an and with the
/// inverted bit.
pub proof fn law_flag_bits(status: u8, flag: Flag)
    ensures
        has_flag(status, flag) == (status & flag.bit() != 0),
        with_flag(status, flag, true) == status | flag.bit(),
        with_flag(status, flag, false) == status & !flag.bit(),
{
    lemma_weight_bits(status, flag.bit());
}

proof fn lemma_weight_bits(byte: u8, weight: u8)
    by (bit_vector)
    requires
        weight == 0x80 || weight == 0x40 || weight == 0x20 || weight == 0x10 || weight == 0x08
            || weight == 0x04 || weight == 0x02 || weight == 0x01,
    ensures
        ((byte / weight) % 2 == 1) == (byte & weight != 0),
        byte & weight != 0 ==> byte | weight == byte && byte & !weight == byte - weight,
        byte & weight == 0 ==> byte | weight == byte + weight && byte & !weight == byte,
{
}

proof fn lemma_mask(status: u8, mask: u8, other: u8)
    by (bit_vector)
    requires
        mask != 0,
        mask & other == 0,
    ensures
        (status | mask) & mask != 0,
        (status & !mask) & mask == 0,
        (status | mask) & other == status & other,
        (status & !mask) & other == status & other,
{
}

proof fn lemma_distinct_bits(mask: u8, other: u8)
    by (bit_vector)
    requires
        mask == 0x80 || mask == 0x40 || mask == 0x10 || mask == 0x08 || mask == 0x04 || mask == 0x02
            || mask == 0x01,
        other == 0x80 || other == 0x40 || other == 0x20 || other == 0x10 || other == 0x08 || other
            == 0x04 || other == 0x02 || other == 0x01,
        mask != other,
    ensures
        mask != 0,
        mask & other == 0,
{
}

/// Setting or clearing a flag gives that flag the new value and leaves every
/// other flag, and the unused bit, as it was.
pub proof fn law_with_flag(status: u8, flag: Flag, on: bool)
    ensures
        has_flag(with_flag(status, flag, on), flag) == on,
        forall|other: Flag|
            other != flag ==> has_flag(#[trigger] with_flag(status, flag, on), other) == has_flag(
                status,
                other,
            ),
        bit_set(with_flag(status, flag, on), UNUSED_BIT) == bit_set(status, UNUSED_BIT),
{
    let after = with_flag(status, flag, on);
    law_flag_bits(status, flag);
    law_flag_bits(after, flag);
    lemma_distinct_bits(flag.bit(), UNUSED_BIT);
    lemma_mask(status, flag.bit(), UNUSED_BIT);
    lemma_weight_bits(status, UNUSED_BIT);
    lemma_weight_bits(after, UNUSED_BIT);
    assert forall|other: Flag| other != flag implies has_flag(after, other) == has_flag(
        status,
        other,
    ) by {
        lemma_distinct_bits(flag.bit(), other.bit());
        lemma_mask(status, flag.bit(), other.bit());
        law_flag_bits(status, other);
        law_flag_bits(after, other);
    }
}

/// Z and N follow the result; the other flags stay.
pub proof fn law_with_zn(status: u8, value: u8)
    ensures
        has_flag(with_zn(status, value), Flag::Z) == (value == 0),
        has_flag(with_zn(status, value), Flag::N) == is_negative(value),
        forall|other: Flag|
            other != Flag::Z && other != Flag::N ==> has_flag(
                #[trigger] with_zn(status, value),
                other,
            ) == has_flag(status, other),
{
    let z = with_flag(status, Flag::Z, value == 0);
    law_with_flag(status, Flag::Z, value == 0);
    law_with_flag(z, Flag::N, is_negative(value));
}

/// A byte is negative when its and with `0x80` is not zero.
pub proof fn law_sign_bit(value: u8)
    by (bit_vector)
    ensures
        (value >= 0x80) == (value & 0x80 != 0),
        (value % 2 == 1) == (value & 0x01 != 0),
        ((value / 0x40) % 2 == 1) == (value & 0x40 != 0),
{
}

/// The shifts and rotations in bit operations: ASL gives `(v << 1) & 0xFF`,
/// ROL `((v << 1) | c) & 0xFF`, LSR `v >> 1`, ROR `(v >> 1) | (c << 7)`.
pub proof fn law_shift_bits(v: u8, carry: bool)
    ensures
        shifted(Shift::Asl, v, carry) == (v << 1) & 0xFF,
        shifted(Shift::Asl, v, carry) == v << 1,
        shifted(Shift::Rol, v, carry) == ((v << 1) | carry_bit(carry)) & 0xFF,
        shifted(Shift::Rol, v, carry) == (v << 1) | carry_bit(carry),
        shifted(Shift::Lsr, v, carry) == v >> 1,
        shifted(Shift::Ror, v, carry) == (v >> 1) | (carry_bit(carry) << 7),
{
    let bit = carry_bit(carry);
    assert(v << 1 == (v << 1) & 0xFF) by (bit_vector);
    assert(v << 1 == (2 * v) % 256) by (bit_vector);
    assert((v << 1) | bit == ((v << 1) | bit) & 0xFF) by (bit_vector);
    assert((v << 1) | bit == (2 * v + bit) % 256) by (bit_vector)
        requires
            bit <= 1,
    ;
    assert(v >> 1 == v / 2) by (bit_vector);
    assert((v >> 1) | (bit << 7) == v / 2 + 128 * bit) by (bit_vector)
        requires
            bit <= 1,
    ;
}

/// What `carry_out` tells from the signs is the carry of the addition.
pub proof fn law_carry_out(a: u8, b: u8, carry: int)
    requires
        0 <= carry <= 1,
    ensures
        carry_out(a, b, adc_value(a, b, carry)) == adc_carry(a, b, carry),
{
}

/// Subtracting `m` with borrow is adding `255 - m` with carry.
pub proof fn law_sbc_is_adc(status: u8, a: u8, m: u8)
    ensures
        sbc_value(a, m, carry_of(status)) == adc_value(a, (255 - m) as u8, carry_of(status)),
        sbc_carry(a, m, carry_of(status)) == adc_carry(a, (255 - m) as u8, carry_of(status)),
        after_sbc(status, a, m) == after_adc(status, a, (255 - m) as u8),
{
}

/// The carry and the overflow of a sum `r` of `a` and `b`, told in bit
/// operations from bit 7 of the three bytes.
pub proof fn law_sum_bits(a: u8, b: u8, r: u8)
    by (bit_vector)
    ensures
        ((a >= 0x80 && b >= 0x80) || ((a >= 0x80 || b >= 0x80) && !(r >= 0x80))) == (((a & b) | ((a
            | b) & !r)) & 0x80 != 0),
        ((a >= 0x80) == (b >= 0x80) && (a >= 0x80) != (r >= 0x80)) == ((a & 0x80 == b & 0x80) && (a
            & 0x80 != r & 0x80)),
{
}

/// Signed overflow in bit operations: the sum `r` of `a` and `b` overflows
/// when `!(a ^ b) & (a ^ r) & 0x80` is not zero; and the byte left of 255 is
/// the byte with every bit turned, so that a difference `r` of `a` and `b`
/// overflows when `(a ^ b) & (a ^ r) & 0x80` is not zero.
pub proof fn law_overflow_bits(a: u8, b: u8, r: u8)
    ensures
        signed_overflow(a, b, r) == (!(a ^ b) & (a ^ r) & 0x80 != 0),
        (255 - b) as u8 == !b,
        signed_overflow(a, (255 - b) as u8, r) == ((a ^ b) & (a ^ r) & 0x80 != 0),
{
    lemma_overflow_bits(a, b, r);
}

proof fn lemma_overflow_bits(a: u8, b: u8, r: u8)
    by (bit_vector)
    ensures
        ((a >= 0x80) == (b >= 0x80) && (a >= 0x80) != (r >= 0x80)) == (!(a ^ b) & (a ^ r) & 0x80
            != 0),
        255 - b == !b,
        ((a >= 0x80) == (255 - b >= 0x80) && (a >= 0x80) != (r >= 0x80)) == ((a ^ b) & (a ^ r)
            & 0x80 != 0),
{
}

} // verus!
