//! Arithmetic and logic on bytes and words, with the flag byte each operation leaves.
//!
//! The flag byte keeps four condition bits in its high nibble: Zero in bit 7,
//! Negative in bit 6, HalfCarry in bit 5 and Carry in bit 4. No operation here
//! reads or changes the low nibble.

use vstd::prelude::*;

verus! {

pub const ZERO_BIT_MASK: u8 = 0x80;

pub const NEGATIVE_BIT_MASK: u8 = 0x40;

pub const HALF_CARRY_BIT_MASK: u8 = 0x20;

pub const CARRY_BIT_MASK: u8 = 0x10;

/// What an operation does to one condition bit.
pub enum FlagState {
    /// The bit takes the given value.
    Toggle(bool),
    SetOn,
    Clear,
    Untouched,
}

impl FlagState {
    /// The value of a condition bit after this change, given its value before.
    pub open spec fn apply(self, before: bool) -> bool {
        match self {
            FlagState::Toggle(value) => value,
            FlagState::SetOn => true,
            FlagState::Clear => false,
            FlagState::Untouched => before,
        }
    }
}

/// Whether the Zero bit of a flag byte is set.
pub open spec fn zero_flag(flags: u8) -> bool {
    flags / 128 % 2 == 1
}

/// Whether the Negative bit of a flag byte is set.
pub open spec fn negative_flag(flags: u8) -> bool {
    flags / 64 % 2 == 1
}

/// Whether the HalfCarry bit of a flag byte is set.
pub open spec fn half_carry_flag(flags: u8) -> bool {
    flags / 32 % 2 == 1
}

/// Whether the Carry bit of a flag byte is set.
pub open spec fn carry_flag(flags: u8) -> bool {
    flags / 16 % 2 == 1
}

/// The number a condition bit contributes to the byte: its weight if set, else 0.
pub open spec fn bit_value(set: bool, weight: int) -> int {
    if set {
        weight
    } else {
        0
    }
}

/// The flag byte with the four given condition bits over the low nibble of `rest`.
///
/// The sum is kept out of sight of proofs that only pass flag bytes on:
/// `lemma_unpack_pack` gives the bits of a packed byte, and
/// `reveal(pack_flags)` the sum itself.
#[verifier::opaque]
pub open spec fn pack_flags(zero: bool, negative: bool, half_carry: bool, carry: bool, rest: u8) -> u8 {
    (bit_value(zero, 128) + bit_value(negative, 64) + bit_value(half_carry, 32) + bit_value(
        carry,
        16,
    ) + rest % 16) as u8
}

/// The flag byte `flags` after the four given changes to its condition bits.
pub open spec fn changed_flags(
    flags: u8,
    z_flag: FlagState,
    n_flag: FlagState,
    h_flag: FlagState,
    c_flag: FlagState,
) -> u8 {
    pack_flags(
        z_flag.apply(zero_flag(flags)),
        n_flag.apply(negative_flag(flags)),
        h_flag.apply(half_carry_flag(flags)),
        c_flag.apply(carry_flag(flags)),
        flags,
    )
}

proof fn lemma_set_bits(flags: u8)
    by (bit_vector)
    ensures
        flags | 0x80 == if flags / 128 % 2 == 1 { flags as int } else { flags + 128 },
        flags | 0x40 == if flags / 64 % 2 == 1 { flags as int } else { flags + 64 },
        flags | 0x20 == if flags / 32 % 2 == 1 { flags as int } else { flags + 32 },
        flags | 0x10 == if flags / 16 % 2 == 1 { flags as int } else { flags + 16 },
{
}

proof fn lemma_clear_bits(flags: u8)
    by (bit_vector)
    ensures
        flags & !0x80u8 == if flags / 128 % 2 == 1 { flags - 128 } else { flags as int },
        flags & !0x40u8 == if flags / 64 % 2 == 1 { flags - 64 } else { flags as int },
        flags & !0x20u8 == if flags / 32 % 2 == 1 { flags - 32 } else { flags as int },
        flags & !0x10u8 == if flags / 16 % 2 == 1 { flags - 16 } else { flags as int },
{
}

proof fn lemma_test_bits(flags: u8)
    by (bit_vector)
    ensures
        ((flags >> 7) & 0x01 == 0x01) == (flags / 128 % 2 == 1),
        ((flags >> 6) & 0x01 == 0x01) == (flags / 64 % 2 == 1),
        ((flags >> 5) & 0x01 == 0x01) == (flags / 32 % 2 == 1),
        ((flags >> 4) & 0x01 == 0x01) == (flags / 16 % 2 == 1),
{
}

/// A flag byte is the sum of its four condition bits and its low nibble.
pub proof fn lemma_pack_unpack(flags: u8)
    ensures
        pack_flags(
            zero_flag(flags),
            negative_flag(flags),
            half_carry_flag(flags),
            carry_flag(flags),
            flags,
        ) == flags,
{
    reveal(pack_flags);
}

/// Packing condition bits and reading them back gives the same bits, and the
/// low nibble is the one that was packed.
pub proof fn lemma_unpack_pack(zero: bool, negative: bool, half_carry: bool, carry: bool, rest: u8)
    ensures
        zero_flag(pack_flags(zero, negative, half_carry, carry, rest)) == zero,
        negative_flag(pack_flags(zero, negative, half_carry, carry, rest)) == negative,
        half_carry_flag(pack_flags(zero, negative, half_carry, carry, rest)) == half_carry,
        carry_flag(pack_flags(zero, negative, half_carry, carry, rest)) == carry,
        pack_flags(zero, negative, half_carry, carry, rest) % 16 == rest % 16,
{
    reveal(pack_flags);
}

/// Sets Carry if `cond`, else clears it.
pub fn toggle_carry(flags: u8, cond: bool) -> (r: u8)
    ensures
        r == changed_flags(
            flags,
            FlagState::Untouched,
            FlagState::Untouched,
            FlagState::Untouched,
            FlagState::Toggle(cond),
        ),
{
    if cond {
        set_carry(flags)
    } else {
        clear_carry(flags)
    }
}

/// Sets Negative if `cond`, else clears it.
pub fn toggle_negative(flags: u8, cond: bool) -> (r: u8)
    ensures
        r == changed_flags(
            flags,
            FlagState::Untouched,
            FlagState::Toggle(cond),
            FlagState::Untouched,
            FlagState::Untouched,
        ),
{
    if cond {
        set_negative(flags)
    } else {
        clear_negative(flags)
    }
}

/// Sets Zero if `cond`, else clears it.
pub fn toggle_zero(flags: u8, cond: bool) -> (r: u8)
    ensures
        r == changed_flags(
            flags,
            FlagState::Toggle(cond),
            FlagState::Untouched,
            FlagState::Untouched,
            FlagState::Untouched,
        ),
{
    if cond {
        set_zero(flags)
    } else {
        clear_zero(flags)
    }
}

/// Sets HalfCarry if `cond`, else clears it.
pub fn toggle_half_carry(flags: u8, cond: bool) -> (r: u8)
    ensures
        r == changed_flags(
            flags,
            FlagState::Untouched,
            FlagState::Untouched,
            FlagState::Toggle(cond),
            FlagState::Untouched,
        ),
{
    if cond {
        set_half_carry(flags)
    } else {
        clear_half_carry(flags)
    }
}

/// The condition bits and the low nibble of a changed flag byte.
pub proof fn lemma_changed_flags(
    flags: u8,
    z_flag: FlagState,
    n_flag: FlagState,
    h_flag: FlagState,
    c_flag: FlagState,
)
    ensures
        zero_flag(changed_flags(flags, z_flag, n_flag, h_flag, c_flag)) == z_flag.apply(
            zero_flag(flags),
        ),
        negative_flag(changed_flags(flags, z_flag, n_flag, h_flag, c_flag)) == n_flag.apply(
            negative_flag(flags),
        ),
        half_carry_flag(changed_flags(flags, z_flag, n_flag, h_flag, c_flag)) == h_flag.apply(
            half_carry_flag(flags),
        ),
        carry_flag(changed_flags(flags, z_flag, n_flag, h_flag, c_flag)) == c_flag.apply(
            carry_flag(flags),
        ),
        changed_flags(flags, z_flag, n_flag, h_flag, c_flag) % 16 == flags % 16,
{
    lemma_unpack_pack(
        z_flag.apply(zero_flag(flags)),
        n_flag.apply(negative_flag(flags)),
        h_flag.apply(half_carry_flag(flags)),
        c_flag.apply(carry_flag(flags)),
        flags,
    );
}

/// Two flag bytes with the same condition bits and the same low nibble are equal.
pub proof fn lemma_flags_equal(x: u8, y: u8)
    requires
        zero_flag(x) == zero_flag(y),
        negative_flag(x) == negative_flag(y),
        half_carry_flag(x) == half_carry_flag(y),
        carry_flag(x) == carry_flag(y),
        x % 16 == y % 16,
    ensures
        x == y,
{
    reveal(pack_flags);
}

impl FlagState {
    /// The value of a condition bit after this change, given its value before.
    pub fn resolve(&self, before: bool) -> (after: bool)
        ensures
            after == self.apply(before),
    {
        match self {
            FlagState::Toggle(value) => *value,
            FlagState::SetOn => true,
            FlagState::Clear => false,
            FlagState::Untouched => before,
        }
    }
}

/// The weight of a condition bit if it is set, else 0.
fn weigh(set: bool, weight: u8) -> (value: u8)
    ensures
        value == bit_value(set, weight as int),
{
    if set {
        weight
    } else {
        0
    }
}

/// Applies one change to each of the four condition bits and keeps the low nibble.
pub fn change_flags(
    flags: u8,
    z_flag: FlagState,
    n_flag: FlagState,
    h_flag: FlagState,
    c_flag: FlagState,
) -> (r: u8)
    ensures
        r == changed_flags(flags, z_flag, n_flag, h_flag, c_flag),
{
    proof {
        reveal(pack_flags);
    }
    let zero = weigh(z_flag.resolve(check_zero_flag(flags)), ZERO_BIT_MASK);
    let negative = weigh(n_flag.resolve(check_negative_flag(flags)), NEGATIVE_BIT_MASK);
    let half_carry = weigh(h_flag.resolve(check_half_carry_flag(flags)), HALF_CARRY_BIT_MASK);
    let carry = weigh(c_flag.resolve(check_carry_flag(flags)), CARRY_BIT_MASK);
    zero + negative + half_carry + carry + flags % 16
}

pub fn clear_zero(flags: u8) -> (r: u8)
    ensures
        r == changed_flags(
            flags,
            FlagState::Clear,
            FlagState::Untouched,
            FlagState::Untouched,
            FlagState::Untouched,
        ),
{
    proof {
        reveal(pack_flags);
        lemma_clear_bits(flags);
    }
    flags & !ZERO_BIT_MASK
}

pub fn set_zero(flags: u8) -> (r: u8)
    ensures
        r == changed_flags(
            flags,
            FlagState::SetOn,
            FlagState::Untouched,
            FlagState::Untouched,
            FlagState::Untouched,
        ),
{
    proof {
        reveal(pack_flags);
        lemma_set_bits(flags);
    }
    flags | ZERO_BIT_MASK
}

pub fn set_carry(flags: u8) -> (r: u8)
    ensures
        r == changed_flags(
            flags,
            FlagState::Untouched,
            FlagState::Untouched,
            FlagState::Untouched,
            FlagState::SetOn,
        ),
{
    proof {
        reveal(pack_flags);
        lemma_set_bits(flags);
    }
    flags | CARRY_BIT_MASK
}

pub fn clear_carry(flags: u8) -> (r: u8)
    ensures
        r == changed_flags(
            flags,
            FlagState::Untouched,
            FlagState::Untouched,
            FlagState::Untouched,
            FlagState::Clear,
        ),
{
    proof {
        reveal(pack_flags);
        lemma_clear_bits(flags);
    }
    flags & !CARRY_BIT_MASK
}

pub fn set_half_carry(flags: u8) -> (r: u8)
    ensures
        r == changed_flags(
            flags,
            FlagState::Untouched,
            FlagState::Untouched,
            FlagState::SetOn,
            FlagState::Untouched,
        ),
{
    proof {
        reveal(pack_flags);
        lemma_set_bits(flags);
    }
    flags | HALF_CARRY_BIT_MASK
}

pub fn clear_half_carry(flags: u8) -> (r: u8)
    ensures
        r == changed_flags(
            flags,
            FlagState::Untouched,
            FlagState::Untouched,
            FlagState::Clear,
            FlagState::Untouched,
        ),
{
    proof {
        reveal(pack_flags);
        lemma_clear_bits(flags);
    }
    flags & !HALF_CARRY_BIT_MASK
}

pub fn clear_negative(flags: u8) -> (r: u8)
    ensures
        r == changed_flags(
            flags,
            FlagState::Untouched,
            FlagState::Clear,
            FlagState::Untouched,
            FlagState::Untouched,
        ),
{
    proof {
        reveal(pack_flags);
        lemma_clear_bits(flags);
    }
    flags & !NEGATIVE_BIT_MASK
}

pub fn set_negative(flags: u8) -> (r: u8)
    ensures
        r == changed_flags(
            flags,
            FlagState::Untouched,
            FlagState::SetOn,
            FlagState::Untouched,
            FlagState::Untouched,
        ),
{
    proof {
        reveal(pack_flags);
        lemma_set_bits(flags);
    }
    flags | NEGATIVE_BIT_MASK
}

pub fn check_zero_flag(flags: u8) -> (b: bool)
    ensures
        b == zero_flag(flags),
{
    proof {
        lemma_test_bits(flags);
    }
    (flags >> 7) & 0x01 == 0x01
}

pub fn check_negative_flag(flags: u8) -> (b: bool)
    ensures
        b == negative_flag(flags),
{
    proof {
        lemma_test_bits(flags);
    }
    (flags >> 6) & 0x01 == 0x01
}

pub fn check_half_carry_flag(flags: u8) -> (b: bool)
    ensures
        b == half_carry_flag(flags),
{
    proof {
        lemma_test_bits(flags);
    }
    (flags >> 5) & 0x01 == 0x01
}

pub fn check_carry_flag(flags: u8) -> (b: bool)
    ensures
        b == carry_flag(flags),
{
    proof {
        lemma_test_bits(flags);
    }
    (flags >> 4) & 0x01 == 0x01
}

/// The byte that `value` wraps to.
pub open spec fn wrap8(value: int) -> u8 {
    (value % 256) as u8
}

/// The word that `value` wraps to.
pub open spec fn wrap16(value: int) -> u16 {
    (value % 65536) as u16
}

/// The carry that goes into an operation: 1 if the Carry bit is set, else 0.
pub open spec fn carry_in(flags: u8) -> int {
    bit_value(carry_flag(flags), 1)
}

/// The number that a byte stands for when it is read as a signed offset.
pub open spec fn signed8(byte: u8) -> int {
    if byte < 128 {
        byte as int
    } else {
        byte - 256
    }
}

/// The number that a word stands for when it is read as signed.
pub open spec fn signed16(word: u16) -> int {
    if word < 32768 {
        word as int
    } else {
        word - 65536
    }
}

/// The amount a decimal adjustment adds to, or after a subtraction takes from, `a`.
pub open spec fn bcd_correction(flags: u8, a: u8) -> int {
    bit_value(half_carry_flag(flags) || (!negative_flag(flags) && a % 16 > 9), 0x06) + bit_value(
        bcd_carry(flags, a),
        0x60,
    )
}

/// Whether a decimal adjustment of `a` leaves the Carry bit set.
pub open spec fn bcd_carry(flags: u8, a: u8) -> bool {
    carry_flag(flags) || (!negative_flag(flags) && a > 0x99)
}

/// The byte `a` after the decimal adjustment that the flags call for.
pub open spec fn bcd_adjusted(flags: u8, a: u8) -> u8 {
    if negative_flag(flags) {
        wrap8(a - bcd_correction(flags, a))
    } else {
        wrap8(a + bcd_correction(flags, a))
    }
}

/// The flag byte and the byte that a decimal adjustment leaves.
pub open spec fn spec_unsigned_byte_to_bcd(flags: u8, a: u8) -> (u8, u8) {
    (
        changed_flags(
            flags,
            FlagState::Toggle(bcd_adjusted(flags, a) == 0),
            FlagState::Untouched,
            FlagState::Clear,
            FlagState::Toggle(bcd_carry(flags, a)),
        ),
        bcd_adjusted(flags, a),
    )
}

/// Decimal adjustment (DAA): corrects the result of an addition or subtraction
/// of two packed decimal bytes, as told by the flags that operation left.
/// Carry is set where the high digit was corrected and never cleared; HalfCarry
/// is cleared; Negative stays.
#[verifier::when_used_as_spec(spec_unsigned_byte_to_bcd)]
pub fn unsigned_byte_to_bcd(flags: u8, a: u8) -> (r: (u8, u8))
    ensures
        r == spec_unsigned_byte_to_bcd(flags, a),
        carry_flag(flags) ==> carry_flag(r.0),
{
    let negative = check_negative_flag(flags);
    let mut correction: u8 = 0;
    let mut carry_should_be_set = false;
    if check_half_carry_flag(flags) || !negative && a % 16 > 9 {
        correction = correction + 0x06;
    }
    if check_carry_flag(flags) || !negative && a > 0x99 {
        correction = correction + 0x60;
        carry_should_be_set = true;
    }
    let result = if negative {
        a.wrapping_sub(correction)
    } else {
        a.wrapping_add(correction)
    };
    let flags_out = change_flags(
        flags,
        FlagState::Toggle(result == 0x00),
        FlagState::Untouched,
        FlagState::Clear,
        FlagState::Toggle(carry_should_be_set),
    );
    proof {
        lemma_changed_flags(
            flags,
            FlagState::Toggle(result == 0x00),
            FlagState::Untouched,
            FlagState::Clear,
            FlagState::Toggle(carry_should_be_set),
        );
    }
    (flags_out, result)
}

proof fn lemma_shifts(a: u8)
    by (bit_vector)
    ensures
        a >> 1 == a / 2,
        (a >> 7) & 0x01 == a / 128,
        a & 0x01 == a % 2,
        (a >> 1) | (((a >> 7) & 0x01) << 7) == a / 2 + (a / 128) * 128,
        (a >> 1) | ((a & 0x01) << 7) == a / 2 + (a % 2) * 128,
        (a >> 1) | 0x80 == a / 2 + 128,
        (a & 0x0F) << 4 | (a & 0xF0) >> 4 == (a % 16) * 16 + a / 16,
{
}

proof fn lemma_left_shifts(a: u8)
    by (bit_vector)
    ensures
        a << 1 == (a * 2) % 256,
        (a << 1) | 1 == (a * 2) % 256 + 1,
        (a << 1) | ((a >> 7) & 0x01) == (a * 2) % 256 + a / 128,
{
}

/// The flag byte and the byte that an arithmetic shift right leaves.
pub open spec fn spec_shift_right_arithmetic_8(flags: u8, a: u8) -> (u8, u8) {
    (
        changed_flags(
            flags,
            FlagState::Toggle(a / 2 + (a / 128) * 128 == 0),
            FlagState::Clear,
            FlagState::Clear,
            FlagState::Toggle(a % 2 == 1),
        ),
        (a / 2 + (a / 128) * 128) as u8,
    )
}

/// Arithmetic shift right (SRA): bit 7 stays, bit 0 goes to Carry.
#[verifier::when_used_as_spec(spec_shift_right_arithmetic_8)]
pub fn shift_right_arithmetic_8(flags: u8, a: u8) -> (r: (u8, u8))
    ensures
        r == spec_shift_right_arithmetic_8(flags, a),
{
    proof {
        lemma_shifts(a);
        lemma_left_shifts(a);
    }
    let carry = a & 0x01;
    let seventh_bit = (a >> 7) & 0x01;
    let result = (a >> 1) | (seventh_bit << 7);
    let flags = change_flags(
        flags,
        FlagState::Toggle(result == 0x00),
        FlagState::Clear,
        FlagState::Clear,
        FlagState::Toggle(carry == 0x01),
    );
    (flags, result)
}

/// The flag byte and the byte that a logical shift right leaves.
pub open spec fn spec_shift_right_logic_8(flags: u8, a: u8) -> (u8, u8) {
    (
        changed_flags(
            flags,
            FlagState::Toggle(a / 2 == 0),
            FlagState::Clear,
            FlagState::Clear,
            FlagState::Toggle(a % 2 == 1),
        ),
        a / 2,
    )
}

/// Logical shift right (SRL): bit 7 becomes 0, bit 0 goes to Carry.
#[verifier::when_used_as_spec(spec_shift_right_logic_8)]
pub fn shift_right_logic_8(flags: u8, a: u8) -> (r: (u8, u8))
    ensures
        r == spec_shift_right_logic_8(flags, a),
{
    proof {
        lemma_shifts(a);
        lemma_left_shifts(a);
    }
    let carry = a & 0x01;
    let result = a >> 1;
    let flags = change_flags(
        flags,
        FlagState::Toggle(result == 0x00),
        FlagState::Clear,
        FlagState::Clear,
        FlagState::Toggle(carry == 0x01),
    );
    (flags, result)
}

/// The flag byte and the byte that a shift left leaves.
pub open spec fn spec_shift_left_8(flags: u8, a: u8) -> (u8, u8) {
    (
        changed_flags(
            flags,
            FlagState::Toggle(wrap8(a * 2) == 0),
            FlagState::Clear,
            FlagState::Clear,
            FlagState::Toggle(a >= 128),
        ),
        wrap8(a * 2),
    )
}

/// Shift left (SLA): bit 0 becomes 0, bit 7 goes to Carry.
#[verifier::when_used_as_spec(spec_shift_left_8)]
pub fn shift_left_8(flags: u8, a: u8) -> (r: (u8, u8))
    ensures
        r == spec_shift_left_8(flags, a),
{
    proof {
        lemma_shifts(a);
        lemma_left_shifts(a);
    }
    let carry = (a >> 7) & 0x01;
    let result = a << 1;
    let flags = change_flags(
        flags,
        FlagState::Toggle(result == 0x00),
        FlagState::Clear,
        FlagState::Clear,
        FlagState::Toggle(carry == 0x01),
    );
    (flags, result)
}

/// The flag byte and the byte that a rotation left through Carry leaves: bit 7
/// goes to Carry, the old Carry enters bit 0, Zero is set from the result, and
/// Negative and HalfCarry are cleared.
pub open spec fn spec_rotate_left_8_carry(flags: u8, a: u8) -> (u8, u8) {
    (
        changed_flags(
            flags,
            FlagState::Toggle(wrap8(a * 2) + carry_in(flags) == 0),
            FlagState::Clear,
            FlagState::Clear,
            FlagState::Toggle(a >= 128),
        ),
        (wrap8(a * 2) + carry_in(flags)) as u8,
    )
}

/// Rotate left through Carry: the old Carry enters bit 0, bit 7 goes to Carry,
/// and Zero is set from the result.
#[verifier::when_used_as_spec(spec_rotate_left_8_carry)]
pub fn rotate_left_8_carry(flags: u8, a: u8) -> (r: (u8, u8))
    ensures
        r == spec_rotate_left_8_carry(flags, a),
        r.1 == wrap8(a * 2) + carry_in(flags),
        zero_flag(r.0) <==> r.1 == 0,
        !negative_flag(r.0),
        !half_carry_flag(r.0),
        carry_flag(r.0) <==> a >= 128,
        r.0 % 16 == flags % 16,
{
    proof {
        lemma_shifts(a);
        lemma_left_shifts(a);
    }
    let next_carry = (a >> 7) & 0x01;
    let result = if check_carry_flag(flags) {
        (a << 1) | 1
    } else {
        a << 1
    };
    let flags_out = change_flags(
        flags,
        FlagState::Toggle(result == 0x00),
        FlagState::Clear,
        FlagState::Clear,
        FlagState::Toggle(next_carry == 0x01),
    );
    proof {
        lemma_changed_flags(
            flags,
            FlagState::Toggle(result == 0x00),
            FlagState::Clear,
            FlagState::Clear,
            FlagState::Toggle(next_carry == 0x01),
        );
    }
    (flags_out, result)
}

/// The flag byte and the byte that a rotation right through Carry leaves: bit 0
/// goes to Carry, the old Carry enters bit 7, Zero is set from the result, and
/// Negative and HalfCarry are cleared.
pub open spec fn spec_rotate_right_8_carry(flags: u8, a: u8) -> (u8, u8) {
    (
        changed_flags(
            flags,
            FlagState::Toggle(a / 2 + carry_in(flags) * 128 == 0),
            FlagState::Clear,
            FlagState::Clear,
            FlagState::Toggle(a % 2 == 1),
        ),
        (a / 2 + carry_in(flags) * 128) as u8,
    )
}

/// Rotate right through Carry: the old Carry enters bit 7, bit 0 goes to
/// Carry, and Zero is set from the result.
#[verifier::when_used_as_spec(spec_rotate_right_8_carry)]
pub fn rotate_right_8_carry(flags: u8, a: u8) -> (r: (u8, u8))
    ensures
        r == spec_rotate_right_8_carry(flags, a),
        r.1 == a / 2 + carry_in(flags) * 128,
        zero_flag(r.0) <==> r.1 == 0,
        !negative_flag(r.0),
        !half_carry_flag(r.0),
        carry_flag(r.0) <==> a % 2 == 1,
        r.0 % 16 == flags % 16,
{
    proof {
        lemma_shifts(a);
        lemma_left_shifts(a);
    }
    let next_carry = a & 0x01;
    let result = if check_carry_flag(flags) {
        (a >> 1) | 0x80
    } else {
        a >> 1
    };
    let flags_out = change_flags(
        flags,
        FlagState::Toggle(result == 0x00),
        FlagState::Clear,
        FlagState::Clear,
        FlagState::Toggle(next_carry == 0x01),
    );
    proof {
        lemma_changed_flags(
            flags,
            FlagState::Toggle(result == 0x00),
            FlagState::Clear,
            FlagState::Clear,
            FlagState::Toggle(next_carry == 0x01),
        );
    }
    (flags_out, result)
}

/// The flag byte and the byte that a rotation right leaves.
pub open spec fn spec_rotate_right_8(flags: u8, a: u8) -> (u8, u8) {
    (
        changed_flags(
            flags,
            FlagState::Toggle(a == 0),
            FlagState::Clear,
            FlagState::Clear,
            FlagState::Toggle(a % 2 == 1),
        ),
        (a / 2 + (a % 2) * 128) as u8,
    )
}

/// Rotate right: bit 0 enters bit 7 and goes to Carry.
#[verifier::when_used_as_spec(spec_rotate_right_8)]
pub fn rotate_right_8(flags: u8, a: u8) -> (r: (u8, u8))
    ensures
        r == spec_rotate_right_8(flags, a),
{
    proof {
        lemma_shifts(a);
        lemma_left_shifts(a);
    }
    let next_carry = a & 0x01;
    let result = (a >> 1) | (next_carry << 7);
    let flags = change_flags(
        flags,
        FlagState::Toggle(result == 0x00),
        FlagState::Clear,
        FlagState::Clear,
        FlagState::Toggle(next_carry == 0x01),
    );
    (flags, result)
}

/// The flag byte and the byte that a rotation left leaves.
pub open spec fn spec_rotate_left_8(flags: u8, a: u8) -> (u8, u8) {
    (
        changed_flags(
            flags,
            FlagState::Toggle(a == 0),
            FlagState::Clear,
            FlagState::Clear,
            FlagState::Toggle(a >= 128),
        ),
        (wrap8(a * 2) + a / 128) as u8,
    )
}

/// Rotate left: bit 7 enters bit 0 and goes to Carry.
#[verifier::when_used_as_spec(spec_rotate_left_8)]
pub fn rotate_left_8(flags: u8, a: u8) -> (r: (u8, u8))
    ensures
        r == spec_rotate_left_8(flags, a),
{
    proof {
        lemma_shifts(a);
        lemma_left_shifts(a);
    }
    let next_carry = (a >> 7) & 0x01;
    let result = (a << 1) | next_carry;
    let flags = change_flags(
        flags,
        FlagState::Toggle(result == 0x00),
        FlagState::Clear,
        FlagState::Clear,
        FlagState::Toggle(next_carry == 0x01),
    );
    (flags, result)
}

/// The flag byte and the byte that an exchange of the two nibbles leaves.
pub open spec fn spec_swap_nibbles_8(flags: u8, a: u8) -> (u8, u8) {
    (
        changed_flags(
            flags,
            FlagState::Toggle(a == 0),
            FlagState::Clear,
            FlagState::Clear,
            FlagState::Clear,
        ),
        ((a % 16) * 16 + a / 16) as u8,
    )
}

/// Exchanges the two nibbles of a byte; only Zero can be left set.
#[verifier::when_used_as_spec(spec_swap_nibbles_8)]
pub fn swap_nibbles_8(flags: u8, a: u8) -> (r: (u8, u8))
    ensures
        r == spec_swap_nibbles_8(flags, a),
{
    proof {
        lemma_shifts(a);
        lemma_left_shifts(a);
    }
    let result = (a & 0x0F) << 4 | (a & 0xF0) >> 4;
    let flags = change_flags(
        flags,
        FlagState::Toggle(result == 0x00),
        FlagState::Clear,
        FlagState::Clear,
        FlagState::Clear,
    );
    (flags, result)
}

/// The flag byte and the byte that a bitwise OR leaves.
pub open spec fn spec_or_8(flags: u8, a: u8, b: u8) -> (u8, u8) {
    (
        changed_flags(
            flags,
            FlagState::Toggle(a | b == 0),
            FlagState::Clear,
            FlagState::Clear,
            FlagState::Clear,
        ),
        a | b,
    )
}

/// Bitwise OR of two bytes.
#[verifier::when_used_as_spec(spec_or_8)]
pub fn or_8(flags: u8, a: u8, b: u8) -> (r: (u8, u8))
    ensures
        r == spec_or_8(flags, a, b),
{
    let result = a | b;
    let flags = change_flags(
        flags,
        FlagState::Toggle(result == 0x00),
        FlagState::Clear,
        FlagState::Clear,
        FlagState::Clear,
    );
    (flags, result)
}

/// The flag byte and the byte that a bitwise exclusive OR leaves.
pub open spec fn spec_xor_8(flags: u8, a: u8, b: u8) -> (u8, u8) {
    (
        changed_flags(
            flags,
            FlagState::Toggle(a ^ b == 0),
            FlagState::Clear,
            FlagState::Clear,
            FlagState::Clear,
        ),
        a ^ b,
    )
}

/// Bitwise exclusive OR of two bytes.
#[verifier::when_used_as_spec(spec_xor_8)]
pub fn xor_8(flags: u8, a: u8, b: u8) -> (r: (u8, u8))
    ensures
        r == spec_xor_8(flags, a, b),
{
    let result = a ^ b;
    let flags = change_flags(
        flags,
        FlagState::Toggle(result == 0x00),
        FlagState::Clear,
        FlagState::Clear,
        FlagState::Clear,
    );
    (flags, result)
}

/// The flag byte and the byte that a bitwise AND leaves.
pub open spec fn spec_and_8(flags: u8, a: u8, b: u8) -> (u8, u8) {
    (
        changed_flags(
            flags,
            FlagState::Toggle(a & b == 0),
            FlagState::Clear,
            FlagState::SetOn,
            FlagState::Clear,
        ),
        a & b,
    )
}

/// Bitwise AND of two bytes; HalfCarry is left set.
#[verifier::when_used_as_spec(spec_and_8)]
pub fn and_8(flags: u8, a: u8, b: u8) -> (r: (u8, u8))
    ensures
        r == spec_and_8(flags, a, b),
{
    let result = a & b;
    let flags = change_flags(
        flags,
        FlagState::Toggle(result == 0x00),
        FlagState::Clear,
        FlagState::SetOn,
        FlagState::Clear,
    );
    (flags, result)
}

/// The flag byte and the byte that a complement leaves.
pub open spec fn spec_not_8(flags: u8, a: u8) -> (u8, u8) {
    (
        changed_flags(
            flags,
            FlagState::Untouched,
            FlagState::SetOn,
            FlagState::SetOn,
            FlagState::Untouched,
        ),
        (255 - a) as u8,
    )
}

/// Complement (CPL): every bit of the byte is inverted; Zero and Carry stay.
#[verifier::when_used_as_spec(spec_not_8)]
pub fn not_8(flags: u8, a: u8) -> (r: (u8, u8))
    ensures
        r == spec_not_8(flags, a),
{
    assert((!a) as int == 255 - a as int) by (bit_vector);
    let result = !a;
    let flags = change_flags(
        flags,
        FlagState::Untouched,
        FlagState::SetOn,
        FlagState::SetOn,
        FlagState::Untouched,
    );
    (flags, result)
}

/// The flag byte and the word that an addition of two words leaves.
pub open spec fn spec_add_16(flags: u8, a: u16, b: u16) -> (u8, u16) {
    (
        changed_flags(
            flags,
            FlagState::Untouched,
            FlagState::Clear,
            FlagState::Toggle(a % 4096 + b % 4096 > 4095),
            FlagState::Toggle(a + b > 65535),
        ),
        wrap16(a + b),
    )
}

/// Adds two words; HalfCarry is the carry out of bit 11, Carry that out of
/// bit 15, and Zero stays.
#[verifier::when_used_as_spec(spec_add_16)]
pub fn add_16(flags: u8, a: u16, b: u16) -> (r: (u8, u16))
    ensures
        r == spec_add_16(flags, a, b),
{
    let result = a.wrapping_add(b);
    let overflow = a > 0xFFFF - b;
    let carried_into_high_nybble = a % 0x1000 + b % 0x1000;
    let flags = change_flags(
        flags,
        FlagState::Untouched,
        FlagState::Clear,
        FlagState::Toggle(carried_into_high_nybble > 0x0FFF),
        FlagState::Toggle(overflow),
    );
    (flags, result)
}

/// The flag byte and the byte that an addition of two bytes leaves.
pub open spec fn spec_add_8(flags: u8, a: u8, b: u8) -> (u8, u8) {
    (
        changed_flags(
            flags,
            FlagState::Toggle(wrap8(a + b) == 0),
            FlagState::Clear,
            FlagState::Toggle(a % 16 + b % 16 > 15),
            FlagState::Toggle(a + b > 255),
        ),
        wrap8(a + b),
    )
}

/// Adds two bytes.
#[verifier::when_used_as_spec(spec_add_8)]
pub fn add_8(flags: u8, a: u8, b: u8) -> (r: (u8, u8))
    ensures
        r == spec_add_8(flags, a, b),
        zero_flag(r.0) <==> r.1 == 0,
        !negative_flag(r.0),
        half_carry_flag(r.0) <==> a % 16 + b % 16 > 15,
        carry_flag(r.0) <==> a + b > 255,
{
    let result = a.wrapping_add(b);
    let overflow = a > 0xFF - b;
    let carried_into_high_nybble = a % 0x10 + b % 0x10;
    let flags_out = change_flags(
        flags,
        FlagState::Toggle(result == 0x00),
        FlagState::Clear,
        FlagState::Toggle(carried_into_high_nybble > 0x0F),
        FlagState::Toggle(overflow),
    );
    proof {
        lemma_changed_flags(
            flags,
            FlagState::Toggle(result == 0x00),
            FlagState::Clear,
            FlagState::Toggle(carried_into_high_nybble > 0x0F),
            FlagState::Toggle(overflow),
        );
    }
    (flags_out, result)
}

/// The flag byte and the word that the addition of a signed byte to a word leaves.
pub open spec fn spec_add_signed_byte_16(flags: u8, a: u16, b: i8) -> (u8, u16) {
    (
        changed_flags(
            flags,
            FlagState::Untouched,
            FlagState::Clear,
            FlagState::Toggle(a % 4096 + (b as int) % 4096 > 4095),
            FlagState::Toggle(signed16(a) + b > 32767 || signed16(a) + b < -32768),
        ),
        wrap16(a + b),
    )
}

/// Adds a signed byte to a word taken as signed. HalfCarry is set where the low
/// twelve bits of both, added, pass 0x0FFF; Carry where the signed sum leaves
/// the range of a signed word. Zero stays.
#[verifier::when_used_as_spec(spec_add_signed_byte_16)]
pub fn add_signed_byte_16(flags: u8, a: u16, b: i8) -> (r: (u8, u16))
    ensures
        r == spec_add_signed_byte_16(flags, a, b),
{
    let result = a.wrapping_add_signed(b as i16);
    let signed_a: i32 = if a < 0x8000 {
        a as i32
    } else {
        a as i32 - 0x10000
    };
    let sum: i32 = signed_a + b as i32;
    let overflow = sum > 0x7FFF || sum < -0x8000;
    let low_b: u16 = if b < 0 {
        (0x1000 + b as i32) as u16
    } else {
        b as u16
    };
    let carried_into_high_nybble = a % 0x1000 + low_b;
    let flags = change_flags(
        flags,
        FlagState::Untouched,
        FlagState::Clear,
        FlagState::Toggle(carried_into_high_nybble > 0x0FFF),
        FlagState::Toggle(overflow),
    );
    (flags, result)
}

/// The flag byte and the byte that an addition with carry leaves.
pub open spec fn spec_adc_8(flags: u8, a: u8, b: u8) -> (u8, u8) {
    (
        changed_flags(
            flags,
            FlagState::Toggle(wrap8(a + b + carry_in(flags)) == 0),
            FlagState::Clear,
            FlagState::Toggle(a % 16 + b % 16 + carry_in(flags) > 15),
            FlagState::Toggle(a + b + carry_in(flags) > 255),
        ),
        wrap8(a + b + carry_in(flags)),
    )
}

/// Adds two bytes and the carry that the flags bring in.
#[verifier::when_used_as_spec(spec_adc_8)]
pub fn adc_8(flags: u8, a: u8, b: u8) -> (r: (u8, u8))
    ensures
        r == spec_adc_8(flags, a, b),
{
    let carry: u16 = if check_carry_flag(flags) {
        1
    } else {
        0
    };
    let sum: u16 = a as u16 + b as u16 + carry;
    let result = (sum % 0x100) as u8;
    let carried_into_high_nybble = (a % 0x10) as u16 + (b % 0x10) as u16 + carry;
    let flags = change_flags(
        flags,
        FlagState::Toggle(result == 0x00),
        FlagState::Clear,
        FlagState::Toggle(carried_into_high_nybble > 0x0F),
        FlagState::Toggle(sum > 0xFF),
    );
    (flags, result)
}

/// The flag byte and the byte that a subtraction with carry leaves.
pub open spec fn spec_sbc_8(flags: u8, a: u8, b: u8) -> (u8, u8) {
    (
        changed_flags(
            flags,
            FlagState::Toggle(wrap8(a - b - carry_in(flags)) == 0),
            FlagState::SetOn,
            FlagState::Toggle(a % 16 < b % 16 + carry_in(flags)),
            FlagState::Toggle(a < b + carry_in(flags)),
        ),
        wrap8(a - b - carry_in(flags)),
    )
}

/// Subtracts from `a` the byte `b` and the carry that the flags bring in.
#[verifier::when_used_as_spec(spec_sbc_8)]
pub fn sbc_8(flags: u8, a: u8, b: u8) -> (r: (u8, u8))
    ensures
        r == spec_sbc_8(flags, a, b),
{
    let carry: u16 = if check_carry_flag(flags) {
        1
    } else {
        0
    };
    let taken: u16 = b as u16 + carry;
    let result = if (a as u16) < taken {
        (a as u16 + 0x100 - taken) as u8
    } else {
        (a as u16 - taken) as u8
    };
    let borrowed_from_high_nybble = ((a % 0x10) as u16) < (b % 0x10) as u16 + carry;
    let flags = change_flags(
        flags,
        FlagState::Toggle(result == 0x00),
        FlagState::SetOn,
        FlagState::Toggle(borrowed_from_high_nybble),
        FlagState::Toggle((a as u16) < taken),
    );
    (flags, result)
}

/// The flag byte and the byte that a subtraction leaves.
pub open spec fn spec_sub_8(flags: u8, a: u8, b: u8) -> (u8, u8) {
    (
        changed_flags(
            flags,
            FlagState::Toggle(a == b),
            FlagState::SetOn,
            FlagState::Toggle(a % 16 < b % 16),
            FlagState::Toggle(a < b),
        ),
        wrap8(a - b),
    )
}

/// Subtracts `b` from `a`.
#[verifier::when_used_as_spec(spec_sub_8)]
pub fn sub_8(flags: u8, a: u8, b: u8) -> (r: (u8, u8))
    ensures
        r == spec_sub_8(flags, a, b),
        negative_flag(r.0),
        zero_flag(r.0) <==> r.1 == 0,
        half_carry_flag(r.0) <==> a % 16 < b % 16,
        carry_flag(r.0) <==> a < b,
{
    let result = a.wrapping_sub(b);
    let flags = cp_8(flags, a, b);
    (flags, result)
}

/// Adds one to a word, wrapping; there are no flags of this.
pub fn inc_16(value: u16) -> (r: u16)
    ensures
        r == wrap16(value + 1),
{
    value.wrapping_add(1)
}

/// The flag byte and the byte that an increment leaves.
pub open spec fn spec_inc_8(flags: u8, value: u8) -> (u8, u8) {
    (
        changed_flags(
            flags,
            FlagState::Toggle(value == 255),
            FlagState::Clear,
            FlagState::Toggle(value % 16 == 15),
            FlagState::Untouched,
        ),
        wrap8(value + 1),
    )
}

/// Adds one to a byte; Carry stays.
#[verifier::when_used_as_spec(spec_inc_8)]
pub fn inc_8(flags: u8, value: u8) -> (r: (u8, u8))
    ensures
        r == spec_inc_8(flags, value),
{
    let new = value.wrapping_add(1);
    let carried_into_high_nybble = value % 0x10 + 1;
    let flags = change_flags(
        flags,
        FlagState::Toggle(new == 0x00),
        FlagState::Clear,
        FlagState::Toggle(carried_into_high_nybble > 0x0F),
        FlagState::Untouched,
    );
    (flags, new)
}

/// The flag byte that subtracting `value` from `accu` leaves.
pub open spec fn spec_cp_8(flags: u8, accu: u8, value: u8) -> u8 {
    changed_flags(
        flags,
        FlagState::Toggle(accu == value),
        FlagState::SetOn,
        FlagState::Toggle(accu % 16 < value % 16),
        FlagState::Toggle(accu < value),
    )
}

/// Compares `accu` with `value`: the flags of the subtraction, without its result.
#[verifier::when_used_as_spec(spec_cp_8)]
pub fn cp_8(flags: u8, accu: u8, value: u8) -> (r: u8)
    ensures
        r == spec_cp_8(flags, accu, value),
        negative_flag(r),
        zero_flag(r) <==> accu == value,
        half_carry_flag(r) <==> accu % 16 < value % 16,
        carry_flag(r) <==> accu < value,
{
    let flags_out = change_flags(
        flags,
        FlagState::Toggle(accu == value),
        FlagState::SetOn,
        FlagState::Toggle(accu % 0x10 < value % 0x10),
        FlagState::Toggle(accu < value),
    );
    proof {
        lemma_changed_flags(
            flags,
            FlagState::Toggle(accu == value),
            FlagState::SetOn,
            FlagState::Toggle(accu % 0x10 < value % 0x10),
            FlagState::Toggle(accu < value),
        );
    }
    flags_out
}

/// Takes one from a word, wrapping; there are no flags of this.
pub fn dec_16(value: u16) -> (r: u16)
    ensures
        r == wrap16(value - 1),
{
    value.wrapping_sub(1)
}

/// The flag byte and the byte that a decrement leaves.
pub open spec fn spec_dec_8(flags: u8, value: u8) -> (u8, u8) {
    (
        changed_flags(
            flags,
            FlagState::Toggle(value == 1),
            FlagState::SetOn,
            FlagState::Toggle(value % 16 == 0),
            FlagState::Untouched,
        ),
        wrap8(value - 1),
    )
}

/// Takes one from a byte; Carry stays.
#[verifier::when_used_as_spec(spec_dec_8)]
pub fn dec_8(flags: u8, value: u8) -> (r: (u8, u8))
    ensures
        r == spec_dec_8(flags, value),
{
    let new = value.wrapping_sub(1);
    let flags = change_flags(
        flags,
        FlagState::Toggle(new == 0x00),
        FlagState::SetOn,
        FlagState::Toggle(value % 0x10 == 0),
        FlagState::Untouched,
    );
    (flags, new)
}

/// `count` rotations right through Carry, each taking the flags that the one
/// before it left.
pub open spec fn rotated_right_through_carry_times(flags: u8, a: u8, count: nat) -> (u8, u8)
    decreases count,
{
    if count == 0 {
        (flags, a)
    } else {
        let before = rotated_right_through_carry_times(flags, a, (count - 1) as nat);
        spec_rotate_right_8_carry(before.0, before.1)
    }
}

/// The nine bits that rotate together: Carry above the eight bits of the byte.
pub open spec fn carry_and_byte(flags: u8, a: u8) -> u16 {
    (carry_in(flags) * 256 + a) as u16
}

/// One rotation right of the low nine bits of a word.
pub open spec fn rotated_nine_bits(bits: u16) -> u16 {
    (bits >> 1) | ((bits & 1) << 8)
}

proof fn lemma_nine_bits_step(bits: u16)
    by (bit_vector)
    requires
        bits < 512,
    ensures
        rotated_nine_bits(bits) == bits / 2 + (bits % 2) * 256,
        rotated_nine_bits(bits) < 512,
{
}

proof fn lemma_nine_bits_cycle(bits: u16)
    by (bit_vector)
    requires
        bits < 512,
    ensures
        rotated_nine_bits(
            rotated_nine_bits(
                rotated_nine_bits(
                    rotated_nine_bits(
                        rotated_nine_bits(
                            rotated_nine_bits(
                                rotated_nine_bits(rotated_nine_bits(rotated_nine_bits(bits))),
                            ),
                        ),
                    ),
                ),
            ),
        ) == bits,
        rotated_nine_bits(
            rotated_nine_bits(
                rotated_nine_bits(
                    rotated_nine_bits(
                        rotated_nine_bits(
                            rotated_nine_bits(rotated_nine_bits(rotated_nine_bits(bits))),
                        ),
                    ),
                ),
            ),
        ) == bits <==> bits == 0 || bits == 511,
{
}

/// A rotation right through Carry rotates Carry and the byte as nine bits.
pub proof fn lemma_rotate_right_carry_is_nine_bit_rotation(flags: u8, a: u8)
    ensures
        carry_and_byte(
            spec_rotate_right_8_carry(flags, a).0,
            spec_rotate_right_8_carry(flags, a).1,
        ) == rotated_nine_bits(carry_and_byte(flags, a)),
{
    lemma_changed_flags(
        flags,
        FlagState::Toggle(a / 2 + carry_in(flags) * 128 == 0),
        FlagState::Clear,
        FlagState::Clear,
        FlagState::Toggle(a % 2 == 1),
    );
    lemma_nine_bits_step(carry_and_byte(flags, a));
}

/// A rotation right through Carry takes back a rotation left through Carry:
/// the byte and the Carry bit are the ones before the rotation left.
pub proof fn lemma_rotate_left_then_right(flags: u8, a: u8)
    ensures
        spec_rotate_right_8_carry(
            spec_rotate_left_8_carry(flags, a).0,
            spec_rotate_left_8_carry(flags, a).1,
        ).1 == a,
        carry_flag(
            spec_rotate_right_8_carry(
                spec_rotate_left_8_carry(flags, a).0,
                spec_rotate_left_8_carry(flags, a).1,
            ).0,
        ) == carry_flag(flags),
{
    let left = spec_rotate_left_8_carry(flags, a);
    lemma_changed_flags(
        flags,
        FlagState::Toggle(wrap8(a * 2) + carry_in(flags) == 0),
        FlagState::Clear,
        FlagState::Clear,
        FlagState::Toggle(a >= 128),
    );
    lemma_changed_flags(
        left.0,
        FlagState::Toggle(left.1 / 2 + carry_in(left.0) * 128 == 0),
        FlagState::Clear,
        FlagState::Clear,
        FlagState::Toggle(left.1 % 2 == 1),
    );
}

/// Any number of rotations right through Carry rotates the nine bits as often.
pub open spec fn rotated_nine_bits_times(bits: u16, count: nat) -> u16
    decreases count,
{
    if count == 0 {
        bits
    } else {
        rotated_nine_bits(rotated_nine_bits_times(bits, (count - 1) as nat))
    }
}

proof fn lemma_rotations_are_nine_bit_rotations(flags: u8, a: u8, count: nat)
    ensures
        carry_and_byte(
            rotated_right_through_carry_times(flags, a, count).0,
            rotated_right_through_carry_times(flags, a, count).1,
        ) == rotated_nine_bits_times(carry_and_byte(flags, a), count),
    decreases count,
{
    if count > 0 {
        lemma_rotations_are_nine_bit_rotations(flags, a, (count - 1) as nat);
        let before = rotated_right_through_carry_times(flags, a, (count - 1) as nat);
        lemma_rotate_right_carry_is_nine_bit_rotation(before.0, before.1);
    }
}

/// Rotating right through Carry nine times in a row, each time with the Carry
/// that the rotation before left, gives back the byte and the Carry bit that
/// one started with: Carry and the byte rotate as nine bits.
pub proof fn lemma_rotate_right_carry_nine_times(flags: u8, a: u8)
    ensures
        rotated_right_through_carry_times(flags, a, 9).1 == a,
        carry_flag(rotated_right_through_carry_times(flags, a, 9).0) == carry_flag(flags),
{
    lemma_rotations_are_nine_bit_rotations(flags, a, 9);
    reveal_with_fuel(rotated_nine_bits_times, 10);
    lemma_nine_bits_cycle(carry_and_byte(flags, a));
}

/// Rotating right through Carry eight times in a row, each time with the Carry
/// that the rotation before left, gives back the byte and the Carry bit one
/// started with where the nine bits are all alike: the byte 0x00 with Carry
/// clear, or the byte 0xFF with Carry set. For every other start the eighth
/// rotation leaves another byte or another Carry.
pub proof fn lemma_rotate_right_carry_eight_times(flags: u8, a: u8)
    ensures
        (a == 0 && !carry_flag(flags)) || (a == 255 && carry_flag(flags)) <==> {
            &&& rotated_right_through_carry_times(flags, a, 8).1 == a
            &&& carry_flag(rotated_right_through_carry_times(flags, a, 8).0) == carry_flag(flags)
        },
{
    lemma_rotations_are_nine_bit_rotations(flags, a, 8);
    reveal_with_fuel(rotated_nine_bits_times, 9);
    lemma_nine_bits_cycle(carry_and_byte(flags, a));
}

/// Whether both digits of a byte are decimal digits.
pub open spec fn is_packed_decimal(byte: u8) -> bool {
    byte / 16 <= 9 && byte % 16 <= 9
}

/// The number below 100 that a byte of two decimal digits stands for.
pub open spec fn decimal_value(byte: u8) -> int {
    (byte / 16) * 10 + byte % 16
}

/// The sum of two bytes after decimal adjustment, as a number that may pass 0xFF.
pub open spec fn adjusted_sum(a: u16, b: u16) -> u16 {
    let sum = (a + b) as u16;
    let low: u16 = if a % 16 + b % 16 > 15 || (sum % 256) % 16 > 9 {
        0x06
    } else {
        0x00
    };
    let high: u16 = if sum > 0x99 {
        0x60
    } else {
        0x00
    };
    (sum % 256 + low + high) as u16
}

proof fn lemma_adjusted_sum(a: u16, b: u16)
    by (bit_vector)
    requires
        a / 16 <= 9,
        a % 16 <= 9,
        b / 16 <= 9,
        b % 16 <= 9,
    ensures
        (adjusted_sum(a, b) % 256) / 16 <= 9,
        (adjusted_sum(a, b) % 256) % 16 <= 9,
        a + b > 0x99 ==> ((adjusted_sum(a, b) % 256) / 16) * 10 + (adjusted_sum(a, b) % 256) % 16
            + 100 == (a / 16) * 10 + a % 16 + (b / 16) * 10 + b % 16,
        a + b <= 0x99 ==> ((adjusted_sum(a, b) % 256) / 16) * 10 + (adjusted_sum(a, b) % 256) % 16
            == (a / 16) * 10 + a % 16 + (b / 16) * 10 + b % 16,
{
}

/// Adding two bytes of two decimal digits each and adjusting the sum gives the
/// two decimal digits of their sum, with Carry for the hundred; whatever the
/// flags were before the addition.
pub proof fn lemma_decimal_adjust_after_add(flags: u8, a: u8, b: u8)
    requires
        is_packed_decimal(a),
        is_packed_decimal(b),
    ensures
        is_packed_decimal(spec_unsigned_byte_to_bcd(spec_add_8(flags, a, b).0, wrap8(a + b)).1),
        decimal_value(spec_unsigned_byte_to_bcd(spec_add_8(flags, a, b).0, wrap8(a + b)).1)
            + bit_value(
            carry_flag(spec_unsigned_byte_to_bcd(spec_add_8(flags, a, b).0, wrap8(a + b)).0),
            100,
        ) == decimal_value(a) + decimal_value(b),
{
    let added = spec_add_8(flags, a, b);
    lemma_changed_flags(
        flags,
        FlagState::Toggle(wrap8(a + b) == 0),
        FlagState::Clear,
        FlagState::Toggle(a % 16 + b % 16 > 15),
        FlagState::Toggle(a + b > 255),
    );
    let sum = added.1;
    lemma_changed_flags(
        added.0,
        FlagState::Toggle(bcd_adjusted(added.0, sum) == 0),
        FlagState::Untouched,
        FlagState::Clear,
        FlagState::Toggle(bcd_carry(added.0, sum)),
    );
    lemma_adjusted_sum(a as u16, b as u16);
    assert(bcd_carry(added.0, sum) == (a + b > 0x99));
    assert(bcd_adjusted(added.0, sum) == adjusted_sum(a as u16, b as u16) % 256);
}

} // verus!
