//! Single-bit operations on 8-bit registers.

use vstd::prelude::*;

verus! {

/// The mask that selects bit `b`.
pub open spec fn mask(b: u8) -> u8 {
    (1u8 << b) as u8
}

/// Whether bit `b` of `x` is one.
pub open spec fn bit(x: u8, b: u8) -> bool {
    x & mask(b) != 0
}

/// `x` with bit `b` set to one.
pub open spec fn with_bit_set(x: u8, b: u8) -> u8 {
    x | mask(b)
}

/// `x` with bit `b` set to zero.
pub open spec fn with_bit_clear(x: u8, b: u8) -> u8 {
    x & !mask(b)
}

/// `x` with bit `b` inverted.
pub open spec fn with_bit_toggled(x: u8, b: u8) -> u8 {
    x ^ mask(b)
}

/// Setting a bit makes it one and keeps every other bit.
pub proof fn lemma_set(x: u8, b: u8)
    requires
        b < 8,
    ensures
        bit(with_bit_set(x, b), b),
        forall|i: u8| i < 8 && i != b ==> bit(with_bit_set(x, b), i) == #[trigger] bit(x, i),
{
    assert((x | ((1u8 << b) as u8)) & ((1u8 << b) as u8) != 0) by (bit_vector)
        requires b < 8u8;
    assert forall|i: u8| i < 8 && i != b implies bit(with_bit_set(x, b), i) == #[trigger] bit(x, i) by {
        assert(((x | ((1u8 << b) as u8)) & ((1u8 << i) as u8) != 0) == (x & ((1u8 << i) as u8) != 0))
            by (bit_vector)
            requires b < 8u8, i < 8u8, i != b;
    }
}

/// Clearing a bit makes it zero and keeps every other bit.
pub proof fn lemma_clear(x: u8, b: u8)
    requires
        b < 8,
    ensures
        !bit(with_bit_clear(x, b), b),
        forall|i: u8| i < 8 && i != b ==> bit(with_bit_clear(x, b), i) == #[trigger] bit(x, i),
{
    assert((x & !((1u8 << b) as u8)) & ((1u8 << b) as u8) == 0) by (bit_vector)
        requires b < 8u8;
    assert forall|i: u8| i < 8 && i != b implies bit(with_bit_clear(x, b), i) == #[trigger] bit(x, i) by {
        assert(((x & !((1u8 << b) as u8)) & ((1u8 << i) as u8) != 0) == (x & ((1u8 << i) as u8) != 0))
            by (bit_vector)
            requires b < 8u8, i < 8u8, i != b;
    }
}

/// Sets bit `b` of `x`.
pub fn set_bit(x: u8, b: u8) -> (r: u8)
    requires
        b < 8,
    ensures
        r == with_bit_set(x, b),
{
    x | (1u8 << b)
}

/// Clears bit `b` of `x`.
pub fn clear_bit(x: u8, b: u8) -> (r: u8)
    requires
        b < 8,
    ensures
        r == with_bit_clear(x, b),
{
    x & !(1u8 << b)
}

/// Inverts bit `b` of `x`.
pub fn toggle_bit(x: u8, b: u8) -> (r: u8)
    requires
        b < 8,
    ensures
        r == with_bit_toggled(x, b),
{
    x ^ (1u8 << b)
}

/// Reads bit `b` of `x`.
pub fn test_bit(x: u8, b: u8) -> (r: bool)
    requires
        b < 8,
    ensures
        r == bit(x, b),
{
    x & (1u8 << b) != 0
}

} // verus!
