//! Facts about the two bit fields of the board: the occupancy mask of a row
//! and the byte of event flags.

use vstd::prelude::*;

verus! {

/// Whether column `col` is occupied in the row mask `mask`. Column 0 is the
/// highest of the ten bits.
pub(crate) open spec fn mask_bit(mask: u16, col: int) -> bool {
    (mask >> ((9 - col) as u16)) & 1 == 1
}

/// Whether bit `bit` is set in the flag byte `flags`.
pub(crate) open spec fn flag_bit(flags: u8, bit: int) -> bool {
    (flags >> (bit as u8)) & 1 == 1
}

/// Setting the bit of column `col` keeps the mask within ten bits, occupies
/// that column and leaves the others as they were.
pub(crate) proof fn lemma_mask_set(mask: u16, col: u16, other: u16)
    requires
        mask < 1024,
        col < 10,
        other < 10,
    ensures
        (mask | (1u16 << ((9 - col) as u16))) < 1024,
        mask_bit((mask | (1u16 << ((9 - col) as u16))), other as int) == (other == col || mask_bit(
            mask,
            other as int,
        )),
{
    let s: u16 = (9 - col) as u16;
    let t: u16 = (9 - other) as u16;
    assert((mask | (1u16 << s)) < 1024) by (bit_vector)
        requires
            mask < 1024,
            s < 10,
    ;
    assert((((mask | (1u16 << s)) >> t) & 1 == 1) == (s == t || (mask >> t) & 1 == 1))
        by (bit_vector)
        requires
            s < 10,
            t < 10,
    ;
}

/// Clearing the bit of column `col` keeps the mask within ten bits, empties
/// that column and leaves the others as they were.
pub(crate) proof fn lemma_mask_clear(mask: u16, col: u16, other: u16)
    requires
        mask < 1024,
        col < 10,
        other < 10,
    ensures
        (mask & !(1u16 << ((9 - col) as u16))) < 1024,
        mask_bit((mask & !(1u16 << ((9 - col) as u16))), other as int) == (other != col
            && mask_bit(mask, other as int)),
{
    let s: u16 = (9 - col) as u16;
    let t: u16 = (9 - other) as u16;
    assert((mask & !(1u16 << s)) < 1024) by (bit_vector)
        requires
            mask < 1024,
            s < 10,
    ;
    assert((((mask & !(1u16 << s)) >> t) & 1 == 1) == (s != t && (mask >> t) & 1 == 1))
        by (bit_vector)
        requires
            s < 10,
            t < 10,
    ;
}

/// A mask is zero exactly when none of its ten columns is occupied.
pub(crate) proof fn lemma_mask_zero(mask: u16)
    requires
        mask < 1024,
    ensures
        mask == 0 <==> forall|col: int| 0 <= col < 10 ==> !#[trigger] mask_bit(mask, col),
{
    if mask == 0 {
        assert forall|col: int| 0 <= col < 10 implies !#[trigger] mask_bit(mask, col) by {
            let t: u16 = (9 - col) as u16;
            assert((0u16 >> t) & 1 == 0) by (bit_vector);
        }
    } else {
        assert((mask >> 0) & 1 == 1 || (mask >> 1) & 1 == 1 || (mask >> 2) & 1 == 1 || (mask >> 3)
            & 1 == 1 || (mask >> 4) & 1 == 1 || (mask >> 5) & 1 == 1 || (mask >> 6) & 1 == 1 || (
        mask >> 7) & 1 == 1 || (mask >> 8) & 1 == 1 || (mask >> 9) & 1 == 1) by (bit_vector)
            requires
                mask < 1024,
                mask != 0,
        ;
        assert(mask_bit(mask, 9) || mask_bit(mask, 8) || mask_bit(mask, 7) || mask_bit(mask, 6)
            || mask_bit(mask, 5) || mask_bit(mask, 4) || mask_bit(mask, 3) || mask_bit(mask, 2)
            || mask_bit(mask, 1) || mask_bit(mask, 0));
    }
}

/// The ten low bits of a mask are all set exactly when all of its ten
/// columns are occupied.
pub(crate) proof fn lemma_mask_full(mask: u16)
    ensures
        mask & 0x3ff == 0x3ff <==> forall|col: int|
            0 <= col < 10 ==> #[trigger] mask_bit(mask, col),
{
    if mask & 0x3ff == 0x3ff {
        assert forall|col: int| 0 <= col < 10 implies #[trigger] mask_bit(mask, col) by {
            let t: u16 = (9 - col) as u16;
            assert((mask >> t) & 1 == 1) by (bit_vector)
                requires
                    mask & 0x3ff == 0x3ff,
                    t < 10,
            ;
        }
    } else {
        assert(!((mask >> 0) & 1 == 1 && (mask >> 1) & 1 == 1 && (mask >> 2) & 1 == 1 && (mask
            >> 3) & 1 == 1 && (mask >> 4) & 1 == 1 && (mask >> 5) & 1 == 1 && (mask >> 6) & 1 == 1
            && (mask >> 7) & 1 == 1 && (mask >> 8) & 1 == 1 && (mask >> 9) & 1 == 1))
            by (bit_vector)
            requires
                mask & 0x3ff != 0x3ff,
        ;
        assert(!(mask_bit(mask, 9) && mask_bit(mask, 8) && mask_bit(mask, 7) && mask_bit(mask, 6)
            && mask_bit(mask, 5) && mask_bit(mask, 4) && mask_bit(mask, 3) && mask_bit(mask, 2)
            && mask_bit(mask, 1) && mask_bit(mask, 0)));
    }
}

/// Setting one flag leaves the others as they were.
pub(crate) proof fn lemma_flag_set(flags: u8, bit: u8, other: u8)
    requires
        bit < 8,
        other < 8,
    ensures
        flag_bit(flags | (1u8 << bit), other as int) == (other == bit || flag_bit(
            flags,
            other as int,
        )),
{
    assert((((flags | (1u8 << bit)) >> other) & 1 == 1) == (other == bit || (flags >> other) & 1
        == 1)) by (bit_vector)
        requires
            bit < 8,
            other < 8,
    ;
}

/// No flag is set in the zero byte.
pub(crate) proof fn lemma_flag_zero(bit: u8)
    requires
        bit < 8,
    ensures
        !flag_bit(0, bit as int),
{
    assert((0u8 >> bit) & 1 == 0) by (bit_vector);
}

} // verus!
