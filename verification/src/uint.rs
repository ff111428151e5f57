//! The 256-bit unsigned integer of `sp_core`, as far as the codec reads it.

use crate::word::{
    be_value, left_padded, lemma_be_value_bound, lemma_be_value_concat, lemma_be_value_low,
    lemma_be_value_zeros, lemma_radix_values, zeros,
};
use sp_core::U256;
use vstd::prelude::*;

verus! {

/// `sp_core::U256`: nothing is known of a value but what the functions
/// below say of its limbs.
#[verifier::external_type_specification]
#[verifier::external_body]
pub struct ExU256(U256);

/// The four 64-bit limbs that a `U256` holds, least significant first.
pub uninterp spec fn u256_limbs(value: U256) -> Seq<u64>;

/// The limbs of the number that at most 32 bytes write, most significant byte
/// first: limb `k` is read from the eight bytes of weight `2^(64k)` of the
/// bytes padded with zeros in front.
pub open spec fn be_limbs(bytes: Seq<u8>) -> Seq<u64> {
    let padded = left_padded(bytes, 32);
    Seq::new(4, |k: int| be_value(padded.subrange(8 * (3 - k), 8 * (4 - k))) as u64)
}

/// `U256::from_big_endian`: panics on more than 32 bytes; else pads the bytes
/// with zeros in front and reads each limb big endian from its eight bytes.
pub assume_specification[ U256::from_big_endian ](slice: &[u8]) -> (value: U256)
    requires
        slice@.len() <= 32,
    ensures
        u256_limbs(value) == be_limbs(slice@),
;

/// `U256::low_u32`: the least significant limb, cut to 32 bits.
pub assume_specification[ U256::low_u32 ](value: &U256) -> (low: u32)
    ensures
        low as nat == (u256_limbs(*value)[0] as nat) % 0x1_0000_0000nat,
;

/// `U256::low_u128`: the two least significant limbs as one number.
pub assume_specification[ U256::low_u128 ](value: &U256) -> (low: u128)
    ensures
        low as nat == (u256_limbs(*value)[1] as nat) * 0x1_0000_0000_0000_0000nat + (u256_limbs(
            *value,
        )[0] as nat),
;

/// What the two low readings of a `U256` are, in terms of the bytes it was
/// read from.
pub proof fn lemma_be_limbs_low(bytes: Seq<u8>)
    requires
        bytes.len() <= 32,
    ensures
        be_limbs(bytes).len() == 4,
        (be_limbs(bytes)[0] as nat) % 0x1_0000_0000nat == be_value(bytes) % 0x1_0000_0000nat,
        (be_limbs(bytes)[1] as nat) * 0x1_0000_0000_0000_0000nat + (be_limbs(bytes)[0] as nat)
            == be_value(bytes) % 0x1_0000_0000_0000_0000_0000_0000_0000_0000nat,
{
    let padded = left_padded(bytes, 32);
    let value = be_value(padded);
    lemma_radix_values();
    assert(value == be_value(bytes)) by {
        lemma_be_value_concat(zeros((32 - bytes.len()) as nat), bytes);
        lemma_be_value_zeros((32 - bytes.len()) as nat);
    }
    let low8 = padded.subrange(24, 32);
    let next8 = padded.subrange(16, 24);
    let low16 = padded.subrange(16, 32);
    lemma_be_value_bound(low8);
    lemma_be_value_bound(next8);
    assert(be_limbs(bytes)[0] == be_value(low8));
    assert(be_limbs(bytes)[1] == be_value(next8));
    assert(be_value(low8) % 0x1_0000_0000nat == value % 0x1_0000_0000nat) by {
        lemma_be_value_low(low8, 4);
        lemma_be_value_low(padded, 4);
        assert(low8.subrange(4, 8) =~= padded.subrange(28, 32));
    }
    assert(be_value(next8) * 0x1_0000_0000_0000_0000nat + be_value(low8) == value
        % 0x1_0000_0000_0000_0000_0000_0000_0000_0000nat) by {
        assert(low16 =~= next8 + low8);
        lemma_be_value_concat(next8, low8);
        lemma_be_value_low(padded, 16);
    }
}

} // verus!
