//! Argument words: 32 bytes that write a number in base 256, most significant
//! byte first.

use crate::address::H160;
use vstd::arithmetic::div_mod::{
    lemma_div_denominator, lemma_fundamental_div_mod_converse, lemma_mod_breakdown,
    lemma_small_mod,
};
use vstd::prelude::*;

verus! {

/// Size of one argument word in bytes.
pub const ARG_SIZE_BYTES: usize = 32;

/// `256` to the power `len`: the number of values that `len` bytes can write.
pub open spec fn radix(len: nat) -> nat
    decreases len,
{
    if len == 0 {
        1
    } else {
        256 * radix((len - 1) as nat)
    }
}

/// The number that `bytes` write in base 256, most significant byte first.
pub open spec fn be_value(bytes: Seq<u8>) -> nat
    decreases bytes.len(),
{
    if bytes.len() == 0 {
        0
    } else {
        be_value(bytes.drop_last()) * 256 + bytes.last() as nat
    }
}

/// The digit of weight `256^k` when `value` is written in base 256.
pub open spec fn digit(value: nat, k: nat) -> u8 {
    ((value / radix(k)) % 256) as u8
}

/// The `len` least significant base-256 digits of `value`, most significant
/// first.
pub open spec fn be_bytes(value: nat, len: nat) -> Seq<u8> {
    Seq::new(len, |i: int| digit(value, (len - 1 - i) as nat))
}

/// `len` zero bytes.
pub open spec fn zeros(len: nat) -> Seq<u8> {
    Seq::new(len, |i: int| 0u8)
}

/// `bytes` behind as many zero bytes as fill it up to `len`.
pub open spec fn left_padded(bytes: Seq<u8>, len: nat) -> Seq<u8> {
    zeros((len - bytes.len()) as nat) + bytes
}

pub proof fn lemma_radix_positive(len: nat)
    ensures
        radix(len) > 0,
    decreases len,
{
    if len > 0 {
        lemma_radix_positive((len - 1) as nat);
    }
}

/// The radices of the widths that the codec reads and writes.
pub proof fn lemma_radix_values()
    ensures
        radix(1) == 0x100,
        radix(4) == 0x1_0000_0000,
        radix(8) == 0x1_0000_0000_0000_0000,
        radix(16) == 0x1_0000_0000_0000_0000_0000_0000_0000_0000,
{
    reveal_with_fuel(radix, 5);
    assert(radix(4) == 0x1_0000_0000);
    assert(radix(8) == 0x1_0000_0000 * radix(4));
    assert(radix(12) == 0x1_0000_0000 * radix(8));
    assert(radix(16) == 0x1_0000_0000 * radix(12));
}

pub proof fn lemma_radix_adds(a: nat, b: nat)
    ensures
        radix(a + b) == radix(a) * radix(b),
    decreases b,
{
    if b == 0 {
        assert(radix(a) * 1 == radix(a));
    } else {
        lemma_radix_adds(a, (b - 1) as nat);
        assert(radix(a) * (256 * radix((b - 1) as nat)) == 256 * (radix(a) * radix((b - 1) as nat)))
            by (nonlinear_arith);
    }
}

/// `len` bytes write a number below `256^len`.
pub proof fn lemma_be_value_bound(bytes: Seq<u8>)
    ensures
        be_value(bytes) < radix(bytes.len()),
    decreases bytes.len(),
{
    if bytes.len() > 0 {
        lemma_be_value_bound(bytes.drop_last());
    }
}

/// The value of two byte strings written one after the other.
pub proof fn lemma_be_value_concat(high: Seq<u8>, low: Seq<u8>)
    ensures
        be_value(high + low) == be_value(high) * radix(low.len()) + be_value(low),
    decreases low.len(),
{
    if low.len() == 0 {
        assert(high + low =~= high);
        assert(be_value(high) * 1 == be_value(high));
    } else {
        lemma_be_value_concat(high, low.drop_last());
        assert((high + low).drop_last() =~= high + low.drop_last());
        assert((high + low).last() == low.last());
        let h = be_value(high);
        let r = radix((low.len() - 1) as nat);
        let l = be_value(low.drop_last());
        let d = low.last() as nat;
        assert(be_value(high + low) == (h * r + l) * 256 + d);
        assert(be_value(low) == l * 256 + d);
        assert(radix(low.len()) == 256 * r);
        assert((h * r + l) * 256 + d == h * (256 * r) + (l * 256 + d)) by (nonlinear_arith);
    }
}

/// Zero bytes in front do not change the value.
pub proof fn lemma_be_value_zeros(len: nat)
    ensures
        be_value(zeros(len)) == 0,
    decreases len,
{
    if len > 0 {
        assert(zeros(len).drop_last() =~= zeros((len - 1) as nat));
        lemma_be_value_zeros((len - 1) as nat);
    }
}

/// The digits of `value` write `value`, cut to the width.
pub proof fn lemma_be_value_of_be_bytes(value: nat, len: nat)
    ensures
        be_value(be_bytes(value, len)) == value % radix(len),
    decreases len,
{
    lemma_radix_positive(len);
    if len == 0 {
    } else {
        let rest = (len - 1) as nat;
        lemma_radix_positive(rest);
        lemma_be_value_of_be_bytes(value / 256, rest);
        assert(be_bytes(value, len).drop_last() =~= be_bytes(value / 256, rest)) by {
            assert forall|i: int| 0 <= i < rest implies be_bytes(value, len)[i] == be_bytes(
                value / 256,
                rest,
            )[i] by {
                let k = (rest - 1 - i) as nat;
                lemma_radix_positive(k);
                lemma_div_denominator(value as int, 256, radix(k) as int);
            }
        }
        assert(be_bytes(value, len).last() as nat == value % 256) by {
            assert(radix(0) == 1);
            assert(be_bytes(value, len).last() == digit(value, 0));
        }
        lemma_mod_breakdown(value as int, 256, radix(rest) as int);
    }
}

/// A number that fits the width is read back from its digits.
pub proof fn lemma_be_round_trip(value: nat, len: nat)
    requires
        value < radix(len),
    ensures
        be_bytes(value, len).len() == len,
        be_value(be_bytes(value, len)) == value,
{
    lemma_be_value_of_be_bytes(value, len);
    lemma_small_mod(value, radix(len));
}

/// A word writes every number below `2^128`, and so every `u32` and `u128`:
/// the number is read back from its word.
pub proof fn lemma_word_holds(value: nat)
    requires
        value < 0x1_0000_0000_0000_0000_0000_0000_0000_0000nat,
    ensures
        be_bytes(value, ARG_SIZE_BYTES as nat).len() == ARG_SIZE_BYTES,
        be_value(be_bytes(value, ARG_SIZE_BYTES as nat)) == value,
{
    lemma_radix_values();
    lemma_radix_adds(16, 16);
    lemma_radix_positive(16);
    assert(radix(16) <= radix(16) * radix(16)) by (nonlinear_arith)
        requires
            radix(16) > 0,
    ;
    lemma_be_round_trip(value, ARG_SIZE_BYTES as nat);
}

/// The low bytes of a string write its value cut to their width.
pub proof fn lemma_be_value_low(bytes: Seq<u8>, width: nat)
    requires
        width <= bytes.len(),
    ensures
        be_value(bytes.subrange(bytes.len() - width, bytes.len() as int)) == be_value(bytes)
            % radix(width),
{
    let split = bytes.len() - width;
    let high = bytes.subrange(0, split);
    let low = bytes.subrange(split, bytes.len() as int);
    assert(bytes =~= high + low);
    lemma_be_value_concat(high, low);
    lemma_be_value_bound(low);
    lemma_radix_positive(width);
    lemma_fundamental_div_mod_converse(
        be_value(bytes) as int,
        radix(width) as int,
        be_value(high) as int,
        be_value(low) as int,
    );
}

/// A buffer of `len` zero bytes.
fn zero_buffer(len: usize) -> (buffer: Vec<u8>)
    ensures
        buffer@ == zeros(len as nat),
{
    let mut buffer: Vec<u8> = Vec::new();
    let mut filled: usize = 0;
    while filled < len
        invariant
            filled <= len,
            buffer@ == zeros(filled as nat),
        decreases len - filled,
    {
        buffer.push(0u8);
        filled += 1;
        assert(buffer@ =~= zeros(filled as nat));
    }
    buffer
}

/// The word that writes `value`.
fn word_from_u128(value: u128) -> (buffer: Vec<u8>)
    ensures
        buffer@ == be_bytes(value as nat, ARG_SIZE_BYTES as nat),
{
    let mut buffer = zero_buffer(ARG_SIZE_BYTES);
    let mut rest: u128 = value;
    let mut done: usize = 0;
    proof {
        assert(radix(0) == 1);
    }
    while done < ARG_SIZE_BYTES
        invariant
            done <= ARG_SIZE_BYTES,
            buffer@.len() == ARG_SIZE_BYTES,
            rest as nat == (value as nat) / radix(done as nat),
            forall|j: int|
                ARG_SIZE_BYTES - done <= j < ARG_SIZE_BYTES ==> buffer@[j] == digit(
                    value as nat,
                    (ARG_SIZE_BYTES - 1 - j) as nat,
                ),
        decreases ARG_SIZE_BYTES - done,
    {
        proof {
            lemma_radix_positive(done as nat);
            lemma_div_denominator(value as int, radix(done as nat) as int, 256);
            assert(radix((done + 1) as nat) == radix(done as nat) * 256);
        }
        buffer.set(ARG_SIZE_BYTES - 1 - done, (rest % 256) as u8);
        rest = rest / 256;
        done += 1;
    }
    assert(buffer@ =~= be_bytes(value as nat, ARG_SIZE_BYTES as nat));
    buffer
}

/// Stores a `u32` in a word: big endian, behind 28 zero bytes.
pub fn argument_from_u32(value: u32) -> (buffer: Vec<u8>)
    ensures
        buffer@ == be_bytes(value as nat, ARG_SIZE_BYTES as nat),
        buffer@.len() == ARG_SIZE_BYTES,
        be_value(buffer@) == value,
{
    proof {
        lemma_word_holds(value as nat);
    }
    word_from_u128(value as u128)
}

/// Stores a `u128` in a word: big endian, behind 16 zero bytes.
pub fn argument_from_u128(value: u128) -> (buffer: Vec<u8>)
    ensures
        buffer@ == be_bytes(value as nat, ARG_SIZE_BYTES as nat),
        buffer@.len() == ARG_SIZE_BYTES,
        be_value(buffer@) == value,
{
    proof {
        lemma_word_holds(value as nat);
    }
    word_from_u128(value)
}

/// Copies `bytes` to the end of a buffer of one word, behind zero bytes.
pub(crate) fn argument_from_bytes(bytes: &[u8]) -> (buffer: Vec<u8>)
    requires
        bytes@.len() <= ARG_SIZE_BYTES,
    ensures
        buffer@ == left_padded(bytes@, ARG_SIZE_BYTES as nat),
        buffer@.len() == ARG_SIZE_BYTES,
{
    let mut buffer = zero_buffer(ARG_SIZE_BYTES - bytes.len());
    let mut copied: usize = 0;
    while copied < bytes.len()
        invariant
            copied <= bytes@.len() <= ARG_SIZE_BYTES,
            buffer@ == zeros((ARG_SIZE_BYTES - bytes@.len()) as nat) + bytes@.subrange(
                0,
                copied as int,
            ),
        decreases bytes@.len() - copied,
    {
        buffer.push(bytes[copied]);
        copied += 1;
        assert(buffer@ =~= zeros((ARG_SIZE_BYTES - bytes@.len()) as nat) + bytes@.subrange(
            0,
            copied as int,
        ));
    }
    assert(bytes@.subrange(0, copied as int) =~= bytes@);
    buffer
}

/// Stores an address in a word: behind 12 zero bytes.
pub fn argument_from_h160(value: H160) -> (buffer: Vec<u8>)
    ensures
        buffer@ == left_padded(value@, ARG_SIZE_BYTES as nat),
        buffer@.len() == ARG_SIZE_BYTES,
{
    argument_from_bytes(value.as_bytes())
}

/// Stores the 20 bytes of an address in a word: behind 12 zero bytes.
pub fn argument_from_h160_array(value: [u8; 20]) -> (buffer: Vec<u8>)
    ensures
        buffer@ == left_padded(value@, ARG_SIZE_BYTES as nat),
        buffer@.len() == ARG_SIZE_BYTES,
{
    argument_from_bytes(value.as_slice())
}

/// Stores bytes that hold an address at the end of a word, behind zero
/// bytes.
pub fn argument_from_h160_vec(value: Vec<u8>) -> (buffer: Vec<u8>)
    requires
        value@.len() <= ARG_SIZE_BYTES,
    ensures
        buffer@ == left_padded(value@, ARG_SIZE_BYTES as nat),
        buffer@.len() == ARG_SIZE_BYTES,
{
    argument_from_bytes(value.as_slice())
}

} // verus!
