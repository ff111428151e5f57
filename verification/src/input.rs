//! The call input: a selector followed by argument words.

use crate::address::{array_from_seq, lemma_array_from_seq, H160, H160_SIZE_BYTES};
use crate::error::Error;
use crate::uint::{be_limbs, lemma_be_limbs_low, u256_limbs};
use crate::word::{be_value, ARG_SIZE_BYTES};
use sp_core::U256;
use vstd::prelude::*;
use vstd::slice::slice_subrange;

verus! {

/// Size of the selector in bytes.
pub const SELECTOR_SIZE_BYTES: usize = 4;

/// Where the address starts in its word: the 12 bytes before it carry no
/// meaning and are not looked at.
pub const OFFSET_H160: usize = 12;

/// The selector of `input`, owed when the input holds at least four bytes.
pub open spec fn spec_selector(input: Seq<u8>) -> Result<[u8; 4], Error> {
    if input.len() < SELECTOR_SIZE_BYTES {
        Err(Error::SelectorTooShort)
    } else {
        Ok(array_from_seq::<4>(input.subrange(0, SELECTOR_SIZE_BYTES as int)))
    }
}

/// Whether `input` holds a selector and exactly `num` argument words, and
/// the fault if not.
pub open spec fn spec_expecting_arguments(input: Seq<u8>, num: nat) -> Result<(), Error> {
    if input.len() < SELECTOR_SIZE_BYTES + ARG_SIZE_BYTES * num {
        Err(Error::TooFewArguments)
    } else if input.len() > SELECTOR_SIZE_BYTES + ARG_SIZE_BYTES * num {
        Err(Error::TooManyArguments)
    } else {
        Ok(())
    }
}

/// Whether `input` reaches to the end of its argument `arg_num`, counted
/// from 1.
pub open spec fn has_argument(input: Seq<u8>, arg_num: nat) -> bool {
    1 <= arg_num && SELECTOR_SIZE_BYTES + ARG_SIZE_BYTES * arg_num <= input.len()
}

/// The word of argument `arg_num`, counted from 1.
pub open spec fn word_at(input: Seq<u8>, arg_num: nat) -> Seq<u8> {
    input.subrange(
        SELECTOR_SIZE_BYTES + ARG_SIZE_BYTES * (arg_num - 1),
        SELECTOR_SIZE_BYTES + ARG_SIZE_BYTES * arg_num,
    )
}

/// The address in argument `arg_num`: the low 20 bytes of its word.
pub open spec fn address_at(input: Seq<u8>, arg_num: nat) -> H160 {
    H160::spec_from_slice(
        word_at(input, arg_num).subrange(OFFSET_H160 as int, ARG_SIZE_BYTES as int),
    )
}

/// The number in argument `arg_num`, cut to its low 32 bits.
pub open spec fn u32_at(input: Seq<u8>, arg_num: nat) -> u32 {
    (be_value(word_at(input, arg_num)) % 0x1_0000_0000nat) as u32
}

/// The number in argument `arg_num`, cut to its low 128 bits.
pub open spec fn u128_at(input: Seq<u8>, arg_num: nat) -> u128 {
    (be_value(word_at(input, arg_num)) % 0x1_0000_0000_0000_0000_0000_0000_0000_0000nat) as u128
}

/// Holds the input of a call and reads its parts.
pub struct EvmInArg<'a> {
    pub input: &'a [u8],
}

impl<'a> View for EvmInArg<'a> {
    type V = Seq<u8>;

    open spec fn view(&self) -> Seq<u8> {
        self.input@
    }
}

impl<'a> EvmInArg<'a> {
    pub fn new(input: &'a [u8]) -> (arg: Self)
        ensures
            arg@ == input@,
    {
        EvmInArg { input }
    }

    pub fn len(&self) -> (len: usize)
        ensures
            len == self@.len(),
    {
        self.input.len()
    }

    /// The first four bytes of the input.
    pub fn selector(&self) -> (selector: Result<[u8; 4], Error>)
        ensures
            selector == spec_selector(self@),
            selector matches Ok(bytes) ==> bytes@ == self@.subrange(0, 4),
    {
        if self.input.len() < SELECTOR_SIZE_BYTES {
            Err(Error::SelectorTooShort)
        } else {
            let selector: [u8; 4] = [self.input[0], self.input[1], self.input[2], self.input[3]];
            proof {
                assert(selector@ =~= self@.subrange(0, 4));
                lemma_array_from_seq::<4>(selector);
            }
            Ok(selector)
        }
    }

    /// Checks that the input holds exactly `num` arguments.
    pub fn expecting_arguments(&self, num: usize) -> (checked: Result<(), Error>)
        ensures
            checked == spec_expecting_arguments(self@, num as nat),
    {
        let len = self.input.len();
        if len < SELECTOR_SIZE_BYTES {
            return Err(Error::TooFewArguments);
        }
        let words = (len - SELECTOR_SIZE_BYTES) / ARG_SIZE_BYTES;
        if words < num {
            Err(Error::TooFewArguments)
        } else if len - SELECTOR_SIZE_BYTES > ARG_SIZE_BYTES * num {
            Err(Error::TooManyArguments)
        } else {
            Ok(())
        }
    }

    /// The word of argument `arg_num`, counted from 1.
    fn word(&self, arg_num: usize) -> (word: &[u8])
        requires
            has_argument(self@, arg_num as nat),
        ensures
            word@ == word_at(self@, arg_num as nat),
            word@.len() == ARG_SIZE_BYTES,
    {
        let len = self.input.len();
        assert(SELECTOR_SIZE_BYTES + 32 * arg_num <= len);
        let end = SELECTOR_SIZE_BYTES + ARG_SIZE_BYTES * arg_num;
        slice_subrange(self.input, end - ARG_SIZE_BYTES, end)
    }

    /// The address in argument `arg_num`, counted from 1.
    pub fn to_h160(&self, arg_num: usize) -> (address: H160)
        requires
            has_argument(self@, arg_num as nat),
        ensures
            address == address_at(self@, arg_num as nat),
            address@ == word_at(self@, arg_num as nat).subrange(12, 32),
    {
        let word = self.word(arg_num);
        H160::from_slice(slice_subrange(word, OFFSET_H160, OFFSET_H160 + H160_SIZE_BYTES))
    }

    /// The number in argument `arg_num`, counted from 1.
    pub fn to_u256(&self, arg_num: usize) -> (number: U256)
        requires
            has_argument(self@, arg_num as nat),
        ensures
            u256_limbs(number) == be_limbs(word_at(self@, arg_num as nat)),
    {
        U256::from_big_endian(self.word(arg_num))
    }

    /// The number in argument `arg_num`, cut to its low 32 bits.
    pub fn to_u32(&self, arg_num: usize) -> (number: u32)
        requires
            has_argument(self@, arg_num as nat),
        ensures
            number == u32_at(self@, arg_num as nat),
    {
        proof {
            lemma_be_limbs_low(word_at(self@, arg_num as nat));
        }
        self.to_u256(arg_num).low_u32()
    }

    /// The number in argument `arg_num`, cut to its low 128 bits.
    pub fn to_u128(&self, arg_num: usize) -> (number: u128)
        requires
            has_argument(self@, arg_num as nat),
        ensures
            number == u128_at(self@, arg_num as nat),
    {
        proof {
            lemma_be_limbs_low(word_at(self@, arg_num as nat));
        }
        self.to_u256(arg_num).low_u128()
    }
}

} // verus!
