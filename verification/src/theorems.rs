//! What holds of the bridge for every input.

use crate::address::{lemma_array_from_seq, H160};
use crate::contract::Contract;
use crate::error::Error;
use crate::input::{address_at, u128_at, u32_at, word_at, SELECTOR_SIZE_BYTES};
use crate::operation::Operation;
use crate::reply::{contract_era_stake_words, padded_word, stakers_fit, stakers_words, word};
use crate::staking::{staker_accounts, EraStakingPoints, Request, Staker};
use crate::word::{lemma_word_holds, zeros, ARG_SIZE_BYTES};
use crate::wrapper::{spec_dispatch, spec_request};
use vstd::arithmetic::div_mod::lemma_small_mod;
use vstd::prelude::*;

verus! {

/// A `u32` that is written to an argument word is read back from it.
pub proof fn lemma_u32_round_trip(input: Seq<u8>, arg_num: nat, value: u32)
    requires
        word_at(input, arg_num) == word(value as nat),
    ensures
        u32_at(input, arg_num) == value,
{
    lemma_word_holds(value as nat);
    lemma_small_mod(value as nat, 0x1_0000_0000nat);
}

/// A `u128` that is written to an argument word is read back from it.
pub proof fn lemma_u128_round_trip(input: Seq<u8>, arg_num: nat, value: u128)
    requires
        word_at(input, arg_num) == word(value as nat),
    ensures
        u128_at(input, arg_num) == value,
{
    lemma_word_holds(value as nat);
    lemma_small_mod(value as nat, 0x1_0000_0000_0000_0000_0000_0000_0000_0000nat);
}

/// An address that is written to an argument word is read back from it.
pub proof fn lemma_h160_round_trip(input: Seq<u8>, arg_num: nat, address: H160)
    requires
        word_at(input, arg_num) == padded_word(address@),
    ensures
        address_at(input, arg_num) == address,
{
    address.lemma_from_view();
    assert(padded_word(address@).subrange(12, 32) =~= address@);
}

/// The high 12 bytes of an address word are not looked at.
pub proof fn lemma_h160_ignores_padding(input: Seq<u8>, arg_num: nat, address: H160)
    requires
        word_at(input, arg_num).len() == ARG_SIZE_BYTES,
        word_at(input, arg_num).subrange(12, 32) == address@,
    ensures
        address_at(input, arg_num) == address,
{
    address.lemma_from_view();
}

/// An input that is shorter than a selector is refused as such, whatever it
/// holds.
pub proof fn lemma_short_input_is_refused(input: Seq<u8>)
    requires
        input.len() < SELECTOR_SIZE_BYTES,
    ensures
        spec_dispatch(input) == Err::<Request, Error>(Error::SelectorTooShort),
{
}

/// An input whose first four bytes are no operation's selector is refused
/// with those four bytes, whatever follows them.
pub proof fn lemma_unknown_selector_is_refused(input: Seq<u8>)
    requires
        input.len() >= SELECTOR_SIZE_BYTES,
        forall|operation: Operation| operation.spec_selector() != input.subrange(0, 4),
    ensures
        spec_dispatch(input) matches Err(Error::UnknownSelector(selector)) && selector@
            == input.subrange(0, 4),
{
    let selector: [u8; 4] = [input[0], input[1], input[2], input[3]];
    assert(selector@ =~= input.subrange(0, 4));
    lemma_array_from_seq::<4>(selector);
}

/// An input that starts with the selector of an operation is held against
/// the operation's number of arguments: it is refused where it is shorter
/// or longer than the selector and that many words, and gives the
/// operation's request where it is not.
pub proof fn lemma_arity_is_checked(operation: Operation, input: Seq<u8>)
    requires
        input.len() >= SELECTOR_SIZE_BYTES,
        input.subrange(0, 4) == operation.spec_selector(),
    ensures
        input.len() < 4 + 32 * operation.spec_arity() ==> spec_dispatch(input) == Err::<
            Request,
            Error,
        >(Error::TooFewArguments),
        input.len() > 4 + 32 * operation.spec_arity() ==> spec_dispatch(input) == Err::<
            Request,
            Error,
        >(Error::TooManyArguments),
        input.len() == 4 + 32 * operation.spec_arity() ==> spec_dispatch(input) == Ok::<
            Request,
            Error,
        >(spec_request(operation, input)),
{
    operation.lemma_from_own_selector();
}

/// An EVM contract is written as the word of its address: the tag is zero,
/// so it is one more byte of padding.
pub proof fn lemma_evm_contract_word(address: H160)
    ensures
        Contract::Evm(address).spec_encode().len() == 21,
        padded_word(Contract::Evm(address).spec_encode()) == padded_word(address@),
{
    address.lemma_from_view();
    assert(padded_word(Contract::Evm(address).spec_encode()) =~= padded_word(address@));
}

/// The contract of a developer who has none is written as a word of zeros.
pub proof fn lemma_default_contract_word()
    ensures
        padded_word(Contract::spec_default().spec_encode()) == zeros(ARG_SIZE_BYTES as nat),
{
    H160::lemma_zero();
    assert(padded_word(Contract::spec_default().spec_encode()) =~= zeros(ARG_SIZE_BYTES as nat));
}

/// The stakers take two words each.
pub proof fn lemma_stakers_words_len(stakers: Seq<Staker>)
    requires
        stakers_fit(stakers),
    ensures
        stakers_words(stakers).len() == 64 * stakers.len(),
    decreases stakers.len(),
{
    if stakers.len() > 0 {
        assert(stakers_fit(stakers.drop_last()));
        lemma_stakers_words_len(stakers.drop_last());
        assert(stakers[stakers.len() - 1].account@.len() <= ARG_SIZE_BYTES);
        assert(padded_word(stakers.last().account@).len() == 32);
        assert(word(stakers.last().amount as nat).len() == 32);
    }
}

/// Each staker is written at its place in the array: the word of the
/// account, then the word of the amount.
pub proof fn lemma_stakers_words_at(stakers: Seq<Staker>, i: int)
    requires
        stakers_fit(stakers),
        0 <= i < stakers.len(),
    ensures
        stakers_words(stakers).len() == 64 * stakers.len(),
        stakers_words(stakers).subrange(64 * i, 64 * i + 32) == padded_word(stakers[i].account@),
        stakers_words(stakers).subrange(64 * i + 32, 64 * i + 64) == word(
            stakers[i].amount as nat,
        ),
    decreases stakers.len(),
{
    let front = stakers.drop_last();
    assert(stakers_fit(front));
    lemma_stakers_words_len(stakers);
    lemma_stakers_words_len(front);
    let words = stakers_words(stakers);
    let account = padded_word(stakers.last().account@);
    let amount = word(stakers.last().amount as nat);
    assert(words == stakers_words(front) + account + amount);
    if i == stakers.len() - 1 {
        assert(words.subrange(64 * i, 64 * i + 32) =~= account);
        assert(words.subrange(64 * i + 32, 64 * i + 64) =~= amount);
    } else {
        lemma_stakers_words_at(front, i);
        assert(words.subrange(64 * i, 64 * i + 32) =~= stakers_words(front).subrange(
            64 * i,
            64 * i + 32,
        ));
        assert(words.subrange(64 * i + 32, 64 * i + 64) =~= stakers_words(front).subrange(
            64 * i + 32,
            64 * i + 64,
        ));
    }
}

/// The reply to a query for the stake on a contract holds, behind the total
/// and the claimed rewards, the offset of the array, twice the number of
/// stakers, and then each staker with its amount at its place.
pub proof fn lemma_stake_reply_holds_each_staker(staking_info: EraStakingPoints, i: int)
    requires
        stakers_fit(staking_info.stakers@),
        0 <= i < staking_info.stakers@.len(),
    ensures
        contract_era_stake_words(staking_info).len() == 32 * (4 + 2 * staking_info.stakers@.len()),
        contract_era_stake_words(staking_info).subrange(0, 32) == word(staking_info.total as nat),
        contract_era_stake_words(staking_info).subrange(64, 96) == word(0x60),
        contract_era_stake_words(staking_info).subrange(96, 128) == word(
            2 * staking_info.stakers@.len(),
        ),
        contract_era_stake_words(staking_info).subrange(128 + 64 * i, 128 + 64 * i + 32)
            == padded_word(staking_info.stakers@[i].account@),
        contract_era_stake_words(staking_info).subrange(128 + 64 * i + 32, 128 + 64 * i + 64)
            == word(staking_info.stakers@[i].amount as nat),
{
    let stakers = staking_info.stakers@;
    let words = contract_era_stake_words(staking_info);
    let array = stakers_words(stakers);
    lemma_stakers_words_at(stakers, i);
    assert(words.subrange(0, 32) =~= word(staking_info.total as nat));
    assert(words.subrange(64, 96) =~= word(0x60));
    assert(words.subrange(96, 128) =~= word(2 * stakers.len()));
    assert(words.subrange(128 + 64 * i, 128 + 64 * i + 32) =~= array.subrange(64 * i, 64 * i + 32));
    assert(words.subrange(128 + 64 * i + 32, 128 + 64 * i + 64) =~= array.subrange(
        64 * i + 32,
        64 * i + 64,
    ));
}

/// Where no account stands twice among the stakers, as in the ledger's map,
/// the array-length word of the reply is twice the number of accounts that
/// stake, and the array holds one pair of words for each of them.
pub proof fn lemma_stake_reply_counts_stakers(staking_info: EraStakingPoints)
    requires
        staking_info.wf(),
        stakers_fit(staking_info.stakers@),
    ensures
        staker_accounts(staking_info.stakers@).to_set().len() == staking_info.stakers@.len(),
        contract_era_stake_words(staking_info).subrange(96, 128) == word(
            2 * staker_accounts(staking_info.stakers@).to_set().len(),
        ),
        stakers_words(staking_info.stakers@).len() == 64 * staker_accounts(
            staking_info.stakers@,
        ).to_set().len(),
{
    staker_accounts(staking_info.stakers@).unique_seq_to_set();
    lemma_stakers_words_len(staking_info.stakers@);
    assert(contract_era_stake_words(staking_info).subrange(96, 128) =~= word(
        2 * staking_info.stakers@.len(),
    ));
}

} // verus!
