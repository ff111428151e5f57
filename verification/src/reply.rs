//! From what the ledger answers to the words that the caller reads.

use crate::contract::Contract;
use crate::output::{ExitSucceed, Log, PrecompileOutput};
use crate::staking::{Balance, EraIndex, EraRewardAndStake, EraStakingPoints, Staker};
use crate::word::{
    argument_from_bytes, argument_from_h160_vec, argument_from_u128, argument_from_u32, be_bytes,
    left_padded, zeros, ARG_SIZE_BYTES,
};
use crate::wrapper::DappsStakingWrapper;
use vstd::prelude::*;

verus! {

/// How often a query reads storage: its cost is the weight of that one read.
pub const QUERY_READS: u64 = 1;

/// Where the array of stakers starts in the reply to a query for the stake
/// on a contract: behind the three words that precede it.
pub const STAKERS_OFFSET: u32 = 0x60;

/// The word that writes `value`.
pub open spec fn word(value: nat) -> Seq<u8> {
    be_bytes(value, ARG_SIZE_BYTES as nat)
}

/// The word that ends in `bytes`.
pub open spec fn padded_word(bytes: Seq<u8>) -> Seq<u8> {
    left_padded(bytes, ARG_SIZE_BYTES as nat)
}

/// The amount that the ledger's number stands for: the number where it fits
/// 128 bits, and zero where it does not.
pub open spec fn spec_amount_or_zero(amount: Option<u128>) -> u128 {
    match amount {
        Some(amount) => amount,
        None => 0,
    }
}

/// The totals of an era for which the ledger holds none.
pub open spec fn spec_totals(reward_and_stake: Option<EraRewardAndStake>) -> EraRewardAndStake {
    match reward_and_stake {
        Some(totals) => totals,
        None => (EraRewardAndStake { rewards: 0, staked: 0 }),
    }
}

/// The stakers one after the other, each as the word of the account and the
/// word of the amount.
pub open spec fn stakers_words(stakers: Seq<Staker>) -> Seq<u8>
    decreases stakers.len(),
{
    if stakers.len() == 0 {
        Seq::empty()
    } else {
        stakers_words(stakers.drop_last()) + padded_word(stakers.last().account@) + word(
            stakers.last().amount as nat,
        )
    }
}

/// The reply to a query for the stake on a contract: the total, the claimed
/// rewards, the offset of the array, the number of words in the array (two
/// for each staker), and the array.
pub open spec fn contract_era_stake_words(staking_info: EraStakingPoints) -> Seq<u8> {
    word(staking_info.total as nat) + word(staking_info.claimed_rewards as nat) + word(
        STAKERS_OFFSET as nat,
    ) + word(2 * staking_info.stakers@.len()) + stakers_words(staking_info.stakers@)
}

/// Whether each staker's account fits a word.
pub open spec fn stakers_fit(stakers: Seq<Staker>) -> bool {
    forall|i: int|
        0 <= i < stakers.len() ==> (#[trigger] stakers[i]).account@.len() <= ARG_SIZE_BYTES
}

impl DappsStakingWrapper {
    /// The success envelope of a reply.
    fn returned(output: Vec<u8>, gas_used: u64) -> (reply: PrecompileOutput)
        ensures
            reply.returned(output@, gas_used),
    {
        let logs: Vec<Log> = Vec::new();
        PrecompileOutput { exit_status: ExitSucceed::Returned, cost: gas_used, output, logs }
    }

    /// The amount behind a conversion of the ledger's number to 128 bits
    /// that may have failed: zero where it did.
    pub fn amount_or_zero(amount: Option<u128>) -> (value: Balance)
        ensures
            value == spec_amount_or_zero(amount),
    {
        match amount {
            Some(amount) => amount,
            None => 0,
        }
    }

    /// Stores an account, in the ledger's encoding, at the end of a word.
    pub fn argument_from_account_id(account: &[u8]) -> (buffer: Vec<u8>)
        requires
            account@.len() <= ARG_SIZE_BYTES,
        ensures
            buffer@ == padded_word(account@),
            buffer@.len() == ARG_SIZE_BYTES,
    {
        argument_from_bytes(account)
    }

    /// Replies with the current era.
    pub fn current_era(current_era: EraIndex, gas_used: u64) -> (reply: PrecompileOutput)
        ensures
            reply.returned(word(current_era as nat), gas_used),
    {
        let output = argument_from_u32(current_era);
        Self::returned(output, gas_used)
    }

    /// Replies with the reward and the stake of an era: zero and zero where
    /// the ledger holds nothing for the era.
    pub fn era_reward_and_stake(
        reward_and_stake: Option<EraRewardAndStake>,
        gas_used: u64,
    ) -> (reply: PrecompileOutput)
        ensures
            reply.returned(
                word(spec_totals(reward_and_stake).rewards as nat) + word(
                    spec_totals(reward_and_stake).staked as nat,
                ),
                gas_used,
            ),
    {
        let (reward, staked) = match reward_and_stake {
            Some(r) => (r.rewards, r.staked),
            None => (0, 0),
        };
        let mut output = argument_from_u128(reward);
        let mut staked_vec = argument_from_u128(staked);
        output.append(&mut staked_vec);
        Self::returned(output, gas_used)
    }

    /// Replies with the developer of a contract, in the ledger's encoding;
    /// with a word of zeros where the contract has none.
    pub fn registered_developer(developer: Option<&[u8]>, gas_used: u64) -> (reply:
        PrecompileOutput)
        requires
            developer matches Some(account) ==> account@.len() <= ARG_SIZE_BYTES,
        ensures
            reply.returned(
                match developer {
                    Some(account) => padded_word(account@),
                    None => zeros(ARG_SIZE_BYTES as nat),
                },
                gas_used,
            ),
    {
        let output = match developer {
            Some(account) => Self::argument_from_account_id(account),
            None => {
                let empty: Vec<u8> = Vec::new();
                let output = argument_from_bytes(empty.as_slice());
                assert(output@ =~= zeros(ARG_SIZE_BYTES as nat));
                output
            },
        };
        Self::returned(output, gas_used)
    }

    /// Replies with the contract of a developer, in the ledger's encoding
    /// at the end of a word; with the contract at the zero address where the
    /// developer has none.
    pub fn registered_contract(smart_contract: Option<&[u8]>, gas_used: u64) -> (reply:
        PrecompileOutput)
        requires
            smart_contract matches Some(encoded) ==> encoded@.len() <= ARG_SIZE_BYTES,
        ensures
            reply.returned(
                match smart_contract {
                    Some(encoded) => padded_word(encoded@),
                    None => padded_word(Contract::spec_default().spec_encode()),
                },
                gas_used,
            ),
    {
        let output = match smart_contract {
            Some(encoded) => argument_from_bytes(encoded),
            None => argument_from_h160_vec(Contract::default().encode()),
        };
        Self::returned(output, gas_used)
    }

    /// Replies with what a staker has locked.
    pub fn ledger(locked: Balance, gas_used: u64) -> (reply: PrecompileOutput)
        ensures
            reply.returned(word(locked as nat), gas_used),
    {
        let output = argument_from_u128(locked);
        Self::returned(output, gas_used)
    }

    /// Replies with the stake on a contract in an era, staker by staker in
    /// the order given.
    pub fn contract_era_stake(staking_info: &EraStakingPoints, gas_used: u64) -> (reply:
        PrecompileOutput)
        requires
            stakers_fit(staking_info.stakers@),
        ensures
            reply.returned(contract_era_stake_words(*staking_info), gas_used),
    {
        let mut output = argument_from_u128(staking_info.total);
        let mut claimed_rewards_vec = argument_from_u128(staking_info.claimed_rewards);
        output.append(&mut claimed_rewards_vec);

        // The array is written as [staker1, amount1, staker2, amount2, ..]:
        // it has twice as many words as there are stakers.
        let mut offset = argument_from_u32(STAKERS_OFFSET);
        output.append(&mut offset);
        let count = staking_info.stakers.len();
        let mut num_elements = argument_from_u128(2 * (count as u128));
        output.append(&mut num_elements);

        let ghost header = output@;
        let mut written: usize = 0;
        assert(staking_info.stakers@.subrange(0, 0) =~= Seq::<Staker>::empty());
        while written < count
            invariant
                written <= count,
                count == staking_info.stakers@.len(),
                stakers_fit(staking_info.stakers@),
                output@ == header + stakers_words(
                    staking_info.stakers@.subrange(0, written as int),
                ),
            decreases count - written,
        {
            let staker = &staking_info.stakers[written];
            let mut address = Self::argument_from_account_id(staker.account.as_slice());
            let mut amount = argument_from_u128(staker.amount);
            output.append(&mut address);
            output.append(&mut amount);
            proof {
                let before = staking_info.stakers@.subrange(0, written as int);
                let after = staking_info.stakers@.subrange(0, written + 1);
                assert(after.drop_last() =~= before);
                assert(after.last() == staking_info.stakers@[written as int]);
                assert(output@ =~= header + stakers_words(after));
            }
            written += 1;
        }
        assert(staking_info.stakers@.subrange(0, count as int) =~= staking_info.stakers@);
        Self::returned(output, gas_used)
    }
}

} // verus!
