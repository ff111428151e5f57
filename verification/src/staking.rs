//! What the bridge asks of the staking ledger, and what the ledger answers.

use crate::address::H160;
use crate::contract::Contract;
use vstd::prelude::*;

verus! {

/// An amount of the ledger's currency.
pub type Balance = u128;

/// The number of an era.
pub type EraIndex = u32;

/// Computational cost as the ledger counts it.
pub type Weight = u64;

/// A read of the ledger's state.
#[derive(Clone, Copy, Debug, PartialEq, Eq)]
pub enum StakingQuery {
    /// The current era.
    CurrentEra,
    /// The reward and the stake of an era.
    EraRewardAndStake { era: EraIndex },
    /// The developer who registered a contract.
    RegisteredDeveloper { contract_id: Contract },
    /// The contract that a developer registered.
    RegisteredContract { developer: H160 },
    /// What a staker has locked.
    Ledger { staker: H160 },
    /// The stake on a contract in an era, staker by staker.
    ContractEraStake { contract_id: Contract, era: EraIndex },
}

/// An operation that changes the ledger's state.
#[derive(Clone, Copy, Debug, PartialEq, Eq)]
pub enum StakingCall {
    Register { contract_id: Contract },
    BondAndStake { contract_id: Contract, value: Balance },
    UnbondAndUnstake { contract_id: Contract, value: Balance },
    WithdrawUnbonded,
    Claim { contract_id: Contract, era: EraIndex },
}

/// What a call input asks for.
#[derive(Clone, Copy, Debug, PartialEq, Eq)]
pub enum Request {
    /// Read the ledger and reply at once.
    Query(StakingQuery),
    /// Hand the call to the ledger for execution.
    Call(StakingCall),
}

/// The totals of an era.
#[derive(Clone, Copy, Debug, PartialEq, Eq)]
pub struct EraRewardAndStake {
    pub rewards: Balance,
    pub staked: Balance,
}

/// One staker of a contract: the account in the ledger's encoding, and the
/// amount staked.
#[derive(Clone, Debug, PartialEq, Eq)]
pub struct Staker {
    pub account: Vec<u8>,
    pub amount: Balance,
}

/// The stake on a contract in an era. The ledger holds the stakers as a map
/// from account to amount. Here they are a sequence in the order in which
/// the ledger walks its map, and are written in that order; as in the map,
/// no account stands twice (`wf`).
#[derive(Clone, Debug, PartialEq, Eq)]
pub struct EraStakingPoints {
    pub total: Balance,
    pub stakers: Vec<Staker>,
    pub claimed_rewards: Balance,
}

/// The accounts of the stakers, in the order of the stakers.
pub open spec fn staker_accounts(stakers: Seq<Staker>) -> Seq<Seq<u8>> {
    Seq::new(stakers.len(), |i: int| stakers[i].account@)
}

impl EraStakingPoints {
    /// No account stands twice among the stakers.
    pub open spec fn wf(self) -> bool {
        staker_accounts(self.stakers@).no_duplicates()
    }
}

/// What the ledger declares of a call before it runs.
#[derive(Clone, Copy, Debug, PartialEq, Eq)]
pub struct DispatchInfo {
    pub weight: Weight,
}

/// What the ledger reports of a call that ran.
#[derive(Clone, Copy, Debug, PartialEq, Eq)]
pub struct PostDispatchInfo {
    /// The weight that the call consumed, where the ledger measured it.
    pub actual_weight: Option<Weight>,
}

} // verus!
