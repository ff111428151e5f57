//! From the call input to the request that it makes of the ledger.

use crate::address::{array_from_seq, H160};
use crate::contract::{Contract, EVM_CONTRACT_SIZE_BYTES};
use crate::error::Error;
use crate::input::{
    address_at, spec_expecting_arguments, u128_at, u32_at, EvmInArg, SELECTOR_SIZE_BYTES,
};
use crate::operation::Operation;
use crate::saturate::{saturated_into_u32, spec_saturated_u32};
use crate::staking::{Request, StakingCall, StakingQuery};
use vstd::prelude::*;
use vstd::slice::slice_subrange;

verus! {

/// The bridge between the call convention of the virtual machine and the
/// staking ledger.
pub struct DappsStakingWrapper;

/// What `operation` asks of the ledger, read from an input that holds its
/// arguments.
pub open spec fn spec_request(operation: Operation, input: Seq<u8>) -> Request {
    match operation {
        Operation::CurrentEra => Request::Query(StakingQuery::CurrentEra),
        Operation::EraRewardAndStake => Request::Query(
            StakingQuery::EraRewardAndStake { era: u32_at(input, 1) },
        ),
        Operation::RegisteredDeveloper => Request::Query(
            StakingQuery::RegisteredDeveloper { contract_id: Contract::Evm(address_at(input, 1)) },
        ),
        Operation::RegisteredContract => Request::Query(
            StakingQuery::RegisteredContract { developer: address_at(input, 1) },
        ),
        Operation::Ledger => Request::Query(StakingQuery::Ledger { staker: address_at(input, 1) }),
        Operation::ContractEraStake => Request::Query(
            StakingQuery::ContractEraStake {
                contract_id: Contract::Evm(address_at(input, 1)),
                era: u32_at(input, 2),
            },
        ),
        Operation::Register => Request::Call(
            StakingCall::Register { contract_id: Contract::Evm(address_at(input, 1)) },
        ),
        Operation::BondAndStake => Request::Call(
            StakingCall::BondAndStake {
                contract_id: Contract::Evm(address_at(input, 1)),
                value: u128_at(input, 2),
            },
        ),
        Operation::UnbondAndUnstake => Request::Call(
            StakingCall::UnbondAndUnstake {
                contract_id: Contract::Evm(address_at(input, 1)),
                value: u128_at(input, 2),
            },
        ),
        Operation::WithdrawUnbonded => Request::Call(StakingCall::WithdrawUnbonded),
        Operation::Claim => Request::Call(
            StakingCall::Claim {
                contract_id: Contract::Evm(address_at(input, 1)),
                era: spec_saturated_u32(u128_at(input, 2)),
            },
        ),
    }
}

/// What an input of `operation` comes to: the request, where the input holds
/// exactly the operation's arguments, and the fault where it does not.
pub open spec fn spec_handle(operation: Operation, input: Seq<u8>) -> Result<Request, Error> {
    match spec_expecting_arguments(input, operation.spec_arity()) {
        Err(error) => Err(error),
        Ok(()) => Ok(spec_request(operation, input)),
    }
}

/// What a call input comes to: its selector is read, looked up in the table
/// of operations, and the input is then held against the operation's number
/// of arguments before any of them is read.
pub open spec fn spec_dispatch(input: Seq<u8>) -> Result<Request, Error> {
    if input.len() < SELECTOR_SIZE_BYTES {
        Err(Error::SelectorTooShort)
    } else {
        let selector = input.subrange(0, SELECTOR_SIZE_BYTES as int);
        match Operation::spec_from_selector(selector) {
            None => Err(Error::UnknownSelector(array_from_seq::<4>(selector))),
            Some(operation) => spec_handle(operation, input),
        }
    }
}

/// A handler's query, or its fault, as the request that it makes.
pub open spec fn query_request(query: Result<StakingQuery, Error>) -> Result<Request, Error> {
    match query {
        Err(error) => Err(error),
        Ok(query) => Ok(Request::Query(query)),
    }
}

/// A handler's call, or its fault, as the request that it makes.
pub open spec fn call_request(call: Result<StakingCall, Error>) -> Result<Request, Error> {
    match call {
        Err(error) => Err(error),
        Ok(call) => Ok(Request::Call(call)),
    }
}

impl DappsStakingWrapper {
    /// The contract at an address of the virtual machine, as the ledger
    /// identifies it. The contract is written in the ledger's layout and
    /// read back from the 21 bytes of the tag and the address; that never
    /// fails.
    pub fn decode_smart_contract(contract_h160: H160) -> (smart_contract: Result<Contract, Error>)
        ensures
            smart_contract == Ok::<Contract, Error>(Contract::Evm(contract_h160)),
    {
        let contract_enum_encoded = Contract::Evm(contract_h160).encode();
        proof {
            Contract::Evm(contract_h160).lemma_decode_encode(Seq::empty());
            assert(contract_enum_encoded@.subrange(0, 21) =~= contract_enum_encoded@
                + Seq::<u8>::empty());
        }
        match Contract::decode(
            slice_subrange(contract_enum_encoded.as_slice(), 0, EVM_CONTRACT_SIZE_BYTES),
        ) {
            Some(smart_contract) => Ok(smart_contract),
            None => Err(Error::SmartContractDecode),
        }
    }

    /// The era of a query for the totals of an era: the low 32 bits of its
    /// word.
    pub fn era_reward_and_stake_query(input: EvmInArg) -> (query: Result<StakingQuery, Error>)
        ensures
            query_request(query) == spec_handle(Operation::EraRewardAndStake, input@),
    {
        match input.expecting_arguments(1) {
            Err(error) => Err(error),
            Ok(()) => {
                let era = input.to_u32(1);
                Ok(StakingQuery::EraRewardAndStake { era })
            },
        }
    }

    /// The contract of a query for its developer.
    pub fn registered_developer_query(input: EvmInArg) -> (query: Result<StakingQuery, Error>)
        ensures
            query_request(query) == spec_handle(Operation::RegisteredDeveloper, input@),
    {
        match input.expecting_arguments(1) {
            Err(error) => Err(error),
            Ok(()) => {
                let contract_h160 = input.to_h160(1);
                let contract_id = match Self::decode_smart_contract(contract_h160) {
                    Err(error) => {
                        return Err(error);
                    },
                    Ok(contract_id) => contract_id,
                };
                Ok(StakingQuery::RegisteredDeveloper { contract_id })
            },
        }
    }

    /// The developer of a query for the contract that they registered.
    pub fn registered_contract_query(input: EvmInArg) -> (query: Result<StakingQuery, Error>)
        ensures
            query_request(query) == spec_handle(Operation::RegisteredContract, input@),
    {
        match input.expecting_arguments(1) {
            Err(error) => Err(error),
            Ok(()) => {
                let developer = input.to_h160(1);
                Ok(StakingQuery::RegisteredContract { developer })
            },
        }
    }

    /// The staker of a query for what they have locked.
    pub fn ledger_query(input: EvmInArg) -> (query: Result<StakingQuery, Error>)
        ensures
            query_request(query) == spec_handle(Operation::Ledger, input@),
    {
        match input.expecting_arguments(1) {
            Err(error) => Err(error),
            Ok(()) => {
                let staker = input.to_h160(1);
                Ok(StakingQuery::Ledger { staker })
            },
        }
    }

    /// The contract and the era of a query for the stake on a contract.
    pub fn contract_era_stake_query(input: EvmInArg) -> (query: Result<StakingQuery, Error>)
        ensures
            query_request(query) == spec_handle(Operation::ContractEraStake, input@),
    {
        match input.expecting_arguments(2) {
            Err(error) => Err(error),
            Ok(()) => {
                let contract_h160 = input.to_h160(1);
                let contract_id = match Self::decode_smart_contract(contract_h160) {
                    Err(error) => {
                        return Err(error);
                    },
                    Ok(contract_id) => contract_id,
                };
                let era = input.to_u32(2);
                Ok(StakingQuery::ContractEraStake { contract_id, era })
            },
        }
    }

    /// Register a contract with the ledger.
    pub fn register(input: EvmInArg) -> (call: Result<StakingCall, Error>)
        ensures
            call_request(call) == spec_handle(Operation::Register, input@),
    {
        match input.expecting_arguments(1) {
            Err(error) => Err(error),
            Ok(()) => {
                let contract_h160 = input.to_h160(1);
                let contract_id = match Self::decode_smart_contract(contract_h160) {
                    Err(error) => {
                        return Err(error);
                    },
                    Ok(contract_id) => contract_id,
                };
                Ok(StakingCall::Register { contract_id })
            },
        }
    }

    /// Lock up and stake balance of the caller. Of an amount that does not
    /// fit 128 bits the low 128 bits are taken.
    pub fn bond_and_stake(input: EvmInArg) -> (call: Result<StakingCall, Error>)
        ensures
            call_request(call) == spec_handle(Operation::BondAndStake, input@),
    {
        match input.expecting_arguments(2) {
            Err(error) => Err(error),
            Ok(()) => {
                let contract_h160 = input.to_h160(1);
                let contract_id = match Self::decode_smart_contract(contract_h160) {
                    Err(error) => {
                        return Err(error);
                    },
                    Ok(contract_id) => contract_id,
                };
                let value = input.to_u128(2);
                Ok(StakingCall::BondAndStake { contract_id, value })
            },
        }
    }

    /// Unstake balance of the caller and start to unbond it. Of an amount
    /// that does not fit 128 bits the low 128 bits are taken.
    pub fn unbond_and_unstake(input: EvmInArg) -> (call: Result<StakingCall, Error>)
        ensures
            call_request(call) == spec_handle(Operation::UnbondAndUnstake, input@),
    {
        match input.expecting_arguments(2) {
            Err(error) => Err(error),
            Ok(()) => {
                let contract_h160 = input.to_h160(1);
                let contract_id = match Self::decode_smart_contract(contract_h160) {
                    Err(error) => {
                        return Err(error);
                    },
                    Ok(contract_id) => contract_id,
                };
                let value = input.to_u128(2);
                Ok(StakingCall::UnbondAndUnstake { contract_id, value })
            },
        }
    }

    /// Withdraw what has finished unbonding.
    pub fn withdraw_unbonded(input: EvmInArg) -> (call: Result<StakingCall, Error>)
        ensures
            call_request(call) == spec_handle(Operation::WithdrawUnbonded, input@),
    {
        match input.expecting_arguments(0) {
            Err(error) => Err(error),
            Ok(()) => Ok(StakingCall::WithdrawUnbonded),
        }
    }

    /// Claim the rewards of an era. An era that does not fit 32 bits is
    /// taken as the greatest era.
    pub fn claim(input: EvmInArg) -> (call: Result<StakingCall, Error>)
        ensures
            call_request(call) == spec_handle(Operation::Claim, input@),
    {
        match input.expecting_arguments(2) {
            Err(error) => Err(error),
            Ok(()) => {
                let contract_h160 = input.to_h160(1);
                let contract_id = match Self::decode_smart_contract(contract_h160) {
                    Err(error) => {
                        return Err(error);
                    },
                    Ok(contract_id) => contract_id,
                };
                let era = saturated_into_u32(input.to_u128(2));
                Ok(StakingCall::Claim { contract_id, era })
            },
        }
    }

    /// Reads the selector of `input`, finds its operation and reads the
    /// operation's arguments. Nothing is asked of the ledger here.
    pub fn dispatch(input: &[u8]) -> (request: Result<Request, Error>)
        ensures
            request == spec_dispatch(input@),
    {
        let selector = match EvmInArg::new(input).selector() {
            Err(error) => {
                return Err(error);
            },
            Ok(selector) => selector,
        };
        let input = EvmInArg::new(input);
        match Operation::from_selector(&selector) {
            None => Err(Error::UnknownSelector(selector)),
            Some(Operation::CurrentEra) => match input.expecting_arguments(0) {
                Err(error) => Err(error),
                Ok(()) => Ok(Request::Query(StakingQuery::CurrentEra)),
            },
            Some(Operation::EraRewardAndStake) => Self::query(
                Self::era_reward_and_stake_query(input),
            ),
            Some(Operation::RegisteredDeveloper) => Self::query(
                Self::registered_developer_query(input),
            ),
            Some(Operation::RegisteredContract) => Self::query(
                Self::registered_contract_query(input),
            ),
            Some(Operation::Ledger) => Self::query(Self::ledger_query(input)),
            Some(Operation::ContractEraStake) => Self::query(
                Self::contract_era_stake_query(input),
            ),
            Some(Operation::Register) => Self::call(Self::register(input)),
            Some(Operation::BondAndStake) => Self::call(Self::bond_and_stake(input)),
            Some(Operation::UnbondAndUnstake) => Self::call(Self::unbond_and_unstake(input)),
            Some(Operation::WithdrawUnbonded) => Self::call(Self::withdraw_unbonded(input)),
            Some(Operation::Claim) => Self::call(Self::claim(input)),
        }
    }

    fn query(query: Result<StakingQuery, Error>) -> (request: Result<Request, Error>)
        ensures
            request == query_request(query),
    {
        match query {
            Err(error) => Err(error),
            Ok(query) => Ok(Request::Query(query)),
        }
    }

    fn call(call: Result<StakingCall, Error>) -> (request: Result<Request, Error>)
        ensures
            request == call_request(call),
    {
        match call {
            Err(error) => Err(error),
            Ok(call) => Ok(Request::Call(call)),
        }
    }
}

} // verus!
