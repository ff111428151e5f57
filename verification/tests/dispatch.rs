//! The selector table and the reading of arguments.

use precompile_dapps_staking::{
    argument_from_h160, argument_from_u128, argument_from_u32, exit_error, Contract,
    DappsStakingWrapper, Error, EvmInArg, ExitError, Operation, Request, StakingCall, StakingQuery,
    H160,
};
use sha3::{Digest, Keccak256};

const OPERATIONS: [(Operation, &str, usize); 11] = [
    (Operation::CurrentEra, "current_era()", 0),
    (Operation::EraRewardAndStake, "era_reward_and_stake(uint32)", 1),
    (Operation::RegisteredDeveloper, "registered_developer(address)", 1),
    (Operation::RegisteredContract, "registered_contract(address)", 1),
    (Operation::Ledger, "ledger(address)", 1),
    (Operation::ContractEraStake, "contract_era_stake(address,uint32)", 2),
    (Operation::Register, "register(address)", 1),
    (Operation::BondAndStake, "bond_and_stake(address,uint128)", 2),
    (Operation::UnbondAndUnstake, "unbond_and_unstake(address,uint128)", 2),
    (Operation::WithdrawUnbonded, "withdraw_unbonded()", 0),
    (Operation::Claim, "claim(address,uint128)", 2),
];

fn call(signature: &str, words: &[Vec<u8>]) -> Vec<u8> {
    let mut input = Keccak256::digest(signature.as_bytes())[0..4].to_vec();
    for word in words {
        input.extend_from_slice(word);
    }
    input
}

fn contract() -> H160 {
    H160([0x09; 20])
}

#[test]
fn selectors_are_the_hashes_of_the_signatures() {
    for (operation, signature, arity) in OPERATIONS {
        let hash = Keccak256::digest(signature.as_bytes());
        assert_eq!(&operation.selector()[..], &hash[0..4], "{}", signature);
        assert_eq!(operation.arity(), arity, "{}", signature);
        assert_eq!(Operation::from_selector(&operation.selector()), Some(operation));
    }
    assert_eq!(Operation::CurrentEra.selector(), [0xd7, 0xbe, 0x38, 0x96]);
    assert_eq!(Operation::BondAndStake.selector(), [0x52, 0xb7, 0x3e, 0x41]);
}

#[test]
fn queries_and_calls_are_told_apart() {
    for (operation, signature, arity) in OPERATIONS {
        let input = call(signature, &vec![vec![0u8; 32]; arity]);
        let request = DappsStakingWrapper::dispatch(&input).unwrap();
        assert_eq!(matches!(request, Request::Query(_)), operation.is_query(), "{}", signature);
    }
}

#[test]
fn selector_needs_four_bytes() {
    for len in 0..4 {
        let input = vec![0xd7u8; len];
        assert_eq!(EvmInArg::new(&input).selector(), Err(Error::SelectorTooShort));
        assert_eq!(DappsStakingWrapper::dispatch(&input), Err(Error::SelectorTooShort));
    }
    assert_eq!(Error::SelectorTooShort.exit(), exit_error("Selector too short"));
}

#[test]
fn selector_match_is_exact() {
    // One bit off, bytes in another order, and a selector followed by words.
    for selector in [[0xd7, 0xbe, 0x38, 0x97], [0x96, 0x38, 0xbe, 0xd7], [0, 0, 0, 0]] {
        assert_eq!(Operation::from_selector(&selector), None);
        assert_eq!(
            DappsStakingWrapper::dispatch(&selector),
            Err(Error::UnknownSelector(selector))
        );
        let mut longer = selector.to_vec();
        longer.extend_from_slice(&[0u8; 64]);
        assert_eq!(DappsStakingWrapper::dispatch(&longer), Err(Error::UnknownSelector(selector)));
    }
    assert_eq!(
        Error::UnknownSelector([1, 2, 3, 4]).exit(),
        exit_error("No method at given selector")
    );
}

#[test]
fn argument_count_is_checked_for_every_operation() {
    for (_, signature, arity) in OPERATIONS {
        let exact = call(signature, &vec![vec![0u8; 32]; arity]);
        assert!(DappsStakingWrapper::dispatch(&exact).is_ok(), "{}", signature);

        let mut longer = exact.clone();
        longer.push(0);
        assert_eq!(
            DappsStakingWrapper::dispatch(&longer),
            Err(Error::TooManyArguments),
            "{}",
            signature
        );
        let one_more_word = call(signature, &vec![vec![0u8; 32]; arity + 1]);
        assert_eq!(DappsStakingWrapper::dispatch(&one_more_word), Err(Error::TooManyArguments));

        if arity > 0 {
            let shorter = &exact[..exact.len() - 1];
            assert_eq!(
                DappsStakingWrapper::dispatch(shorter),
                Err(Error::TooFewArguments),
                "{}",
                signature
            );
            assert_eq!(DappsStakingWrapper::dispatch(&exact[..4]), Err(Error::TooFewArguments));
        }
    }
    assert_eq!(Error::TooFewArguments.exit(), exit_error("Too few arguments"));
    assert_eq!(Error::TooManyArguments.exit(), exit_error("Too many arguments"));
}

#[test]
fn expecting_arguments_compares_the_length() {
    let input = vec![0u8; 4 + 64];
    let input = EvmInArg::new(&input);
    assert_eq!(input.expecting_arguments(2), Ok(()));
    assert_eq!(input.expecting_arguments(3), Err(Error::TooFewArguments));
    assert_eq!(input.expecting_arguments(1), Err(Error::TooManyArguments));
    assert_eq!(input.expecting_arguments(0), Err(Error::TooManyArguments));
    assert_eq!(input.expecting_arguments(usize::MAX), Err(Error::TooFewArguments));
    let partial = vec![0u8; 4 + 33];
    assert_eq!(EvmInArg::new(&partial).expecting_arguments(1), Err(Error::TooManyArguments));
    assert_eq!(EvmInArg::new(&partial).expecting_arguments(2), Err(Error::TooFewArguments));
    let short = vec![0u8; 2];
    assert_eq!(EvmInArg::new(&short).expecting_arguments(0), Err(Error::TooFewArguments));
}

#[test]
fn queries_carry_their_arguments() {
    assert_eq!(
        DappsStakingWrapper::dispatch(&call("current_era()", &[])),
        Ok(Request::Query(StakingQuery::CurrentEra))
    );
    assert_eq!(
        DappsStakingWrapper::dispatch(&call("era_reward_and_stake(uint32)", &[argument_from_u32(7)])),
        Ok(Request::Query(StakingQuery::EraRewardAndStake { era: 7 }))
    );
    assert_eq!(
        DappsStakingWrapper::dispatch(&call(
            "registered_developer(address)",
            &[argument_from_h160(contract())]
        )),
        Ok(Request::Query(StakingQuery::RegisteredDeveloper {
            contract_id: Contract::Evm(contract())
        }))
    );
    assert_eq!(
        DappsStakingWrapper::dispatch(&call(
            "registered_contract(address)",
            &[argument_from_h160(H160([0xaa; 20]))]
        )),
        Ok(Request::Query(StakingQuery::RegisteredContract { developer: H160([0xaa; 20]) }))
    );
    assert_eq!(
        DappsStakingWrapper::dispatch(&call("ledger(address)", &[argument_from_h160(H160([0xbb; 20]))])),
        Ok(Request::Query(StakingQuery::Ledger { staker: H160([0xbb; 20]) }))
    );
    assert_eq!(
        DappsStakingWrapper::dispatch(&call(
            "contract_era_stake(address,uint32)",
            &[argument_from_h160(contract()), argument_from_u32(3)]
        )),
        Ok(Request::Query(StakingQuery::ContractEraStake {
            contract_id: Contract::Evm(contract()),
            era: 3
        }))
    );
}

#[test]
fn calls_carry_their_arguments() {
    let amount = 100_000_000_000_000_000_000u128;
    assert_eq!(
        DappsStakingWrapper::dispatch(&call("register(address)", &[argument_from_h160(contract())])),
        Ok(Request::Call(StakingCall::Register { contract_id: Contract::Evm(contract()) }))
    );
    assert_eq!(
        DappsStakingWrapper::dispatch(&call(
            "bond_and_stake(address,uint128)",
            &[argument_from_h160(contract()), argument_from_u128(amount)]
        )),
        Ok(Request::Call(StakingCall::BondAndStake {
            contract_id: Contract::Evm(contract()),
            value: amount
        }))
    );
    assert_eq!(
        DappsStakingWrapper::dispatch(&call(
            "unbond_and_unstake(address,uint128)",
            &[argument_from_h160(contract()), argument_from_u128(amount)]
        )),
        Ok(Request::Call(StakingCall::UnbondAndUnstake {
            contract_id: Contract::Evm(contract()),
            value: amount
        }))
    );
    assert_eq!(
        DappsStakingWrapper::dispatch(&call("withdraw_unbonded()", &[])),
        Ok(Request::Call(StakingCall::WithdrawUnbonded))
    );
    assert_eq!(
        DappsStakingWrapper::dispatch(&call(
            "claim(address,uint128)",
            &[argument_from_h160(contract()), argument_from_u128(4)]
        )),
        Ok(Request::Call(StakingCall::Claim { contract_id: Contract::Evm(contract()), era: 4 }))
    );
}

#[test]
fn handlers_check_their_own_arguments() {
    let exact = call("register(address)", &[argument_from_h160(contract())]);
    assert_eq!(
        DappsStakingWrapper::register(EvmInArg::new(&exact)),
        Ok(StakingCall::Register { contract_id: Contract::Evm(contract()) })
    );
    assert_eq!(
        DappsStakingWrapper::register(EvmInArg::new(&exact[..4])),
        Err(Error::TooFewArguments)
    );
    let two = call("bond_and_stake(address,uint128)", &[vec![0u8; 32], vec![0u8; 32]]);
    assert_eq!(DappsStakingWrapper::register(EvmInArg::new(&two)), Err(Error::TooManyArguments));
    assert_eq!(
        DappsStakingWrapper::bond_and_stake(EvmInArg::new(&exact)),
        Err(Error::TooFewArguments)
    );
    assert_eq!(
        DappsStakingWrapper::withdraw_unbonded(EvmInArg::new(&exact)),
        Err(Error::TooManyArguments)
    );
    assert_eq!(
        DappsStakingWrapper::era_reward_and_stake_query(EvmInArg::new(&exact[..4])),
        Err(Error::TooFewArguments)
    );
}

#[test]
fn amount_keeps_its_low_128_bits() {
    // The greatest amount that fits.
    let input = call(
        "bond_and_stake(address,uint128)",
        &[argument_from_h160(contract()), argument_from_u128(u128::MAX)],
    );
    assert_eq!(
        DappsStakingWrapper::dispatch(&input),
        Ok(Request::Call(StakingCall::BondAndStake {
            contract_id: Contract::Evm(contract()),
            value: u128::MAX
        }))
    );
    // One more than that: 2^128, of which the low 128 bits are zero.
    let mut beyond = vec![0u8; 32];
    beyond[15] = 1;
    let input = call("bond_and_stake(address,uint128)", &[argument_from_h160(contract()), beyond]);
    assert_eq!(
        DappsStakingWrapper::dispatch(&input),
        Ok(Request::Call(StakingCall::BondAndStake {
            contract_id: Contract::Evm(contract()),
            value: 0
        }))
    );
}

#[test]
fn era_of_a_claim_saturates() {
    let claim = |era: u128| {
        let input = call(
            "claim(address,uint128)",
            &[argument_from_h160(contract()), argument_from_u128(era)],
        );
        match DappsStakingWrapper::dispatch(&input) {
            Ok(Request::Call(StakingCall::Claim { era, .. })) => era,
            other => panic!("not a claim: {:?}", other),
        }
    };
    assert_eq!(claim(0), 0);
    assert_eq!(claim(u32::MAX as u128 - 1), u32::MAX - 1);
    assert_eq!(claim(u32::MAX as u128), u32::MAX);
    assert_eq!(claim(u32::MAX as u128 + 1), u32::MAX);
    assert_eq!(claim(u128::MAX), u32::MAX);
}

#[test]
fn era_of_a_query_is_cut_to_32_bits() {
    let mut word = argument_from_u32(9);
    word[27] = 1;
    let input = call("era_reward_and_stake(uint32)", &[word]);
    assert_eq!(
        DappsStakingWrapper::dispatch(&input),
        Ok(Request::Query(StakingQuery::EraRewardAndStake { era: 9 }))
    );
}

#[test]
fn every_error_has_its_reason() {
    assert_eq!(Error::SelectorTooShort.reason(), "Selector too short");
    assert_eq!(Error::UnknownSelector([0; 4]).reason(), "No method at given selector");
    assert_eq!(Error::TooFewArguments.reason(), "Too few arguments");
    assert_eq!(Error::TooManyArguments.reason(), "Too many arguments");
    assert_eq!(Error::ExecutionFailed("BadOrigin").reason(), "Method call via EVM failed");
    assert_eq!(Error::ExecutionFailed("BadOrigin").exit(), exit_error("Method call via EVM failed"));
    assert_eq!(
        Error::SmartContractDecode.exit(),
        exit_error("Error while decoding SmartContract")
    );
    assert_eq!(Error::OutOfGas.exit(), ExitError::OutOfGas);
    assert_eq!(exit_error("anything"), ExitError::Other("anything"));
}
