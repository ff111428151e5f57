//! The table of operations: the selector and the number of arguments of each.

use vstd::prelude::*;

verus! {

/// The operations that the bridge knows, in the order in which their
/// selectors are tried.
#[derive(Clone, Copy, Debug, PartialEq, Eq)]
pub enum Operation {
    /// `current_era()`
    CurrentEra,
    /// `era_reward_and_stake(uint32)`
    EraRewardAndStake,
    /// `registered_developer(address)`
    RegisteredDeveloper,
    /// `registered_contract(address)`
    RegisteredContract,
    /// `ledger(address)`
    Ledger,
    /// `contract_era_stake(address,uint32)`
    ContractEraStake,
    /// `register(address)`
    Register,
    /// `bond_and_stake(address,uint128)`
    BondAndStake,
    /// `unbond_and_unstake(address,uint128)`
    UnbondAndUnstake,
    /// `withdraw_unbonded()`
    WithdrawUnbonded,
    /// `claim(address,uint128)`
    Claim,
}

/// Whether `selector` is the four bytes given.
fn selector_is(selector: &[u8; 4], b0: u8, b1: u8, b2: u8, b3: u8) -> (same: bool)
    ensures
        same == (selector@ == seq![b0, b1, b2, b3]),
{
    let same = selector[0] == b0 && selector[1] == b1 && selector[2] == b2 && selector[3] == b3;
    proof {
        let bytes = seq![b0, b1, b2, b3];
        if same {
            assert(selector@ =~= bytes);
        } else {
            assert(selector@[0] != bytes[0] || selector@[1] != bytes[1] || selector@[2] != bytes[2]
                || selector@[3] != bytes[3]);
        }
    }
    same
}

impl Operation {
    /// The selector of the operation: the first four bytes of the Keccak-256
    /// hash of its signature.
    pub open spec fn spec_selector(self) -> Seq<u8> {
        match self {
            Operation::CurrentEra => seq![0xd7u8, 0xbeu8, 0x38u8, 0x96u8],
            Operation::EraRewardAndStake => seq![0xb9u8, 0xb7u8, 0x0eu8, 0x8eu8],
            Operation::RegisteredDeveloper => seq![0xb4u8, 0xfeu8, 0xcdu8, 0x4fu8],
            Operation::RegisteredContract => seq![0x19u8, 0x2fu8, 0xb2u8, 0x56u8],
            Operation::Ledger => seq![0xfbu8, 0xfau8, 0x94u8, 0x1fu8],
            Operation::ContractEraStake => seq![0x3bu8, 0x41u8, 0xe1u8, 0xf4u8],
            Operation::Register => seq![0x44u8, 0x20u8, 0xe4u8, 0x86u8],
            Operation::BondAndStake => seq![0x52u8, 0xb7u8, 0x3eu8, 0x41u8],
            Operation::UnbondAndUnstake => seq![0xc7u8, 0x84u8, 0x1du8, 0xd2u8],
            Operation::WithdrawUnbonded => seq![0x77u8, 0xa0u8, 0xfeu8, 0x02u8],
            Operation::Claim => seq![0xc1u8, 0x3fu8, 0x4au8, 0xf7u8],
        }
    }

    /// The number of argument words that the operation takes.
    pub open spec fn spec_arity(self) -> nat {
        match self {
            Operation::CurrentEra => 0,
            Operation::EraRewardAndStake => 1,
            Operation::RegisteredDeveloper => 1,
            Operation::RegisteredContract => 1,
            Operation::Ledger => 1,
            Operation::ContractEraStake => 2,
            Operation::Register => 1,
            Operation::BondAndStake => 2,
            Operation::UnbondAndUnstake => 2,
            Operation::WithdrawUnbonded => 0,
            Operation::Claim => 2,
        }
    }

    /// Whether the operation only reads the ledger.
    pub open spec fn spec_is_query(self) -> bool {
        match self {
            Operation::CurrentEra => true,
            Operation::EraRewardAndStake => true,
            Operation::RegisteredDeveloper => true,
            Operation::RegisteredContract => true,
            Operation::Ledger => true,
            Operation::ContractEraStake => true,
            _ => false,
        }
    }

    /// The operation whose selector is exactly `selector`, if there is one.
    pub open spec fn spec_from_selector(selector: Seq<u8>) -> Option<Operation> {
        if exists|operation: Operation| operation.spec_selector() == selector {
            Some(choose|operation: Operation| operation.spec_selector() == selector)
        } else {
            None
        }
    }

    /// No two operations share a selector, so a selector names at most one
    /// operation.
    pub proof fn lemma_selectors_differ(self, other: Operation)
        requires
            self.spec_selector() == other.spec_selector(),
        ensures
            self == other,
    {
        let a = self.spec_selector();
        let b = other.spec_selector();
        assert(a[0] == b[0] && a[1] == b[1]);
    }

    /// Looking up an operation's own selector finds the operation.
    pub proof fn lemma_from_own_selector(self)
        ensures
            Operation::spec_from_selector(self.spec_selector()) == Some(self),
    {
        let found = choose|operation: Operation| operation.spec_selector() == self.spec_selector();
        found.lemma_selectors_differ(self);
    }

    pub fn selector(&self) -> (selector: [u8; 4])
        ensures
            selector@ == self.spec_selector(),
    {
        let selector: [u8; 4] = match self {
            Operation::CurrentEra => [0xd7, 0xbe, 0x38, 0x96],
            Operation::EraRewardAndStake => [0xb9, 0xb7, 0x0e, 0x8e],
            Operation::RegisteredDeveloper => [0xb4, 0xfe, 0xcd, 0x4f],
            Operation::RegisteredContract => [0x19, 0x2f, 0xb2, 0x56],
            Operation::Ledger => [0xfb, 0xfa, 0x94, 0x1f],
            Operation::ContractEraStake => [0x3b, 0x41, 0xe1, 0xf4],
            Operation::Register => [0x44, 0x20, 0xe4, 0x86],
            Operation::BondAndStake => [0x52, 0xb7, 0x3e, 0x41],
            Operation::UnbondAndUnstake => [0xc7, 0x84, 0x1d, 0xd2],
            Operation::WithdrawUnbonded => [0x77, 0xa0, 0xfe, 0x02],
            Operation::Claim => [0xc1, 0x3f, 0x4a, 0xf7],
        };
        assert(selector@ =~= self.spec_selector());
        selector
    }

    pub fn arity(&self) -> (arity: usize)
        ensures
            arity == self.spec_arity(),
    {
        match self {
            Operation::CurrentEra | Operation::WithdrawUnbonded => 0,
            Operation::EraRewardAndStake
            | Operation::RegisteredDeveloper
            | Operation::RegisteredContract
            | Operation::Ledger
            | Operation::Register => 1,
            Operation::ContractEraStake
            | Operation::BondAndStake
            | Operation::UnbondAndUnstake
            | Operation::Claim => 2,
        }
    }

    pub fn is_query(&self) -> (query: bool)
        ensures
            query == self.spec_is_query(),
    {
        match self {
            Operation::CurrentEra
            | Operation::EraRewardAndStake
            | Operation::RegisteredDeveloper
            | Operation::RegisteredContract
            | Operation::Ledger
            | Operation::ContractEraStake => true,
            _ => false,
        }
    }

    /// Looks the selector up: byte for byte, with no other match.
    pub fn from_selector(selector: &[u8; 4]) -> (found: Option<Operation>)
        ensures
            found == Operation::spec_from_selector(selector@),
            found matches Some(operation) ==> operation.spec_selector() == selector@,
            found is None ==> forall|operation: Operation|
                operation.spec_selector() != selector@,
    {
        let found = if selector_is(selector, 0xd7, 0xbe, 0x38, 0x96) {
            Some(Operation::CurrentEra)
        } else if selector_is(selector, 0xb9, 0xb7, 0x0e, 0x8e) {
            Some(Operation::EraRewardAndStake)
        } else if selector_is(selector, 0xb4, 0xfe, 0xcd, 0x4f) {
            Some(Operation::RegisteredDeveloper)
        } else if selector_is(selector, 0x19, 0x2f, 0xb2, 0x56) {
            Some(Operation::RegisteredContract)
        } else if selector_is(selector, 0xfb, 0xfa, 0x94, 0x1f) {
            Some(Operation::Ledger)
        } else if selector_is(selector, 0x3b, 0x41, 0xe1, 0xf4) {
            Some(Operation::ContractEraStake)
        } else if selector_is(selector, 0x44, 0x20, 0xe4, 0x86) {
            Some(Operation::Register)
        } else if selector_is(selector, 0x52, 0xb7, 0x3e, 0x41) {
            Some(Operation::BondAndStake)
        } else if selector_is(selector, 0xc7, 0x84, 0x1d, 0xd2) {
            Some(Operation::UnbondAndUnstake)
        } else if selector_is(selector, 0x77, 0xa0, 0xfe, 0x02) {
            Some(Operation::WithdrawUnbonded)
        } else if selector_is(selector, 0xc1, 0x3f, 0x4a, 0xf7) {
            Some(Operation::Claim)
        } else {
            None
        };
        proof {
            match found {
                Some(operation) => {
                    assert(operation.spec_selector() == selector@);
                    operation.lemma_from_own_selector();
                },
                None => {
                    assert forall|operation: Operation|
                        operation.spec_selector() != selector@ by {
                        match operation {
                            Operation::CurrentEra => {},
                            Operation::EraRewardAndStake => {},
                            Operation::RegisteredDeveloper => {},
                            Operation::RegisteredContract => {},
                            Operation::Ledger => {},
                            Operation::ContractEraStake => {},
                            Operation::Register => {},
                            Operation::BondAndStake => {},
                            Operation::UnbondAndUnstake => {},
                            Operation::WithdrawUnbonded => {},
                            Operation::Claim => {},
                        }
                    }
                },
            }
        }
        found
    }
}

} // verus!
