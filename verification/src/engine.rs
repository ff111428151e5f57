//! The execution of a call: the gas ceiling before the ledger runs it, and
//! the cost after.
//!
//! The ledger is not reached from here. The host asks the ledger for the
//! call's weight and its gas, then asks `authorize`; it hands the call to
//! the ledger only where `authorize` returned a `Dispatch`, then asks
//! `settle` for the weight to charge, converts it to gas and asks `executed`
//! for the reply.

use crate::address::H160;
use crate::error::Error;
use crate::output::{ExitSucceed, Log, PrecompileOutput};
use crate::staking::{DispatchInfo, PostDispatchInfo, StakingCall, Weight};
use crate::wrapper::DappsStakingWrapper;
use vstd::prelude::*;

verus! {

/// A call that the ledger is to run, and the account that it runs for.
#[derive(Clone, Copy, Debug, PartialEq, Eq)]
pub struct Dispatch {
    pub call: StakingCall,
    /// The caller's address; the host maps it to the ledger's account.
    pub origin: H160,
    /// What the ledger declared of the call before it ran.
    pub info: DispatchInfo,
}

/// Whether the gas that a call is estimated to need is above the ceiling
/// that the caller set, if they set one.
pub open spec fn exceeds_ceiling(required_gas: u64, target_gas: Option<u64>) -> bool {
    target_gas matches Some(gas_limit) && required_gas > gas_limit
}

/// The weight to charge for a call that ran: the weight that it consumed
/// where the ledger measured it, the declared weight where it did not.
pub open spec fn consumed_weight(info: DispatchInfo, post_info: PostDispatchInfo) -> Weight {
    match post_info.actual_weight {
        Some(actual_weight) => actual_weight,
        None => info.weight,
    }
}

impl DappsStakingWrapper {
    /// Decides whether the ledger is to run `call`. Above the ceiling the
    /// answer is `OutOfGas` and there is no `Dispatch`: the ledger is not
    /// asked to run anything.
    pub fn authorize(
        call: StakingCall,
        info: DispatchInfo,
        required_gas: u64,
        target_gas: Option<u64>,
        caller: H160,
    ) -> (dispatch: Result<Dispatch, Error>)
        ensures
            dispatch == if exceeds_ceiling(required_gas, target_gas) {
                Err(Error::OutOfGas)
            } else {
                Ok((Dispatch { call, origin: caller, info }))
            },
    {
        if let Some(gas_limit) = target_gas {
            if required_gas > gas_limit {
                return Err(Error::OutOfGas);
            }
        }
        Ok(Dispatch { call, origin: caller, info })
    }

    /// Maps what the ledger reported of the call to the weight to charge,
    /// or to the failure.
    pub fn settle(info: DispatchInfo, outcome: Result<PostDispatchInfo, &'static str>) -> (weight:
        Result<Weight, Error>)
        ensures
            weight == match outcome {
                Err(reason) => Err(Error::ExecutionFailed(reason)),
                Ok(post_info) => Ok(consumed_weight(info, post_info)),
            },
    {
        match outcome {
            Err(reason) => Err(Error::ExecutionFailed(reason)),
            Ok(post_info) => match post_info.actual_weight {
                Some(actual_weight) => Ok(actual_weight),
                None => Ok(info.weight),
            },
        }
    }

    /// The reply to a call that the ledger ran: no output, and the cost.
    pub fn executed(gas_used: u64) -> (reply: PrecompileOutput)
        ensures
            reply.returned(Seq::empty(), gas_used),
    {
        let output: Vec<u8> = Vec::new();
        let logs: Vec<Log> = Vec::new();
        PrecompileOutput { exit_status: ExitSucceed::Returned, cost: gas_used, output, logs }
    }
}

} // verus!
