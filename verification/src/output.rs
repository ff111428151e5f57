//! What a call that succeeded hands back.

use crate::address::H160;
use vstd::prelude::*;

verus! {

/// How a call that succeeded ended.
#[derive(Clone, Copy, Debug, PartialEq, Eq)]
pub enum ExitSucceed {
    Stopped,
    Returned,
    Suicided,
}

/// A log entry of the virtual machine.
#[derive(Clone, Debug, PartialEq, Eq)]
pub struct Log {
    pub address: H160,
    pub topics: Vec<[u8; 32]>,
    pub data: Vec<u8>,
}

/// The success envelope: the encoded reply and what the call cost.
#[derive(Clone, Debug, PartialEq, Eq)]
pub struct PrecompileOutput {
    pub exit_status: ExitSucceed,
    pub cost: u64,
    pub output: Vec<u8>,
    pub logs: Vec<Log>,
}

impl PrecompileOutput {
    /// The envelope of a call that returned `output` at the cost of `cost`
    /// gas, without logs.
    pub open spec fn returned(self, output: Seq<u8>, cost: u64) -> bool {
        &&& self.exit_status == ExitSucceed::Returned
        &&& self.cost == cost
        &&& self.output@ == output
        &&& self.logs@.len() == 0
    }
}

} // verus!
