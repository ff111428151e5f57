//! Bridge between ABI-encoded contract calls and the dApps staking ledger.
//!
//! A call arrives as a four-byte selector followed by 32-byte argument
//! words. `DappsStakingWrapper::dispatch` finds the operation and reads its
//! arguments. A query is answered by the host from the ledger and written
//! back as words by the reply functions; a call goes through the gas ceiling
//! of `DappsStakingWrapper::authorize` before the host hands it to the
//! ledger, and through `DappsStakingWrapper::settle` after.

pub mod address;
pub mod contract;
pub mod engine;
pub mod error;
pub mod input;
pub mod migrations;
pub mod operation;
pub mod output;
pub mod reply;
pub mod saturate;
pub mod staking;
pub mod theorems;
pub mod uint;
pub mod word;
pub mod wrapper;

pub use address::H160;
pub use contract::Contract;
pub use engine::Dispatch;
pub use error::{exit_error, Error, ExitError};
pub use input::{EvmInArg, OFFSET_H160, SELECTOR_SIZE_BYTES};
pub use operation::Operation;
pub use output::{ExitSucceed, Log, PrecompileOutput};
pub use staking::{
    Balance, DispatchInfo, EraIndex, EraRewardAndStake, EraStakingPoints, PostDispatchInfo, Request,
    Staker, StakingCall, StakingQuery, Weight,
};
pub use word::{
    argument_from_h160, argument_from_h160_array, argument_from_h160_vec, argument_from_u128,
    argument_from_u32, ARG_SIZE_BYTES,
};
pub use wrapper::DappsStakingWrapper;
