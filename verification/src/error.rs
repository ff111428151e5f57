//! Why a call is refused, and how the refusal is reported to the caller.

use vstd::prelude::*;

verus! {

/// The reasons for which the bridge refuses a call.
#[derive(Clone, Copy, Debug, PartialEq, Eq)]
pub enum Error {
    /// The input is shorter than a selector.
    SelectorTooShort,
    /// No operation has this selector.
    UnknownSelector([u8; 4]),
    /// The input is shorter than the operation's arguments.
    TooFewArguments,
    /// The input is longer than the operation's arguments.
    TooManyArguments,
    /// The ledger does not read the contract from the bytes written for it.
    SmartContractDecode,
    /// The call's estimated gas is above the caller's ceiling.
    OutOfGas,
    /// The staking ledger rejected the call; the text is the ledger's own
    /// reason, kept for diagnostics.
    ExecutionFailed(&'static str),
}

/// A failure as the caller sees it: out of gas, or a short reason.
#[derive(Clone, Copy, Debug, PartialEq, Eq)]
pub enum ExitError {
    OutOfGas,
    Other(&'static str),
}

/// The failure with the given reason.
pub fn exit_error(text: &'static str) -> (error: ExitError)
    ensures
        error == ExitError::Other(text),
{
    ExitError::Other(text)
}

impl Error {
    /// The reason that the caller is given; the ledger's own reason and the
    /// selector that was not found are not in it.
    pub open spec fn spec_reason(self) -> &'static str {
        match self {
            Error::SelectorTooShort => "Selector too short",
            Error::UnknownSelector(_) => "No method at given selector",
            Error::TooFewArguments => "Too few arguments",
            Error::TooManyArguments => "Too many arguments",
            Error::SmartContractDecode => "Error while decoding SmartContract",
            Error::OutOfGas => "Out of gas",
            Error::ExecutionFailed(_) => "Method call via EVM failed",
        }
    }

    /// The failure that the caller sees.
    pub open spec fn spec_exit(self) -> ExitError {
        match self {
            Error::OutOfGas => ExitError::OutOfGas,
            _ => ExitError::Other(self.spec_reason()),
        }
    }

    pub fn reason(&self) -> (text: &'static str)
        ensures
            text == self.spec_reason(),
    {
        match self {
            Error::SelectorTooShort => "Selector too short",
            Error::UnknownSelector(_) => "No method at given selector",
            Error::TooFewArguments => "Too few arguments",
            Error::TooManyArguments => "Too many arguments",
            Error::SmartContractDecode => "Error while decoding SmartContract",
            Error::OutOfGas => "Out of gas",
            Error::ExecutionFailed(_) => "Method call via EVM failed",
        }
    }

    pub fn exit(&self) -> (error: ExitError)
        ensures
            error == self.spec_exit(),
    {
        match self {
            Error::OutOfGas => ExitError::OutOfGas,
            _ => exit_error(self.reason()),
        }
    }
}

} // verus!
