//! The identifier of a stakeable target, in the byte layout of the ledger.
//!
//! The ledger stores a smart contract as a tagged union and writes it as one
//! tag byte followed by the payload. The bridge cannot name the ledger's own
//! type, so it keeps a type of the same shape and writes the same bytes. The
//! tags and the order of the variants below are part of the layout: if the
//! ledger's type changes, this one has to change with it.

use crate::address::{array_from_seq, lemma_array_from_seq, H160, H160_SIZE_BYTES};
use vstd::prelude::*;
use vstd::slice::slice_subrange;

verus! {

/// The tag byte of an EVM contract.
pub const TAG_EVM: u8 = 0;

/// The tag byte of a Wasm contract.
pub const TAG_WASM: u8 = 1;

/// Number of bytes that write an EVM contract: the tag and the address.
pub const EVM_CONTRACT_SIZE_BYTES: usize = 21;

/// Number of bytes that write a Wasm contract: the tag and the account.
pub const WASM_CONTRACT_SIZE_BYTES: usize = 33;

/// A smart contract that can be staked on.
#[derive(Clone, Copy, Debug, PartialEq, Eq)]
pub enum Contract {
    /// An EVM contract, by its address.
    Evm(H160),
    /// A Wasm contract, by the 32-byte account of the ledger. The bridge
    /// never makes one.
    Wasm([u8; 32]),
}

impl Contract {
    /// The bytes that write the contract: its tag, then its payload.
    pub open spec fn spec_encode(self) -> Seq<u8> {
        match self {
            Contract::Evm(address) => seq![TAG_EVM] + address@,
            Contract::Wasm(account) => seq![TAG_WASM] + account@,
        }
    }

    /// The contract that the ledger holds for a developer who has none: the
    /// EVM contract at the zero address.
    pub open spec fn spec_default() -> Contract {
        Contract::Evm(H160::spec_zero())
    }

    /// The contract that `bytes` start with: the tag says which variant, and
    /// the payload is read from the bytes behind it. Bytes behind the
    /// payload are not looked at. There is none where the tag is unknown or
    /// the payload is cut short.
    pub open spec fn spec_decode(bytes: Seq<u8>) -> Option<Contract> {
        if bytes.len() >= EVM_CONTRACT_SIZE_BYTES && bytes[0] == TAG_EVM {
            Some(Contract::Evm(H160::spec_from_slice(bytes.subrange(1, 21))))
        } else if bytes.len() >= WASM_CONTRACT_SIZE_BYTES && bytes[0] == TAG_WASM {
            Some(Contract::Wasm(array_from_seq::<32>(bytes.subrange(1, 33))))
        } else {
            None
        }
    }

    /// A contract is read back from the bytes that write it, whatever
    /// follows them: reading an EVM contract takes the tag and the 20 bytes
    /// of the address, and no more.
    pub proof fn lemma_decode_encode(self, rest: Seq<u8>)
        ensures
            Contract::spec_decode(self.spec_encode() + rest) == Some(self),
    {
        let bytes = self.spec_encode() + rest;
        match self {
            Contract::Evm(address) => {
                assert(bytes[0] == TAG_EVM);
                assert(bytes.subrange(1, 21) =~= address@);
                address.lemma_from_view();
            },
            Contract::Wasm(account) => {
                assert(bytes[0] == TAG_WASM);
                assert(bytes.subrange(1, 33) =~= account@);
                lemma_array_from_seq::<32>(account);
            },
        }
    }

    /// Reads a contract from the front of bytes in the ledger's layout.
    pub fn decode(bytes: &[u8]) -> (contract: Option<Contract>)
        ensures
            contract == Contract::spec_decode(bytes@),
    {
        if bytes.len() >= EVM_CONTRACT_SIZE_BYTES && bytes[0] == TAG_EVM {
            let address = H160::from_slice(slice_subrange(bytes, 1, 1 + H160_SIZE_BYTES));
            Some(Contract::Evm(address))
        } else if bytes.len() >= WASM_CONTRACT_SIZE_BYTES && bytes[0] == TAG_WASM {
            let mut account = [0u8; 32];
            let mut copied: usize = 0;
            while copied < 32
                invariant
                    copied <= 32,
                    bytes@.len() >= WASM_CONTRACT_SIZE_BYTES,
                    forall|j: int| 0 <= j < copied ==> account@[j] == bytes@[1 + j],
                decreases 32 - copied,
            {
                account[copied] = bytes[1 + copied];
                copied += 1;
            }
            proof {
                assert(account@ =~= bytes@.subrange(1, 33));
                lemma_array_from_seq::<32>(account);
            }
            Some(Contract::Wasm(account))
        } else {
            None
        }
    }

    /// Writes the contract in the ledger's layout.
    pub fn encode(&self) -> (encoded: Vec<u8>)
        ensures
            encoded@ == self.spec_encode(),
            *self is Evm ==> encoded@.len() == EVM_CONTRACT_SIZE_BYTES,
    {
        let mut encoded: Vec<u8> = Vec::new();
        match self {
            Contract::Evm(address) => {
                encoded.push(TAG_EVM);
                let bytes = address.to_fixed_bytes();
                let mut copied: usize = 0;
                while copied < 20
                    invariant
                        copied <= 20,
                        bytes@ == address@,
                        encoded@ == seq![TAG_EVM] + address@.subrange(0, copied as int),
                    decreases 20 - copied,
                {
                    encoded.push(bytes[copied]);
                    copied += 1;
                    assert(encoded@ =~= seq![TAG_EVM] + address@.subrange(0, copied as int));
                }
                assert(address@.subrange(0, 20) =~= address@);
            },
            Contract::Wasm(account) => {
                encoded.push(TAG_WASM);
                let mut copied: usize = 0;
                while copied < 32
                    invariant
                        copied <= 32,
                        encoded@ == seq![TAG_WASM] + account@.subrange(0, copied as int),
                    decreases 32 - copied,
                {
                    encoded.push(account[copied]);
                    copied += 1;
                    assert(encoded@ =~= seq![TAG_WASM] + account@.subrange(0, copied as int));
                }
                assert(account@.subrange(0, 32) =~= account@);
            },
        }
        encoded
    }
}

impl Default for Contract {
    fn default() -> (contract: Contract)
        ensures
            contract == Contract::spec_default(),
    {
        Contract::Evm(H160::zero())
    }
}

} // verus!
