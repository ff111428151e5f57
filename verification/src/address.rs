//! The 160-bit address of the protocol boundary.

use vstd::array::{axiom_spec_array_fill_for_copy_type, spec_array_fill_for_copy_type};
use vstd::prelude::*;

verus! {

/// Number of bytes in an address.
pub const H160_SIZE_BYTES: usize = 20;

/// The array that holds `bytes`, where there are `N` of them.
pub open spec fn array_from_seq<const N: usize>(bytes: Seq<u8>) -> [u8; N] {
    choose|array: [u8; N]| array@ == bytes
}

/// An array is the array that holds its bytes.
pub proof fn lemma_array_from_seq<const N: usize>(array: [u8; N])
    ensures
        array_from_seq::<N>(array@) == array,
{
    let chosen = array_from_seq::<N>(array@);
    assert(chosen@ == array@);
    assert(chosen =~= array);
}

/// A 160-bit address, most significant byte first.
#[derive(Clone, Copy, Debug, PartialEq, Eq)]
pub struct H160(pub [u8; 20]);

impl View for H160 {
    type V = Seq<u8>;

    open spec fn view(&self) -> Seq<u8> {
        self.0@
    }
}

impl H160 {
    /// The address that `bytes` hold, where there are 20 of them.
    pub open spec fn spec_from_slice(bytes: Seq<u8>) -> H160 {
        H160(array_from_seq::<20>(bytes))
    }

    /// An address is the address that holds its bytes.
    pub proof fn lemma_from_view(self)
        ensures
            H160::spec_from_slice(self@) == self,
            self@.len() == 20,
    {
        lemma_array_from_seq::<20>(self.0);
    }

    /// The address of 20 zero bytes.
    pub open spec fn spec_zero() -> H160 {
        H160(spec_array_fill_for_copy_type::<u8, 20>(0u8))
    }

    /// The zero address holds 20 zero bytes.
    pub proof fn lemma_zero()
        ensures
            H160::spec_zero()@ == Seq::new(20, |i: int| 0u8),
    {
        broadcast use axiom_spec_array_fill_for_copy_type;

        assert(H160::spec_zero()@ =~= Seq::new(20, |i: int| 0u8));
    }

    /// The address of 20 zero bytes.
    pub fn zero() -> (address: H160)
        ensures
            address == H160::spec_zero(),
    {
        H160([0u8; 20])
    }

    /// The address that `src` holds.
    pub fn from_slice(src: &[u8]) -> (address: H160)
        requires
            src@.len() == H160_SIZE_BYTES,
        ensures
            address@ == src@,
            address == H160::spec_from_slice(src@),
    {
        let mut bytes = [0u8; 20];
        let mut copied: usize = 0;
        while copied < H160_SIZE_BYTES
            invariant
                copied <= H160_SIZE_BYTES,
                src@.len() == H160_SIZE_BYTES,
                forall|j: int| 0 <= j < copied ==> bytes@[j] == src@[j],
            decreases H160_SIZE_BYTES - copied,
        {
            bytes[copied] = src[copied];
            copied += 1;
        }
        let address = H160(bytes);
        proof {
            assert(address@ =~= src@);
            address.lemma_from_view();
        }
        address
    }

    /// The bytes of the address.
    pub fn to_fixed_bytes(self) -> (bytes: [u8; 20])
        ensures
            bytes == self.0,
            bytes@ == self@,
    {
        self.0
    }

    /// The bytes of the address as a slice.
    pub fn as_bytes(&self) -> (bytes: &[u8])
        ensures
            bytes@ == self@,
    {
        self.0.as_slice()
    }
}

} // verus!
