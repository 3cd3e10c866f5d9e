use vstd::prelude::*;

verus! {

/// The kind of account an address names on the hosting platform.
#[derive(Clone, Copy, Debug, PartialEq, Eq, Structural)]
pub enum AddressType {
    Account,
    SystemContract,
    PublicContract,
    ZkContract,
}

/// An identity on the hosting platform: its kind and a 20-byte identifier.
#[derive(Clone, Copy, Debug, PartialEq, Eq)]
pub struct Address {
    pub address_type: AddressType,
    pub identifier: [u8; 20],
}

/// Compares two addresses, kind and identifier.
pub fn same_address(a: &Address, b: &Address) -> (r: bool)
    ensures
        r == (*a == *b),
{
    if a.address_type != b.address_type {
        return false;
    }
    let mut i: usize = 0;
    while i < 20
        invariant
            0 <= i <= 20,
            forall|j: int| 0 <= j < i ==> a.identifier[j] == b.identifier[j],
        decreases 20 - i,
    {
        if a.identifier[i] != b.identifier[i] {
            return false;
        }
        i = i + 1;
    }
    proof {
        broadcast use vstd::array::group_array_axioms;
        assert(a.identifier =~= b.identifier);
    }
    true
}

} // verus!
