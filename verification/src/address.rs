use vstd::prelude::*;

verus! {

/// An account or contract identity on the ledger.
///
/// Equality is structural: two addresses are equal exactly when their kind and
/// all four 64-bit limbs of the 32-byte key are equal.
#[derive(Clone, Copy, Debug, PartialEq, Eq, Structural, Hash)]
pub struct Address {
    /// `true` for a contract address, `false` for an account address.
    pub is_contract: bool,
    pub key0: u64,
    pub key1: u64,
    pub key2: u64,
    pub key3: u64,
}

impl Address {
    /// Builds an address from its kind and key limbs.
    pub fn new(is_contract: bool, key0: u64, key1: u64, key2: u64, key3: u64) -> (r: Address)
        ensures
            r == (Address { is_contract, key0, key1, key2, key3 }),
    {
        Address { is_contract, key0, key1, key2, key3 }
    }

    /// Compares two addresses.
    pub fn same(&self, other: &Address) -> (r: bool)
        ensures
            r == (*self == *other),
    {
        *self == *other
    }
}

/// Whether `a` occurs in `v`.
pub fn contains_address(v: &Vec<Address>, a: Address) -> (r: bool)
    ensures
        r == v@.contains(a),
{
    let mut i: usize = 0;
    while i < v.len()
        invariant
            0 <= i <= v.len(),
            forall|j: int| 0 <= j < i ==> v@[j] != a,
        decreases v.len() - i,
    {
        if v[i] == a {
            assert(v@[i as int] == a);
            return true;
        }
        i = i + 1;
    }
    false
}

} // verus!
