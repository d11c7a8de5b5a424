use vstd::prelude::*;

verus! {

/// A fixed-size public identifier for an account on the distributed ledger.
#[derive(Clone, Copy, PartialEq, Eq, Hash, Debug)]
pub struct Address {
    pub bytes: [u8; 32],
}

/// The all-zeroes address, the default asset address in offline validation
/// when the caller supplies none.
pub open spec fn spec_zero_address() -> Address {
    Address { bytes: vstd::array::spec_array_fill_for_copy_type::<u8, 32>(0u8) }
}

/// Whether every byte of `a` is zero.
pub open spec fn is_zero_address(a: Address) -> bool {
    forall|i: int| 0 <= i < 32 ==> a.bytes[i] == 0
}

/// The all-zeroes address.
pub fn zero_address() -> (r: Address)
    ensures
        r == spec_zero_address(),
        is_zero_address(r),
{
    let r = Address { bytes: [0u8; 32] };
    proof {
        assert(is_zero_address(r));
    }
    r
}

/// Byte-for-byte comparison; equality of `Address` values in contracts means
/// exactly equality of their bytes.
pub fn address_eq(a: &Address, b: &Address) -> (r: bool)
    ensures
        r == (a == b),
{
    let mut i: usize = 0;
    while i < 32
        invariant
            i <= 32,
            forall|j: int| 0 <= j < i ==> a.bytes[j] == b.bytes[j],
        decreases 32 - i,
    {
        if a.bytes[i] != b.bytes[i] {
            return false;
        }
        i = i + 1;
    }
    proof {
        assert(a.bytes =~= b.bytes);
    }
    true
}

} // verus!
