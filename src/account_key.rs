use vstd::prelude::*;

verus! {

/// A 256-bit account address, held as its 32 bytes.
#[derive(Clone, Copy, Debug, Eq, Hash)]
pub struct AccountKey {
    pub bytes: [u8; 32],
}

impl AccountKey {
    /// The key whose bytes are `bytes`.
    pub fn new(bytes: [u8; 32]) -> (r: AccountKey)
        ensures
            r.bytes == bytes,
    {
        AccountKey { bytes }
    }

    /// All 32 bytes are zero.
    pub open spec fn is_zero(&self) -> bool {
        forall|i: int| 0 <= i < 32 ==> self.bytes[i] == 0
    }

    /// The all-zero key, which an account that was never written holds.
    pub fn zeroed() -> (r: AccountKey)
        ensures
            r.is_zero(),
    {
        AccountKey { bytes: [0u8; 32] }
    }
}

impl PartialEq for AccountKey {
    fn eq(&self, other: &AccountKey) -> (r: bool)
        ensures
            r == (self.bytes == other.bytes),
    {
        let mut i: usize = 0;
        while i < 32
            invariant
                0 <= i <= 32,
                forall|j: int| 0 <= j < i ==> self.bytes[j] == other.bytes[j],
            decreases 32 - i,
        {
            if self.bytes[i] != other.bytes[i] {
                return false;
            }
            i = i + 1;
        }
        assert(self.bytes =~= other.bytes);
        true
    }
}

impl vstd::std_specs::cmp::PartialEqSpecImpl for AccountKey {
    open spec fn obeys_eq_spec() -> bool {
        true
    }

    open spec fn eq_spec(&self, other: &AccountKey) -> bool {
        self.bytes == other.bytes
    }
}

} // verus!
