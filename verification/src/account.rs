//! Opaque handles for the accounts the escrow names but never looks inside.

use vstd::prelude::*;

verus! {

/// Identifies a funding source, a destination, a vault or an authority.
///
/// The escrow only carries handles around and compares them; it never derives
/// one from another.
#[derive(Clone, Copy, Debug)]
pub struct AccountHandle {
    pub bytes: [u8; 32],
}

impl AccountHandle {
    /// The handle whose bytes are all zero; it stands where no account is
    /// named.
    pub open spec fn null() -> AccountHandle {
        AccountHandle { bytes: choose|bytes: [u8; 32]| bytes@ == Seq::new(32, |i: int| 0u8) }
    }

    /// The handle whose bytes are all zero.
    pub fn zeroed() -> (handle: AccountHandle)
        ensures
            handle == AccountHandle::null(),
            handle.bytes@ == Seq::new(32, |i: int| 0u8),
    {
        let bytes = [0u8; 32];
        assert(bytes@ =~= Seq::new(32, |i: int| 0u8));
        assert(bytes =~= AccountHandle::null().bytes);
        AccountHandle { bytes }
    }

    /// Wraps the raw bytes of a handle.
    pub fn new(bytes: [u8; 32]) -> (handle: AccountHandle)
        ensures
            handle.bytes == bytes,
    {
        AccountHandle { bytes }
    }

    /// Whether two handles name the same account.
    pub fn same(&self, other: &AccountHandle) -> (equal: bool)
        ensures
            equal == (*self == *other),
    {
        let mut i: usize = 0;
        while i < 32
            invariant
                i <= 32,
                forall|j: int| 0 <= j < i ==> self.bytes@[j] == other.bytes@[j],
            decreases 32 - i,
        {
            if self.bytes[i] != other.bytes[i] {
                return false;
            }
            i += 1;
        }
        assert(self.bytes =~= other.bytes);
        true
    }
}

impl PartialEq for AccountHandle {
    fn eq(&self, other: &Self) -> (equal: bool) {
        self.same(other)
    }
}

impl Eq for AccountHandle {

}

impl vstd::std_specs::cmp::PartialEqSpecImpl for AccountHandle {
    open spec fn obeys_eq_spec() -> bool {
        true
    }

    open spec fn eq_spec(&self, other: &Self) -> bool {
        *self == *other
    }
}

} // verus!
