//! Account identifiers and amounts.

use vstd::prelude::*;
use vstd::std_specs::cmp::PartialEqSpecImpl;

verus! {

/// Units of value on the ledger.
pub type Amount = u128;

/// An opaque identifier of a principal: a subscriber, the controller, or a ledger.
///
/// Two accounts are the same principal exactly when their bytes agree.
#[derive(Clone, Copy, Debug, Eq, Hash)]
pub struct Account {
    pub bytes: [u8; 32],
}

impl PartialEq for Account {
    fn eq(&self, other: &Account) -> (r: bool) {
        let mut i: usize = 0;
        while i < 32
            invariant
                i <= 32,
                forall|j: int| 0 <= j < i ==> self.bytes[j] == other.bytes[j],
            decreases 32 - i,
        {
            if self.bytes[i] != other.bytes[i] {
                return false;
            }
            i += 1;
        }
        assert(self.bytes =~= other.bytes);
        true
    }
}

impl PartialEqSpecImpl for Account {
    open spec fn obeys_eq_spec() -> bool {
        true
    }

    open spec fn eq_spec(&self, other: &Account) -> bool {
        *self == *other
    }
}

} // verus!
