//! Identities of the parties and assets that the records name.

use vstd::prelude::*;
use vstd::std_specs::cmp::PartialEqSpecImpl;

verus! {

/// A 32-byte identifier of a party or of an asset.
///
/// Two identities are the same exactly when their bytes agree.
#[derive(Clone, Copy, Debug)]
pub struct Identity {
    pub bytes: [u8; 32],
}

impl Identity {
    /// True of the identity whose bytes are all zero, which stands for
    /// "nobody" in a record that has no bidder or borrower yet.
    pub open spec fn is_null(self) -> bool {
        forall|i: int| 0 <= i < 32 ==> self.bytes[i] == 0u8
    }
}

impl PartialEq for Identity {
    fn eq(&self, other: &Identity) -> (r: bool) {
        let mut i: usize = 0;
        while i < 32
            invariant
                i <= 32,
                forall|j: int| 0 <= j < i ==> self.bytes[j] == other.bytes[j],
            decreases 32 - i,
        {
            if self.bytes[i] != other.bytes[i] {
                return false;
            }
            i += 1;
        }
        assert(self.bytes =~= other.bytes);
        true
    }
}

impl Eq for Identity {

}

impl PartialEqSpecImpl for Identity {
    open spec fn obeys_eq_spec() -> bool {
        true
    }

    open spec fn eq_spec(&self, other: &Identity) -> bool {
        *self == *other
    }
}

/// Any two null identities are the same identity.
pub proof fn lemma_null_is_unique(a: Identity, b: Identity)
    requires
        a.is_null(),
        b.is_null(),
    ensures
        a == b,
{
    assert(a.bytes =~= b.bytes);
}

} // verus!
