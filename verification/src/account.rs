use vstd::prelude::*;
use vstd::std_specs::cmp::PartialEqSpecImpl;

verus! {

/// The address of an account on the host chain: thirty-two opaque bytes.
///
/// Two addresses are the same account exactly when their bytes agree, and
/// `==` says so. Where an address is looked up or compared, the clauses
/// speak of its view, the sequence of its bytes.
#[derive(Clone, Copy, Debug)]
pub struct AccountId {
    pub bytes: [u8; 32],
}

impl View for AccountId {
    type V = Seq<u8>;

    open spec fn view(&self) -> Seq<u8> {
        self.bytes@
    }
}

impl PartialEq for AccountId {
    fn eq(&self, other: &AccountId) -> (same: bool) {
        let mut i: usize = 0;
        while i < 32
            invariant
                i <= 32,
                forall|k: int| 0 <= k < i ==> self.bytes[k] == other.bytes[k],
            decreases 32 - i,
        {
            if self.bytes[i] != other.bytes[i] {
                return false;
            }
            i = i + 1;
        }
        assert(self.bytes@ =~= other.bytes@);
        true
    }
}

impl PartialEqSpecImpl for AccountId {
    open spec fn obeys_eq_spec() -> bool {
        true
    }

    open spec fn eq_spec(&self, other: &AccountId) -> bool {
        self@ == other@
    }
}

impl Eq for AccountId {}

impl AccountId {
    /// Whether an optional address is present and names this account.
    pub open spec fn spec_occupies(&self, slot: Option<AccountId>) -> bool {
        slot matches Some(a) && a@ == self@
    }

    /// Whether an optional address is present and names this account.
    pub fn occupies(&self, slot: &Option<AccountId>) -> (r: bool)
        ensures
            r == self.spec_occupies(*slot),
    {
        match slot {
            Some(a) => *a == *self,
            None => false,
        }
    }
}

} // verus!
