//! Identities and the authorization gate.
use vstd::prelude::*;

verus! {

/// Why an identity was refused by an authorization gate.
#[derive(Debug, Clone, Copy, PartialEq, Eq, Structural)]
pub enum EligibilityError {
    NotAllowed,
}

/// A 32-byte account identity, compared byte for byte.
#[derive(Debug, Clone, Copy)]
pub struct AccountId {
    bytes: [u8; 32],
}

impl View for AccountId {
    type V = Seq<u8>;

    closed spec fn view(&self) -> Seq<u8> {
        self.bytes@
    }
}

impl AccountId {
    pub fn new(bytes: [u8; 32]) -> (r: AccountId)
        ensures
            r@ == bytes@,
    {
        AccountId { bytes }
    }

    pub fn as_bytes(&self) -> (r: &[u8; 32])
        ensures
            r@ == self@,
    {
        &self.bytes
    }

    /// Compares the two identities byte for byte.
    pub fn same_as(&self, other: &AccountId) -> (r: bool)
        ensures
            r == (self@ == other@),
    {
        let mut i: usize = 0;
        while i < 32
            invariant
                0 <= i <= 32,
                self.bytes@.len() == 32,
                other.bytes@.len() == 32,
                forall|k: int| 0 <= k < i ==> self.bytes@[k] == other.bytes@[k],
            decreases 32 - i,
        {
            if self.bytes[i] != other.bytes[i] {
                return false;
            }
            i = i + 1;
        }
        assert(self.bytes@ =~= other.bytes@);
        true
    }
}

impl PartialEq for AccountId {
    fn eq(&self, other: &AccountId) -> (r: bool) {
        self.same_as(other)
    }
}

impl vstd::std_specs::cmp::PartialEqSpecImpl for AccountId {
    open spec fn obeys_eq_spec() -> bool {
        true
    }

    open spec fn eq_spec(&self, other: &AccountId) -> bool {
        self@ == other@
    }
}

impl Eq for AccountId {}

/// A gate that decides whether an identity may write to the feed.
pub trait IsAuthorizedAccount {
    /// Whether `account` is allowed to write.
    spec fn authorizes(&self, account: Seq<u8>) -> bool;

    /// Succeeds exactly when `account` is allowed to write.
    fn is_valid(&self, account: &AccountId) -> (r: Result<(), EligibilityError>)
        ensures
            r is Ok <==> self.authorizes(account@),
            r is Err ==> r == Err::<(), EligibilityError>(EligibilityError::NotAllowed),
    ;
}

} // verus!
