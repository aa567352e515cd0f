//! Account identifiers and amounts.

use vstd::prelude::*;

verus! {

/// An amount of tokens.
pub type Balance = u128;

/// A 32-byte account address.
///
/// The all-zero address is the null account: it never sends and never
/// receives.
#[derive(Clone, Copy, Debug, Eq, Hash)]
pub struct AccountId {
    pub bytes: [u8; 32],
}

impl AccountId {
    /// Whether this is the null account.
    pub open spec fn is_null(self) -> bool {
        forall|i: int| 0 <= i < 32 ==> self.bytes[i] == 0
    }

    /// Whether this is the null account.
    pub fn is_zero(&self) -> (r: bool)
        ensures
            r == self.is_null(),
    {
        let mut i: usize = 0;
        while i < 32
            invariant
                i <= 32,
                forall|j: int| 0 <= j < i ==> self.bytes[j] == 0,
            decreases 32 - i,
        {
            if self.bytes[i] != 0 {
                return false;
            }
            i += 1;
        }
        true
    }

    /// The address as ink prints it when debugging.
    pub fn debug_string(&self) -> (text: String)
        ensures
            text@ == account_debug_text(self.bytes@),
    {
        debug_text(&self.bytes)
    }
}

impl PartialEq for AccountId {
    fn eq(&self, other: &Self) -> (r: bool) {
        let mut i: usize = 0;
        while i < 32
            invariant
                i <= 32,
                forall|j: int| 0 <= j < i ==> self.bytes[j] == other.bytes[j],
            decreases 32 - i,
        {
            if self.bytes[i] != other.bytes[i] {
                return false;
            }
            i += 1;
        }
        proof {
            assert(self.bytes =~= other.bytes);
        }
        true
    }
}

impl vstd::std_specs::cmp::PartialEqSpecImpl for AccountId {
    open spec fn obeys_eq_spec() -> bool {
        true
    }

    open spec fn eq_spec(&self, other: &Self) -> bool {
        *self == *other
    }
}

impl From<[u8; 32]> for AccountId {
    fn from(bytes: [u8; 32]) -> (r: Self) {
        AccountId { bytes }
    }
}

impl vstd::std_specs::convert::FromSpecImpl<[u8; 32]> for AccountId {
    open spec fn obeys_from_spec() -> bool {
        true
    }

    open spec fn from_spec(bytes: [u8; 32]) -> Self {
        AccountId { bytes }
    }
}

/// The text that ink's `AccountId` prints under `{:?}` for the address with
/// these 32 bytes.
pub uninterp spec fn account_debug_text(bytes: Seq<u8>) -> Seq<char>;

/// Formats the address with `<ink::primitives::AccountId as Debug>::fmt`.
///
/// Trusted: the text depends on the 32 bytes alone, which is all that the
/// contract claims. What the text looks like is left to ink.
#[verifier::external_body]
fn debug_text(bytes: &[u8; 32]) -> (text: String)
    ensures
        text@ == account_debug_text(bytes@),
{
    format!("{:?}", ink::primitives::AccountId::from(*bytes))
}

} // verus!
