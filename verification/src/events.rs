//! What a successful operation reports to observers.

use vstd::prelude::*;
use crate::account::AccountId;
use crate::account::Balance;

verus! {

/// Tokens moved from one account to another.
#[derive(Debug, PartialEq, Eq)]
pub struct Transfer {
    pub from: Option<AccountId>,
    pub to: Option<AccountId>,
    pub value: Balance,
    pub data: Vec<u8>,
}

/// A `Transfer` with its data as a sequence of bytes.
pub struct TransferView {
    pub from: Option<AccountId>,
    pub to: Option<AccountId>,
    pub value: Balance,
    pub data: Seq<u8>,
}

impl View for Transfer {
    type V = TransferView;

    open spec fn view(&self) -> TransferView {
        TransferView { from: self.from, to: self.to, value: self.value, data: self.data@ }
    }
}

/// An owner's allowance for a spender was set, changed or drawn on.
#[derive(Debug, PartialEq, Eq)]
pub struct Approval {
    pub owner: AccountId,
    pub spender: AccountId,
    pub value: Balance,
    pub data: Vec<u8>,
}

/// An `Approval` with its data as a sequence of bytes.
pub struct ApprovalView {
    pub owner: AccountId,
    pub spender: AccountId,
    pub value: Balance,
    pub data: Seq<u8>,
}

impl View for Approval {
    type V = ApprovalView;

    open spec fn view(&self) -> ApprovalView {
        ApprovalView {
            owner: self.owner,
            spender: self.spender,
            value: self.value,
            data: self.data@,
        }
    }
}

} // verus!
