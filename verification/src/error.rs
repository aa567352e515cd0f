//! Why an operation on the ledger was refused.

use vstd::prelude::*;

verus! {

/// The reasons for which the ledger refuses an operation.
#[derive(Debug, PartialEq, Eq)]
pub enum PSP22Error {
    /// A restriction of this implementation, with its description.
    Custom(String),
    /// The balance does not cover the amount.
    InsufficientBalance,
    /// The allowance does not cover the amount.
    InsufficientAllowance,
    /// The recipient is the null account.
    ZeroRecipientAddress,
    /// The sender is the null account.
    ZeroSenderAddress,
    /// The recipient cannot safely receive tokens, with the reason.
    SafeTransferCheckFailed(String),
}

/// A `PSP22Error` with its texts as sequences of characters.
pub enum PSP22ErrorView {
    Custom(Seq<char>),
    InsufficientBalance,
    InsufficientAllowance,
    ZeroRecipientAddress,
    ZeroSenderAddress,
    SafeTransferCheckFailed(Seq<char>),
}

impl View for PSP22Error {
    type V = PSP22ErrorView;

    open spec fn view(&self) -> PSP22ErrorView {
        match self {
            PSP22Error::Custom(text) => PSP22ErrorView::Custom(text@),
            PSP22Error::InsufficientBalance => PSP22ErrorView::InsufficientBalance,
            PSP22Error::InsufficientAllowance => PSP22ErrorView::InsufficientAllowance,
            PSP22Error::ZeroRecipientAddress => PSP22ErrorView::ZeroRecipientAddress,
            PSP22Error::ZeroSenderAddress => PSP22ErrorView::ZeroSenderAddress,
            PSP22Error::SafeTransferCheckFailed(text) => PSP22ErrorView::SafeTransferCheckFailed(
                text@,
            ),
        }
    }
}

/// The reason given when the recipient of a transfer is a contract; `account`
/// is the recipient as text.
pub open spec fn contract_recipient_reason(account: Seq<char>) -> Seq<char> {
    "AccountId "@ + account + " is contract"@
}

/// The description given when an allowance would exceed the largest amount.
pub open spec fn allowance_overflow_text() -> Seq<char> {
    "allowance overflow"@
}

impl PSP22Error {
    /// The refusal of a transfer to a contract; `account` is the recipient
    /// as text.
    pub fn contract_recipient(account: &str) -> (e: PSP22Error)
        ensures
            e@ == PSP22ErrorView::SafeTransferCheckFailed(contract_recipient_reason(account@)),
    {
        let mut reason = String::from_str("AccountId ");
        reason.append(account);
        reason.append(" is contract");
        PSP22Error::SafeTransferCheckFailed(reason)
    }

    /// The refusal of an allowance that would exceed the largest amount.
    pub fn allowance_overflow() -> (e: PSP22Error)
        ensures
            e@ == PSP22ErrorView::Custom(allowance_overflow_text()),
    {
        PSP22Error::Custom(String::from_str("allowance overflow"))
    }
}

} // verus!
