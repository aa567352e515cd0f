//! The interface of a fungible token.
//!
//! The contracts are stated over the `Ledger` that the token stands for.
//! The acting account is an argument of every operation that has one, and
//! so is what the host knows about the recipient of a transfer.

use vstd::prelude::*;
use crate::account::AccountId;
use crate::account::Balance;
use crate::error::PSP22Error;
use crate::events::Approval;
use crate::events::ApprovalView;
use crate::events::Transfer;
use crate::events::TransferView;
use crate::ledger::Ledger;

verus! {

/// A token ledger with balances and allowances.
pub trait PSP22: View<V = Ledger> {
    /// The number of tokens in existence.
    fn total_supply(&self) -> (supply: Balance)
        ensures
            self@.wf(),
            supply == self@.total_supply,
    ;

    /// What `owner` holds; zero for an account that the ledger does not know.
    fn balance_of(&self, owner: AccountId) -> (balance: Balance)
        ensures
            self@.wf(),
            balance == self@.balance_of(owner),
    ;

    /// What `spender` may still move out of `owner`'s balance; zero where no
    /// allowance was granted.
    fn allowance(&self, owner: AccountId, spender: AccountId) -> (allowance: Balance)
        ensures
            self@.wf(),
            allowance == self@.allowance(owner, spender),
    ;

    /// Moves `value` tokens from `caller` to `to` and reports the transfer.
    ///
    /// `to_is_contract` says whether the host knows `to` as a contract.
    ///
    /// The call is refused, and changes nothing, with the first of these
    /// that applies: `InsufficientBalance` unless `caller` holds more than
    /// `value`; `ZeroSenderAddress` if `caller` is the null account;
    /// `ZeroRecipientAddress` if `to` is; `SafeTransferCheckFailed`, naming
    /// `to`, if `to` is a contract.
    fn transfer(
        &mut self,
        caller: AccountId,
        to: AccountId,
        value: Balance,
        data: Vec<u8>,
        to_is_contract: bool,
    ) -> (result: Result<Transfer, PSP22Error>)
        ensures
            final(self)@.wf(),
            final(self)@ == old(self)@.after(old(self)@.transfer(caller, to, value, to_is_contract)),
            final(self)@.circulating() == old(self)@.circulating(),
            match result {
                Ok(event) => old(self)@.transfer(caller, to, value, to_is_contract) is Ok
                    && event@ == (TransferView {
                    from: Some(caller),
                    to: Some(to),
                    value,
                    data: data@,
                }),
                Err(error) => old(self)@.transfer(caller, to, value, to_is_contract) == Err::<
                    Ledger,
                    _,
                >(error@),
            },
    ;

    /// Moves `value` tokens from `from` to `to` on behalf of `caller`, who
    /// needs an allowance from `from` that covers `value`, and reports the
    /// transfer and the allowance that it was made under. The allowance
    /// stays as it was.
    ///
    /// The call is refused, and changes nothing, with the first of these
    /// that applies: `InsufficientBalance` if the allowance is less than
    /// `value`; `InsufficientBalance` if `from` holds less than `value`;
    /// `ZeroSenderAddress` if `from` is the null account;
    /// `ZeroRecipientAddress` if `to` is.
    fn transfer_from(
        &mut self,
        caller: AccountId,
        from: AccountId,
        to: AccountId,
        value: Balance,
        data: Vec<u8>,
    ) -> (result: Result<(Transfer, Approval), PSP22Error>)
        ensures
            final(self)@.wf(),
            final(self)@ == old(self)@.after(old(self)@.transfer_from(caller, from, to, value)),
            final(self)@.circulating() == old(self)@.circulating(),
            match result {
                Ok((transfer, approval)) => old(self)@.transfer_from(caller, from, to, value) is Ok
                    && transfer@ == (TransferView {
                    from: Some(from),
                    to: Some(to),
                    value,
                    data: data@,
                }) && approval@ == (ApprovalView {
                    owner: from,
                    spender: caller,
                    value,
                    data: data@,
                }),
                Err(error) => old(self)@.transfer_from(caller, from, to, value) == Err::<
                    Ledger,
                    _,
                >(error@),
            },
    ;

    /// Sets what `spender` may move out of `caller`'s balance to `value`,
    /// whatever it was before, and reports the allowance.
    ///
    /// The call is refused, and changes nothing, with `ZeroSenderAddress` if
    /// `caller` is the null account, else with `ZeroRecipientAddress` if
    /// `spender` is.
    fn approve(&mut self, caller: AccountId, spender: AccountId, value: Balance) -> (result: Result<
        Approval,
        PSP22Error,
    >)
        ensures
            final(self)@.wf(),
            final(self)@ == old(self)@.after(old(self)@.approve(caller, spender, value)),
            match result {
                Ok(event) => old(self)@.approve(caller, spender, value) is Ok && event@ == (
                ApprovalView { owner: caller, spender, value, data: Seq::<u8>::empty() }),
                Err(error) => old(self)@.approve(caller, spender, value) == Err::<Ledger, _>(
                    error@,
                ),
            },
    ;

    /// Raises what `spender` may move out of `caller`'s balance by
    /// `delta_value`, and reports the raise.
    ///
    /// The call is refused, and changes nothing, with the first of these
    /// that applies: `ZeroSenderAddress` if `caller` is the null account;
    /// `ZeroRecipientAddress` if `spender` is; `Custom` if the allowance
    /// would exceed the largest amount.
    fn increase_allowance(
        &mut self,
        caller: AccountId,
        spender: AccountId,
        delta_value: Balance,
    ) -> (result: Result<Approval, PSP22Error>)
        ensures
            final(self)@.wf(),
            final(self)@ == old(self)@.after(
                old(self)@.increase_allowance(caller, spender, delta_value),
            ),
            match result {
                Ok(event) => old(self)@.increase_allowance(caller, spender, delta_value) is Ok
                    && event@ == (ApprovalView {
                    owner: caller,
                    spender,
                    value: delta_value,
                    data: Seq::<u8>::empty(),
                }),
                Err(error) => old(self)@.increase_allowance(caller, spender, delta_value) == Err::<
                    Ledger,
                    _,
                >(error@),
            },
    ;

    /// Lowers what `spender` may move out of `caller`'s balance by
    /// `delta_value`, and reports the cut.
    ///
    /// The call is refused, and changes nothing, with the first of these
    /// that applies: `InsufficientAllowance` if the allowance is less than
    /// `delta_value`; `ZeroSenderAddress` if `caller` is the null account;
    /// `ZeroRecipientAddress` if `spender` is.
    fn decrease_allowance(
        &mut self,
        caller: AccountId,
        spender: AccountId,
        delta_value: Balance,
    ) -> (result: Result<Approval, PSP22Error>)
        ensures
            final(self)@.wf(),
            final(self)@ == old(self)@.after(
                old(self)@.decrease_allowance(caller, spender, delta_value),
            ),
            match result {
                Ok(event) => old(self)@.decrease_allowance(caller, spender, delta_value) is Ok
                    && event@ == (ApprovalView {
                    owner: caller,
                    spender,
                    value: delta_value,
                    data: Seq::<u8>::empty(),
                }),
                Err(error) => old(self)@.decrease_allowance(caller, spender, delta_value) == Err::<
                    Ledger,
                    _,
                >(error@),
            },
    ;
}

/// The descriptive data of a token.
pub trait PSP22Metadata: PSP22 {
    /// The token's name.
    fn token_name(&self) -> (name: Option<String>)
        ensures
            name matches Some(text) && text@ == self@.token_name,
    ;

    /// The token's symbol.
    fn token_symbol(&self) -> (symbol: Option<String>)
        ensures
            symbol matches Some(text) && text@ == self@.token_symbol,
    ;

    /// The number of decimal places in which amounts are shown.
    fn token_decimals(&self) -> (decimals: u8)
        ensures
            decimals == self@.token_decimals,
    ;
}

} // verus!
