//! The ledger as a mathematical state machine.
//!
//! A `Ledger` is the whole state of the token: the fixed supply, who holds
//! how much, and who may spend how much of whose tokens. Each operation is a
//! function from a ledger and the call's arguments to the next ledger, or to
//! the reason for which the call is refused. A refused call changes nothing.

use vstd::prelude::*;
use crate::account::account_debug_text;
use crate::account::AccountId;
use crate::account::Balance;
use crate::error::allowance_overflow_text;
use crate::error::contract_recipient_reason;
use crate::error::PSP22ErrorView;
use crate::supply::amount_at;
use crate::supply::lemma_total_empty;
use crate::supply::lemma_total_insert;
use crate::supply::total_of;

verus! {

/// An owner and the spender to whom the owner granted an allowance.
#[derive(Clone, Copy, Debug, Eq, Hash)]
pub struct AllowanceKey {
    pub owner: AccountId,
    pub spender: AccountId,
}

impl PartialEq for AllowanceKey {
    fn eq(&self, other: &Self) -> (r: bool) {
        self.owner == other.owner && self.spender == other.spender
    }
}

impl vstd::std_specs::cmp::PartialEqSpecImpl for AllowanceKey {
    open spec fn obeys_eq_spec() -> bool {
        true
    }

    open spec fn eq_spec(&self, other: &Self) -> bool {
        *self == *other
    }
}

/// The state of the token.
pub struct Ledger {
    /// The account that received the whole supply at construction.
    pub admin: AccountId,
    /// The number of tokens in existence. No operation changes it.
    pub total_supply: Balance,
    /// What each account holds. An account without an entry holds nothing.
    pub balances: Map<AccountId, Balance>,
    /// What each spender may move out of each owner's balance. A pair
    /// without an entry has no allowance.
    pub allowances: Map<AllowanceKey, Balance>,
    pub token_name: Seq<char>,
    pub token_symbol: Seq<char>,
    pub token_decimals: u8,
}

impl Ledger {
    /// What `owner` holds.
    pub open spec fn balance_of(self, owner: AccountId) -> Balance {
        amount_at(self.balances, owner)
    }

    /// What `spender` may move out of `owner`'s balance.
    pub open spec fn allowance(self, owner: AccountId, spender: AccountId) -> Balance {
        amount_at(self.allowances, AllowanceKey { owner, spender })
    }

    /// The sum of all balances.
    pub open spec fn circulating(self) -> nat {
        total_of(self.balances)
    }

    /// Finitely many accounts hold tokens or grant allowances, and together
    /// they hold no more than the supply.
    pub open spec fn wf(self) -> bool {
        &&& self.balances.dom().finite()
        &&& self.allowances.dom().finite()
        &&& self.circulating() <= self.total_supply
    }

    /// The ledger at construction: the administrator holds the whole supply
    /// and nobody has an allowance.
    pub open spec fn initial(total_supply: Balance, admin: AccountId, decimals: u8) -> Ledger {
        Ledger {
            admin,
            total_supply,
            balances: Map::<AccountId, Balance>::empty().insert(admin, total_supply),
            allowances: Map::empty(),
            token_name: "Real Estate DAO"@,
            token_symbol: "RED"@,
            token_decimals: decimals,
        }
    }

    /// The ledger with `owner`'s balance overwritten by `amount`.
    pub open spec fn set_balance(self, owner: AccountId, amount: Balance) -> Ledger {
        Ledger { balances: self.balances.insert(owner, amount), ..self }
    }

    /// The ledger with `spender`'s allowance from `owner` overwritten by
    /// `amount`.
    pub open spec fn set_allowance(
        self,
        owner: AccountId,
        spender: AccountId,
        amount: Balance,
    ) -> Ledger {
        Ledger {
            allowances: self.allowances.insert(AllowanceKey { owner, spender }, amount),
            ..self
        }
    }

    /// The ledger with `value` taken out of `owner`'s balance.
    pub open spec fn debit(self, owner: AccountId, value: Balance) -> Ledger {
        self.set_balance(owner, (self.balance_of(owner) - value) as Balance)
    }

    /// The ledger with `value` added to `owner`'s balance.
    pub open spec fn credit(self, owner: AccountId, value: Balance) -> Ledger {
        self.set_balance(owner, (self.balance_of(owner) + value) as Balance)
    }

    /// `caller` sends `value` of its own tokens to `to`.
    ///
    /// The checks are made in this order, and the first that fails decides
    /// the error. The caller must hold strictly more than `value`.
    pub open spec fn transfer(
        self,
        caller: AccountId,
        to: AccountId,
        value: Balance,
        to_is_contract: bool,
    ) -> Result<Ledger, PSP22ErrorView> {
        if self.balance_of(caller) <= value {
            Err(PSP22ErrorView::InsufficientBalance)
        } else if caller.is_null() {
            Err(PSP22ErrorView::ZeroSenderAddress)
        } else if to.is_null() {
            Err(PSP22ErrorView::ZeroRecipientAddress)
        } else if to_is_contract {
            Err(
                PSP22ErrorView::SafeTransferCheckFailed(
                    contract_recipient_reason(account_debug_text(to.bytes@)),
                ),
            )
        } else {
            Ok(self.debit(caller, value).credit(to, value))
        }
    }

    /// `caller` sends `value` of `from`'s tokens to `to`, on the strength of
    /// the allowance `from` granted it.
    ///
    /// The checks are made in this order. An allowance that does not cover
    /// `value` is reported as `InsufficientBalance`, and a successful call
    /// leaves the allowance as it was.
    pub open spec fn transfer_from(
        self,
        caller: AccountId,
        from: AccountId,
        to: AccountId,
        value: Balance,
    ) -> Result<Ledger, PSP22ErrorView> {
        if self.allowance(from, caller) < value {
            Err(PSP22ErrorView::InsufficientBalance)
        } else if self.balance_of(from) < value {
            Err(PSP22ErrorView::InsufficientBalance)
        } else if from.is_null() {
            Err(PSP22ErrorView::ZeroSenderAddress)
        } else if to.is_null() {
            Err(PSP22ErrorView::ZeroRecipientAddress)
        } else {
            Ok(self.debit(from, value).credit(to, value))
        }
    }

    /// `caller` sets `spender`'s allowance to `value`.
    pub open spec fn approve(
        self,
        caller: AccountId,
        spender: AccountId,
        value: Balance,
    ) -> Result<Ledger, PSP22ErrorView> {
        if caller.is_null() {
            Err(PSP22ErrorView::ZeroSenderAddress)
        } else if spender.is_null() {
            Err(PSP22ErrorView::ZeroRecipientAddress)
        } else {
            Ok(self.set_allowance(caller, spender, value))
        }
    }

    /// `caller` raises `spender`'s allowance by `delta`.
    ///
    /// An allowance that would exceed the largest amount is refused.
    pub open spec fn increase_allowance(
        self,
        caller: AccountId,
        spender: AccountId,
        delta: Balance,
    ) -> Result<Ledger, PSP22ErrorView> {
        if caller.is_null() {
            Err(PSP22ErrorView::ZeroSenderAddress)
        } else if spender.is_null() {
            Err(PSP22ErrorView::ZeroRecipientAddress)
        } else if self.allowance(caller, spender) + delta > Balance::MAX {
            Err(PSP22ErrorView::Custom(allowance_overflow_text()))
        } else {
            Ok(
                self.set_allowance(
                    caller,
                    spender,
                    (self.allowance(caller, spender) + delta) as Balance,
                ),
            )
        }
    }

    /// `caller` lowers `spender`'s allowance by `delta`.
    ///
    /// The allowance is checked before the addresses.
    pub open spec fn decrease_allowance(
        self,
        caller: AccountId,
        spender: AccountId,
        delta: Balance,
    ) -> Result<Ledger, PSP22ErrorView> {
        if self.allowance(caller, spender) < delta {
            Err(PSP22ErrorView::InsufficientAllowance)
        } else if caller.is_null() {
            Err(PSP22ErrorView::ZeroSenderAddress)
        } else if spender.is_null() {
            Err(PSP22ErrorView::ZeroRecipientAddress)
        } else {
            Ok(
                self.set_allowance(
                    caller,
                    spender,
                    (self.allowance(caller, spender) - delta) as Balance,
                ),
            )
        }
    }

    /// The ledger after a call with the given outcome: the next ledger where
    /// the call succeeded, this one where it was refused.
    pub open spec fn after(self, outcome: Result<Ledger, PSP22ErrorView>) -> Ledger {
        match outcome {
            Ok(next) => next,
            Err(_) => self,
        }
    }

    /// The initial ledger is well formed and all of the supply circulates.
    pub proof fn lemma_initial(total_supply: Balance, admin: AccountId, decimals: u8)
        ensures
            Ledger::initial(total_supply, admin, decimals).wf(),
            Ledger::initial(total_supply, admin, decimals).circulating() == total_supply,
            Ledger::initial(total_supply, admin, decimals).balance_of(admin) == total_supply,
    {
        lemma_total_empty::<AccountId>();
        lemma_total_insert(Map::<AccountId, Balance>::empty(), admin, total_supply);
    }

    /// Taking `value` out of a balance that covers it and adding it to any
    /// balance keeps the ledger well formed and the sum of balances as it
    /// was; neither step leaves the range of amounts.
    pub proof fn lemma_move(self, from: AccountId, to: AccountId, value: Balance)
        requires
            self.wf(),
            value <= self.balance_of(from),
        ensures
            self.debit(from, value).wf(),
            self.debit(from, value).circulating() == self.circulating() - value,
            self.debit(from, value).balance_of(to) + value <= self.total_supply,
            self.debit(from, value).credit(to, value).wf(),
            self.debit(from, value).credit(to, value).circulating() == self.circulating(),
    {
        let low = (self.balance_of(from) - value) as Balance;
        lemma_total_insert(self.balances, from, low);
        let debited = self.debit(from, value);
        let high = (debited.balance_of(to) + value) as Balance;
        lemma_total_insert(debited.balances, to, high);
    }
}

} // verus!
