//! The token: a ledger held in memory.

use vstd::prelude::*;
use crate::account::AccountId;
use crate::account::Balance;
use crate::error::PSP22Error;
use crate::events::Approval;
use crate::events::Transfer;
use crate::ledger::AllowanceKey;
use crate::ledger::Ledger;
use crate::psp22::PSP22Metadata;
use crate::psp22::PSP22;
use crate::store::keys_distinct;
use crate::store::lemma_map_of_domain;
use crate::store::map_of;
use crate::store::Store;
use crate::supply::lemma_total_empty;

verus! {

/// The Real Estate DAO token.
pub struct RedToken {
    admin: AccountId,
    total_supply: Balance,
    balances: Store<AccountId>,
    allowances: Store<AllowanceKey>,
    token_name: String,
    token_symbol: String,
    token_decimals: u8,
}

impl View for RedToken {
    type V = Ledger;

    closed spec fn view(&self) -> Ledger {
        Ledger {
            admin: self.admin,
            total_supply: self.total_supply,
            balances: self.balances@,
            allowances: self.allowances@,
            token_name: self.token_name@,
            token_symbol: self.token_symbol@,
            token_decimals: self.token_decimals,
        }
    }
}

/// The state of a token as plain data, for a host to keep between calls.
///
/// Where a list names a key twice, the later entry counts.
pub struct Snapshot {
    pub admin: AccountId,
    pub total_supply: Balance,
    pub balances: Vec<(AccountId, Balance)>,
    pub allowances: Vec<(AllowanceKey, Balance)>,
    pub token_name: String,
    pub token_symbol: String,
    pub token_decimals: u8,
}

impl View for Snapshot {
    type V = Ledger;

    open spec fn view(&self) -> Ledger {
        Ledger {
            admin: self.admin,
            total_supply: self.total_supply,
            balances: map_of(self.balances@),
            allowances: map_of(self.allowances@),
            token_name: self.token_name@,
            token_symbol: self.token_symbol@,
            token_decimals: self.token_decimals,
        }
    }
}

impl RedToken {
    #[verifier::type_invariant]
    spec fn inv(&self) -> bool {
        &&& self.balances.wf()
        &&& self.allowances.wf()
        &&& self@.wf()
    }

    /// Creates the token with `init_supply` tokens, all of them held by
    /// `admin`.
    pub fn new(init_supply: Balance, admin: AccountId, token_decimals: u8) -> (token: Self)
        ensures
            token@.wf(),
            token@ == Ledger::initial(init_supply, admin, token_decimals),
    {
        let mut balances: Store<AccountId> = Store::new();
        balances.set(admin, init_supply);
        let allowances: Store<AllowanceKey> = Store::new();
        proof {
            Ledger::lemma_initial(init_supply, admin, token_decimals);
            allowances.lemma_listing();
        }
        RedToken {
            admin,
            total_supply: init_supply,
            balances,
            allowances,
            token_name: String::from_str("Real Estate DAO"),
            token_symbol: String::from_str("RED"),
            token_decimals,
        }
    }

    /// The account that received the supply at construction.
    pub fn admin(&self) -> (admin: AccountId)
        ensures
            admin == self@.admin,
    {
        self.admin
    }

    /// The token's state as plain data. No list of it names a key twice.
    pub fn snapshot(&self) -> (snapshot: Snapshot)
        ensures
            self@.wf(),
            snapshot@ == self@,
            keys_distinct(snapshot.balances@),
            keys_distinct(snapshot.allowances@),
    {
        proof {
            use_type_invariant(self);
            self.balances.lemma_listing();
            self.allowances.lemma_listing();
        }
        Snapshot {
            admin: self.admin,
            total_supply: self.total_supply,
            balances: self.balances.to_listing(),
            allowances: self.allowances.to_listing(),
            token_name: self.token_name.clone(),
            token_symbol: self.token_symbol.clone(),
            token_decimals: self.token_decimals,
        }
    }

    /// The token with the state that `snapshot` describes, unless its
    /// balances add up to more than its supply.
    pub fn restore(snapshot: Snapshot) -> (restored: Option<Self>)
        ensures
            match restored {
                Some(token) => snapshot@.wf() && token@ == snapshot@,
                None => !snapshot@.wf(),
            },
    {
        let balances: Store<AccountId> = Store::from_listing(&snapshot.balances);
        let allowances: Store<AllowanceKey> = Store::from_listing(&snapshot.allowances);
        proof {
            lemma_map_of_domain(snapshot.balances@);
            lemma_map_of_domain(snapshot.allowances@);
        }
        if !balances.total_within(snapshot.total_supply) {
            return None;
        }
        Some(
            RedToken {
                admin: snapshot.admin,
                total_supply: snapshot.total_supply,
                balances,
                allowances,
                token_name: snapshot.token_name,
                token_symbol: snapshot.token_symbol,
                token_decimals: snapshot.token_decimals,
            },
        )
    }

    /// Overwrites `owner`'s balance.
    fn set_balance(&mut self, owner: AccountId, amount: Balance)
        requires
            old(self)@.set_balance(owner, amount).circulating() <= old(self)@.total_supply,
        ensures
            final(self)@ == old(self)@.set_balance(owner, amount),
    {
        proof {
            use_type_invariant(&*self);
            lemma_total_empty::<AccountId>();
            self.balances.lemma_listing();
        }
        let mut balances: Store<AccountId> = Store::new();
        std::mem::swap(&mut self.balances, &mut balances);
        balances.set(owner, amount);
        proof {
            balances.lemma_listing();
        }
        self.balances = balances;
    }

    /// Overwrites `spender`'s allowance from `owner`.
    fn set_allowance(&mut self, owner: AccountId, spender: AccountId, amount: Balance)
        ensures
            final(self)@ == old(self)@.set_allowance(owner, spender, amount),
    {
        proof {
            use_type_invariant(&*self);
            self.allowances.lemma_listing();
        }
        let mut allowances: Store<AllowanceKey> = Store::new();
        proof {
            allowances.lemma_listing();
        }
        std::mem::swap(&mut self.allowances, &mut allowances);
        allowances.set(AllowanceKey { owner, spender }, amount);
        proof {
            allowances.lemma_listing();
        }
        self.allowances = allowances;
    }
}

/// The operations of the token. Their contracts are those that `PSP22`
/// states, over the ledger that the token holds.
impl PSP22 for RedToken {
    fn total_supply(&self) -> (supply: Balance) {
        proof {
            use_type_invariant(self);
        }
        self.total_supply
    }

    fn balance_of(&self, owner: AccountId) -> (balance: Balance) {
        proof {
            use_type_invariant(self);
        }
        match self.balances.get(&owner) {
            Some(amount) => amount,
            None => 0,
        }
    }

    fn allowance(&self, owner: AccountId, spender: AccountId) -> (allowance: Balance) {
        proof {
            use_type_invariant(self);
        }
        match self.allowances.get(&AllowanceKey { owner, spender }) {
            Some(amount) => amount,
            None => 0,
        }
    }

    fn transfer(
        &mut self,
        caller: AccountId,
        to: AccountId,
        value: Balance,
        data: Vec<u8>,
        to_is_contract: bool,
    ) -> (result: Result<Transfer, PSP22Error>) {
        proof {
            use_type_invariant(&*self);
        }
        let sender_balance = self.balance_of(caller);
        if sender_balance <= value {
            return Err(PSP22Error::InsufficientBalance);
        }
        if caller.is_zero() {
            return Err(PSP22Error::ZeroSenderAddress);
        }
        if to.is_zero() {
            return Err(PSP22Error::ZeroRecipientAddress);
        }
        if to_is_contract {
            let account = to.debug_string();
            return Err(PSP22Error::contract_recipient(account.as_str()));
        }
        proof {
            self@.lemma_move(caller, to, value);
        }
        self.set_balance(caller, sender_balance - value);
        let recipient_balance = self.balance_of(to);
        self.set_balance(to, recipient_balance + value);
        Ok(Transfer { from: Some(caller), to: Some(to), value, data })
    }

    fn transfer_from(
        &mut self,
        caller: AccountId,
        from: AccountId,
        to: AccountId,
        value: Balance,
        data: Vec<u8>,
    ) -> (result: Result<(Transfer, Approval), PSP22Error>) {
        proof {
            use_type_invariant(&*self);
        }
        let allowance = self.allowance(from, caller);
        if allowance < value {
            return Err(PSP22Error::InsufficientBalance);
        }
        let from_balance = self.balance_of(from);
        if from_balance < value {
            return Err(PSP22Error::InsufficientBalance);
        }
        if from.is_zero() {
            return Err(PSP22Error::ZeroSenderAddress);
        }
        if to.is_zero() {
            return Err(PSP22Error::ZeroRecipientAddress);
        }
        proof {
            self@.lemma_move(from, to, value);
        }
        self.set_balance(from, from_balance - value);
        let to_balance = self.balance_of(to);
        self.set_balance(to, to_balance + value);
        let transfer = Transfer { from: Some(from), to: Some(to), value, data: data.clone() };
        let approval = Approval { owner: from, spender: caller, value, data };
        Ok((transfer, approval))
    }

    fn approve(&mut self, caller: AccountId, spender: AccountId, value: Balance) -> (result: Result<
        Approval,
        PSP22Error,
    >) {
        proof {
            use_type_invariant(&*self);
        }
        if caller.is_zero() {
            return Err(PSP22Error::ZeroSenderAddress);
        }
        if spender.is_zero() {
            return Err(PSP22Error::ZeroRecipientAddress);
        }
        self.set_allowance(caller, spender, value);
        Ok(Approval { owner: caller, spender, value, data: Vec::new() })
    }

    fn increase_allowance(
        &mut self,
        caller: AccountId,
        spender: AccountId,
        delta_value: Balance,
    ) -> (result: Result<Approval, PSP22Error>) {
        proof {
            use_type_invariant(&*self);
        }
        if caller.is_zero() {
            return Err(PSP22Error::ZeroSenderAddress);
        }
        if spender.is_zero() {
            return Err(PSP22Error::ZeroRecipientAddress);
        }
        let current_allowance = self.allowance(caller, spender);
        match current_allowance.checked_add(delta_value) {
            Some(raised) => {
                self.set_allowance(caller, spender, raised);
                Ok(Approval { owner: caller, spender, value: delta_value, data: Vec::new() })
            },
            None => Err(PSP22Error::allowance_overflow()),
        }
    }

    fn decrease_allowance(
        &mut self,
        caller: AccountId,
        spender: AccountId,
        delta_value: Balance,
    ) -> (result: Result<Approval, PSP22Error>) {
        proof {
            use_type_invariant(&*self);
        }
        let current_allowance = self.allowance(caller, spender);
        if current_allowance < delta_value {
            return Err(PSP22Error::InsufficientAllowance);
        }
        if caller.is_zero() {
            return Err(PSP22Error::ZeroSenderAddress);
        }
        if spender.is_zero() {
            return Err(PSP22Error::ZeroRecipientAddress);
        }
        self.set_allowance(caller, spender, current_allowance - delta_value);
        Ok(Approval { owner: caller, spender, value: delta_value, data: Vec::new() })
    }
}

/// The token's description, as `PSP22Metadata` states it.
impl PSP22Metadata for RedToken {
    fn token_name(&self) -> (name: Option<String>) {
        Some(self.token_name.clone())
    }

    fn token_symbol(&self) -> (symbol: Option<String>) {
        Some(self.token_symbol.clone())
    }

    fn token_decimals(&self) -> (decimals: u8) {
        self.token_decimals
    }
}

} // verus!
