//! What holds of every ledger and every call.
//!
//! The laws are stated over `Ledger`, the state that the contracts of the
//! token's operations speak of, so they hold of every token that meets
//! those contracts.

use vstd::prelude::*;
use crate::account::AccountId;
use crate::account::Balance;
use crate::error::PSP22ErrorView;
use crate::ledger::AllowanceKey;
use crate::ledger::Ledger;

verus! {

/// One call of an operation of the ledger, with its arguments.
pub enum Call {
    Transfer { caller: AccountId, to: AccountId, value: Balance, to_is_contract: bool },
    TransferFrom { caller: AccountId, from: AccountId, to: AccountId, value: Balance },
    Approve { caller: AccountId, spender: AccountId, value: Balance },
    IncreaseAllowance { caller: AccountId, spender: AccountId, delta: Balance },
    DecreaseAllowance { caller: AccountId, spender: AccountId, delta: Balance },
}

impl Ledger {
    /// What the call leads to: the next ledger, or the refusal.
    pub open spec fn outcome(self, call: Call) -> Result<Ledger, PSP22ErrorView> {
        match call {
            Call::Transfer { caller, to, value, to_is_contract } => self.transfer(
                caller,
                to,
                value,
                to_is_contract,
            ),
            Call::TransferFrom { caller, from, to, value } => self.transfer_from(
                caller,
                from,
                to,
                value,
            ),
            Call::Approve { caller, spender, value } => self.approve(caller, spender, value),
            Call::IncreaseAllowance { caller, spender, delta } => self.increase_allowance(
                caller,
                spender,
                delta,
            ),
            Call::DecreaseAllowance { caller, spender, delta } => self.decrease_allowance(
                caller,
                spender,
                delta,
            ),
        }
    }

    /// The ledger after the calls were made one after the other, the refused
    /// ones among them leaving it as it was.
    pub open spec fn run(self, calls: Seq<Call>) -> Ledger
        decreases calls.len(),
    {
        if calls.len() == 0 {
            self
        } else {
            let before = self.run(calls.drop_last());
            before.after(before.outcome(calls.last()))
        }
    }
}

/// No call creates or destroys tokens: after one call, refused or not, the
/// ledger is well formed again, the balances add up to what they added up to
/// before, and the supply and the token's description are what they were.
pub proof fn law_call_conserves(ledger: Ledger, call: Call)
    requires
        ledger.wf(),
    ensures
        ledger.after(ledger.outcome(call)).wf(),
        ledger.after(ledger.outcome(call)).circulating() == ledger.circulating(),
        ledger.after(ledger.outcome(call)).total_supply == ledger.total_supply,
        ledger.after(ledger.outcome(call)).admin == ledger.admin,
        ledger.after(ledger.outcome(call)).token_name == ledger.token_name,
        ledger.after(ledger.outcome(call)).token_symbol == ledger.token_symbol,
        ledger.after(ledger.outcome(call)).token_decimals == ledger.token_decimals,
{
    match call {
        Call::Transfer { caller, to, value, to_is_contract } => {
            if ledger.transfer(caller, to, value, to_is_contract) is Ok {
                ledger.lemma_move(caller, to, value);
            }
        },
        Call::TransferFrom { caller, from, to, value } => {
            if ledger.transfer_from(caller, from, to, value) is Ok {
                ledger.lemma_move(from, to, value);
            }
        },
        _ => {},
    }
}

/// Conservation: whatever calls are made, in whatever order, the balances
/// keep adding up to what they added up to at the start, and the supply
/// never changes.
pub proof fn law_conservation(ledger: Ledger, calls: Seq<Call>)
    requires
        ledger.wf(),
    ensures
        ledger.run(calls).wf(),
        ledger.run(calls).circulating() == ledger.circulating(),
        ledger.run(calls).total_supply == ledger.total_supply,
    decreases calls.len(),
{
    if calls.len() > 0 {
        law_conservation(ledger, calls.drop_last());
        law_call_conserves(ledger.run(calls.drop_last()), calls.last());
    }
}

/// From construction on, the whole supply circulates: after any calls the
/// balances add up to the supply.
pub proof fn law_supply_circulates(
    total_supply: Balance,
    admin: AccountId,
    decimals: u8,
    calls: Seq<Call>,
)
    ensures
        Ledger::initial(total_supply, admin, decimals).run(calls).circulating() == total_supply,
{
    Ledger::lemma_initial(total_supply, admin, decimals);
    law_conservation(Ledger::initial(total_supply, admin, decimals), calls);
}

/// A transfer that names the null account as sender or as recipient is
/// refused and changes nothing. Where the sender holds more than `value`,
/// the refusal names the null end, the sender before the recipient.
pub proof fn law_transfer_rejects_null(
    ledger: Ledger,
    caller: AccountId,
    to: AccountId,
    value: Balance,
    to_is_contract: bool,
)
    requires
        caller.is_null() || to.is_null(),
    ensures
        ledger.transfer(caller, to, value, to_is_contract) is Err,
        ledger.after(ledger.transfer(caller, to, value, to_is_contract)) == ledger,
        ledger.balance_of(caller) > value ==> ledger.transfer(caller, to, value, to_is_contract)
            == Err::<Ledger, _>(
            if caller.is_null() {
                PSP22ErrorView::ZeroSenderAddress
            } else {
                PSP22ErrorView::ZeroRecipientAddress
            },
        ),
{
}

/// A delegated transfer that names the null account as sender or as
/// recipient is refused and changes nothing. Where the allowance and the
/// sender's balance cover `value`, the refusal names the null end, the
/// sender before the recipient.
pub proof fn law_transfer_from_rejects_null(
    ledger: Ledger,
    caller: AccountId,
    from: AccountId,
    to: AccountId,
    value: Balance,
)
    requires
        from.is_null() || to.is_null(),
    ensures
        ledger.transfer_from(caller, from, to, value) is Err,
        ledger.after(ledger.transfer_from(caller, from, to, value)) == ledger,
        ledger.allowance(from, caller) >= value && ledger.balance_of(from) >= value
            ==> ledger.transfer_from(caller, from, to, value) == Err::<Ledger, _>(
            if from.is_null() {
                PSP22ErrorView::ZeroSenderAddress
            } else {
                PSP22ErrorView::ZeroRecipientAddress
            },
        ),
{
}

/// Setting or raising an allowance with the null account as owner or as
/// spender is refused with the error that names the null end, the owner
/// before the spender, and changes nothing.
pub proof fn law_approve_rejects_null(
    ledger: Ledger,
    caller: AccountId,
    spender: AccountId,
    amount: Balance,
)
    requires
        caller.is_null() || spender.is_null(),
    ensures
        ledger.approve(caller, spender, amount) == Err::<Ledger, _>(
            if caller.is_null() {
                PSP22ErrorView::ZeroSenderAddress
            } else {
                PSP22ErrorView::ZeroRecipientAddress
            },
        ),
        ledger.increase_allowance(caller, spender, amount) == ledger.approve(
            caller,
            spender,
            amount,
        ),
        ledger.after(ledger.approve(caller, spender, amount)) == ledger,
        ledger.after(ledger.increase_allowance(caller, spender, amount)) == ledger,
{
}

/// Lowering an allowance with the null account as owner or as spender is
/// refused and changes nothing. Where the allowance covers `delta`, the
/// refusal names the null end, the owner before the spender.
pub proof fn law_decrease_rejects_null(
    ledger: Ledger,
    caller: AccountId,
    spender: AccountId,
    delta: Balance,
)
    requires
        caller.is_null() || spender.is_null(),
    ensures
        ledger.decrease_allowance(caller, spender, delta) is Err,
        ledger.after(ledger.decrease_allowance(caller, spender, delta)) == ledger,
        ledger.allowance(caller, spender) >= delta ==> ledger.decrease_allowance(
            caller,
            spender,
            delta,
        ) == Err::<Ledger, _>(
            if caller.is_null() {
                PSP22ErrorView::ZeroSenderAddress
            } else {
                PSP22ErrorView::ZeroRecipientAddress
            },
        ),
{
}

/// After an approval between accounts that are not null, the allowance is
/// exactly `value`, whatever it was before; every other allowance and every
/// balance is what it was.
pub proof fn law_approve_overwrites(
    ledger: Ledger,
    caller: AccountId,
    spender: AccountId,
    value: Balance,
)
    requires
        !caller.is_null(),
        !spender.is_null(),
    ensures
        ledger.approve(caller, spender, value) is Ok,
        ledger.after(ledger.approve(caller, spender, value)).allowance(caller, spender) == value,
        forall|owner: AccountId, other: AccountId|
            (owner != caller || other != spender) ==> #[trigger] ledger.after(
                ledger.approve(caller, spender, value),
            ).allowance(owner, other) == ledger.allowance(owner, other),
        ledger.after(ledger.approve(caller, spender, value)).balances == ledger.balances,
{
    let next = ledger.after(ledger.approve(caller, spender, value));
    assert forall|owner: AccountId, other: AccountId|
        (owner != caller || other != spender) implies #[trigger] next.allowance(owner, other)
        == ledger.allowance(owner, other) by {
        assert(AllowanceKey { owner, spender: other } != AllowanceKey { owner: caller, spender });
    }
}

/// Raising an allowance by `delta` and then lowering it by `delta` gives
/// every allowance the value that it had, and leaves the balances alone.
/// This is stated of the raises that succeed.
pub proof fn law_increase_then_decrease_restores(
    ledger: Ledger,
    caller: AccountId,
    spender: AccountId,
    delta: Balance,
)
    requires
        ledger.increase_allowance(caller, spender, delta) is Ok,
    ensures
        ledger.after(ledger.increase_allowance(caller, spender, delta)).decrease_allowance(
            caller,
            spender,
            delta,
        ) is Ok,
        forall|owner: AccountId, other: AccountId|
            #[trigger] ledger.after(ledger.increase_allowance(caller, spender, delta)).after(
                ledger.after(
                    ledger.increase_allowance(caller, spender, delta),
                ).decrease_allowance(caller, spender, delta),
            ).allowance(owner, other) == ledger.allowance(owner, other),
        ledger.after(ledger.increase_allowance(caller, spender, delta)).after(
            ledger.after(ledger.increase_allowance(caller, spender, delta)).decrease_allowance(
                caller,
                spender,
                delta,
            ),
        ).balances == ledger.balances,
{
    let raised = ledger.after(ledger.increase_allowance(caller, spender, delta));
    let restored = raised.after(raised.decrease_allowance(caller, spender, delta));
    assert forall|owner: AccountId, other: AccountId| #[trigger]
        restored.allowance(owner, other) == ledger.allowance(owner, other) by {
        if owner != caller || other != spender {
            assert(AllowanceKey { owner, spender: other } != AllowanceKey {
                owner: caller,
                spender,
            });
        }
    }
}

/// A transfer of as much as the caller holds, or of more, is refused for
/// want of funds, whatever else is wrong with it, and changes nothing.
pub proof fn law_transfer_needs_funds(
    ledger: Ledger,
    caller: AccountId,
    to: AccountId,
    value: Balance,
    to_is_contract: bool,
)
    requires
        value >= ledger.balance_of(caller),
    ensures
        ledger.transfer(caller, to, value, to_is_contract) == Err::<Ledger, _>(
            PSP22ErrorView::InsufficientBalance,
        ),
        ledger.after(ledger.transfer(caller, to, value, to_is_contract)) == ledger,
{
}

/// A delegated transfer that succeeds moves `value` from `from` to `to` and
/// leaves every allowance, the one it was made under included, as it was.
pub proof fn law_transfer_from_keeps_allowances(
    ledger: Ledger,
    caller: AccountId,
    from: AccountId,
    to: AccountId,
    value: Balance,
)
    requires
        ledger.wf(),
        ledger.transfer_from(caller, from, to, value) is Ok,
    ensures
        ledger.after(ledger.transfer_from(caller, from, to, value)).allowances
            == ledger.allowances,
        from != to ==> ledger.after(ledger.transfer_from(caller, from, to, value)).balance_of(from)
            == ledger.balance_of(from) - value,
        from != to ==> ledger.after(ledger.transfer_from(caller, from, to, value)).balance_of(to)
            == ledger.balance_of(to) + value,
        from == to ==> ledger.after(ledger.transfer_from(caller, from, to, value)).balance_of(from)
            == ledger.balance_of(from),
{
    ledger.lemma_move(from, to, value);
}

} // verus!
