use red_token::AccountId;
use red_token::Approval;
use red_token::PSP22Error;
use red_token::RedToken;
use red_token::PSP22;

fn account(byte: u8) -> AccountId {
    AccountId::from([byte; 32])
}

fn null() -> AccountId {
    AccountId::from([0u8; 32])
}

#[test]
fn approve_sets_the_allowance_exactly() {
    let a = account(1);
    let s = account(2);
    let mut token = RedToken::new(1000, a, 0);
    assert_eq!(
        token.approve(a, s, 70),
        Ok(Approval { owner: a, spender: s, value: 70, data: vec![] })
    );
    assert_eq!(token.allowance(a, s), 70);
    token.approve(a, s, 20).unwrap();
    assert_eq!(token.allowance(a, s), 20);
    token.approve(a, s, 0).unwrap();
    assert_eq!(token.allowance(a, s), 0);
    assert_eq!(token.allowance(s, a), 0);
    assert_eq!(token.balance_of(a), 1000);
}

#[test]
fn approve_may_exceed_the_balance() {
    let a = account(1);
    let s = account(2);
    let mut token = RedToken::new(10, a, 0);
    token.approve(s, a, u128::MAX).unwrap();
    assert_eq!(token.allowance(s, a), u128::MAX);
}

#[test]
fn approve_with_the_null_account_is_refused() {
    let a = account(1);
    let s = account(2);
    let mut token = RedToken::new(1000, a, 0);
    token.approve(a, s, 5).unwrap();
    assert_eq!(token.approve(null(), s, 9), Err(PSP22Error::ZeroSenderAddress));
    assert_eq!(token.approve(a, null(), 9), Err(PSP22Error::ZeroRecipientAddress));
    assert_eq!(token.approve(null(), null(), 9), Err(PSP22Error::ZeroSenderAddress));
    assert_eq!(token.allowance(null(), s), 0);
    assert_eq!(token.allowance(a, null()), 0);
    assert_eq!(token.allowance(null(), null()), 0);
    assert_eq!(token.allowance(a, s), 5);
    assert_eq!(token.balance_of(a), 1000);
}

#[test]
fn increase_adds_to_the_allowance_and_reports_the_raise() {
    let a = account(1);
    let s = account(2);
    let mut token = RedToken::new(1000, a, 0);
    assert_eq!(
        token.increase_allowance(a, s, 30),
        Ok(Approval { owner: a, spender: s, value: 30, data: vec![] })
    );
    assert_eq!(token.allowance(a, s), 30);
    assert_eq!(
        token.increase_allowance(a, s, 12),
        Ok(Approval { owner: a, spender: s, value: 12, data: vec![] })
    );
    assert_eq!(token.allowance(a, s), 42);
}

#[test]
fn increase_with_the_null_account_is_refused() {
    let a = account(1);
    let s = account(2);
    let mut token = RedToken::new(1000, a, 0);
    assert_eq!(
        token.increase_allowance(null(), s, 9),
        Err(PSP22Error::ZeroSenderAddress)
    );
    assert_eq!(
        token.increase_allowance(a, null(), 9),
        Err(PSP22Error::ZeroRecipientAddress)
    );
    assert_eq!(
        token.increase_allowance(null(), null(), 9),
        Err(PSP22Error::ZeroSenderAddress)
    );
    assert_eq!(token.allowance(null(), s), 0);
    assert_eq!(token.allowance(a, null()), 0);
}

#[test]
fn increase_beyond_the_largest_amount_is_refused() {
    let a = account(1);
    let s = account(2);
    let mut token = RedToken::new(1000, a, 0);
    token.approve(a, s, u128::MAX - 1).unwrap();
    assert_eq!(
        token.increase_allowance(a, s, 2),
        Err(PSP22Error::Custom("allowance overflow".to_string()))
    );
    assert_eq!(token.allowance(a, s), u128::MAX - 1);
    token.increase_allowance(a, s, 1).unwrap();
    assert_eq!(token.allowance(a, s), u128::MAX);
    assert_eq!(
        token.increase_allowance(a, s, 1),
        Err(PSP22Error::Custom("allowance overflow".to_string()))
    );
    token.increase_allowance(a, s, 0).unwrap();
    assert_eq!(token.allowance(a, s), u128::MAX);
}

#[test]
fn decrease_takes_from_the_allowance_and_reports_the_cut() {
    let a = account(1);
    let s = account(2);
    let mut token = RedToken::new(1000, a, 0);
    token.approve(a, s, 50).unwrap();
    assert_eq!(
        token.decrease_allowance(a, s, 20),
        Ok(Approval { owner: a, spender: s, value: 20, data: vec![] })
    );
    assert_eq!(token.allowance(a, s), 30);
    token.decrease_allowance(a, s, 30).unwrap();
    assert_eq!(token.allowance(a, s), 0);
}

#[test]
fn decrease_beyond_the_allowance_is_refused() {
    let a = account(1);
    let s = account(2);
    let mut token = RedToken::new(1000, a, 0);
    token.approve(a, s, 50).unwrap();
    assert_eq!(
        token.decrease_allowance(a, s, 51),
        Err(PSP22Error::InsufficientAllowance)
    );
    assert_eq!(
        token.decrease_allowance(s, a, 1),
        Err(PSP22Error::InsufficientAllowance)
    );
    assert_eq!(token.allowance(a, s), 50);
}

#[test]
fn decrease_checks_the_allowance_before_the_addresses() {
    let a = account(1);
    let s = account(2);
    let mut token = RedToken::new(1000, a, 0);
    assert_eq!(
        token.decrease_allowance(null(), s, 1),
        Err(PSP22Error::InsufficientAllowance)
    );
    assert_eq!(
        token.decrease_allowance(a, null(), 1),
        Err(PSP22Error::InsufficientAllowance)
    );
    assert_eq!(
        token.decrease_allowance(null(), s, 0),
        Err(PSP22Error::ZeroSenderAddress)
    );
    assert_eq!(
        token.decrease_allowance(a, null(), 0),
        Err(PSP22Error::ZeroRecipientAddress)
    );
    assert_eq!(
        token.decrease_allowance(null(), null(), 0),
        Err(PSP22Error::ZeroSenderAddress)
    );
}

#[test]
fn increase_then_decrease_restores_the_allowance() {
    let a = account(1);
    let s = account(2);
    let t = account(3);
    let mut token = RedToken::new(1000, a, 0);
    token.approve(a, s, 17).unwrap();
    token.approve(a, t, 4).unwrap();
    token.increase_allowance(a, s, 25).unwrap();
    assert_eq!(token.allowance(a, s), 42);
    token.decrease_allowance(a, s, 25).unwrap();
    assert_eq!(token.allowance(a, s), 17);
    assert_eq!(token.allowance(a, t), 4);
    token.increase_allowance(t, s, 9).unwrap();
    token.decrease_allowance(t, s, 9).unwrap();
    assert_eq!(token.allowance(t, s), 0);
    assert_eq!(token.balance_of(a), 1000);
}

#[test]
fn allowances_of_different_pairs_do_not_mix() {
    let a = account(1);
    let s = account(2);
    let t = account(3);
    let mut token = RedToken::new(1000, a, 0);
    token.approve(a, s, 1).unwrap();
    token.approve(s, a, 2).unwrap();
    token.approve(a, t, 3).unwrap();
    token.approve(a, a, 4).unwrap();
    assert_eq!(token.allowance(a, s), 1);
    assert_eq!(token.allowance(s, a), 2);
    assert_eq!(token.allowance(a, t), 3);
    assert_eq!(token.allowance(a, a), 4);
    assert_eq!(token.allowance(t, a), 0);
}
