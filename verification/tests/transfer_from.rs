use red_token::AccountId;
use red_token::Approval;
use red_token::PSP22Error;
use red_token::RedToken;
use red_token::Transfer;
use red_token::PSP22;

fn account(byte: u8) -> AccountId {
    AccountId::from([byte; 32])
}

fn null() -> AccountId {
    AccountId::from([0u8; 32])
}

#[test]
fn delegated_transfer_moves_the_amount_and_keeps_the_allowance() {
    let a = account(1);
    let c = account(3);
    let d = account(4);
    let mut token = RedToken::new(1000, a, 0);
    token.approve(a, c, 50).unwrap();
    let events = token.transfer_from(c, a, d, 30, vec![]);
    assert_eq!(
        events,
        Ok((
            Transfer { from: Some(a), to: Some(d), value: 30, data: vec![] },
            Approval { owner: a, spender: c, value: 30, data: vec![] },
        ))
    );
    assert_eq!(token.balance_of(d), 30);
    assert_eq!(token.balance_of(a), 970);
    assert_eq!(token.allowance(a, c), 50);
}

#[test]
fn an_allowance_can_be_drawn_on_again_and_again() {
    let a = account(1);
    let c = account(3);
    let d = account(4);
    let mut token = RedToken::new(1000, a, 0);
    token.approve(a, c, 50).unwrap();
    token.transfer_from(c, a, d, 50, vec![]).unwrap();
    token.transfer_from(c, a, d, 50, vec![]).unwrap();
    assert_eq!(token.balance_of(d), 100);
    assert_eq!(token.balance_of(a), 900);
    assert_eq!(token.allowance(a, c), 50);
}

#[test]
fn delegated_transfer_reports_the_data_twice() {
    let a = account(1);
    let c = account(3);
    let d = account(4);
    let mut token = RedToken::new(1000, a, 0);
    token.approve(a, c, 50).unwrap();
    let (transfer, approval) = token.transfer_from(c, a, d, 5, vec![1, 2, 3]).unwrap();
    assert_eq!(transfer.data, vec![1, 2, 3]);
    assert_eq!(approval.data, vec![1, 2, 3]);
}

#[test]
fn delegated_transfer_beyond_the_allowance_is_refused_as_a_balance_error() {
    let a = account(1);
    let c = account(3);
    let d = account(4);
    let mut token = RedToken::new(1000, a, 0);
    token.approve(a, c, 50).unwrap();
    assert_eq!(
        token.transfer_from(c, a, d, 51, vec![]),
        Err(PSP22Error::InsufficientBalance)
    );
    assert_eq!(
        token.transfer_from(d, a, c, 1, vec![]),
        Err(PSP22Error::InsufficientBalance)
    );
    assert_eq!(token.balance_of(a), 1000);
    assert_eq!(token.balance_of(c), 0);
    assert_eq!(token.balance_of(d), 0);
    assert_eq!(token.allowance(a, c), 50);
}

#[test]
fn delegated_transfer_beyond_the_balance_is_refused() {
    let a = account(1);
    let b = account(2);
    let c = account(3);
    let mut token = RedToken::new(1000, a, 0);
    token.transfer(a, b, 20, vec![], false).unwrap();
    token.approve(b, c, 50).unwrap();
    assert_eq!(
        token.transfer_from(c, b, a, 21, vec![]),
        Err(PSP22Error::InsufficientBalance)
    );
    assert_eq!(token.balance_of(b), 20);
    assert_eq!(token.balance_of(a), 980);
}

#[test]
fn delegated_transfer_may_take_the_whole_balance() {
    let a = account(1);
    let b = account(2);
    let c = account(3);
    let mut token = RedToken::new(1000, a, 0);
    token.transfer(a, b, 20, vec![], false).unwrap();
    token.approve(b, c, 20).unwrap();
    token.transfer_from(c, b, c, 20, vec![]).unwrap();
    assert_eq!(token.balance_of(b), 0);
    assert_eq!(token.balance_of(c), 20);
}

#[test]
fn delegated_transfer_from_the_null_account_is_refused() {
    let a = account(1);
    let c = account(3);
    let mut token = RedToken::new(1000, a, 0);
    assert_eq!(
        token.transfer_from(c, null(), a, 0, vec![]),
        Err(PSP22Error::ZeroSenderAddress)
    );
    assert_eq!(
        token.transfer_from(c, null(), null(), 0, vec![]),
        Err(PSP22Error::ZeroSenderAddress)
    );
    assert_eq!(
        token.transfer_from(c, null(), a, 1, vec![]),
        Err(PSP22Error::InsufficientBalance)
    );
    assert_eq!(token.balance_of(a), 1000);
}

#[test]
fn delegated_transfer_to_the_null_account_is_refused() {
    let a = account(1);
    let c = account(3);
    let mut token = RedToken::new(1000, a, 0);
    token.approve(a, c, 50).unwrap();
    assert_eq!(
        token.transfer_from(c, a, null(), 30, vec![]),
        Err(PSP22Error::ZeroRecipientAddress)
    );
    assert_eq!(token.balance_of(a), 1000);
    assert_eq!(token.balance_of(null()), 0);
    assert_eq!(token.allowance(a, c), 50);
}

#[test]
fn delegated_transfer_to_the_owner_leaves_the_balance() {
    let a = account(1);
    let c = account(3);
    let mut token = RedToken::new(1000, a, 0);
    token.approve(a, c, 50).unwrap();
    token.transfer_from(c, a, a, 50, vec![]).unwrap();
    assert_eq!(token.balance_of(a), 1000);
}
