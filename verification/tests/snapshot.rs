use red_token::AccountId;
use red_token::AllowanceKey;
use red_token::PSP22Metadata;
use red_token::RedToken;
use red_token::Snapshot;
use red_token::PSP22;

fn account(byte: u8) -> AccountId {
    AccountId::from([byte; 32])
}

fn plain(balances: Vec<(AccountId, u128)>, total_supply: u128) -> Snapshot {
    Snapshot {
        admin: account(1),
        total_supply,
        balances,
        allowances: vec![],
        token_name: "Real Estate DAO".to_string(),
        token_symbol: "RED".to_string(),
        token_decimals: 2,
    }
}

#[test]
fn a_snapshot_lists_what_the_token_holds() {
    let a = account(1);
    let b = account(2);
    let mut token = RedToken::new(1000, a, 6);
    token.transfer(a, b, 100, vec![], false).unwrap();
    token.approve(b, a, 40).unwrap();
    let snapshot = token.snapshot();
    assert_eq!(snapshot.admin, a);
    assert_eq!(snapshot.total_supply, 1000);
    assert_eq!(snapshot.balances, vec![(a, 900), (b, 100)]);
    assert_eq!(
        snapshot.allowances,
        vec![(AllowanceKey { owner: b, spender: a }, 40)]
    );
    assert_eq!(snapshot.token_name, "Real Estate DAO");
    assert_eq!(snapshot.token_symbol, "RED");
    assert_eq!(snapshot.token_decimals, 6);
}

#[test]
fn a_restored_token_answers_as_the_token_it_was_taken_from() {
    let a = account(1);
    let b = account(2);
    let mut token = RedToken::new(1000, a, 6);
    token.transfer(a, b, 100, vec![], false).unwrap();
    token.approve(b, a, 40).unwrap();
    let mut restored = RedToken::restore(token.snapshot()).unwrap();
    assert_eq!(restored.admin(), a);
    assert_eq!(restored.total_supply(), 1000);
    assert_eq!(restored.balance_of(a), 900);
    assert_eq!(restored.balance_of(b), 100);
    assert_eq!(restored.allowance(b, a), 40);
    assert_eq!(restored.allowance(a, b), 0);
    assert_eq!(restored.token_name(), Some("Real Estate DAO".to_string()));
    assert_eq!(restored.token_symbol(), Some("RED".to_string()));
    assert_eq!(restored.token_decimals(), 6);
    restored.transfer_from(a, b, a, 40, vec![]).unwrap();
    assert_eq!(restored.balance_of(a), 940);
    assert_eq!(restored.balance_of(b), 60);
}

#[test]
fn balances_above_the_supply_are_not_restored() {
    assert!(RedToken::restore(plain(vec![(account(1), 600), (account(2), 401)], 1000)).is_none());
    assert!(RedToken::restore(plain(vec![(account(1), 600), (account(2), 400)], 1000)).is_some());
    assert!(RedToken::restore(plain(vec![(account(1), 1)], 0)).is_none());
    assert!(RedToken::restore(plain(vec![], 0)).is_some());
    assert!(
        RedToken::restore(plain(
            vec![(account(1), u128::MAX), (account(2), u128::MAX)],
            u128::MAX
        ))
        .is_none()
    );
}

#[test]
fn balances_below_the_supply_are_restored() {
    let token = RedToken::restore(plain(vec![(account(1), 10), (account(2), 20)], 1000)).unwrap();
    assert_eq!(token.balance_of(account(1)), 10);
    assert_eq!(token.balance_of(account(2)), 20);
    assert_eq!(token.total_supply(), 1000);
}

#[test]
fn a_later_entry_counts_where_a_key_is_listed_twice() {
    let a = account(1);
    let b = account(2);
    let token =
        RedToken::restore(plain(vec![(a, 900), (b, 50), (a, 100)], 150)).unwrap();
    assert_eq!(token.balance_of(a), 100);
    assert_eq!(token.balance_of(b), 50);
    assert_eq!(token.snapshot().balances, vec![(a, 100), (b, 50)]);
    let mut snapshot = plain(vec![(a, 1)], 1);
    snapshot.allowances = vec![
        (AllowanceKey { owner: a, spender: b }, 5),
        (AllowanceKey { owner: a, spender: b }, 7),
    ];
    let token = RedToken::restore(snapshot).unwrap();
    assert_eq!(token.allowance(a, b), 7);
}
