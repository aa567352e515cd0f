use red_token::AccountId;
use red_token::PSP22Metadata;
use red_token::RedToken;
use red_token::PSP22;

#[test]
fn test_init() {
    let contract = RedToken::new(100_000, AccountId::from([0x01; 32]), 5u8);
    assert_eq!(
        contract.token_name().unwrap(),
        "Real Estate DAO".to_string()
    );
}

#[test]
fn metadata_is_fixed_at_construction() {
    let contract = RedToken::new(100_000, AccountId::from([0x01; 32]), 5u8);
    assert_eq!(contract.token_symbol(), Some("RED".to_string()));
    assert_eq!(contract.token_decimals(), 5);
    assert_eq!(contract.total_supply(), 100_000);
}

#[test]
fn metadata_survives_operations() {
    let admin = AccountId::from([0x01; 32]);
    let other = AccountId::from([0x02; 32]);
    let mut contract = RedToken::new(100_000, admin, 18u8);
    contract.transfer(admin, other, 10, vec![], false).unwrap();
    contract.approve(admin, other, 7).unwrap();
    assert_eq!(contract.token_name(), Some("Real Estate DAO".to_string()));
    assert_eq!(contract.token_symbol(), Some("RED".to_string()));
    assert_eq!(contract.token_decimals(), 18);
    assert_eq!(contract.total_supply(), 100_000);
}
