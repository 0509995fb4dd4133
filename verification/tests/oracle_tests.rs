use service_provider::oracle::{CommunityInfo, CommunityOracle, DEFAULT_TOKENS_AMOUNT};
use service_provider::types::{Address, TransferFrom};

fn genesis() -> Address {
    Address([7; 20])
}

fn minting_tx(to: Address, amount: u64) -> TransferFrom {
    TransferFrom {
        from: genesis(),
        to,
        amount,
        nonce: 0,
        to_nonce: 0,
        valid_from: 0,
        valid_until: 0,
    }
}

#[test]
fn community_info_keeps_its_fields() {
    let info = CommunityInfo::new(3, "BOOK".to_owned());
    assert_eq!(info.token_id, 3);
    assert_eq!(info.token_symbol, "BOOK");
}

#[test]
fn known_community_gets_its_token_grant() {
    let oracle = CommunityOracle::new(genesis());
    let grant = oracle.tokens_for_user("TestCommunity").unwrap();
    assert_eq!(grant.token, "ETH");
    assert_eq!(grant.amount, DEFAULT_TOKENS_AMOUNT);
}

#[test]
fn unknown_community_is_rejected() {
    let oracle = CommunityOracle::new(genesis());
    let err = oracle.tokens_for_user("Nowhere").unwrap_err();
    assert_eq!(err.error_description, "Invalid community");
}

#[test]
fn minting_approval_accepts_a_correct_grant() {
    let oracle = CommunityOracle::new(genesis());
    let user = Address([8; 20]);
    let tx = minting_tx(user, DEFAULT_TOKENS_AMOUNT);
    assert!(oracle.is_minting_transaction_correct(&tx, &user));
    assert!(oracle.check_minting_request("TestCommunity", &tx, &user).is_ok());
}

#[test]
fn minting_approval_rejects_wrong_amount_or_recipient() {
    let oracle = CommunityOracle::new(genesis());
    let user = Address([8; 20]);
    let wrong_amount = minting_tx(user, DEFAULT_TOKENS_AMOUNT + 1);
    assert!(!oracle.is_minting_transaction_correct(&wrong_amount, &user));
    let err = oracle.check_minting_request("TestCommunity", &wrong_amount, &user).unwrap_err();
    assert_eq!(err.error_description, "Incorrect minting tx");
    let to_someone_else = minting_tx(Address([9; 20]), DEFAULT_TOKENS_AMOUNT);
    let err = oracle.check_minting_request("TestCommunity", &to_someone_else, &user).unwrap_err();
    assert_eq!(err.error_description, "Incorrect minting tx");
}

#[test]
fn minting_approval_rejects_unknown_community_first() {
    let oracle = CommunityOracle::new(genesis());
    let user = Address([8; 20]);
    let tx = minting_tx(user, DEFAULT_TOKENS_AMOUNT);
    let err = oracle.check_minting_request("Nowhere", &tx, &user).unwrap_err();
    assert_eq!(err.error_description, "Invalid community");
}

#[test]
fn related_communities_lists_the_builtin() {
    let oracle = CommunityOracle::new(genesis());
    let related = oracle.related_communities();
    assert_eq!(related.communities, vec!["TestCommunity".to_owned()]);
    assert_eq!(oracle.genesis_wallet_address().0, [7; 20]);
}
