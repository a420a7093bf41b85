// Tests of the registry's operation surface: initialize, mint, transfer,
// trade with escrow, burn, and the read accessors. Principals are opaque
// 64-bit identities; the `approvals` argument plays the authorization
// oracle, listing every principal that approved the call.

use rwa_token::{Error, RwaToken};

#[test]
fn test_initialize() {
    let mut reg = RwaToken::new();
    let admin: u64 = 1;
    let approvals = vec![admin];

    reg.initialize(admin, &approvals).unwrap();

    // Verify admin is set
    let stored_admin = reg.get_admin();
    assert_eq!(stored_admin, Some(admin));
}

#[test]
fn test_mint_rwa() {
    let mut reg = RwaToken::new();
    let admin: u64 = 1;
    let owner: u64 = 2;
    let approvals = vec![admin, owner];

    // Initialize
    reg.initialize(admin, &approvals).unwrap();

    // Mint token
    let metadata = String::from("QmTestIPFSHash123");
    let yield_data = 1000u128;
    let token_id = reg
        .mint_rwa(metadata.clone(), owner, yield_data, &approvals)
        .unwrap();

    assert_eq!(token_id, 0u64);

    // Verify token data
    let token = reg.get_token(token_id).unwrap();
    assert_eq!(token.owner, owner);
    assert_eq!(token.ipfs_hash, metadata);
    assert_eq!(token.yield_data, yield_data);
    assert!(token.is_active);
}

#[test]
fn test_transfer() {
    let mut reg = RwaToken::new();
    let admin: u64 = 1;
    let owner: u64 = 2;
    let new_owner: u64 = 3;
    let approvals = vec![admin, owner, new_owner];

    // Initialize and mint
    reg.initialize(admin, &approvals).unwrap();
    let metadata = String::from("QmTestIPFSHash123");
    let token_id = reg
        .mint_rwa(metadata, owner, 1000u128, &approvals)
        .unwrap();

    // Transfer
    reg.transfer(token_id, new_owner, &approvals).unwrap();

    // Verify new owner
    let token = reg.get_token(token_id).unwrap();
    assert_eq!(token.owner, new_owner);
}

#[test]
fn test_trade_with_escrow() {
    let mut reg = RwaToken::new();
    let admin: u64 = 1;
    let seller: u64 = 2;
    let buyer: u64 = 3;
    let approvals = vec![admin, seller, buyer];

    // Initialize and mint
    reg.initialize(admin, &approvals).unwrap();
    let metadata = String::from("QmTestIPFSHash123");
    let yield_data = 1000u128;
    let token_id = reg
        .mint_rwa(metadata, seller, yield_data, &approvals)
        .unwrap();

    // Trade with sufficient escrow
    let escrow_amount = 2000u128;
    reg.trade_with_escrow(token_id, buyer, escrow_amount, &approvals)
        .unwrap();

    // Verify new owner
    let token = reg.get_token(token_id).unwrap();
    assert_eq!(token.owner, buyer);

    // Verify escrow
    let escrow = reg.get_escrow(token_id).unwrap();
    assert_eq!(escrow, escrow_amount);
}

#[test]
fn test_burn() {
    let mut reg = RwaToken::new();
    let admin: u64 = 1;
    let owner: u64 = 2;
    let approvals = vec![admin, owner];

    // Initialize and mint
    reg.initialize(admin, &approvals).unwrap();
    let metadata = String::from("QmTestIPFSHash123");
    let token_id = reg
        .mint_rwa(metadata, owner, 1000u128, &approvals)
        .unwrap();

    // Burn
    reg.burn(token_id, &approvals).unwrap();

    // Verify token is inactive
    let token = reg.get_token(token_id).unwrap();
    assert!(!token.is_active);
}

#[test]
fn test_trade_insufficient_escrow() {
    let mut reg = RwaToken::new();
    let admin: u64 = 1;
    let seller: u64 = 2;
    let buyer: u64 = 3;
    let approvals = vec![admin, seller, buyer];

    // Initialize and mint
    reg.initialize(admin, &approvals).unwrap();
    let metadata = String::from("QmTestIPFSHash123");
    let yield_data = 1000u128;
    let token_id = reg
        .mint_rwa(metadata, seller, yield_data, &approvals)
        .unwrap();

    // Try to trade with insufficient escrow
    let escrow_amount = 500u128; // Less than yield_data
    let result = reg.trade_with_escrow(token_id, buyer, escrow_amount, &approvals);
    assert_eq!(result, Err(Error::InsufficientEscrow));
}
