// Concrete instances of the registry's general laws: counting and id
// assignment over mint sequences, initialize-once, the escrow boundary, the
// burn/inactive interplay, authorization enforcement, and the event log.

use rwa_token::{Error, Event, RwaToken};

fn ids(reg: &RwaToken) -> (Option<u64>, u64) {
    (reg.get_admin(), reg.get_token_count())
}

#[test]
fn test_count_after_mints() {
    let mut reg = RwaToken::new();
    let admin: u64 = 1;
    let approvals = vec![admin];
    reg.initialize(admin, &approvals).unwrap();
    assert_eq!(reg.get_token_count(), 0);

    for i in 0..5u64 {
        let id = reg
            .mint_rwa(format!("Qm{}", i), 10 + i, 100u128, &approvals)
            .unwrap();
        // the i-th minted token (0-indexed) has id i
        assert_eq!(id, i);
        // after N successful mints the counter reads N
        assert_eq!(reg.get_token_count(), i + 1);
    }

    // later mints did not touch earlier records
    for i in 0..5u64 {
        let token = reg.get_token(i).unwrap();
        assert_eq!(token.ipfs_hash, format!("Qm{}", i));
        assert_eq!(token.owner, 10 + i);
        assert_eq!(token.yield_data, 100u128);
        assert!(token.is_active);
    }
}

#[test]
fn test_initialize_twice_fails() {
    let mut reg = RwaToken::new();
    let approvals = vec![1u64, 2u64, 3u64];
    reg.initialize(1, &approvals).unwrap();

    // intervening calls do not help
    let id = reg.mint_rwa(String::from("Qm1"), 2, 50u128, &approvals).unwrap();
    reg.transfer(id, 3, &approvals).unwrap();
    reg.burn(id, &approvals).unwrap();

    assert_eq!(reg.initialize(1, &approvals), Err(Error::AlreadyInitialized));
    assert_eq!(reg.initialize(9, &approvals), Err(Error::AlreadyInitialized));
    assert_eq!(reg.get_admin(), Some(1));
}

#[test]
fn test_mint_before_initialize() {
    let mut reg = RwaToken::new();
    let approvals = vec![1u64, 2u64];
    let r = reg.mint_rwa(String::from("Qm1"), 2, 50u128, &approvals);
    assert_eq!(r, Err(Error::NotInitialized));
    assert_eq!(reg.get_token_count(), 0);
    assert_eq!(reg.get_admin(), None);
}

#[test]
fn test_missing_token_rejected() {
    let mut reg = RwaToken::new();
    let approvals = vec![1u64, 2u64];
    reg.initialize(1, &approvals).unwrap();

    assert_eq!(reg.transfer(0, 2, &approvals), Err(Error::TokenNotFound));
    assert_eq!(
        reg.trade_with_escrow(0, 2, 1000u128, &approvals),
        Err(Error::TokenNotFound)
    );
    assert_eq!(reg.burn(0, &approvals), Err(Error::TokenNotFound));
    assert!(reg.get_token(0).is_err());
}

#[test]
fn test_burned_token_inactive() {
    let mut reg = RwaToken::new();
    let approvals = vec![1u64, 2u64, 3u64];
    reg.initialize(1, &approvals).unwrap();
    let id = reg.mint_rwa(String::from("Qm1"), 2, 10u128, &approvals).unwrap();
    reg.burn(id, &approvals).unwrap();

    assert_eq!(reg.transfer(id, 3, &approvals), Err(Error::TokenInactive));
    assert_eq!(
        reg.trade_with_escrow(id, 3, 1000u128, &approvals),
        Err(Error::TokenInactive)
    );
    // burn is not gated on is_active: a second burn succeeds again
    assert_eq!(reg.burn(id, &approvals), Ok(()));
    let token = reg.get_token(id).unwrap();
    assert_eq!(token.owner, 2);
    assert!(!token.is_active);
}

#[test]
fn test_trade_escrow_boundary() {
    let mut reg = RwaToken::new();
    let approvals = vec![1u64, 2u64, 3u64];
    reg.initialize(1, &approvals).unwrap();
    let id = reg.mint_rwa(String::from("Qm1"), 2, 1000u128, &approvals).unwrap();

    // one below the threshold: rejected, owner and escrow record unchanged
    let r = reg.trade_with_escrow(id, 3, 999u128, &approvals);
    assert_eq!(r, Err(Error::InsufficientEscrow));
    assert_eq!(reg.get_token(id).unwrap().owner, 2);
    assert_eq!(reg.get_escrow(id), None);

    // exactly the threshold: accepted
    reg.trade_with_escrow(id, 3, 1000u128, &approvals).unwrap();
    assert_eq!(reg.get_token(id).unwrap().owner, 3);
    assert_eq!(reg.get_escrow(id), Some(1000u128));
}

#[test]
fn test_escrow_overwritten_by_later_trade() {
    let mut reg = RwaToken::new();
    let approvals = vec![1u64, 2u64, 3u64, 4u64];
    reg.initialize(1, &approvals).unwrap();
    let id = reg.mint_rwa(String::from("Qm1"), 2, 100u128, &approvals).unwrap();

    reg.trade_with_escrow(id, 3, 150u128, &approvals).unwrap();
    assert_eq!(reg.get_escrow(id), Some(150u128));

    // a later trade overwrites, not accumulates
    reg.trade_with_escrow(id, 4, 300u128, &approvals).unwrap();
    assert_eq!(reg.get_escrow(id), Some(300u128));
    assert_eq!(reg.get_token(id).unwrap().owner, 4);
}

#[test]
fn test_zero_yield_accepts_zero_escrow() {
    let mut reg = RwaToken::new();
    let approvals = vec![1u64, 2u64, 3u64];
    reg.initialize(1, &approvals).unwrap();
    let id = reg.mint_rwa(String::from("Qm1"), 2, 0u128, &approvals).unwrap();
    assert_eq!(reg.trade_with_escrow(id, 3, 0u128, &approvals), Ok(()));
    assert_eq!(reg.get_escrow(id), Some(0u128));
}

#[test]
fn test_mint_roundtrip() {
    let mut reg = RwaToken::new();
    let a: u64 = 5;
    let approvals = vec![1u64, a];
    reg.initialize(1, &approvals).unwrap();

    let id = reg.mint_rwa(String::from("QmX"), a, 1000u128, &approvals).unwrap();
    let token = reg.get_token(id).unwrap();
    assert_eq!(token.ipfs_hash, "QmX");
    assert_eq!(token.owner, a);
    assert_eq!(token.yield_data, 1000u128);
    assert!(token.is_active);
}

#[test]
fn test_self_transfer() {
    let mut reg = RwaToken::new();
    let approvals = vec![1u64, 2u64];
    reg.initialize(1, &approvals).unwrap();
    let id = reg.mint_rwa(String::from("Qm1"), 2, 10u128, &approvals).unwrap();

    // self-transfer is permitted and emits a Transfer with from == to
    assert_eq!(reg.transfer(id, 2, &approvals), Ok(()));
    assert_eq!(reg.get_token(id).unwrap().owner, 2);
    let log = reg.event_log();
    match log.last().unwrap() {
        Event::Transfer(t) => {
            assert_eq!(t.token_id, id);
            assert_eq!(t.from, 2);
            assert_eq!(t.to, 2);
        }
        _ => panic!("expected a Transfer event"),
    }
}

#[test]
fn test_full_lifecycle() {
    let mut reg = RwaToken::new();
    let admin: u64 = 1;
    let o1: u64 = 2;
    let o2: u64 = 3;
    let buyer: u64 = 4;
    let approvals = vec![admin, o1, o2, buyer];

    reg.initialize(admin, &approvals).unwrap();
    let token_id = reg.mint_rwa(String::from("Qm1"), o1, 1000u128, &approvals).unwrap();
    assert_eq!(token_id, 0);

    reg.transfer(0, o2, &approvals).unwrap();
    assert_eq!(reg.get_token(0).unwrap().owner, o2);

    reg.trade_with_escrow(0, buyer, 1000u128, &approvals).unwrap();
    assert_eq!(reg.get_token(0).unwrap().owner, buyer);
    assert_eq!(reg.get_escrow(0), Some(1000u128));

    reg.burn(0, &approvals).unwrap();
    assert!(!reg.get_token(0).unwrap().is_active);
}

#[test]
fn test_unauthorized_initialize() {
    let mut reg = RwaToken::new();
    let approvals = vec![9u64];
    assert_eq!(reg.initialize(1, &approvals), Err(Error::Unauthorized));
    assert_eq!(ids(&reg), (None, 0));
    assert!(reg.event_log().is_empty());
}

#[test]
fn test_unauthorized_mint() {
    let mut reg = RwaToken::new();
    reg.initialize(1, &vec![1u64]).unwrap();
    // owner approval alone does not allow minting: the stored admin must approve
    let r = reg.mint_rwa(String::from("Qm1"), 2, 10u128, &vec![2u64]);
    assert_eq!(r, Err(Error::Unauthorized));
    assert_eq!(ids(&reg), (Some(1), 0));
    assert_eq!(reg.event_log().len(), 1);
}

#[test]
fn test_unauthorized_transfer() {
    let mut reg = RwaToken::new();
    let approvals = vec![1u64, 2u64];
    reg.initialize(1, &approvals).unwrap();
    let id = reg.mint_rwa(String::from("Qm1"), 2, 10u128, &approvals).unwrap();
    // the recipient's approval is not the owner's
    let r = reg.transfer(id, 3, &vec![3u64]);
    assert_eq!(r, Err(Error::Unauthorized));
    assert_eq!(reg.get_token(id).unwrap().owner, 2);
    assert_eq!(reg.event_log().len(), 2);
}

#[test]
fn test_unauthorized_trade() {
    let mut reg = RwaToken::new();
    let approvals = vec![1u64, 2u64];
    reg.initialize(1, &approvals).unwrap();
    let id = reg.mint_rwa(String::from("Qm1"), 2, 10u128, &approvals).unwrap();
    // the seller's approval does not stand in for the buyer's
    let r = reg.trade_with_escrow(id, 3, 100u128, &vec![2u64]);
    assert_eq!(r, Err(Error::Unauthorized));
    assert_eq!(reg.get_token(id).unwrap().owner, 2);
    assert_eq!(reg.get_escrow(id), None);
}

#[test]
fn test_unauthorized_burn() {
    let mut reg = RwaToken::new();
    let approvals = vec![1u64, 2u64];
    reg.initialize(1, &approvals).unwrap();
    let id = reg.mint_rwa(String::from("Qm1"), 2, 10u128, &approvals).unwrap();
    // admin approval alone does not allow burning: the owner must approve
    let r = reg.burn(id, &vec![1u64]);
    assert_eq!(r, Err(Error::Unauthorized));
    assert!(reg.get_token(id).unwrap().is_active);
}

#[test]
fn test_event_log_order() {
    let mut reg = RwaToken::new();
    let approvals = vec![1u64, 2u64, 3u64];
    reg.initialize(1, &approvals).unwrap();
    let id = reg.mint_rwa(String::from("Qm1"), 2, 10u128, &approvals).unwrap();
    reg.transfer(id, 3, &approvals).unwrap();
    reg.trade_with_escrow(id, 2, 10u128, &approvals).unwrap();
    reg.burn(id, &approvals).unwrap();

    let log = reg.event_log();
    assert_eq!(log.len(), 5);
    assert!(matches!(&log[0], Event::Initialized(e) if e.admin == 1));
    assert!(
        matches!(&log[1], Event::RwaMinted(e) if e.token_id == id && e.owner == 2 && e.metadata == "Qm1")
    );
    assert!(matches!(&log[2], Event::Transfer(e) if e.token_id == id && e.from == 2 && e.to == 3));
    assert!(
        matches!(&log[3], Event::Trade(e) if e.token_id == id && e.from == 3 && e.to == 2 && e.escrow == 10)
    );
    assert!(matches!(&log[4], Event::Burned(e) if e.token_id == id && e.owner == 2));
}

#[test]
fn test_accessors_on_fresh_registry() {
    let reg = RwaToken::new();
    assert_eq!(reg.get_admin(), None);
    assert_eq!(reg.get_token_count(), 0);
    assert_eq!(reg.get_escrow(0), None);
    assert!(matches!(reg.get_token(0), Err(Error::TokenNotFound)));
    assert!(reg.event_log().is_empty());
}
