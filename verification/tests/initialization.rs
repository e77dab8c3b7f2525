use limitless_market::addr::{derive_address, Address};
use limitless_market::deploy::{Deployment, InitError, UnderlyingAsset};

fn addr(b: u8) -> Address {
    Address::new([b; 32])
}

#[test]
fn derive_is_deterministic() {
    let pid = addr(7);
    for label in [
        "market_state",
        "vault_state",
        "token_account_owner_pda",
        "share_mint",
    ] {
        let r1 = derive_address(label.as_bytes(), None, &pid);
        let r2 = derive_address(label.as_bytes(), None, &pid);
        assert!(r1.is_some());
        assert_eq!(r1, r2);
    }
    let key = addr(9);
    let r1 = derive_address("token_vault".as_bytes(), Some(&key.bytes), &pid);
    let r2 = derive_address("token_vault".as_bytes(), Some(&key.bytes), &pid);
    assert!(r1.is_some());
    assert_eq!(r1, r2);
}

#[test]
fn derive_depends_on_inputs() {
    let pid = addr(7);
    let market = derive_address("market_state".as_bytes(), None, &pid).unwrap();
    let vault = derive_address("vault_state".as_bytes(), None, &pid).unwrap();
    // Distinct labels give distinct addresses, and none echoes an input back.
    assert_ne!(market.0, vault.0);
    assert_ne!(market.0, pid);
    assert_ne!(vault.0, pid);
    // A different program id gives a different address for the same label.
    let other = derive_address("market_state".as_bytes(), None, &addr(8)).unwrap();
    assert_ne!(market.0, other.0);
    // The discriminator matters.
    let k1 = derive_address("token_vault".as_bytes(), Some(&addr(1).bytes), &pid).unwrap();
    let k2 = derive_address("token_vault".as_bytes(), Some(&addr(2).bytes), &pid).unwrap();
    assert_ne!(k1.0, k2.0);
}

#[test]
fn market_defaults_and_references() {
    let mut d = Deployment::new(addr(7));
    let vault = addr(0xB0);
    let oracle = addr(0x01);
    let collateral = addr(0xC0);
    let r = d.initialize_market_handler(vault, oracle, collateral);
    assert!(r.is_ok());
    let m = d.market_state.expect("market record must exist");
    assert_eq!(m.vault, vault);
    assert_eq!(m.oracle, oracle);
    assert_eq!(m.collateral_token, collateral);
    assert_eq!(m.base_decimals, 1_000_000_000_000_000_000);
    assert_eq!(m.max_bps, 10000);
    assert_eq!(m.seconds_in_year, 31_536_000);
    assert_eq!(m.liquidation_fee_pct, 10);
    assert_eq!(m.max_leverage, 5);
    assert_eq!(m.min_position_size, 100_000_000_000_000_000_000u128);
    assert_eq!(m.open_interest_usd_long, 0);
    assert_eq!(m.open_interest_usd_short, 0);
    assert_eq!(m.open_interest_underlying_long, 0);
    assert_eq!(m.open_interest_underlying_short, 0);
    // The stored bump is the one the derivation found.
    let derived = derive_address("market_state".as_bytes(), None, &addr(7)).unwrap();
    assert_eq!(m.bump, derived.1);
    // Nothing else was touched.
    assert!(d.vault_state.is_none());
    assert!(d.share_mint.is_none());
    assert!(d.custody_account.is_none());
}

#[test]
fn market_reinit_overwrites_with_second_references() {
    let mut d = Deployment::new(addr(3));
    assert!(d.initialize_market_handler(addr(1), addr(2), addr(4)).is_ok());
    let first = d.market_state.expect("first record");
    assert!(d.initialize_market_handler(addr(5), addr(6), addr(8)).is_ok());
    let second = d.market_state.expect("second record");
    // Same derived slot, second call's references, counters back to zero.
    assert_eq!(first.bump, second.bump);
    assert_eq!(second.vault, addr(5));
    assert_eq!(second.oracle, addr(6));
    assert_eq!(second.collateral_token, addr(8));
    assert_eq!(second.open_interest_usd_long, 0);
    assert_eq!(second.open_interest_usd_short, 0);
    assert_eq!(second.open_interest_underlying_long, 0);
    assert_eq!(second.open_interest_underlying_short, 0);
}

#[test]
fn vault_defaults_and_scenario() {
    let mut d = Deployment::new(addr(7));
    let market = addr(0x4D);
    let asset = UnderlyingAsset { address: addr(0x0A), decimals: 6 };
    let r = d.initialize_vault_handler(market, 8000, asset);
    assert!(r.is_ok());
    let v = d.vault_state.expect("vault record must exist");
    let mint = d.share_mint.expect("share mint must exist");
    let custody = d.custody_account.expect("custody account must exist");
    // Vault record: defaults plus caller-supplied values.
    assert_eq!(v.market, market);
    assert_eq!(v.scale_factor, 1_000_000_000_000_000_000);
    assert_eq!(v.max_util_percentage, 8000);
    assert_eq!(v.total_underlying_deposited, 0);
    assert_eq!(v.total_shares, 0);
    assert_eq!(v.share_mint, mint.address);
    // Share mint: decimals copied from the underlying asset.
    assert_eq!(mint.decimals, 6);
    // Custody account accepts only the underlying asset.
    assert_eq!(custody.asset, asset.address);
    // Addresses are the derived ones.
    let mint_derived = derive_address("share_mint".as_bytes(), None, &addr(7)).unwrap();
    assert_eq!(mint.address, mint_derived.0);
    let custody_derived =
        derive_address("token_vault".as_bytes(), Some(&asset.address.bytes), &addr(7)).unwrap();
    assert_eq!(custody.address, custody_derived.0);
    // The market slot is untouched.
    assert!(d.market_state.is_none());
}

#[test]
fn vault_reinit_fails_and_preserves_state() {
    let mut d = Deployment::new(addr(7));
    let asset = UnderlyingAsset { address: addr(0x0A), decimals: 9 };
    assert!(d.initialize_vault_handler(addr(1), 5000, asset).is_ok());
    let vault1 = d.vault_state;
    let mint1 = d.share_mint;
    let custody1 = d.custody_account;
    // Strict creation: the second invocation fails outright ...
    let r2 = d.initialize_vault_handler(addr(2), 9999, asset);
    assert_eq!(r2, Err(InitError::AlreadyExists));
    // ... and leaves the first call's records unchanged.
    assert_eq!(d.vault_state, vault1);
    assert_eq!(d.share_mint, mint1);
    assert_eq!(d.custody_account, custody1);
}

#[test]
fn full_bootstrap_leaves_both_intact() {
    let mut d = Deployment::new(addr(7));
    let asset = UnderlyingAsset { address: addr(0x0A), decimals: 6 };
    assert!(d.initialize_vault_handler(addr(1), 8000, asset).is_ok());
    let vault_before = d.vault_state;
    let mint_before = d.share_mint;
    let custody_before = d.custody_account;
    assert!(d.initialize_market_handler(addr(2), addr(3), addr(4)).is_ok());
    // The market initializer touched no vault-side record.
    assert_eq!(d.vault_state, vault_before);
    assert_eq!(d.share_mint, mint_before);
    assert_eq!(d.custody_account, custody_before);
    assert!(d.market_state.is_some());
}

#[test]
fn authority_binding() {
    let pid = addr(7);
    let mut d = Deployment::new(pid);
    let asset = UnderlyingAsset { address: addr(0x0A), decimals: 6 };
    assert!(d.initialize_vault_handler(addr(1), 8000, asset).is_ok());
    let mint = d.share_mint.unwrap();
    let custody = d.custody_account.unwrap();
    // One custody signer holds both authorities.
    assert_eq!(mint.mint_authority, custody.authority);
    // That signer is derived from the program identity alone: different
    // caller inputs on a second deployment give the same authority.
    let mut d2 = Deployment::new(pid);
    let other_asset = UnderlyingAsset { address: addr(0x0B), decimals: 2 };
    assert!(d2.initialize_vault_handler(addr(9), 1, other_asset).is_ok());
    assert_eq!(d2.share_mint.unwrap().mint_authority, mint.mint_authority);
    // And the stored pda_bump is the signer derivation's bump.
    let signer = derive_address("token_account_owner_pda".as_bytes(), None, &pid).unwrap();
    assert_eq!(mint.mint_authority, signer.0);
    assert_eq!(d.vault_state.unwrap().pda_bump, signer.1);
}
