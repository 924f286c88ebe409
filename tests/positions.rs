use sss_one::account_key::AccountKey;
use sss_one::collateral::{
    initialize_stablecoin_config, open_position, InitializeStablecoinConfig, OpenPosition,
    Position, StablecoinConfig,
};
use sss_one::error::ErrorCode;

fn key(b: u8) -> AccountKey {
    AccountKey::new([b; 32])
}

fn config() -> StablecoinConfig {
    initialize_stablecoin_config(
        &InitializeStablecoinConfig {
            authority: key(1),
            stablecoin_mint: key(2),
            collateral_mint: key(3),
        },
        150,
        120,
    )
}

#[test]
fn config_starts_active_and_empty() {
    let c = config();
    assert_eq!(c.authority, key(1));
    assert_eq!(c.stablecoin_mint, key(2));
    assert_eq!(c.collateral_mint, key(3));
    assert_eq!(c.collateral_ratio, 150);
    assert_eq!(c.liquidation_threshold, 120);
    assert_eq!(c.total_supply, 0);
    assert_eq!(c.total_collateral, 0);
    assert!(c.is_active);
}

#[test]
fn open_position_with_zero_mint_fails() {
    let mut c = config();
    let r = open_position(&mut c, &OpenPosition { user: key(9) }, 500, 0, 1_700_000_000);
    assert_eq!(r, Err(ErrorCode::InvalidAmount));
    assert_eq!(c, config());
}

#[test]
fn open_position_without_collateral_succeeds() {
    let mut c = config();
    let p = open_position(&mut c, &OpenPosition { user: key(9) }, 0, 100, 1_700_000_000).unwrap();
    assert_eq!(
        p,
        Position {
            owner: key(9),
            collateral_amount: 0,
            minted_amount: 100,
            created_at: 1_700_000_000,
            is_liquidated: false,
        }
    );
    assert_eq!(c.total_supply, 100);
    assert_eq!(c.total_collateral, 0);
}

#[test]
fn open_position_bumps_running_totals() {
    let mut c = config();
    open_position(&mut c, &OpenPosition { user: key(9) }, 300, 100, 5).unwrap();
    open_position(&mut c, &OpenPosition { user: key(10) }, 40, 20, 6).unwrap();
    assert_eq!(c.total_supply, 120);
    assert_eq!(c.total_collateral, 340);
}

#[test]
fn open_position_on_inactive_config_fails() {
    let mut c = config();
    c.is_active = false;
    let r = open_position(&mut c, &OpenPosition { user: key(9) }, 300, 100, 5);
    assert_eq!(r, Err(ErrorCode::ProgramPaused));
    assert_eq!(c.total_supply, 0);
}

#[test]
fn open_position_overflow_fails() {
    let mut c = config();
    open_position(&mut c, &OpenPosition { user: key(9) }, 0, u64::MAX, 5).unwrap();
    let r = open_position(&mut c, &OpenPosition { user: key(10) }, 0, 1, 6);
    assert_eq!(r, Err(ErrorCode::Overflow));
    let mut c = config();
    open_position(&mut c, &OpenPosition { user: key(9) }, u64::MAX, 1, 5).unwrap();
    let r = open_position(&mut c, &OpenPosition { user: key(10) }, 1, 1, 6);
    assert_eq!(r, Err(ErrorCode::Overflow));
    assert_eq!(c.total_supply, 1);
}

#[test]
fn record_sizes() {
    assert_eq!(StablecoinConfig::SIZE, 117);
    assert_eq!(Position::SIZE, 57);
}
