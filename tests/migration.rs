use pump_fun::bonding_curve::BondingCurve;
use pump_fun::config::Config;
use pump_fun::errors::PumpFunError;
use pump_fun::migrate::Migrate;
use pump_fun::pubkey::Pubkey;
use pump_fun::transfer::Asset;

fn pk(n: u8) -> Pubkey {
    Pubkey::new_from_array([n; 32])
}

fn ctx(completed: bool, migrated: bool) -> Migrate {
    let mut config = Config::unset();
    config.authority = pk(1);
    config.fee_recipient = pk(3);
    config.migration_fee_bps = 500;
    Migrate {
        authority: pk(1),
        config,
        bonding_curve: BondingCurve {
            virtual_token_reserve: 10,
            virtual_sol_reserve: 90_000_000_000,
            real_token_reserve: 0,
            real_sol_reserve: 0,
            token_total_supply: 0,
            is_completed: completed,
            is_migrated: migrated,
        },
        token_mint: pk(9),
        wsol_mint: pk(8),
        curve_token_account: pk(20),
        curve_token_balance: 200_000_000,
        curve_sol_account: pk(21),
        curve_sol_balance: 85_000_000_000,
        pool_state: pk(30),
        token_vault_0: pk(31),
        token_vault_1: pk(32),
    }
}

#[test]
fn migrate_sweeps_reserves_after_fee() {
    let mut m = ctx(true, false);
    let plan = m.process().unwrap();
    assert!(m.bonding_curve.is_migrated);
    assert_eq!(plan.completed.migration_fee, 4_250_000_000);
    assert_eq!(plan.completed.sol_amount, 80_750_000_000);
    assert_eq!(plan.completed.token_amount, 200_000_000);
    assert!(plan.completed.raydium_pool == pk(30));
    assert_eq!(plan.create_pool.sqrt_price_x64, 1u128 << 64);
    assert!(plan.create_pool.token_mint_0 == pk(8) && plan.create_pool.token_mint_1 == pk(9));
    let t = &plan.transfers;
    assert_eq!(t.len(), 3);
    assert!(t[0].asset == Asset::Sol && t[0].from == pk(21) && t[0].to == pk(3) && t[0].amount == 4_250_000_000 && t[0].curve_signed);
    assert!(t[1].asset == Asset::Sol && t[1].from == pk(21) && t[1].to == pk(31) && t[1].amount == 80_750_000_000);
    assert!(t[2].asset == Asset::Token && t[2].from == pk(20) && t[2].to == pk(32) && t[2].amount == 200_000_000);
}

#[test]
fn migrate_before_completion_fails() {
    let mut m = ctx(false, false);
    assert_eq!(m.process().unwrap_err(), PumpFunError::CurveNotCompleted);
    assert!(!m.bonding_curve.is_migrated);
}

#[test]
fn second_migration_fails() {
    let mut m = ctx(true, false);
    assert!(pump_fun::migrate(&mut m).is_ok());
    assert_eq!(pump_fun::migrate(&mut m).unwrap_err(), PumpFunError::AlreadyMigrated);
    assert!(m.bonding_curve.is_migrated);
    assert_eq!(m.curve_sol_balance, 85_000_000_000);
}

#[test]
fn migrate_by_other_identity_fails() {
    let mut m = ctx(true, false);
    m.authority = pk(2);
    assert_eq!(m.process().unwrap_err(), PumpFunError::UnauthorizedAddress);
    assert!(!m.bonding_curve.is_migrated);
}

#[test]
fn migrate_without_tokens_fails() {
    let mut m = ctx(true, false);
    m.curve_token_balance = 0;
    assert_eq!(m.process().unwrap_err(), PumpFunError::InsufficientTokenBalance);
}

#[test]
fn migrate_without_currency_fails() {
    let mut m = ctx(true, false);
    m.curve_sol_balance = 0;
    assert_eq!(m.process().unwrap_err(), PumpFunError::InsufficientSolBalance);
}

#[test]
fn migrate_fee_on_largest_balance() {
    let mut m = ctx(true, false);
    m.curve_sol_balance = u64::MAX;
    let plan = m.process().unwrap();
    assert_eq!(plan.completed.migration_fee, 922_337_203_685_477_580);
    assert_eq!(plan.completed.sol_amount, u64::MAX - 922_337_203_685_477_580);
}

#[test]
fn migrate_fee_above_balance_fails() {
    let mut m = ctx(true, false);
    m.config.migration_fee_bps = 20_000;
    assert_eq!(m.process().unwrap_err(), PumpFunError::InsufficientSolBalance);
}
