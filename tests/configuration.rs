use pump_fun::config::{Config, ConfigSettings};
use pump_fun::configure::Configure;
use pump_fun::errors::PumpFunError;
use pump_fun::pubkey::Pubkey;

fn pk(n: u8) -> Pubkey {
    Pubkey::new_from_array([n; 32])
}

fn settings(authority: Pubkey) -> ConfigSettings {
    ConfigSettings {
        authority,
        fee_recipient: pk(7),
        curve_limit: 85_000_000_000,
        initial_virtual_token_reserve: 1_073_000_000_000_000,
        initial_virtual_sol_reserve: 12_330_000_000,
        initial_real_token_reserve: 793_100_000_000_000,
        total_token_supply: 1_000_000_000_000_000,
        buy_fee_bps: 100,
        sell_fee_bps: 100,
        migration_fee_bps: 500,
    }
}

#[test]
fn first_configure_adopts_caller() {
    let mut c = Configure { admin: pk(1), global_config: Config::unset() };
    assert_eq!(c.process(settings(pk(1))), Ok(()));
    assert!(c.global_config.authority == pk(1));
    assert!(c.global_config.fee_recipient == pk(7));
    assert_eq!(c.global_config.curve_limit, 85_000_000_000);
    assert_eq!(c.global_config.migration_fee_bps, 500);
}

#[test]
fn second_configure_by_other_identity_fails() {
    let mut c = Configure { admin: pk(1), global_config: Config::unset() };
    pump_fun::configure(&mut c, settings(pk(1))).unwrap();
    let mut other = Configure { admin: pk(2), global_config: c.global_config };
    assert_eq!(other.process(settings(pk(2))), Err(PumpFunError::UnauthorizedAddress));
    assert!(other.global_config.authority == pk(1));
}

#[test]
fn configure_cannot_change_authority() {
    let mut c = Configure { admin: pk(1), global_config: Config::unset() };
    c.process(settings(pk(1))).unwrap();
    let mut s = settings(pk(2));
    s.curve_limit = 1;
    assert_eq!(c.process(s), Err(PumpFunError::CannotChangeAuthority));
    assert_eq!(c.global_config.curve_limit, 85_000_000_000);
}

#[test]
fn authority_refreshes_other_fields() {
    let mut c = Configure { admin: pk(1), global_config: Config::unset() };
    c.process(settings(pk(1))).unwrap();
    let mut s = settings(pk(1));
    s.buy_fee_bps = 250;
    assert_eq!(c.process(s), Ok(()));
    assert_eq!(c.global_config.buy_fee_bps, 250);
    assert!(c.global_config.authority == pk(1));
}

#[test]
fn null_caller_is_unauthorized() {
    let mut c = Configure { admin: Pubkey::null(), global_config: Config::unset() };
    assert_eq!(c.process(settings(Pubkey::null())), Err(PumpFunError::UnauthorizedAddress));
}

#[test]
fn first_configure_adopts_caller_whatever_settings_name() {
    let mut c = Configure { admin: pk(1), global_config: Config::unset() };
    assert_eq!(c.process(settings(pk(2))), Ok(()));
    assert!(c.global_config.authority == pk(1));
    assert_eq!(c.global_config.curve_limit, 85_000_000_000);
}
