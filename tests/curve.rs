use pump_fun::bonding_curve::BondingCurve;
use pump_fun::config::Config;
use pump_fun::errors::PumpFunError;
use pump_fun::pubkey::Pubkey;
use pump_fun::transfer::{Asset, TransferIntent};
use pump_fun::{launch, swap, SwapReceipt};

fn pk(n: u8) -> Pubkey {
    Pubkey::new_from_array([n; 32])
}

fn curve(t: u64, s: u64) -> BondingCurve {
    BondingCurve {
        virtual_token_reserve: t,
        virtual_sol_reserve: s,
        real_token_reserve: 7,
        real_sol_reserve: 9,
        token_total_supply: 1_000,
        is_completed: false,
        is_migrated: false,
    }
}

fn buy(c: &mut BondingCurve, limit: u64, amount: u64, min: u64, bps: u64) -> Result<pump_fun::bonding_curve::BuyReceipt, PumpFunError> {
    c.buy(pk(9), limit, pk(1), pk(2), pk(3), pk(4), pk(5), amount, min, bps)
}

fn sell(c: &mut BondingCurve, amount: u64, min: u64, bps: u64) -> Result<pump_fun::bonding_curve::SellReceipt, PumpFunError> {
    c.sell(pk(9), pk(1), pk(2), pk(4), pk(3), pk(5), amount, min, bps)
}

fn same(a: &TransferIntent, asset: Asset, from: Pubkey, to: Pubkey, amount: u64, signed: bool) -> bool {
    a.asset == asset && a.from == from && a.to == to && a.amount == amount && a.curve_signed == signed
}

#[test]
fn buy_with_one_percent_fee_updates_currency_reserve() {
    let t0 = 1_073_000_000_000_000u64;
    let mut c = curve(t0, 12_330_000_000);
    let rec = buy(&mut c, 85_000_000_000, 1_000_000_000, 0, 100).unwrap();
    assert_eq!(rec.fee_amount, 10_000_000);
    assert_eq!(rec.amount_out, 16_702_510_927_833);
    assert_eq!(c.virtual_sol_reserve, 13_320_000_000);
    assert_eq!(c.virtual_token_reserve, t0 - 16_702_510_927_833);
    assert!(!rec.completed);
    assert!(rec.curve_completed.is_none());
    assert_eq!(rec.transfers.len(), 3);
    assert!(same(&rec.transfers[0], Asset::Sol, pk(1), pk(3), 10_000_000, false));
    assert!(same(&rec.transfers[1], Asset::Sol, pk(1), pk(2), 990_000_000, false));
    assert!(same(&rec.transfers[2], Asset::Token, pk(5), pk(4), 16_702_510_927_833, true));
    assert_eq!(rec.purchased.sol_amount, 1_000_000_000);
    assert_eq!(rec.purchased.price, 13_320_000_000 / (t0 - 16_702_510_927_833));
    assert!(rec.purchased.buyer == pk(1));
    assert_eq!(c.real_token_reserve, 7);
    assert_eq!(c.real_sol_reserve, 9);
}

#[test]
fn buy_below_minimum_fails_and_keeps_reserves() {
    let mut c = curve(1000, 1000);
    assert_eq!(buy(&mut c, 1_000_000, 1000, 149, 0).unwrap_err(), PumpFunError::InsufficientAmountOut);
    assert_eq!(c.virtual_token_reserve, 1000);
    assert_eq!(c.virtual_sol_reserve, 1000);
    assert!(buy(&mut c, 1_000_000, 1000, 148, 0).is_ok());
}

#[test]
fn buy_beyond_token_reserve_is_invalid() {
    let mut c = curve(1, 1);
    assert_eq!(buy(&mut c, 1_000, 242, 0, 0).unwrap_err(), PumpFunError::InvalidReserves);
    assert_eq!(c.virtual_token_reserve, 1);
}

#[test]
fn buy_draining_token_reserve_cannot_price() {
    let mut c = curve(1, 1);
    assert_eq!(buy(&mut c, 1_000, 31, 0, 0).unwrap_err(), PumpFunError::DivisionByZero);
}

#[test]
fn buy_on_empty_token_reserve_cannot_price() {
    let mut c = curve(0, 1);
    assert_eq!(buy(&mut c, 1_000, 31, 0, 0).unwrap_err(), PumpFunError::DivisionByZero);
}

#[test]
fn buy_overflowing_currency_reserve_is_invalid() {
    let mut c = curve(1_000_000, u64::MAX - 10);
    assert_eq!(buy(&mut c, u64::MAX, 100, 0, 0).unwrap_err(), PumpFunError::InvalidReserves);
    assert_eq!(c.virtual_sol_reserve, u64::MAX - 10);
}

#[test]
fn buy_reaching_limit_completes_once() {
    let mut c = curve(1_000_000, 1_000);
    let rec = buy(&mut c, 1_500, 600, 0, 0).unwrap();
    assert!(rec.completed);
    assert!(c.is_completed);
    let done = rec.curve_completed.unwrap();
    assert_eq!(done.final_sol_reserve, 1_600);
    assert_eq!(done.final_token_reserve, c.virtual_token_reserve);
    let again = buy(&mut c, 1_500, 10, 0, 0).unwrap();
    assert!(!again.completed);
    assert!(again.curve_completed.is_none());
    assert!(c.is_completed);
    sell(&mut c, 10, 0, 0).unwrap();
    assert!(c.is_completed);
}

#[test]
fn buy_below_limit_does_not_complete() {
    let mut c = curve(1_000_000, 1_000);
    let rec = buy(&mut c, 2_000, 999, 0, 0).unwrap();
    assert!(!rec.completed);
    assert!(!c.is_completed);
}

#[test]
fn sell_pays_output_less_fee() {
    let mut c = curve(1000, 1000);
    let rec = sell(&mut c, 100, 0, 100).unwrap();
    // net 99 tokens: 1000 * (1 - 0.901^5) = 406.09
    assert_eq!(rec.fee_amount, 1);
    assert_eq!(rec.amount_out, 406);
    assert_eq!(c.virtual_token_reserve, 1100);
    assert_eq!(c.virtual_sol_reserve, 594);
    assert!(same(&rec.transfers[0], Asset::Token, pk(4), pk(5), 100, false));
    assert!(same(&rec.transfers[1], Asset::Sol, pk(2), pk(1), 405, true));
    assert!(same(&rec.transfers[2], Asset::Sol, pk(2), pk(3), 1, true));
    assert_eq!(rec.sold.price, 594 / 1100);
}

#[test]
fn sell_below_minimum_fails() {
    let mut c = curve(1000, 1000);
    assert_eq!(sell(&mut c, 100, 410, 0).unwrap_err(), PumpFunError::InsufficientAmountOut);
    assert_eq!(c.virtual_token_reserve, 1000);
}

#[test]
fn sell_with_fee_above_output_fails() {
    let mut c = curve(1_000_000_000, 10);
    assert_eq!(sell(&mut c, 1_000, 0, 5_000).unwrap_err(), PumpFunError::InsufficientFunds);
}

#[test]
fn sell_past_currency_reserve_is_invalid() {
    let mut c = curve(10, 100);
    assert_eq!(sell(&mut c, 15, 0, 0).unwrap_err(), PumpFunError::InvalidReserves);
    assert_eq!(c.virtual_sol_reserve, 100);
}

#[test]
fn migrated_curve_refuses_trades() {
    let mut c = curve(1000, 1000);
    c.is_completed = true;
    c.is_migrated = true;
    assert_eq!(buy(&mut c, 1_000, 100, 0, 0).unwrap_err(), PumpFunError::AlreadyMigrated);
    assert_eq!(sell(&mut c, 100, 0, 0).unwrap_err(), PumpFunError::AlreadyMigrated);
    assert_eq!(c.virtual_token_reserve, 1000);
    assert_eq!(c.virtual_sol_reserve, 1000);
}

#[test]
fn sell_overflowing_token_reserve_is_invalid() {
    let mut c = curve(u64::MAX - 1, 100);
    assert_eq!(sell(&mut c, 5, 0, 0).unwrap_err(), PumpFunError::InvalidReserves);
}

#[test]
fn round_trip_can_return_more_than_paid() {
    // The buy and sell formulas are not inverse to each other once the
    // reserves have moved.
    let mut c = curve(1000, 1000);
    let bought = buy(&mut c, u64::MAX, 1000, 0, 0).unwrap().amount_out;
    assert_eq!(bought, 148);
    let back = sell(&mut c, bought, 0, 0).unwrap().amount_out;
    assert_eq!(back, 1229);
}

#[test]
fn update_reserves_sets_both() {
    let mut c = curve(1, 2);
    assert_eq!(c.update_reserves(30, 40), Ok(true));
    assert_eq!(c.virtual_sol_reserve, 30);
    assert_eq!(c.virtual_token_reserve, 40);
}

fn config() -> Config {
    let mut c = Config::unset();
    c.fee_recipient = pk(3);
    c.curve_limit = 5_000;
    c.initial_virtual_token_reserve = 100_000;
    c.initial_virtual_sol_reserve = 100_000;
    c.initial_real_token_reserve = 800_000;
    c.total_token_supply = 1_000_000_000;
    c.buy_fee_bps = 100;
    c.sell_fee_bps = 200;
    c
}

#[test]
fn launch_seeds_from_configuration() {
    let c = launch(&config());
    assert_eq!(c.virtual_token_reserve, 100_000);
    assert_eq!(c.virtual_sol_reserve, 100_000);
    assert_eq!(c.real_token_reserve, 800_000);
    assert_eq!(c.real_sol_reserve, 0);
    assert_eq!(c.token_total_supply, 1_000_000_000);
    assert!(!c.is_completed && !c.is_migrated);
}

#[test]
fn swap_dispatches_on_direction() {
    let cfg = config();
    let mut c = launch(&cfg);
    match swap(&mut c, &cfg, pk(9), pk(1), pk(2), pk(4), pk(5), 1_000, 0, 0).unwrap() {
        SwapReceipt::Bought(r) => {
            assert_eq!(r.fee_amount, 10);
            assert!(same(&r.transfers[0], Asset::Sol, pk(1), pk(3), 10, false));
        }
        SwapReceipt::Sold(_) => panic!("expected a buy"),
    }
    assert_eq!(c.virtual_sol_reserve, 100_990);
    match swap(&mut c, &cfg, pk(9), pk(1), pk(2), pk(4), pk(5), 1_000, 1, 0).unwrap() {
        SwapReceipt::Sold(r) => assert_eq!(r.fee_amount, 20),
        SwapReceipt::Bought(_) => panic!("expected a sell"),
    }
    assert_eq!(
        swap(&mut c, &cfg, pk(9), pk(1), pk(2), pk(4), pk(5), 0, 1, 0).unwrap_err(),
        PumpFunError::ZeroAmount
    );
}
