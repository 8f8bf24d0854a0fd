//! Bonding-curve token sale: exact pricing, buy/sell bookkeeping, completion and
//! one-shot migration, expressed as verified transitions that return transfer intents.
pub mod wide;
pub mod errors;
pub mod pricing;
pub mod pubkey;
pub mod config;
pub mod events;
pub mod transfer;
pub mod bonding_curve;
pub mod configure;
pub mod migrate;
pub mod laws;

use vstd::prelude::*;
use crate::bonding_curve::{BondingCurve, BuyReceipt, SellReceipt, BUY};
use crate::config::{Config, ConfigSettings};
use crate::configure::{config_from, Configure};
use crate::errors::PumpFunError;
use crate::migrate::{Migrate, MigrationPlan};
use crate::pubkey::Pubkey;

verus! {

/// The outcome of a swap in either direction.
#[derive(Debug, Clone)]
pub enum SwapReceipt {
    Bought(BuyReceipt),
    Sold(SellReceipt),
}

/// Writes the global configuration; see [`Configure::process`].
pub fn configure(ctx: &mut Configure, new_config: ConfigSettings) -> (r: Result<(), PumpFunError>)
    ensures
        match old(ctx).configure_error(new_config) {
            Some(e) => r == Err::<(), PumpFunError>(e) && *final(ctx) == *old(ctx),
            None => r is Ok && final(ctx).global_config == config_from(new_config, old(ctx).admin)
                && final(ctx).admin == old(ctx).admin,
        },
{
    ctx.process(new_config)
}

/// A new curve seeded from the configuration.
pub fn launch(config: &Config) -> (r: BondingCurve)
    ensures
        r.virtual_token_reserve == config.initial_virtual_token_reserve,
        r.virtual_sol_reserve == config.initial_virtual_sol_reserve,
        r.real_token_reserve == config.initial_real_token_reserve,
        r.real_sol_reserve == 0,
        r.token_total_supply == config.total_token_supply,
        !r.is_completed,
        !r.is_migrated,
{
    BondingCurve {
        virtual_token_reserve: config.initial_virtual_token_reserve,
        virtual_sol_reserve: config.initial_virtual_sol_reserve,
        real_token_reserve: config.initial_real_token_reserve,
        real_sol_reserve: 0,
        token_total_supply: config.total_token_supply,
        is_completed: false,
        is_migrated: false,
    }
}

/// Buys (`direction == 0`) or sells `amount` against `curve` at the
/// configured fee, paying fees to the configured recipient.
pub fn swap(
    curve: &mut BondingCurve,
    config: &Config,
    token_mint: Pubkey,
    user: Pubkey,
    curve_pda: Pubkey,
    user_ata: Pubkey,
    curve_ata: Pubkey,
    amount: u64,
    direction: u8,
    min_out: u64,
) -> (r: Result<SwapReceipt, PumpFunError>)
    ensures
        direction == BUY ==> match old(curve).buy_error(amount as int, min_out as int, config.buy_fee_bps as int) {
            Some(e) => r matches Err(x) && x == e && *final(curve) == *old(curve),
            None => r matches Ok(SwapReceipt::Bought(rec)) && old(curve).buy_done(
                *final(curve),
                rec,
                token_mint,
                config.curve_limit,
                user,
                curve_pda,
                config.fee_recipient,
                user_ata,
                curve_ata,
                amount,
                config.buy_fee_bps,
            ),
        },
        direction != BUY ==> match old(curve).sell_error(amount as int, min_out as int, config.sell_fee_bps as int) {
            Some(e) => r matches Err(x) && x == e && *final(curve) == *old(curve),
            None => r matches Ok(SwapReceipt::Sold(rec)) && old(curve).sell_done(
                *final(curve),
                rec,
                token_mint,
                user,
                curve_pda,
                user_ata,
                config.fee_recipient,
                curve_ata,
                amount,
                config.sell_fee_bps,
            ),
        },
{
    if direction == BUY {
        match curve.buy(
            token_mint,
            config.curve_limit,
            user,
            curve_pda,
            config.fee_recipient,
            user_ata,
            curve_ata,
            amount,
            min_out,
            config.buy_fee_bps,
        ) {
            Ok(rec) => Ok(SwapReceipt::Bought(rec)),
            Err(e) => Err(e),
        }
    } else {
        match curve.sell(
            token_mint,
            user,
            curve_pda,
            user_ata,
            config.fee_recipient,
            curve_ata,
            amount,
            min_out,
            config.sell_fee_bps,
        ) {
            Ok(rec) => Ok(SwapReceipt::Sold(rec)),
            Err(e) => Err(e),
        }
    }
}

/// Migrates a completed curve; see [`Migrate::process`].
pub fn migrate(ctx: &mut Migrate) -> (r: Result<MigrationPlan, PumpFunError>)
    ensures
        match old(ctx).migrate_error() {
            Some(e) => r matches Err(x) && x == e && *final(ctx) == *old(ctx),
            None => r matches Ok(plan) && old(ctx).migrate_done(*final(ctx), plan),
        },
{
    ctx.process()
}

} // verus!
