//! The global parameter set.
use vstd::prelude::*;
use crate::pubkey::Pubkey;

verus! {

/// The parameters that a configuration call supplies. Fee rates (`*_fee_bps`)
/// are in hundredths of a percent: `100` is 1%, `10_000` is 100%.
#[derive(Debug, Clone, Copy)]
pub struct ConfigSettings {
    pub authority: Pubkey,
    /// Receives trade and migration fees.
    pub fee_recipient: Pubkey,
    /// Virtual currency reserve at which a curve completes.
    pub curve_limit: u64,
    pub initial_virtual_token_reserve: u64,
    pub initial_virtual_sol_reserve: u64,
    pub initial_real_token_reserve: u64,
    pub total_token_supply: u64,
    pub buy_fee_bps: u64,
    pub sell_fee_bps: u64,
    pub migration_fee_bps: u64,
}

/// The stored global parameter set; a null authority means not yet configured.
#[derive(Debug, Clone, Copy)]
pub struct Config {
    pub authority: Pubkey,
    pub fee_recipient: Pubkey,
    pub curve_limit: u64,
    pub initial_virtual_token_reserve: u64,
    pub initial_virtual_sol_reserve: u64,
    pub initial_real_token_reserve: u64,
    pub total_token_supply: u64,
    pub buy_fee_bps: u64,
    pub sell_fee_bps: u64,
    pub migration_fee_bps: u64,
}

impl Config {
    /// The record as it stands before the first configuration call.
    pub fn unset() -> (r: Config)
        ensures
            r.authority.is_null(),
            r.fee_recipient.is_null(),
            r.curve_limit == 0,
            r.initial_virtual_token_reserve == 0,
            r.initial_virtual_sol_reserve == 0,
            r.initial_real_token_reserve == 0,
            r.total_token_supply == 0,
            r.buy_fee_bps == 0,
            r.sell_fee_bps == 0,
            r.migration_fee_bps == 0,
    {
        Config {
            authority: Pubkey::null(),
            fee_recipient: Pubkey::null(),
            curve_limit: 0,
            initial_virtual_token_reserve: 0,
            initial_virtual_sol_reserve: 0,
            initial_real_token_reserve: 0,
            total_token_supply: 0,
            buy_fee_bps: 0,
            sell_fee_bps: 0,
            migration_fee_bps: 0,
        }
    }
}

} // verus!
