//! One-shot migration of a completed curve's reserves into an external pool.
use vstd::prelude::*;
use crate::bonding_curve::BondingCurve;
use crate::config::Config;
use crate::errors::PumpFunError;
use crate::events::MigrationCompleted;
use crate::pricing::fee_of;
use crate::pubkey::Pubkey;
use crate::transfer::{intent, sol_transfer_with_signer, token_transfer_with_signer, Asset, TransferIntent};

verus! {

#[verifier::external_type_specification]
#[verifier::external_body]
pub struct ExAnchorError(anchor_lang::error::Error);

/// The Q64.64 square root of `1.0001^tick` that the pool program computes.
pub uninterp spec fn sqrt_price_x64_at(tick: int) -> nat;

/// Largest tick magnitude that the pool program accepts.
pub const MAX_TICK: i32 = 443636;

/// Relies on raydium_amm_v3::libraries::tick_math::get_sqrt_price_at_tick:
/// fails exactly when `|tick| > MAX_TICK`, returns `2^64` (a price of one) at
/// tick 0, and otherwise a value of the tick alone. `tick.abs()` there
/// overflows on `i32::MIN`.
#[verifier::external_body]
fn sqrt_price_at_tick(tick: i32) -> (r: Result<u128, anchor_lang::error::Error>)
    requires
        tick != i32::MIN,
    ensures
        r is Err == (tick > MAX_TICK || tick < -MAX_TICK),
        r is Ok ==> r->Ok_0 == sqrt_price_x64_at(tick as int),
        tick == 0 ==> r is Ok && r->Ok_0 == 0x1_0000_0000_0000_0000u128,
{
    raydium_amm_v3::libraries::tick_math::get_sqrt_price_at_tick(tick)
}

/// A migration call: the caller, the stored records, the curve's balances and
/// the accounts of the pool to be created.
#[derive(Debug, Clone, Copy)]
pub struct Migrate {
    pub authority: Pubkey,
    pub config: Config,
    pub bonding_curve: BondingCurve,
    pub token_mint: Pubkey,
    pub wsol_mint: Pubkey,
    pub curve_token_account: Pubkey,
    pub curve_token_balance: u64,
    pub curve_sol_account: Pubkey,
    pub curve_sol_balance: u64,
    pub pool_state: Pubkey,
    pub token_vault_0: Pubkey,
    pub token_vault_1: Pubkey,
}

/// The pool to create, before any funds move: wrapped currency on side 0,
/// the curve's token on side 1, opened at the Q64.64 square-root price
/// `sqrt_price_x64`.
#[derive(Debug, Clone, Copy)]
pub struct PoolCreation {
    pub pool_creator: Pubkey,
    pub pool_state: Pubkey,
    pub token_mint_0: Pubkey,
    pub token_mint_1: Pubkey,
    pub token_vault_0: Pubkey,
    pub token_vault_1: Pubkey,
    pub sqrt_price_x64: u128,
}

/// Everything a successful migration asks of the host, in order: create the
/// pool, then apply the transfers.
#[derive(Debug, Clone)]
pub struct MigrationPlan {
    pub create_pool: PoolCreation,
    pub transfers: Vec<TransferIntent>,
    pub completed: MigrationCompleted,
}

impl Migrate {
    pub open spec fn migration_fee(&self) -> int {
        fee_of(self.curve_sol_balance as int, self.config.migration_fee_bps as int)
    }

    /// Why the migration fails, if it does.
    pub open spec fn migrate_error(&self) -> Option<PumpFunError> {
        if !self.bonding_curve.is_completed {
            Some(PumpFunError::CurveNotCompleted)
        } else if self.bonding_curve.is_migrated {
            Some(PumpFunError::AlreadyMigrated)
        } else if self.curve_token_balance == 0 {
            Some(PumpFunError::InsufficientTokenBalance)
        } else if self.curve_sol_balance == 0 {
            Some(PumpFunError::InsufficientSolBalance)
        } else if self.config.authority.bytes@ != self.authority.bytes@ {
            Some(PumpFunError::UnauthorizedAddress)
        } else if self.migration_fee() > self.curve_sol_balance {
            Some(PumpFunError::InsufficientSolBalance)
        } else {
            None
        }
    }

    /// A successful migration: `after` is the new call state and `plan` the
    /// pool to create, the transfers and the completion record.
    pub open spec fn migrate_done(&self, after: Migrate, plan: MigrationPlan) -> bool {
        let m = *self;
        let fee = m.migration_fee();
        let rest = m.curve_sol_balance - fee;
        &&& after == (Migrate {
            bonding_curve: BondingCurve { is_migrated: true, ..m.bonding_curve },
            ..m
        })
        &&& plan.create_pool == (PoolCreation {
            pool_creator: m.authority,
            pool_state: m.pool_state,
            token_mint_0: m.wsol_mint,
            token_mint_1: m.token_mint,
            token_vault_0: m.token_vault_0,
            token_vault_1: m.token_vault_1,
            sqrt_price_x64: 0x1_0000_0000_0000_0000u128,
        })
        &&& plan.transfers@ =~= seq![
            intent(Asset::Sol, m.curve_sol_account, m.config.fee_recipient, fee as u64, true),
            intent(Asset::Sol, m.curve_sol_account, m.token_vault_0, rest as u64, true),
            intent(Asset::Token, m.curve_token_account, m.token_vault_1, m.curve_token_balance, true),
        ]
        &&& plan.completed == (MigrationCompleted {
            token_mint: m.token_mint,
            sol_amount: rest as u64,
            token_amount: m.curve_token_balance,
            migration_fee: fee as u64,
            raydium_pool: m.pool_state,
        })
    }

    /// Plans the migration and marks the curve migrated. The host must apply
    /// the plan and the new curve state together, or neither.
    pub fn process(&mut self) -> (r: Result<MigrationPlan, PumpFunError>)
        ensures
            match old(self).migrate_error() {
                Some(e) => r matches Err(x) && x == e && *final(self) == *old(self),
                None => r matches Ok(plan) && old(self).migrate_done(*final(self), plan),
            },
    {
        if !self.bonding_curve.is_completed {
            return Err(PumpFunError::CurveNotCompleted);
        }
        if self.bonding_curve.is_migrated {
            return Err(PumpFunError::AlreadyMigrated);
        }
        if self.curve_token_balance == 0 {
            return Err(PumpFunError::InsufficientTokenBalance);
        }
        if self.curve_sol_balance == 0 {
            return Err(PumpFunError::InsufficientSolBalance);
        }
        if self.config.authority != self.authority {
            return Err(PumpFunError::UnauthorizedAddress);
        }
        let sol_balance = self.curve_sol_balance;
        let token_balance = self.curve_token_balance;
        assert((sol_balance as u128) * (self.config.migration_fee_bps as u128) <= u64::MAX * u64::MAX)
            by (nonlinear_arith)
            requires
                sol_balance <= u64::MAX,
                self.config.migration_fee_bps <= u64::MAX,
        ;
        let wide_fee: u128 = (sol_balance as u128) * (self.config.migration_fee_bps as u128) / 10_000;
        if wide_fee > sol_balance as u128 {
            return Err(PumpFunError::InsufficientSolBalance);
        }
        let migration_fee = wide_fee as u64;
        let remaining_sol = sol_balance - migration_fee;
        // a pool opened at tick 0 prices the two sides one to one
        let sqrt_price_x64 = match sqrt_price_at_tick(0) {
            Ok(p) => p,
            Err(_) => return Err(PumpFunError::MathOverflow),
        };
        let create_pool = PoolCreation {
            pool_creator: self.authority,
            pool_state: self.pool_state,
            token_mint_0: self.wsol_mint,
            token_mint_1: self.token_mint,
            token_vault_0: self.token_vault_0,
            token_vault_1: self.token_vault_1,
            sqrt_price_x64,
        };
        let mut transfers: Vec<TransferIntent> = Vec::new();
        transfers.push(sol_transfer_with_signer(self.curve_sol_account, self.config.fee_recipient, migration_fee));
        transfers.push(sol_transfer_with_signer(self.curve_sol_account, self.token_vault_0, remaining_sol));
        transfers.push(token_transfer_with_signer(self.curve_token_account, self.token_vault_1, token_balance));
        self.bonding_curve.is_migrated = true;
        let completed = MigrationCompleted {
            token_mint: self.token_mint,
            sol_amount: remaining_sol,
            token_amount: token_balance,
            migration_fee,
            raydium_pool: self.pool_state,
        };
        Ok(MigrationPlan { create_pool, transfers, completed })
    }
}

} // verus!
