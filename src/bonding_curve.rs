//! Per-token curve state and its buy/sell transitions.
use vstd::prelude::*;
use crate::errors::PumpFunError;
use crate::events::{CurveCompleted, TokenPurchased, TokenSold};
use crate::pricing::{fee_of, quote, quote_error, quote_out};
use crate::pubkey::Pubkey;
use crate::transfer::{
    intent, sol_transfer_from_user, sol_transfer_with_signer, token_transfer_user,
    token_transfer_with_signer, Asset, TransferIntent,
};

verus! {

/// Direction code of a buy (currency in, tokens out); any other code sells.
pub const BUY: u8 = 0;

/// Direction code of a sell (tokens in, currency out).
pub const SELL: u8 = 1;

/// The reserves and lifecycle flags of one launched token.
#[derive(Debug, Clone, Copy)]
pub struct BondingCurve {
    /// Reserves used only for pricing.
    pub virtual_token_reserve: u64,
    pub virtual_sol_reserve: u64,
    /// Backing reserves, kept for accounting; pricing does not read them.
    pub real_token_reserve: u64,
    pub real_sol_reserve: u64,
    pub token_total_supply: u64,
    /// Set once the virtual currency reserve reaches the curve limit.
    pub is_completed: bool,
    /// Set once the reserves have been moved to an external pool.
    pub is_migrated: bool,
}

/// What a successful buy pays, and the transfers it needs, in order.
#[derive(Debug, Clone)]
pub struct BuyReceipt {
    pub amount_out: u64,
    pub fee_amount: u64,
    /// Whether this buy completed the curve.
    pub completed: bool,
    pub transfers: Vec<TransferIntent>,
    pub purchased: TokenPurchased,
    pub curve_completed: Option<CurveCompleted>,
}

/// What a successful sell pays, and the transfers it needs, in order.
#[derive(Debug, Clone)]
pub struct SellReceipt {
    pub amount_out: u64,
    pub fee_amount: u64,
    pub transfers: Vec<TransferIntent>,
    pub sold: TokenSold,
}

/// The bytes of the seed prefix of a curve's address, `"bonding_curve"`.
pub open spec fn seed_prefix() -> Seq<u8> {
    seq![98u8, 111, 110, 100, 105, 110, 103, 95, 99, 117, 114, 118, 101]
}

impl BondingCurve {
    /// The seeds that derive, and sign for, the curve of `mint`: the prefix,
    /// the mint's bytes and the bump.
    pub fn get_signer(mint: &Pubkey, bump: u8) -> (r: Vec<Vec<u8>>)
        ensures
            r@.len() == 3,
            r@[0]@ == seed_prefix(),
            r@[1]@ == mint.bytes@,
            r@[2]@ == seq![bump],
    {
        let prefix: Vec<u8> = vec![98u8, 111, 110, 100, 105, 110, 103, 95, 99, 117, 114, 118, 101];
        let mut key: Vec<u8> = Vec::new();
        let mut i: usize = 0;
        while i < 32
            invariant
                0 <= i <= 32,
                key@ == mint.bytes@.subrange(0, i as int),
            decreases 32 - i,
        {
            key.push(mint.bytes[i]);
            i = i + 1;
        }
        let mut seeds: Vec<Vec<u8>> = Vec::new();
        seeds.push(prefix);
        seeds.push(key);
        seeds.push(vec![bump]);
        assert(seeds@[0]@ =~= seed_prefix());
        assert(seeds@[1]@ =~= mint.bytes@);
        assert(seeds@[2]@ =~= seq![bump]);
        seeds
    }

    /// A migrated curve is a completed one.
    pub open spec fn lifecycle_ok(&self) -> bool {
        self.is_migrated ==> self.is_completed
    }

    pub open spec fn buy_out(&self, amount_in: int, bps: int) -> int {
        quote_out(self.virtual_token_reserve as int, self.virtual_sol_reserve as int, amount_in, BUY, bps)
    }

    pub open spec fn sell_out(&self, amount_in: int, bps: int) -> int {
        quote_out(self.virtual_token_reserve as int, self.virtual_sol_reserve as int, amount_in, SELL, bps)
    }

    /// Why a buy fails, if it does.
    pub open spec fn buy_error(&self, amount_in: int, min_amount_out: int, bps: int) -> Option<PumpFunError> {
        let t = self.virtual_token_reserve as int;
        let s = self.virtual_sol_reserve as int;
        if self.is_migrated {
            Some(PumpFunError::AlreadyMigrated)
        } else { match quote_error(t, s, amount_in, BUY, bps) {
            Some(e) => Some(e),
            None => {
                let o = self.buy_out(amount_in, bps);
                let n = amount_in - fee_of(amount_in, bps);
                if o < min_amount_out {
                    Some(PumpFunError::InsufficientAmountOut)
                } else if o > t || s + n > u64::MAX {
                    Some(PumpFunError::InvalidReserves)
                } else if t - o == 0 {
                    // the resulting price divides by the token reserve
                    Some(PumpFunError::DivisionByZero)
                } else {
                    None
                }
            },
        } }
    }

    /// The curve after a buy that does not fail.
    pub open spec fn after_buy(&self, curve_limit: int, amount_in: int, bps: int) -> BondingCurve {
        let o = self.buy_out(amount_in, bps);
        let s = self.virtual_sol_reserve + amount_in - fee_of(amount_in, bps);
        BondingCurve {
            virtual_token_reserve: (self.virtual_token_reserve - o) as u64,
            virtual_sol_reserve: s as u64,
            is_completed: self.is_completed || s >= curve_limit,
            ..*self
        }
    }

    /// Why a sell fails, if it does.
    pub open spec fn sell_error(&self, amount_in: int, min_amount_out: int, bps: int) -> Option<PumpFunError> {
        let t = self.virtual_token_reserve as int;
        let s = self.virtual_sol_reserve as int;
        if self.is_migrated {
            Some(PumpFunError::AlreadyMigrated)
        } else { match quote_error(t, s, amount_in, SELL, bps) {
            Some(e) => Some(e),
            None => {
                let o = self.sell_out(amount_in, bps);
                if o < min_amount_out {
                    Some(PumpFunError::InsufficientAmountOut)
                } else if fee_of(amount_in, bps) > o {
                    // the fee is paid out of the currency output
                    Some(PumpFunError::InsufficientFunds)
                } else if t + amount_in > u64::MAX || o > s {
                    Some(PumpFunError::InvalidReserves)
                } else {
                    None
                }
            },
        } }
    }

    /// The curve after a sell that does not fail.
    pub open spec fn after_sell(&self, amount_in: int, bps: int) -> BondingCurve {
        let o = self.sell_out(amount_in, bps);
        BondingCurve {
            virtual_token_reserve: (self.virtual_token_reserve + amount_in) as u64,
            virtual_sol_reserve: (self.virtual_sol_reserve - o) as u64,
            ..*self
        }
    }

    /// Sets both virtual reserves.
    pub fn update_reserves(&mut self, reserve_lamport: u64, reserve_token: u64) -> (r: Result<bool, PumpFunError>)
        ensures
            *final(self) == (BondingCurve {
                virtual_sol_reserve: reserve_lamport,
                virtual_token_reserve: reserve_token,
                ..*old(self)
            }),
            r == Ok::<bool, PumpFunError>(true),
    {
        self.virtual_sol_reserve = reserve_lamport;
        self.virtual_token_reserve = reserve_token;
        Ok(true)
    }

    /// `(amount_out, fee_amount)` for `amount_in` in `direction` at a fee of
    /// `fee_bps` hundredths of a percent, against the virtual reserves.
    pub fn calculate_amount_out(&self, amount_in: u64, direction: u8, fee_bps: u64) -> (r: Result<(u64, u64), PumpFunError>)
        ensures
            match quote_error(
                self.virtual_token_reserve as int,
                self.virtual_sol_reserve as int,
                amount_in as int,
                direction,
                fee_bps as int,
            ) {
                Some(e) => r == Err::<(u64, u64), PumpFunError>(e),
                None => r matches Ok((o, f)) && o == quote_out(
                    self.virtual_token_reserve as int,
                    self.virtual_sol_reserve as int,
                    amount_in as int,
                    direction,
                    fee_bps as int,
                ) && f == fee_of(amount_in as int, fee_bps as int),
            },
    {
        quote(self.virtual_token_reserve, self.virtual_sol_reserve, amount_in, direction, fee_bps)
    }
    /// A successful buy: `after` is the new curve and `rec` what it pays,
    /// with its transfers and records.
    pub open spec fn buy_done(
        &self,
        after: BondingCurve,
        rec: BuyReceipt,
        token_mint: Pubkey,
        curve_limit: u64,
        user: Pubkey,
        curve_pda: Pubkey,
        fee_recipient: Pubkey,
        user_ata: Pubkey,
        curve_ata: Pubkey,
        amount_in: u64,
        fee_bps: u64,
    ) -> bool {
        let o = self.buy_out(amount_in as int, fee_bps as int);
        let f = fee_of(amount_in as int, fee_bps as int);
        let c = after;
        &&& c == self.after_buy(curve_limit as int, amount_in as int, fee_bps as int)
        &&& rec.amount_out == o
        &&& rec.fee_amount == f
        &&& rec.completed == (!self.is_completed && c.is_completed)
        &&& rec.transfers@ =~= seq![
            intent(Asset::Sol, user, fee_recipient, f as u64, false),
            intent(Asset::Sol, user, curve_pda, (amount_in - f) as u64, false),
            intent(Asset::Token, curve_ata, user_ata, o as u64, true),
        ]
        &&& rec.purchased == (TokenPurchased {
            token_mint,
            buyer: user,
            sol_amount: amount_in,
            token_amount: o as u64,
            fee_amount: f as u64,
            price: (c.virtual_sol_reserve / c.virtual_token_reserve) as u64,
        })
        &&& rec.curve_completed == if rec.completed {
            Some(CurveCompleted {
                token_mint,
                final_sol_reserve: c.virtual_sol_reserve,
                final_token_reserve: c.virtual_token_reserve,
            })
        } else {
            None
        }
    }

    /// Buys tokens with `amount_in` currency from `user`, at a fee of `fee_bps`
    /// hundredths of a percent taken from the input. Completes the curve when
    /// the virtual currency reserve reaches `curve_limit`.
    pub fn buy(
        &mut self,
        token_mint: Pubkey,
        curve_limit: u64,
        user: Pubkey,
        curve_pda: Pubkey,
        fee_recipient: Pubkey,
        user_ata: Pubkey,
        curve_ata: Pubkey,
        amount_in: u64,
        min_amount_out: u64,
        fee_bps: u64,
    ) -> (r: Result<BuyReceipt, PumpFunError>)
        ensures
            match old(self).buy_error(amount_in as int, min_amount_out as int, fee_bps as int) {
                Some(e) => r matches Err(x) && x == e && *final(self) == *old(self),
                None => r matches Ok(rec) && old(self).buy_done(
                    *final(self),
                    rec,
                    token_mint,
                    curve_limit,
                    user,
                    curve_pda,
                    fee_recipient,
                    user_ata,
                    curve_ata,
                    amount_in,
                    fee_bps,
                ),
            },
    {
        if self.is_migrated {
            return Err(PumpFunError::AlreadyMigrated);
        }
        let (amount_out, fee_amount) = match self.calculate_amount_out(amount_in, BUY, fee_bps) {
            Ok(q) => q,
            Err(e) => return Err(e),
        };
        if amount_out < min_amount_out {
            return Err(PumpFunError::InsufficientAmountOut);
        }
        let net = amount_in - fee_amount;
        if amount_out > self.virtual_token_reserve {
            return Err(PumpFunError::InvalidReserves);
        }
        let new_token_reserves = self.virtual_token_reserve - amount_out;
        let new_sol_reserves = match self.virtual_sol_reserve.checked_add(net) {
            Some(v) => v,
            None => return Err(PumpFunError::InvalidReserves),
        };
        if new_token_reserves == 0 {
            return Err(PumpFunError::DivisionByZero);
        }
        let mut transfers: Vec<TransferIntent> = Vec::new();
        transfers.push(sol_transfer_from_user(user, fee_recipient, fee_amount));
        transfers.push(sol_transfer_from_user(user, curve_pda, net));
        transfers.push(token_transfer_with_signer(curve_ata, user_ata, amount_out));
        let _ = self.update_reserves(new_sol_reserves, new_token_reserves);
        let purchased = TokenPurchased {
            token_mint,
            buyer: user,
            sol_amount: amount_in,
            token_amount: amount_out,
            fee_amount,
            price: new_sol_reserves / new_token_reserves,
        };
        let completed = !self.is_completed && new_sol_reserves >= curve_limit;
        if new_sol_reserves >= curve_limit {
            self.is_completed = true;
        }
        let curve_completed = if completed {
            Some(
                CurveCompleted {
                    token_mint,
                    final_sol_reserve: new_sol_reserves,
                    final_token_reserve: new_token_reserves,
                },
            )
        } else {
            None
        };
        Ok(BuyReceipt { amount_out, fee_amount, completed, transfers, purchased, curve_completed })
    }

    /// A successful sell: `after` is the new curve and `rec` what it pays,
    /// with its transfers and record.
    pub open spec fn sell_done(
        &self,
        after: BondingCurve,
        rec: SellReceipt,
        token_mint: Pubkey,
        user: Pubkey,
        curve_pda: Pubkey,
        user_ata: Pubkey,
        fee_recipient: Pubkey,
        curve_ata: Pubkey,
        amount_in: u64,
        fee_bps: u64,
    ) -> bool {
        let o = self.sell_out(amount_in as int, fee_bps as int);
        let f = fee_of(amount_in as int, fee_bps as int);
        let c = after;
        &&& c == self.after_sell(amount_in as int, fee_bps as int)
        &&& rec.amount_out == o
        &&& rec.fee_amount == f
        &&& rec.transfers@ =~= seq![
            intent(Asset::Token, user_ata, curve_ata, amount_in, false),
            intent(Asset::Sol, curve_pda, user, (o - f) as u64, true),
            intent(Asset::Sol, curve_pda, fee_recipient, f as u64, true),
        ]
        &&& rec.sold == (TokenSold {
            token_mint,
            sol_amount: amount_in,
            token_amount: o as u64,
            fee_amount: f as u64,
            price: (c.virtual_sol_reserve / c.virtual_token_reserve) as u64,
        })
    }

    /// Sells `amount_in` tokens from `user` for currency. The fee, `fee_bps`
    /// hundredths of a percent of the input, is paid out of the currency output.
    pub fn sell(
        &mut self,
        token_mint: Pubkey,
        user: Pubkey,
        curve_pda: Pubkey,
        user_ata: Pubkey,
        fee_recipient: Pubkey,
        curve_ata: Pubkey,
        amount_in: u64,
        min_amount_out: u64,
        fee_bps: u64,
    ) -> (r: Result<SellReceipt, PumpFunError>)
        ensures
            match old(self).sell_error(amount_in as int, min_amount_out as int, fee_bps as int) {
                Some(e) => r matches Err(x) && x == e && *final(self) == *old(self),
                None => r matches Ok(rec) && old(self).sell_done(
                    *final(self),
                    rec,
                    token_mint,
                    user,
                    curve_pda,
                    user_ata,
                    fee_recipient,
                    curve_ata,
                    amount_in,
                    fee_bps,
                ),
            },
    {
        if self.is_migrated {
            return Err(PumpFunError::AlreadyMigrated);
        }
        let (amount_out, fee_amount) = match self.calculate_amount_out(amount_in, SELL, fee_bps) {
            Ok(q) => q,
            Err(e) => return Err(e),
        };
        if amount_out < min_amount_out {
            return Err(PumpFunError::InsufficientAmountOut);
        }
        if fee_amount > amount_out {
            return Err(PumpFunError::InsufficientFunds);
        }
        let new_token_reserves = match self.virtual_token_reserve.checked_add(amount_in) {
            Some(v) => v,
            None => return Err(PumpFunError::InvalidReserves),
        };
        if amount_out > self.virtual_sol_reserve {
            return Err(PumpFunError::InvalidReserves);
        }
        let new_sol_reserves = self.virtual_sol_reserve - amount_out;
        let mut transfers: Vec<TransferIntent> = Vec::new();
        transfers.push(token_transfer_user(user_ata, curve_ata, amount_in));
        transfers.push(sol_transfer_with_signer(curve_pda, user, amount_out - fee_amount));
        transfers.push(sol_transfer_with_signer(curve_pda, fee_recipient, fee_amount));
        let _ = self.update_reserves(new_sol_reserves, new_token_reserves);
        let sold = TokenSold {
            token_mint,
            sol_amount: amount_in,
            token_amount: amount_out,
            fee_amount,
            price: new_sol_reserves / new_token_reserves,
        };
        Ok(SellReceipt { amount_out, fee_amount, transfers, sold })
    }
}

} // verus!
