//! Properties of pricing and of the curve lifecycle that relate several calls.
use vstd::prelude::*;
use crate::bonding_curve::{BondingCurve, BUY, SELL};
use crate::config::ConfigSettings;
use crate::configure::{config_from, Configure};
use crate::errors::PumpFunError;
use crate::migrate::Migrate;
use crate::pricing::{
    buy_covers, fee_of, is_buy_out, is_sell_out, lemma_buy_covers_down, lemma_pow5_monotone,
    lemma_pow5_monotone_all, lemma_sell_covers_down, pow5, quote_error, quote_out, sell_covers,
};
use crate::pubkey::Pubkey;

verus! {

proof fn lemma_buy_out_exists(t: int, s: int, n: int, lo: int)
    requires
        0 <= lo <= u64::MAX,
        buy_covers(t, s, n, lo),
    ensures
        exists|o: int| is_buy_out(t, s, n, o),
    decreases u64::MAX - lo,
{
    if lo < u64::MAX && buy_covers(t, s, n, lo + 1) {
        lemma_buy_out_exists(t, s, n, lo + 1);
    } else {
        assert(is_buy_out(t, s, n, lo));
    }
}

proof fn lemma_sell_out_exists(t: int, v: int, n: int, lo: int)
    requires
        0 <= lo <= u64::MAX,
        sell_covers(t, v, n, lo),
    ensures
        exists|o: int| is_sell_out(t, v, n, o),
    decreases u64::MAX - lo,
{
    if lo < u64::MAX && sell_covers(t, v, n, lo + 1) {
        lemma_sell_out_exists(t, v, n, lo + 1);
    } else {
        assert(is_sell_out(t, v, n, lo));
    }
}

/// The buy output that the contracts name is the one that the buy inequality
/// characterises.
proof fn lemma_buy_out_is(t: int, s: int, n: int)
    requires
        t >= 0,
        s >= 0,
        n >= 0,
    ensures
        is_buy_out(t, s, n, choose|o: int| is_buy_out(t, s, n, o)),
{
    lemma_pow5_monotone(0, t);
    assert(pow5(t) * s <= pow5(t) * (s + n)) by (nonlinear_arith)
        requires
            pow5(t) >= 0,
            n >= 0,
    ;
    lemma_buy_out_exists(t, s, n, 0);
}

/// The sell output that the contracts name is the one that the sell
/// inequality characterises.
proof fn lemma_sell_out_is(t: int, v: int, n: int)
    requires
        t >= 0,
        v >= 0,
        n >= 0,
    ensures
        is_sell_out(t, v, n, choose|o: int| is_sell_out(t, v, n, o)),
{
    lemma_pow5_monotone_all(t - n, t);
    assert(0 <= v * (pow5(t) - pow5(t - n))) by (nonlinear_arith)
        requires
            pow5(t - n) <= pow5(t),
            v >= 0,
    ;
    lemma_sell_out_exists(t, v, n, 0);
}

/// At a fee rate of at most 100%, the net amount after the fee never
/// decreases as the amount grows.
proof fn lemma_net_monotone(a1: int, a2: int, bps: int)
    requires
        0 <= a1 <= a2,
        0 <= bps <= 10_000,
    ensures
        0 <= a1 - fee_of(a1, bps) <= a2 - fee_of(a2, bps),
{
    let f1 = fee_of(a1, bps);
    let f2 = fee_of(a2, bps);
    assert(f1 * 10_000 <= a1 * bps < f1 * 10_000 + 10_000);
    assert(f2 * 10_000 <= a2 * bps < f2 * 10_000 + 10_000);
    assert(f2 - f1 <= a2 - a1) by (nonlinear_arith)
        requires
            f2 * 10_000 <= a2 * bps,
            a1 * bps < f1 * 10_000 + 10_000,
            0 <= bps <= 10_000,
            a1 <= a2,
    ;
    assert(f1 <= a1) by (nonlinear_arith)
        requires
            f1 * 10_000 <= a1 * bps,
            0 <= bps <= 10_000,
            0 <= a1,
    ;
}

/// Pricing is monotone: with the reserves and a fee rate of at most 100%
/// fixed, a larger input never yields a smaller output, in either direction.
pub proof fn lemma_quote_monotone(t: u64, s: u64, a1: u64, a2: u64, direction: u8, bps: u64)
    requires
        bps <= 10_000,
        a1 <= a2,
        quote_error(t as int, s as int, a1 as int, direction, bps as int) is None,
    ensures
        quote_error(t as int, s as int, a2 as int, direction, bps as int) is None,
        quote_out(t as int, s as int, a1 as int, direction, bps as int) <= quote_out(
            t as int,
            s as int,
            a2 as int,
            direction,
            bps as int,
        ),
{
    lemma_net_monotone(a1 as int, a2 as int, bps as int);
    lemma_net_monotone(a2 as int, a2 as int, bps as int);
    let n1 = a1 - fee_of(a1 as int, bps as int);
    let n2 = a2 - fee_of(a2 as int, bps as int);
    let o1 = quote_out(t as int, s as int, a1 as int, direction, bps as int);
    let o2 = quote_out(t as int, s as int, a2 as int, direction, bps as int);
    lemma_pow5_monotone(0, t as int);
    if direction == 0 {
        lemma_buy_out_is(t as int, s as int, n1);
        lemma_buy_out_is(t as int, s as int, n2);
        if o2 < o1 {
            assert(pow5(t + o1) * s <= pow5(t as int) * (s + n2)) by (nonlinear_arith)
                requires
                    pow5(t + o1) * s <= pow5(t as int) * (s + n1),
                    pow5(t as int) >= 0,
                    n1 <= n2,
            ;
            lemma_buy_covers_down(t as int, s as int, n2, o2 + 1, o1);
        }
    } else {
        lemma_sell_out_is(t as int, s as int, n1);
        lemma_sell_out_is(t as int, s as int, n2);
        if o2 < o1 {
            lemma_pow5_monotone_all(t - n2, t - n1);
            assert(o1 * pow5(t as int) <= s * (pow5(t as int) - pow5(t - n2))) by (nonlinear_arith)
                requires
                    o1 * pow5(t as int) <= s * (pow5(t as int) - pow5(t - n1)),
                    pow5(t - n2) <= pow5(t - n1),
                    s >= 0,
            ;
            lemma_sell_covers_down(t as int, s as int, n2, o2 + 1, o1);
        }
    }
}

/// A buy that succeeds leaves both virtual reserves at their exact new values:
/// tokens reduced by the output, currency raised by the net input, neither
/// below zero nor past the counter range.
pub proof fn lemma_buy_reserves_exact(c: BondingCurve, curve_limit: u64, amount_in: u64, min_amount_out: u64, bps: u64)
    requires
        c.buy_error(amount_in as int, min_amount_out as int, bps as int) is None,
    ensures
        ({
            let after = c.after_buy(curve_limit as int, amount_in as int, bps as int);
            let o = c.buy_out(amount_in as int, bps as int);
            let n = amount_in - fee_of(amount_in as int, bps as int);
            &&& 0 <= c.virtual_token_reserve - o
            &&& after.virtual_token_reserve == c.virtual_token_reserve - o
            &&& 0 <= n
            &&& c.virtual_sol_reserve + n <= u64::MAX
            &&& after.virtual_sol_reserve == c.virtual_sol_reserve + n
        }),
{
    let n = amount_in - fee_of(amount_in as int, bps as int);
    lemma_buy_out_is(c.virtual_token_reserve as int, c.virtual_sol_reserve as int, n);
}

/// A sell that succeeds leaves both virtual reserves at their exact new
/// values: tokens raised by the input, currency reduced by the output.
pub proof fn lemma_sell_reserves_exact(c: BondingCurve, amount_in: u64, min_amount_out: u64, bps: u64)
    requires
        c.sell_error(amount_in as int, min_amount_out as int, bps as int) is None,
    ensures
        ({
            let after = c.after_sell(amount_in as int, bps as int);
            let o = c.sell_out(amount_in as int, bps as int);
            &&& c.virtual_token_reserve + amount_in <= u64::MAX
            &&& after.virtual_token_reserve == c.virtual_token_reserve + amount_in
            &&& 0 <= c.virtual_sol_reserve - o
            &&& after.virtual_sol_reserve == c.virtual_sol_reserve - o
        }),
{
    let n = amount_in - fee_of(amount_in as int, bps as int);
    lemma_sell_out_is(c.virtual_token_reserve as int, c.virtual_sol_reserve as int, n);
}

/// A buy on a curve still trading whose output would take more tokens than
/// the reserve holds, or push the currency reserve past its range, fails with
/// the reserve error (and, by the contract of `buy`, changes nothing): no
/// reserve is ever driven below zero or wrapped.
pub proof fn lemma_buy_reserve_range_guarded(c: BondingCurve, amount_in: u64, min_amount_out: u64, bps: u64)
    requires
        !c.is_migrated,
        quote_error(
            c.virtual_token_reserve as int,
            c.virtual_sol_reserve as int,
            amount_in as int,
            BUY,
            bps as int,
        ) is None,
        c.buy_out(amount_in as int, bps as int) >= min_amount_out,
        c.buy_out(amount_in as int, bps as int) > c.virtual_token_reserve || c.virtual_sol_reserve
            + amount_in - fee_of(amount_in as int, bps as int) > u64::MAX,
    ensures
        c.buy_error(amount_in as int, min_amount_out as int, bps as int) == Some(
            PumpFunError::InvalidReserves,
        ),
{
}

/// A sell on a curve still trading whose output would take more currency than
/// the reserve holds, or push the token reserve past its range, fails with the
/// reserve error (and, by the contract of `sell`, changes nothing).
pub proof fn lemma_sell_reserve_range_guarded(c: BondingCurve, amount_in: u64, min_amount_out: u64, bps: u64)
    requires
        !c.is_migrated,
        quote_error(
            c.virtual_token_reserve as int,
            c.virtual_sol_reserve as int,
            amount_in as int,
            SELL,
            bps as int,
        ) is None,
        c.sell_out(amount_in as int, bps as int) >= min_amount_out,
        fee_of(amount_in as int, bps as int) <= c.sell_out(amount_in as int, bps as int),
        c.sell_out(amount_in as int, bps as int) > c.virtual_sol_reserve || c.virtual_token_reserve
            + amount_in > u64::MAX,
    ensures
        c.sell_error(amount_in as int, min_amount_out as int, bps as int) == Some(
            PumpFunError::InvalidReserves,
        ),
{
}

/// Completion is set by a buy exactly when the new virtual currency reserve
/// reaches the limit, is never cleared, and no sell changes it; so a curve
/// goes from not completed to completed at most once.
pub proof fn lemma_completion_once(c: BondingCurve, curve_limit: u64, amount_in: u64, bps: u64)
    ensures
        ({
            let after = c.after_buy(curve_limit as int, amount_in as int, bps as int);
            let n = amount_in - fee_of(amount_in as int, bps as int);
            &&& c.is_completed ==> after.is_completed
            &&& (!c.is_completed && after.is_completed) == (!c.is_completed && c.virtual_sol_reserve
                + n >= curve_limit)
        }),
        c.after_sell(amount_in as int, bps as int).is_completed == c.is_completed,
{
}

/// Buys and sells keep the migration flag as it is, and so keep "migrated
/// implies completed"; a migration succeeds only on a completed curve that
/// is not yet migrated, and leaves it migrated and completed.
pub proof fn lemma_lifecycle_kept(c: BondingCurve, curve_limit: u64, amount_in: u64, bps: u64, m: Migrate)
    requires
        c.lifecycle_ok(),
    ensures
        c.after_buy(curve_limit as int, amount_in as int, bps as int).lifecycle_ok(),
        c.after_buy(curve_limit as int, amount_in as int, bps as int).is_migrated == c.is_migrated,
        c.after_sell(amount_in as int, bps as int).lifecycle_ok(),
        c.after_sell(amount_in as int, bps as int).is_migrated == c.is_migrated,
        m.migrate_error() is None ==> m.bonding_curve.is_completed && !m.bonding_curve.is_migrated,
        m.migrate_error() is None ==> (BondingCurve { is_migrated: true, ..m.bonding_curve }).lifecycle_ok(),
{
}

/// A buy on a curve still trading whose minimum output exceeds the computed
/// output fails with the
/// slippage error (and, by the contract of `buy`, changes nothing).
pub proof fn lemma_slippage_rejected(c: BondingCurve, amount_in: u64, min_amount_out: u64, bps: u64)
    requires
        !c.is_migrated,
        quote_error(
            c.virtual_token_reserve as int,
            c.virtual_sol_reserve as int,
            amount_in as int,
            BUY,
            bps as int,
        ) is None,
        min_amount_out > c.buy_out(amount_in as int, bps as int),
    ensures
        c.buy_error(amount_in as int, min_amount_out as int, bps as int) == Some(
            PumpFunError::InsufficientAmountOut,
        ),
{
}

/// Migrating a curve that has not completed fails with the lifecycle error
/// (and, by the contract of `process`, plans no transfer).
pub proof fn lemma_migrate_requires_completion(m: Migrate)
    requires
        !m.bonding_curve.is_completed,
    ensures
        m.migrate_error() == Some(PumpFunError::CurveNotCompleted),
{
}

/// After a successful migration a second one fails as already migrated, so
/// the swept balances are never planned for a second time.
pub proof fn lemma_migrate_once(m: Migrate)
    requires
        m.migrate_error() is None,
    ensures
        (Migrate { bonding_curve: BondingCurve { is_migrated: true, ..m.bonding_curve }, ..m }).migrate_error()
            == Some(PumpFunError::AlreadyMigrated),
{
}

/// Once a first caller has configured the record, a call by any other
/// identity fails as unauthorized (and, by the contract of `process`, leaves
/// the first caller as the authority).
pub proof fn lemma_authority_kept(first: Configure, settings: ConfigSettings, other: Pubkey, again: ConfigSettings)
    requires
        first.configure_error(settings) is None,
        other.bytes@ != first.admin.bytes@,
    ensures
        (Configure { admin: other, global_config: config_from(settings, first.admin) }).configure_error(again)
            == Some(PumpFunError::UnauthorizedAddress),
        config_from(settings, first.admin).authority == first.admin,
{
}

} // verus!
