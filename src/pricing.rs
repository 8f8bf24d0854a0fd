//! Exact constant-power curve pricing on integers.
//!
//! The reserve-ratio exponent is fixed at `r = 1/5` and never taken from
//! input. A buy of net currency `n` against virtual reserves `(T, S)` pays
//! `floor(T * ((1 + n/S)^r - 1))` tokens; a sell of net `n` tokens pays
//! `floor(S * (1 - (1 - n/T)^(1/r)))` currency. The alternative setting
//! `r = 1.314` is deliberately not used: its powers are not whole numbers, so
//! its prices could only be approximated, while `r = 1/5` needs only fifth
//! powers and every result below is exact. Each result is characterised as the
//! largest integer satisfying a polynomial inequality and found by bisection
//! over exact wide products; a result above `u64::MAX` saturates.
//!
//! These two formulas are not inverse to each other once the reserves have
//! moved (a buy lowers `T`, which steepens the sell). A buy followed by the
//! sale of what it bought can therefore return more than was paid: from
//! reserves `(1000, 1000)` without fees, 1000 buys 148 tokens and selling
//! them back pays 1229. The formulas are kept as given; no round-trip bound
//! is claimed.
use vstd::prelude::*;
use crate::errors::PumpFunError;
use crate::wide::Wide;

verus! {

pub open spec fn pow5(x: int) -> int {
    x * x * x * x * x
}

/// `o` tokens are covered by a buy of net `n` against reserves `(t, s)`:
/// `(t + o)^5 * s <= t^5 * (s + n)`.
pub open spec fn buy_covers(t: int, s: int, n: int, o: int) -> bool {
    pow5(t + o) * s <= pow5(t) * (s + n)
}

/// `o` is the floor of the buy formula, saturated at `u64::MAX`.
pub open spec fn is_buy_out(t: int, s: int, n: int, o: int) -> bool {
    &&& 0 <= o <= u64::MAX
    &&& buy_covers(t, s, n, o)
    &&& (o == u64::MAX || !buy_covers(t, s, n, o + 1))
}

/// `o` currency units are covered by a sell of net `n` against reserves
/// `(t, v)`: `o * t^5 <= v * (t^5 - (t - n)^5)`, the power taken with its sign
/// when `n > t`.
pub open spec fn sell_covers(t: int, v: int, n: int, o: int) -> bool {
    o * pow5(t) <= v * (pow5(t) - pow5(t - n))
}

/// `o` is the floor of the sell formula, saturated at `u64::MAX`.
pub open spec fn is_sell_out(t: int, v: int, n: int, o: int) -> bool {
    &&& 0 <= o <= u64::MAX
    &&& sell_covers(t, v, n, o)
    &&& (o == u64::MAX || !sell_covers(t, v, n, o + 1))
}

pub proof fn lemma_pow5_monotone(a: int, b: int)
    requires
        0 <= a <= b,
    ensures
        0 <= pow5(a) <= pow5(b),
{
    assert(0 <= a * a <= b * b) by (nonlinear_arith)
        requires
            0 <= a <= b,
    ;
    assert(0 <= a * a * a <= b * b * b) by (nonlinear_arith)
        requires
            0 <= a <= b,
            0 <= a * a <= b * b,
    ;
    assert(0 <= a * a * a * a <= b * b * b * b) by (nonlinear_arith)
        requires
            0 <= a <= b,
            0 <= a * a * a <= b * b * b,
    ;
    assert(0 <= a * a * a * a * a <= b * b * b * b * b) by (nonlinear_arith)
        requires
            0 <= a <= b,
            0 <= a * a * a * a <= b * b * b * b,
    ;
}

proof fn lemma_pow5_neg(a: int)
    ensures
        pow5(-a) == -pow5(a),
{
    assert((-a) * (-a) * (-a) * (-a) * (-a) == -(a * a * a * a * a)) by (nonlinear_arith);
}

/// `pow5` is monotone over all integers.
pub proof fn lemma_pow5_monotone_all(a: int, b: int)
    requires
        a <= b,
    ensures
        pow5(a) <= pow5(b),
{
    if 0 <= a {
        lemma_pow5_monotone(a, b);
    } else if b <= 0 {
        lemma_pow5_monotone(-b, -a);
        lemma_pow5_neg(a);
        lemma_pow5_neg(b);
    } else {
        lemma_pow5_monotone(0, -a);
        lemma_pow5_monotone(0, b);
        lemma_pow5_neg(a);
    }
}

pub proof fn lemma_mul_le(a: int, b: int, c: int)
    requires
        a <= b,
        0 <= c,
    ensures
        a * c <= b * c,
{
    assert(a * c <= b * c) by (nonlinear_arith)
        requires
            a <= b,
            0 <= c,
    ;
}

pub proof fn lemma_buy_covers_down(t: int, s: int, n: int, o1: int, o2: int)
    requires
        t >= 0,
        s >= 0,
        0 <= o1 <= o2,
        buy_covers(t, s, n, o2),
    ensures
        buy_covers(t, s, n, o1),
{
    lemma_pow5_monotone(t + o1, t + o2);
    lemma_mul_le(pow5(t + o1), pow5(t + o2), s);
}

pub proof fn lemma_sell_covers_down(t: int, v: int, n: int, o1: int, o2: int)
    requires
        t >= 0,
        0 <= o1 <= o2,
        sell_covers(t, v, n, o2),
    ensures
        sell_covers(t, v, n, o1),
{
    lemma_pow5_monotone(0, t);
    lemma_mul_le(o1, o2, pow5(t));
}

pub proof fn lemma_buy_out_unique(t: int, s: int, n: int, o1: int, o2: int)
    requires
        t >= 0,
        s >= 0,
        is_buy_out(t, s, n, o1),
        is_buy_out(t, s, n, o2),
    ensures
        o1 == o2,
{
    if o1 < o2 {
        lemma_buy_covers_down(t, s, n, o1 + 1, o2);
    } else if o2 < o1 {
        lemma_buy_covers_down(t, s, n, o2 + 1, o1);
    }
}

pub proof fn lemma_sell_out_unique(t: int, v: int, n: int, o1: int, o2: int)
    requires
        t >= 0,
        is_sell_out(t, v, n, o1),
        is_sell_out(t, v, n, o2),
    ensures
        o1 == o2,
{
    if o1 < o2 {
        lemma_sell_covers_down(t, v, n, o1 + 1, o2);
    } else if o2 < o1 {
        lemma_sell_covers_down(t, v, n, o2 + 1, o1);
    }
}

/// A monotone test on candidate outputs, evaluated exactly.
enum Probe {
    /// `(t + o)^5 * s <= rhs`
    Root { t: u64, s: u64, rhs: Wide },
    /// `o * unit <= rhs`
    Linear { unit: Wide, rhs: Wide },
}

impl Probe {
    spec fn holds(&self, o: int) -> bool {
        match self {
            Probe::Root { t, s, rhs } => pow5(*t + o) * *s <= rhs@,
            Probe::Linear { unit, rhs } => o * unit@ <= rhs@,
        }
    }

    fn test(&self, o: u64) -> (r: bool)
        ensures
            r == self.holds(o as int),
    {
        match self {
            Probe::Root { t, s, rhs } => {
                let x: u128 = *t as u128 + o as u128;
                let w = Wide::from_u64(*s);
                let w = w.mul_small(x);
                let w = w.mul_small(x);
                let w = w.mul_small(x);
                let w = w.mul_small(x);
                let w = w.mul_small(x);
                assert(w@ == pow5(x as int) * *s) by (nonlinear_arith)
                    requires
                        w@ == *s * x * x * x * x * x,
                ;
                w.le(rhs)
            },
            Probe::Linear { unit, rhs } => {
                let w = unit.mul_small(o as u128);
                assert(w@ == o * unit@) by (nonlinear_arith)
                    requires
                        w@ == unit@ * o,
                ;
                w.le(rhs)
            },
        }
    }
}

/// The largest `o <= hi` that `p` admits, given that it admits `0`.
fn bisect(p: &Probe, hi: u64) -> (o: u64)
    requires
        p.holds(0),
    ensures
        o <= hi,
        p.holds(o as int),
        o == hi || !p.holds(o + 1),
{
    if p.test(hi) {
        return hi;
    }
    let mut lo: u64 = 0;
    let mut up: u64 = hi;
    while up - lo > 1
        invariant
            lo < up <= hi,
            p.holds(lo as int),
            !p.holds(up as int),
        decreases up - lo,
    {
        let mid: u64 = lo + (up - lo) / 2;
        if p.test(mid) {
            lo = mid;
        } else {
            up = mid;
        }
    }
    lo
}

/// `t^5 * m` as a wide number.
fn pow5_times(t: u64, m: u64) -> (r: Wide)
    ensures
        r@ == pow5(t as int) * m,
{
    let w = Wide::from_u64(m);
    let w = w.mul_small(t as u128);
    let w = w.mul_small(t as u128);
    let w = w.mul_small(t as u128);
    let w = w.mul_small(t as u128);
    let w = w.mul_small(t as u128);
    assert(w@ == pow5(t as int) * m) by (nonlinear_arith)
        requires
            w@ == m * t * t * t * t * t,
    ;
    w
}

/// Tokens paid for net currency `n` against virtual reserves `(t, s)`.
pub fn buy_amount_out(t: u64, s: u64, n: u64) -> (o: u64)
    requires
        s > 0,
    ensures
        is_buy_out(t as int, s as int, n as int, o as int),
{
    let w = pow5_times(t, 1);
    let rhs = w.mul_small(s as u128 + n as u128);
    let p = Probe::Root { t, s, rhs };
    proof {
        lemma_pow5_monotone(0, t as int);
        assert(pow5(t as int) * s <= pow5(t as int) * (s + n)) by (nonlinear_arith)
            requires
                pow5(t as int) >= 0,
                n >= 0,
        ;
    }
    bisect(&p, u64::MAX)
}

/// Currency paid for net `n` tokens against virtual reserves `(t, v)`.
pub fn sell_amount_out(t: u64, v: u64, n: u64) -> (o: u64)
    requires
        t > 0,
    ensures
        is_sell_out(t as int, v as int, n as int, o as int),
{
    let unit = pow5_times(t, 1);
    let whole = pow5_times(t, v);
    assert(unit@ == pow5(t as int));
    if n <= t {
        let rest = pow5_times(t - n, v);
        proof {
            lemma_pow5_monotone((t - n) as int, t as int);
            assert(rest@ <= whole@) by (nonlinear_arith)
                requires
                    rest@ == pow5((t - n) as int) * v,
                    whole@ == pow5(t as int) * v,
                    pow5((t - n) as int) <= pow5(t as int),
                    v >= 0,
            ;
        }
        let (rhs, _) = whole.sub(&rest);
        assert(rhs@ == v * (pow5(t as int) - pow5(t - n))) by (nonlinear_arith)
            requires
                rhs@ == whole@ - rest@,
                rest@ == pow5((t - n) as int) * v,
                whole@ == pow5(t as int) * v,
        ;
        let p = Probe::Linear { unit, rhs };
        bisect(&p, u64::MAX)
    } else {
        // Past the whole token reserve the base of the power is negative and
        // the payout exceeds `v`: write it as `v + e`.
        let rhs = pow5_times(n - t, v);
        let p = Probe::Linear { unit, rhs };
        proof {
            lemma_pow5_monotone(0, (n - t) as int);
            assert(0 <= rhs@);
        }
        let e = bisect(&p, u64::MAX - v);
        proof {
            lemma_pow5_neg((n - t) as int);
            assert(t - n == -((n - t) as int));
            let k = pow5(t as int);
            let q = pow5((n - t) as int);
            assert(pow5(t - n) == -q);
            assert(v * (k - pow5(t - n)) == v * k + v * q) by (nonlinear_arith)
                requires
                    pow5(t - n) == -q,
            ;
            assert((v + e) * k == v * k + e * k) by (nonlinear_arith);
            assert(rhs@ == v * q) by (nonlinear_arith)
                requires
                    rhs@ == q * v,
            ;
            if e < u64::MAX - v {
                assert((v + e + 1) * k == v * k + (e + 1) * k) by (nonlinear_arith);
            }
        }
        v + e
    }
}

/// `floor(amount * bps / 10_000)`: the fee at a rate in hundredths of a percent.
pub open spec fn fee_of(amount: int, bps: int) -> int {
    amount * bps / 10_000
}

/// Why a quote of `amount_in` in `direction` (0 buys, anything else sells)
/// against virtual reserves `(t, s)` fails, if it does.
pub open spec fn quote_error(t: int, s: int, amount_in: int, direction: u8, bps: int) -> Option<
    PumpFunError,
> {
    if amount_in == 0 {
        Some(PumpFunError::ZeroAmount)
    } else if fee_of(amount_in, bps) > amount_in {
        Some(PumpFunError::InsufficientFunds)
    } else if direction == 0 && s == 0 {
        Some(PumpFunError::DivisionByZero)
    } else if direction != 0 && t == 0 {
        Some(PumpFunError::DivisionByZero)
    } else {
        None
    }
}

/// The output of a quote that does not fail.
pub open spec fn quote_out(t: int, s: int, amount_in: int, direction: u8, bps: int) -> int {
    let n = amount_in - fee_of(amount_in, bps);
    if direction == 0 {
        choose|o: int| is_buy_out(t, s, n, o)
    } else {
        choose|o: int| is_sell_out(t, s, n, o)
    }
}

/// The quote, as `(amount_out, fee_amount)`.
pub fn quote(t: u64, s: u64, amount_in: u64, direction: u8, bps: u64) -> (r: Result<(u64, u64), PumpFunError>)
    ensures
        match quote_error(t as int, s as int, amount_in as int, direction, bps as int) {
            Some(e) => r == Err::<(u64, u64), PumpFunError>(e),
            None => r matches Ok((o, f)) && o == quote_out(t as int, s as int, amount_in as int, direction, bps as int)
                && f == fee_of(amount_in as int, bps as int),
        },
{
    if amount_in == 0 {
        return Err(PumpFunError::ZeroAmount);
    }
    assert((amount_in as u128) * (bps as u128) <= u64::MAX * u64::MAX) by (nonlinear_arith)
        requires
            amount_in <= u64::MAX,
            bps <= u64::MAX,
    ;
    let wide_fee: u128 = (amount_in as u128) * (bps as u128) / 10_000;
    if wide_fee > amount_in as u128 {
        return Err(PumpFunError::InsufficientFunds);
    }
    let fee = wide_fee as u64;
    let n = amount_in - fee;
    if direction == 0 {
        if s == 0 {
            return Err(PumpFunError::DivisionByZero);
        }
        let o = buy_amount_out(t, s, n);
        proof {
            assert(is_buy_out(t as int, s as int, n as int, o as int));
            let c = choose|c: int| is_buy_out(t as int, s as int, n as int, c);
            lemma_buy_out_unique(t as int, s as int, n as int, o as int, c);
        }
        Ok((o, fee))
    } else {
        if t == 0 {
            return Err(PumpFunError::DivisionByZero);
        }
        let o = sell_amount_out(t, s, n);
        proof {
            let c = choose|c: int| is_sell_out(t as int, s as int, n as int, c);
            lemma_sell_out_unique(t as int, s as int, n as int, o as int, c);
        }
        Ok((o, fee))
    }
}

} // verus!
