//! Unbounded unsigned integers held as little-endian base-2^32 limbs, with just
//! the operations that exact curve pricing needs: scaling by a machine integer
//! and comparison.
use vstd::prelude::*;

verus! {

pub open spec fn base() -> int {
    0x1_0000_0000
}

/// The number that a little-endian limb sequence stands for.
pub open spec fn value(s: Seq<u32>) -> nat
    decreases s.len(),
{
    if s.len() == 0 {
        0
    } else {
        (value(s.drop_last()) + s.last() * pow_base((s.len() - 1) as nat)) as nat
    }
}

pub open spec fn pow_base(n: nat) -> nat
    decreases n,
{
    if n == 0 {
        1
    } else {
        (base() * pow_base((n - 1) as nat)) as nat
    }
}

proof fn lemma_value_push(s: Seq<u32>, d: u32)
    ensures
        value(s.push(d)) == value(s) + d * pow_base(s.len()),
{
    assert(s.push(d).drop_last() =~= s);
}

proof fn lemma_value_bound(s: Seq<u32>)
    ensures
        value(s) < pow_base(s.len()),
    decreases s.len(),
{
    if s.len() > 0 {
        let p = s.drop_last();
        lemma_value_bound(p);
        let k = pow_base(p.len());
        let d = s.last();
        assert(value(p) + d * k < base() * k) by (nonlinear_arith)
            requires
                value(p) < k,
                0 <= d < base(),
        ;
    }
}

proof fn lemma_prefix_step(s: Seq<u32>, i: int)
    requires
        0 <= i < s.len(),
    ensures
        value(s.subrange(0, i + 1)) == value(s.subrange(0, i)) + s[i] * pow_base(i as nat),
{
    assert(s.subrange(0, i + 1).drop_last() =~= s.subrange(0, i));
}

/// An unbounded natural number.
pub struct Wide {
    pub limbs: Vec<u32>,
}

impl View for Wide {
    type V = nat;

    open spec fn view(&self) -> nat {
        value(self.limbs@)
    }
}

impl Wide {
    /// The number `x`.
    pub fn from_u64(x: u64) -> (r: Wide)
        ensures
            r@ == x,
    {
        let lo = (x % 0x1_0000_0000) as u32;
        let hi = (x / 0x1_0000_0000) as u32;
        let mut limbs: Vec<u32> = Vec::new();
        limbs.push(lo);
        limbs.push(hi);
        proof {
            let e = Seq::<u32>::empty();
            assert(e.len() == 0);
            assert(e.push(lo).len() == 1);
            lemma_value_push(e, lo);
            lemma_value_push(e.push(lo), hi);
            assert(e.push(lo).push(hi) =~= limbs@);
            assert(pow_base(1) == base()) by {
                reveal_with_fuel(pow_base, 2);
            }
            assert(pow_base(0) == 1);
            assert(value(e) == 0);
            assert(x == lo + hi * base());
        }
        Wide { limbs }
    }

    /// The product of this number and `x`.
    pub fn mul_small(&self, x: u128) -> (r: Wide)
        requires
            x < 0x1_0000_0000_0000_0000_0000,
        ensures
            r@ == self@ * x,
    {
        let n = self.limbs.len();
        let mut out: Vec<u32> = Vec::new();
        let mut carry: u128 = 0;
        let mut i: usize = 0;
        assert(self.limbs@.subrange(0, 0) =~= Seq::<u32>::empty());
        assert(value(out@) == 0);
        while i < n
            invariant
                n == self.limbs.len(),
                0 <= i <= n,
                out@.len() == i,
                carry <= x,
                x < 0x1_0000_0000_0000_0000_0000,
                value(out@) + carry * pow_base(i as nat) == value(self.limbs@.subrange(0, i as int))
                    * x,
            decreases n - i,
        {
            let d = self.limbs[i];
            assert(d * x + carry <= 0x1_0000_0000 * x) by (nonlinear_arith)
                requires
                    d < 0x1_0000_0000,
                    carry <= x,
            ;
            let t: u128 = (d as u128) * x + carry;
            let lo = (t % 0x1_0000_0000) as u32;
            let next: u128 = t / 0x1_0000_0000;
            proof {
                let k = pow_base(i as nat);
                let vp = value(self.limbs@.subrange(0, i as int));
                lemma_value_push(out@, lo);
                lemma_prefix_step(self.limbs@, i as int);
                assert(pow_base((i + 1) as nat) == base() * k);
                assert(t == lo + next * base());
                assert(next <= x) by (nonlinear_arith)
                    requires
                        t <= base() * x,
                        next == t as int / base(),
                        base() > 0,
                ;
                assert(value(out@) + lo * k + next * (base() * k) == (vp + d * k) * x)
                    by (nonlinear_arith)
                    requires
                        value(out@) + carry * k == vp * x,
                        t == lo + next * base(),
                        t == d * x + carry,
                ;
            }
            out.push(lo);
            carry = next;
            i = i + 1;
        }
        assert(self.limbs@.subrange(0, n as int) =~= self.limbs@);
        while carry > 0
            invariant
                value(out@) + carry * pow_base(out@.len()) == self@ * x,
            decreases carry,
        {
            let lo = (carry % 0x1_0000_0000) as u32;
            let next: u128 = carry / 0x1_0000_0000;
            proof {
                let k = pow_base(out@.len());
                lemma_value_push(out@, lo);
                assert(pow_base((out@.len() + 1) as nat) == base() * k);
                assert(value(out@) + lo * k + next * (base() * k) == value(out@) + carry * k)
                    by (nonlinear_arith)
                    requires
                        carry == lo + next * base(),
                ;
            }
            out.push(lo);
            carry = next;
        }
        Wide { limbs: out }
    }
    /// The same number, written with at least `n` limbs.
    fn padded(&self, n: usize) -> (r: Wide)
        ensures
            r@ == self@,
            r.limbs@.len() == if n > self.limbs@.len() { n as int } else { self.limbs@.len() as int },
    {
        let mut out = self.limbs.clone();
        assert(out@ =~= self.limbs@);
        while out.len() < n
            invariant
                value(out@) == self@,
                out@.len() >= self.limbs@.len(),
                out@.len() <= n || out@.len() == self.limbs@.len(),
            decreases n - out@.len(),
        {
            proof {
                lemma_value_push(out@, 0);
            }
            out.push(0);
        }
        Wide { limbs: out }
    }

    /// The difference `self - other` and whether it is negative; the difference
    /// is exact when it is not.
    pub fn sub(&self, other: &Wide) -> (r: (Wide, bool))
        ensures
            r.1 == (self@ < other@),
            !r.1 ==> r.0@ == self@ - other@,
    {
        let a = self.padded(other.limbs.len());
        let b = other.padded(a.limbs.len());
        let a = a.padded(b.limbs.len());
        let n = a.limbs.len();
        let mut out: Vec<u32> = Vec::new();
        let mut borrow: bool = false;
        let mut i: usize = 0;
        assert(a.limbs@.subrange(0, 0) =~= Seq::<u32>::empty());
        assert(b.limbs@.subrange(0, 0) =~= Seq::<u32>::empty());
        assert(value(out@) == 0);
        while i < n
            invariant
                n == a.limbs.len(),
                n == b.limbs.len(),
                0 <= i <= n,
                out@.len() == i,
                value(out@) - (if borrow { pow_base(i as nat) as int } else { 0int })
                    == value(a.limbs@.subrange(0, i as int)) - value(
                    b.limbs@.subrange(0, i as int),
                ),
            decreases n - i,
        {
            let x = a.limbs[i] as i64;
            let y = b.limbs[i] as i64;
            let t: i64 = x - y - (if borrow { 1i64 } else { 0i64 });
            let (d, next) = if t < 0 {
                ((t + 0x1_0000_0000) as u32, true)
            } else {
                (t as u32, false)
            };
            proof {
                let k = pow_base(i as nat);
                lemma_value_push(out@, d);
                lemma_prefix_step(a.limbs@, i as int);
                lemma_prefix_step(b.limbs@, i as int);
                assert(pow_base((i + 1) as nat) == base() * k);
                assert(d - (if next { base() } else { 0 }) == t);
                assert((d - (if next { base() } else { 0 })) * k == d * k - (if next {
                    base() * k
                } else {
                    0
                })) by (nonlinear_arith);
                assert(t * k == x * k - y * k - (if borrow { k as int } else { 0 }))
                    by (nonlinear_arith)
                    requires
                        t == x - y - (if borrow { 1int } else { 0int }),
                ;
            }
            out.push(d);
            borrow = next;
            i = i + 1;
        }
        proof {
            assert(a.limbs@.subrange(0, n as int) =~= a.limbs@);
            assert(b.limbs@.subrange(0, n as int) =~= b.limbs@);
            lemma_value_bound(out@);
        }
        (Wide { limbs: out }, borrow)
    }

    /// Whether `self <= other`.
    pub fn le(&self, other: &Wide) -> (r: bool)
        ensures
            r == (self@ <= other@),
    {
        let (_, neg) = other.sub(self);
        !neg
    }
}

} // verus!
