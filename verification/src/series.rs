//! Sums, averages and square roots over series of decimals.
use crate::decimal::{
    dabs, dadd, ddiv, dint, dlit, dlt, dmul, dsub, lemma_units_sign, units, Dec,
};
use vstd::prelude::*;

verus! {

/// The values of a series of decimals.
pub open spec fn vals(s: Seq<Dec>) -> Seq<(int, int)> {
    s.map_values(|d: Dec| d@)
}

/// Sum of a series, added from the first element on, starting from zero.
pub open spec fn sum_of(s: Seq<(int, int)>) -> (int, int)
    decreases s.len(),
{
    if s.len() == 0 {
        dint(0)
    } else {
        dadd(sum_of(s.drop_last()), s.last())
    }
}

/// The last `n` elements of a series (all of it when it is shorter).
pub open spec fn last_n<T>(s: Seq<T>, n: int) -> Seq<T> {
    if n >= s.len() {
        s
    } else {
        s.subrange(s.len() - n, s.len() as int)
    }
}

/// Successive differences `s[i+1] - s[i]`.
pub open spec fn diffs(s: Seq<(int, int)>) -> Seq<(int, int)> {
    Seq::new(
        if s.len() == 0 {
            0
        } else {
            (s.len() - 1) as nat
        },
        |i: int| dsub(s[i + 1], s[i]),
    )
}

/// Squared deviations of a series from `mean`.
pub open spec fn sq_devs(s: Seq<(int, int)>, mean: (int, int)) -> Seq<(int, int)> {
    s.map_values(|x: (int, int)| dmul(dsub(x, mean), dsub(x, mean)))
}

/// Average of a non-empty series: its sum divided by its length.
pub open spec fn mean_of(s: Seq<(int, int)>) -> (int, int) {
    ddiv(sum_of(s), dint(s.len() as int))
}

/// Population variance of a non-empty series around `mean`.
pub open spec fn variance_around(s: Seq<(int, int)>, mean: (int, int)) -> (int, int) {
    ddiv(sum_of(sq_devs(s, mean)), dint(s.len() as int))
}

/// Total gains and total losses (as magnitudes) of a series of changes: a
/// positive change is a gain, any other a loss.
pub open spec fn gains_losses(c: Seq<(int, int)>) -> ((int, int), (int, int))
    decreases c.len(),
{
    if c.len() == 0 {
        (dint(0), dint(0))
    } else {
        let (g, l) = gains_losses(c.drop_last());
        let x = c.last();
        if dlt(dint(0), x) {
            (dadd(g, x), l)
        } else {
            (g, dadd(l, dabs(x)))
        }
    }
}

/// Newton's iteration for a square root: `n` steps of `g := (g + x/g) / 2`
/// from `g`, stopping early at a zero guess.
pub open spec fn newton(x: (int, int), g: (int, int), n: nat) -> (int, int)
    decreases n,
{
    if n == 0 || units(g) == 0 {
        g
    } else {
        newton(x, ddiv(dadd(g, ddiv(x, g)), dint(2)), (n - 1) as nat)
    }
}

/// Approximate square root: zero for a value that is zero or negative,
/// otherwise ten Newton steps starting at half the value.
pub open spec fn sqrt_of(x: (int, int)) -> (int, int) {
    if units(x) <= 0 {
        dint(0)
    } else {
        newton(x, ddiv(x, dint(2)), 10)
    }
}

/// Sum of `v[lo..hi]`, added in order from zero.
pub fn sum_range(v: &Vec<Dec>, lo: usize, hi: usize) -> (r: Dec)
    requires
        lo <= hi <= v.len(),
    ensures
        r@ == sum_of(vals(v@).subrange(lo as int, hi as int)),
{
    let mut acc = Dec::zero();
    let mut i = lo;
    while i < hi
        invariant
            lo <= i <= hi <= v.len(),
            acc@ == sum_of(vals(v@).subrange(lo as int, i as int)),
        decreases hi - i,
    {
        proof {
            assert(vals(v@).subrange(lo as int, i + 1).drop_last() == vals(v@).subrange(
                lo as int,
                i as int,
            ));
        }
        acc = acc.add(v[i]);
        i = i + 1;
    }
    acc
}

/// Sum of the squared deviations from `mean` of `v[lo..hi]`.
pub fn sum_sq_devs(v: &Vec<Dec>, lo: usize, hi: usize, mean: Dec) -> (r: Dec)
    requires
        lo <= hi <= v.len(),
    ensures
        r@ == sum_of(sq_devs(vals(v@).subrange(lo as int, hi as int), mean@)),
        units(r@) >= 0,
{
    let ghost s = vals(v@);
    let mut acc = Dec::zero();
    let mut i = lo;
    proof {
        lemma_units_sign(dint(0));
    }
    while i < hi
        invariant
            lo <= i <= hi <= v.len(),
            s == vals(v@),
            acc@ == sum_of(sq_devs(s.subrange(lo as int, i as int), mean@)),
            units(acc@) >= 0,
        decreases hi - i,
    {
        proof {
            assert(sq_devs(s.subrange(lo as int, i + 1), mean@).drop_last() == sq_devs(
                s.subrange(lo as int, i as int),
                mean@,
            ));
        }
        let d = v[i].sub(mean);
        let sq = d.mul(d);
        acc = acc.add(sq);
        i = i + 1;
    }
    acc
}

/// Gains and losses of the changes `v[k] - v[k-1]` for `k` in `lo+1..hi`.
pub fn gains_losses_range(v: &Vec<Dec>, lo: usize, hi: usize) -> (r: (Dec, Dec))
    requires
        lo < hi <= v.len(),
    ensures
        (r.0@, r.1@) == gains_losses(diffs(vals(v@).subrange(lo as int, hi as int))),
        units(r.0@) >= 0,
        units(r.1@) >= 0,
{
    let ghost s = vals(v@);
    let mut gains = Dec::zero();
    let mut losses = Dec::zero();
    let mut k = lo + 1;
    proof {
        lemma_units_sign(dint(0));
        assert(diffs(s.subrange(lo as int, lo + 1)) =~= Seq::<(int, int)>::empty());
    }
    while k < hi
        invariant
            lo < k <= hi <= v.len(),
            s == vals(v@),
            (gains@, losses@) == gains_losses(diffs(s.subrange(lo as int, k as int))),
            units(gains@) >= 0,
            units(losses@) >= 0,
        decreases hi - k,
    {
        proof {
            assert(diffs(s.subrange(lo as int, k + 1)).drop_last() =~= diffs(
                s.subrange(lo as int, k as int),
            ));
            assert(diffs(s.subrange(lo as int, k + 1)).last() == dsub(s[k as int], s[k - 1]));
        }
        let change = v[k].sub(v[k - 1]);
        if Dec::zero().lt(&change) {
            gains = gains.add(change);
        } else {
            losses = losses.add(change.abs());
        }
        k = k + 1;
    }
    (gains, losses)
}

/// Approximate square root (see `sqrt_of`).
pub fn sqrt_approx(x: Dec) -> (r: Dec)
    ensures
        r@ == sqrt_of(x@),
{
    if x.is_zero() || x.is_sign_negative() {
        return Dec::zero();
    }
    let two = Dec::from_u64(2);
    let mut guess = x.div(two);
    let mut n: usize = 10;
    while n > 0
        invariant
            n <= 10,
            units(two@) > 0,
            two@ == dint(2),
            newton(x@, guess@, n as nat) == sqrt_of(x@),
        ensures
            guess@ == sqrt_of(x@),
        decreases n,
    {
        if guess.is_zero() {
            break;
        }
        guess = guess.add(x.div(guess)).div(two);
        n = n - 1;
    }
    guess
}

/// Square root by `n` Newton steps started from the value itself; zero for
/// a value that is not positive.
pub open spec fn sqrt_from_self(x: (int, int), n: nat) -> (int, int) {
    if units(x) <= 0 {
        dint(0)
    } else {
        newton(x, x, n)
    }
}

/// Approximate square root by `n` Newton steps started from `x` itself (see
/// `sqrt_from_self`).
pub fn sqrt_steps(x: Dec, n: usize) -> (r: Dec)
    ensures
        r@ == sqrt_from_self(x@, n as nat),
{
    if x.is_zero() || x.is_sign_negative() {
        return Dec::zero();
    }
    let two = Dec::from_u64(2);
    let mut guess = x;
    let mut k: usize = n;
    while k > 0
        invariant
            k <= n,
            units(two@) > 0,
            two@ == dint(2),
            units(x@) > 0,
            newton(x@, guess@, k as nat) == sqrt_from_self(x@, n as nat),
        ensures
            guess@ == sqrt_from_self(x@, n as nat),
        decreases k,
    {
        if guess.is_zero() {
            break;
        }
        guess = guess.add(x.div(guess)).div(two);
        k = k - 1;
    }
    guess
}

} // verus!
