//! Fixed-point decimal numbers.
//!
//! A `Dec` holds the two plain values that make up a `rust_decimal::Decimal`:
//! a signed mantissa of at most 96 bits and a scale between 0 and 28.  Its
//! numeric value is `mantissa * 10^-scale`.  Comparisons, sign tests and
//! negation are proved here; addition, subtraction, multiplication,
//! division, rounding and formatting are computed by `rust_decimal`
//! through the trusted wrappers at the end of this file.
use rust_decimal::Decimal;
use vstd::prelude::*;

verus! {

/// Largest mantissa magnitude of a decimal (2^96 - 1).
pub const MAX_MANTISSA: i128 = 79228162514264337593543950335i128;

/// Largest scale of a decimal.
pub const MAX_SCALE: u32 = 28u32;

/// Ten to the power `n`.
pub open spec fn pow10(n: nat) -> int
    decreases n,
{
    if n == 0 {
        1
    } else {
        10 * pow10((n - 1) as nat)
    }
}

/// The value of a `(mantissa, scale)` pair, counted in units of 10^-28.
/// Two decimals have the same value exactly when their units are equal.
pub open spec fn units(v: (int, int)) -> int {
    v.0 * pow10((28 - v.1) as nat)
}

/// A `(mantissa, scale)` pair that a decimal can hold.
pub open spec fn in_range(v: (int, int)) -> bool {
    &&& -MAX_MANTISSA <= v.0 <= MAX_MANTISSA
    &&& 0 <= v.1 <= 28
}

/// The largest decimal, with the sign of `positive`.
pub open spec fn bound(positive: bool) -> (int, int) {
    if positive {
        (MAX_MANTISSA as int, 0)
    } else {
        (-MAX_MANTISSA as int, 0)
    }
}

/// The decimal that `Decimal::from_str` reads from a text, if it reads one.
pub uninterp spec fn decimal_parsed(s: Seq<char>) -> Option<(int, int)>;

/// The decimal that `Decimal::saturating_add` returns for two decimals.
pub uninterp spec fn decimal_saturating_add(a: (int, int), b: (int, int)) -> (int, int);

/// The decimal that `Decimal::saturating_sub` returns for two decimals.
pub uninterp spec fn decimal_saturating_sub(a: (int, int), b: (int, int)) -> (int, int);

/// The decimal that `Decimal::saturating_mul` returns for two decimals.
pub uninterp spec fn decimal_saturating_mul(a: (int, int), b: (int, int)) -> (int, int);

/// What `Decimal::checked_div` returns for two decimals.
pub uninterp spec fn decimal_checked_div(a: (int, int), b: (int, int)) -> Option<(int, int)>;

/// The decimal that `Decimal::round` returns (to the nearest integer, ties to even).
pub uninterp spec fn decimal_round(a: (int, int)) -> (int, int);

/// The decimal that `Decimal::ceil` returns (the least integer not below it).
pub uninterp spec fn decimal_ceil(a: (int, int)) -> (int, int);

/// The text that `format!("{:.*}", dp, d)` gives for a decimal.
pub uninterp spec fn decimal_text_dp(a: (int, int), dp: nat) -> Seq<char>;

/// The text that `Decimal::to_string` gives for a decimal.
pub uninterp spec fn decimal_text(a: (int, int)) -> Seq<char>;

/// The mantissa of `a` brought to scale `s` (at least `a`'s own scale).
pub open spec fn at_scale(a: (int, int), s: int) -> int {
    a.0 * pow10((s - a.1) as nat)
}

/// Brought to the larger of their scales, both decimals and their sum (or
/// difference, for `sum == false`) have mantissas within the decimal range:
/// `rust_decimal` then adds or subtracts exactly.
pub open spec fn add_exact(a: (int, int), b: (int, int), sum: bool) -> bool {
    let s = if a.1 >= b.1 {
        a.1
    } else {
        b.1
    };
    let x = at_scale(a, s);
    let y = at_scale(b, s);
    let z = if sum {
        x + y
    } else {
        x - y
    };
    &&& -MAX_MANTISSA <= x <= MAX_MANTISSA
    &&& -MAX_MANTISSA <= y <= MAX_MANTISSA
    &&& -MAX_MANTISSA <= z <= MAX_MANTISSA
}

/// The product of the mantissas fits the decimal range and the sum of the
/// scales is at most 28: `rust_decimal` then multiplies exactly.
pub open spec fn mul_exact(a: (int, int), b: (int, int)) -> bool {
    &&& a.1 + b.1 <= 28
    &&& -MAX_MANTISSA <= a.0 * b.0 <= MAX_MANTISSA
}

/// The quotient of `a` by `b` is `q * 10^-s`, a decimal within the range:
/// `rust_decimal` then divides exactly.
pub open spec fn div_exact(a: (int, int), b: (int, int), q: int, s: int) -> bool {
    &&& units(b) != 0
    &&& 0 <= s <= 28
    &&& -MAX_MANTISSA <= q <= MAX_MANTISSA
    &&& units(a) * pow10(s as nat) == q * units(b)
}

/// `r` is `a` rounded to a whole number, half to even: at scale zero, no
/// more than half a unit away, and even when exactly half a unit away.
pub open spec fn rounded_of(a: (int, int), r: (int, int)) -> bool {
    let d = r.0 * pow10(28) - units(a);
    &&& r.1 == 0
    &&& -pow10(28) <= 2 * d <= pow10(28)
    &&& (2 * d == pow10(28) || 2 * d == -pow10(28)) ==> r.0 % 2 == 0
}

/// `r` is the least whole number not below `a`, at scale zero.
pub open spec fn ceiled_of(a: (int, int), r: (int, int)) -> bool {
    &&& r.1 == 0
    &&& units(a) <= r.0 * pow10(28) < units(a) + pow10(28)
}

/// Sum of two decimals.
pub open spec fn dadd(a: (int, int), b: (int, int)) -> (int, int) {
    decimal_saturating_add(a, b)
}

/// Difference of two decimals.
pub open spec fn dsub(a: (int, int), b: (int, int)) -> (int, int) {
    decimal_saturating_sub(a, b)
}

/// Product of two decimals.
pub open spec fn dmul(a: (int, int), b: (int, int)) -> (int, int) {
    decimal_saturating_mul(a, b)
}

/// Quotient of two decimals; where the quotient exceeds the decimal range
/// it is the largest decimal of the quotient's sign.
pub open spec fn ddiv(a: (int, int), b: (int, int)) -> (int, int) {
    match decimal_checked_div(a, b) {
        Some(q) => q,
        None => bound((a.0 < 0) == (b.0 < 0)),
    }
}

/// Negation.
pub open spec fn dneg(a: (int, int)) -> (int, int) {
    (-a.0, a.1)
}

/// Absolute value.
pub open spec fn dabs(a: (int, int)) -> (int, int) {
    if a.0 < 0 {
        (-a.0, a.1)
    } else {
        a
    }
}

/// `a < b` by value.
pub open spec fn dlt(a: (int, int), b: (int, int)) -> bool {
    units(a) < units(b)
}

/// `a <= b` by value.
pub open spec fn dle(a: (int, int), b: (int, int)) -> bool {
    units(a) <= units(b)
}

/// Smaller of two decimals (the first on a tie), as `Ord::min` gives it.
pub open spec fn dmin(a: (int, int), b: (int, int)) -> (int, int) {
    if dlt(b, a) {
        b
    } else {
        a
    }
}

/// Larger of two decimals (the second on a tie), as `Ord::max` gives it.
pub open spec fn dmax(a: (int, int), b: (int, int)) -> (int, int) {
    if dlt(b, a) {
        a
    } else {
        b
    }
}

/// The value inside an optional decimal.
pub open spec fn opt_view(o: Option<Dec>) -> Option<(int, int)> {
    match o {
        Some(d) => Some(d@),
        None => None,
    }
}

/// A literal decimal `m * 10^-s`.
pub open spec fn dlit(m: int, s: int) -> (int, int) {
    (m, s)
}

/// The decimal of an integer.
pub open spec fn dint(i: int) -> (int, int) {
    (i, 0)
}

pub proof fn lemma_pow10_pos(n: nat)
    ensures
        pow10(n) > 0,
    decreases n,
{
    if n > 0 {
        lemma_pow10_pos((n - 1) as nat);
    }
}

/// The powers of ten up to the largest scale.
pub proof fn lemma_pow10_table()
    ensures
        pow10(0) == 1,
        pow10(1) == 10,
        pow10(2) == 100,
        pow10(3) == 1000,
        pow10(4) == 10000,
        pow10(5) == 100000,
        pow10(6) == 1000000,
        pow10(7) == 10000000,
        pow10(8) == 100000000,
        pow10(9) == 1000000000,
        pow10(10) == 10000000000,
        pow10(12) == 1000000000000,
        pow10(14) == 100000000000000,
        pow10(16) == 10000000000000000,
        pow10(18) == 1000000000000000000,
        pow10(20) == 100000000000000000000,
        pow10(22) == 10000000000000000000000,
        pow10(24) == 1000000000000000000000000,
        pow10(25) == 10000000000000000000000000,
        pow10(26) == 100000000000000000000000000,
        pow10(27) == 1000000000000000000000000000,
        pow10(28) == 10000000000000000000000000000,
{
    reveal_with_fuel(pow10, 29);
}

/// The units of a decimal are zero, negative or positive as its mantissa is.
pub proof fn lemma_units_sign(v: (int, int))
    ensures
        (units(v) == 0) == (v.0 == 0),
        (units(v) < 0) == (v.0 < 0),
        (units(v) > 0) == (v.0 > 0),
{
    let p = pow10((28 - v.1) as nat);
    lemma_pow10_pos((28 - v.1) as nat);
    assert((v.0 * p == 0) == (v.0 == 0) && (v.0 * p < 0) == (v.0 < 0) && (v.0 * p > 0) == (v.0
        > 0)) by (nonlinear_arith)
        requires
            p > 0,
    ;
}

/// Powers of ten multiply by adding exponents.
pub proof fn lemma_pow10_add(x: nat, y: nat)
    ensures
        pow10(x) * pow10(y) == pow10(x + y),
    decreases x,
{
    if x > 0 {
        lemma_pow10_add((x - 1) as nat, y);
        assert(pow10(x) * pow10(y) == 10 * (pow10((x - 1) as nat) * pow10(y))) by (nonlinear_arith)
            requires
                pow10(x) == 10 * pow10((x - 1) as nat),
        ;
    }
}

/// A decimal's mantissa at a scale no smaller than its own, times ten to the
/// rest of 28, is its units; so its size is at most that of its units.
pub proof fn lemma_at_scale_bound(a: (int, int), s: int)
    requires
        0 <= a.1 <= s <= 28,
    ensures
        at_scale(a, s) * pow10((28 - s) as nat) == units(a),
        -MAX_MANTISSA <= units(a) <= MAX_MANTISSA ==> -MAX_MANTISSA <= at_scale(a, s) <= MAX_MANTISSA,
{
    lemma_pow10_add((s - a.1) as nat, (28 - s) as nat);
    let p = pow10((s - a.1) as nat);
    let q = pow10((28 - s) as nat);
    lemma_pow10_pos((28 - s) as nat);
    assert(a.0 * p * q == a.0 * (p * q)) by (nonlinear_arith);
    let x = at_scale(a, s);
    assert(-MAX_MANTISSA <= x * q <= MAX_MANTISSA ==> -MAX_MANTISSA <= x <= MAX_MANTISSA) by (nonlinear_arith)
        requires
            q >= 1,
    ;
}

/// Decimals whose values, and the value of whose sum (or difference), lie
/// within the decimal range are added (or subtracted) exactly, whatever
/// their scales.
pub proof fn lemma_add_exact_small(a: (int, int), b: (int, int), sum: bool)
    requires
        in_range(a),
        in_range(b),
        -MAX_MANTISSA <= units(a) <= MAX_MANTISSA,
        -MAX_MANTISSA <= units(b) <= MAX_MANTISSA,
        -MAX_MANTISSA <= (if sum {
            units(a) + units(b)
        } else {
            units(a) - units(b)
        }) <= MAX_MANTISSA,
    ensures
        add_exact(a, b, sum),
{
    let s = if a.1 >= b.1 {
        a.1
    } else {
        b.1
    };
    lemma_at_scale_bound(a, s);
    lemma_at_scale_bound(b, s);
    let x = at_scale(a, s);
    let y = at_scale(b, s);
    let q = pow10((28 - s) as nat);
    lemma_pow10_pos((28 - s) as nat);
    let z = if sum {
        x + y
    } else {
        x - y
    };
    assert(z * q == (if sum {
        units(a) + units(b)
    } else {
        units(a) - units(b)
    })) by (nonlinear_arith)
        requires
            x * q == units(a),
            y * q == units(b),
            z == (if sum {
                x + y
            } else {
                x - y
            }),
    ;
    assert(-MAX_MANTISSA <= z * q <= MAX_MANTISSA ==> -MAX_MANTISSA <= z <= MAX_MANTISSA) by (nonlinear_arith)
        requires
            q >= 1,
    ;
}

/// A decimal whose value is `z` units of its scale `s` or coarser has a
/// mantissa no larger than `z`.
pub proof fn lemma_mantissa_bound(r: (int, int), s: int, z: int)
    requires
        in_range(r),
        r.1 <= s <= 28,
        units(r) == z * pow10((28 - s) as nat),
    ensures
        r.0 * pow10((s - r.1) as nat) == z,
        -z <= r.0 <= z || z <= r.0 <= -z,
{
    lemma_pow10_add((s - r.1) as nat, (28 - s) as nat);
    let p = pow10((s - r.1) as nat);
    let q = pow10((28 - s) as nat);
    lemma_pow10_pos((s - r.1) as nat);
    lemma_pow10_pos((28 - s) as nat);
    assert(r.0 * p == z) by (nonlinear_arith)
        requires
            r.0 * (p * q) == z * q,
            q > 0,
    ;
    assert(-z <= r.0 <= z || z <= r.0 <= -z) by (nonlinear_arith)
        requires
            r.0 * p == z,
            p >= 1,
    ;
}

/// The units of an exact product, times 10^28, are the product of the
/// operands' units.
pub proof fn lemma_mul_units(a: (int, int), b: (int, int))
    requires
        0 <= a.1,
        0 <= b.1,
        a.1 + b.1 <= 28,
    ensures
        a.0 * b.0 * pow10((28 - a.1 - b.1) as nat) * pow10(28) == units(a) * units(b),
{
    lemma_pow10_add((28 - a.1 - b.1) as nat, a.1 as nat);
    lemma_pow10_add((28 - b.1) as nat, b.1 as nat);
    let k = pow10((28 - a.1 - b.1) as nat);
    let pa = pow10(a.1 as nat);
    let pb = pow10(b.1 as nat);
    assert(pow10(28) == k * pa * pb) by (nonlinear_arith)
        requires
            k * pa == pow10((28 - b.1) as nat),
            pow10((28 - b.1) as nat) * pb == pow10(28),
    ;
    assert(a.0 * b.0 * k * (k * pa * pb) == (a.0 * (k * pb)) * (b.0 * (k * pa))) by (nonlinear_arith);
    lemma_pow10_add((28 - a.1 - b.1) as nat, b.1 as nat);
}

/// Negating the mantissa negates the value.
pub proof fn lemma_units_neg(v: (int, int))
    ensures
        units(dneg(v)) == -units(v),
        units(dabs(v)) == if units(v) < 0 {
            -units(v)
        } else {
            units(v)
        },
{
    let p = pow10((28 - v.1) as nat);
    assert((-v.0) * p == -(v.0 * p)) by (nonlinear_arith);
    lemma_units_sign(v);
}

/// A decimal number: `mantissa * 10^-scale`.
#[derive(Clone, Copy, Debug)]
pub struct Dec {
    mantissa: i128,
    scale: u32,
}

impl View for Dec {
    type V = (int, int);

    closed spec fn view(&self) -> (int, int) {
        (self.mantissa as int, self.scale as int)
    }
}

impl Dec {
    /// The mantissa and scale are within the decimal range.
    #[verifier::type_invariant]
    pub closed spec fn wf(self) -> bool {
        in_range(self@)
    }

    /// A decimal that keeps its invariant is within the range.
    pub proof fn lemma_wf_in_range(self)
        requires
            self.wf(),
        ensures
            in_range(self@),
    {
    }

    /// The decimal `mantissa * 10^-scale`.
    pub fn new(mantissa: i128, scale: u32) -> (r: Dec)
        requires
            in_range((mantissa as int, scale as int)),
        ensures
            r@ == (mantissa as int, scale as int),
            (units(r@) > 0) == (mantissa > 0),
            (units(r@) < 0) == (mantissa < 0),
    {
        proof {
            lemma_units_sign((mantissa as int, scale as int));
        }
        Dec { mantissa, scale }
    }

    /// The decimal `mantissa * 10^-scale`, or `None` where the pair is out of range.
    pub fn try_new(mantissa: i128, scale: u32) -> (r: Option<Dec>)
        ensures
            r is Some <==> in_range((mantissa as int, scale as int)),
            r matches Some(d) ==> d@ == (mantissa as int, scale as int),
    {
        if -MAX_MANTISSA <= mantissa && mantissa <= MAX_MANTISSA && scale <= MAX_SCALE {
            Some(Dec { mantissa, scale })
        } else {
            None
        }
    }

    pub fn mantissa(&self) -> (r: i128)
        ensures
            r as int == self@.0,
    {
        self.mantissa
    }

    pub fn scale(&self) -> (r: u32)
        ensures
            r as int == self@.1,
    {
        self.scale
    }

    pub fn zero() -> (r: Dec)
        ensures
            r@ == dint(0),
            units(r@) == 0,
    {
        Dec { mantissa: 0, scale: 0 }
    }

    pub fn one() -> (r: Dec)
        ensures
            r@ == dint(1),
            units(r@) == pow10(28),
    {
        proof {
            lemma_pow10_pos(28);
        }
        Dec { mantissa: 1, scale: 0 }
    }

    /// The decimal of a signed integer.
    pub fn from_i64(i: i64) -> (r: Dec)
        ensures
            r@ == dint(i as int),
            units(r@) == i * pow10(28),
            (units(r@) > 0) == (i > 0),
            (units(r@) < 0) == (i < 0),
    {
        proof {
            lemma_units_sign(dint(i as int));
        }
        Dec { mantissa: i as i128, scale: 0 }
    }

    /// The decimal of an unsigned integer.
    pub fn from_u64(i: u64) -> (r: Dec)
        ensures
            r@ == dint(i as int),
            units(r@) == i * pow10(28),
            (units(r@) > 0) == (i > 0),
            (units(r@) < 0) == (i < 0),
    {
        proof {
            lemma_units_sign(dint(i as int));
        }
        Dec { mantissa: i as i128, scale: 0 }
    }

    /// The decimal of a count.
    pub fn from_usize(i: usize) -> (r: Dec)
        ensures
            r@ == dint(i as int),
            units(r@) == i * pow10(28),
            (units(r@) > 0) == (i > 0),
            (units(r@) < 0) == (i < 0),
    {
        proof {
            lemma_units_sign(dint(i as int));
        }
        Dec { mantissa: i as i128, scale: 0 }
    }

    pub fn is_zero(&self) -> (r: bool)
        ensures
            r == (units(self@) == 0),
    {
        proof {
            lemma_units_sign(self@);
        }
        self.mantissa == 0
    }

    /// Whether the value is below zero.
    pub fn is_sign_negative(&self) -> (r: bool)
        ensures
            r == (units(self@) < 0),
    {
        proof {
            lemma_units_sign(self@);
        }
        self.mantissa < 0
    }

    /// Whether the value is zero or above.
    pub fn is_sign_positive(&self) -> (r: bool)
        ensures
            r == (units(self@) >= 0),
    {
        proof {
            lemma_units_sign(self@);
        }
        self.mantissa >= 0
    }

    pub fn neg(self) -> (r: Dec)
        ensures
            r@ == dneg(self@),
            units(r@) == -units(self@),
    {
        proof {
            use_type_invariant(&self);
            lemma_units_neg(self@);
        }
        Dec { mantissa: -self.mantissa, scale: self.scale }
    }

    pub fn abs(self) -> (r: Dec)
        ensures
            r@ == dabs(self@),
            units(r@) == if units(self@) < 0 {
                -units(self@)
            } else {
                units(self@)
            },
            units(r@) >= 0,
    {
        proof {
            use_type_invariant(&self);
            lemma_units_neg(self@);
        }
        if self.mantissa < 0 {
            Dec { mantissa: -self.mantissa, scale: self.scale }
        } else {
            self
        }
    }

    /// `self < other` by value.
    pub fn lt(&self, other: &Dec) -> (r: bool)
        ensures
            r == dlt(self@, other@),
    {
        decimal_lt(*self, *other)
    }

    /// `self <= other` by value.
    pub fn le(&self, other: &Dec) -> (r: bool)
        ensures
            r == dle(self@, other@),
    {
        !decimal_lt(*other, *self)
    }

    /// `self > other` by value.
    pub fn gt(&self, other: &Dec) -> (r: bool)
        ensures
            r == dlt(other@, self@),
    {
        decimal_lt(*other, *self)
    }

    /// `self >= other` by value.
    pub fn ge(&self, other: &Dec) -> (r: bool)
        ensures
            r == dle(other@, self@),
    {
        !decimal_lt(*self, *other)
    }

    /// Equality by value (`1.50 == 1.5`).
    pub fn eq_value(&self, other: &Dec) -> (r: bool)
        ensures
            r == (units(self@) == units(other@)),
    {
        decimal_eq(*self, *other)
    }

    pub fn min(self, other: Dec) -> (r: Dec)
        ensures
            r@ == dmin(self@, other@),
            dle(r@, self@),
            dle(r@, other@),
            r@ == self@ || r@ == other@,
    {
        if decimal_lt(other, self) {
            other
        } else {
            self
        }
    }

    pub fn max(self, other: Dec) -> (r: Dec)
        ensures
            r@ == dmax(self@, other@),
            dle(self@, r@),
            dle(other@, r@),
            r@ == self@ || r@ == other@,
    {
        if decimal_lt(other, self) {
            self
        } else {
            other
        }
    }

    pub fn add(self, other: Dec) -> (r: Dec)
        ensures
            r@ == dadd(self@, other@),
            add_exact(self@, other@, true) ==> units(r@) == units(self@) + units(other@),
            r@.1 <= (if self@.1 >= other@.1 {
                self@.1
            } else {
                other@.1
            }),
            (units(r@) > 0) == (units(self@) + units(other@) > 0),
            (units(r@) < 0) == (units(self@) + units(other@) < 0),
            self@.0 == 0 ==> r@ == other@,
            other@.0 == 0 ==> r@ == self@,
    {
        decimal_add(self, other)
    }

    pub fn sub(self, other: Dec) -> (r: Dec)
        ensures
            r@ == dsub(self@, other@),
            add_exact(self@, other@, false) ==> units(r@) == units(self@) - units(other@),
            r@.1 <= (if self@.1 >= other@.1 {
                self@.1
            } else {
                other@.1
            }),
            (units(r@) > 0) == (units(self@) - units(other@) > 0),
            (units(r@) < 0) == (units(self@) - units(other@) < 0),
            other@.0 == 0 ==> r@ == self@,
    {
        decimal_sub(self, other)
    }

    pub fn mul(self, other: Dec) -> (r: Dec)
        ensures
            r@ == dmul(self@, other@),
            mul_exact(self@, other@) ==> units(r@) == self@.0 * other@.0 * pow10((28 - self@.1 - other@.1) as nat),
            r@.1 <= self@.1 + other@.1,
            units(self@) == 0 || units(other@) == 0 ==> units(r@) == 0,
            (units(self@) >= 0) == (units(other@) >= 0) ==> units(r@) >= 0,
            (units(self@) >= 0) != (units(other@) >= 0) ==> units(r@) <= 0,
    {
        decimal_mul(self, other)
    }

    /// Quotient; a quotient beyond the decimal range is the largest decimal
    /// of its sign.
    pub fn div(self, other: Dec) -> (r: Dec)
        requires
            units(other@) != 0,
        ensures
            r@ == ddiv(self@, other@),
            forall|q: int, k: int|
                #[trigger] div_exact(self@, other@, q, k) ==> units(r@) == q * pow10((28 - k) as nat),
            units(self@) == 0 ==> units(r@) == 0,
            (units(self@) >= 0) == (units(other@) > 0) ==> units(r@) >= 0,
            (units(self@) >= 0) != (units(other@) > 0) ==> units(r@) <= 0,
    {
        proof {
            lemma_units_sign(self@);
            lemma_units_sign(other@);
            lemma_units_sign(bound(true));
            lemma_units_sign(bound(false));
        }
        match decimal_div(self, other) {
            Some(q) => q,
            None => {
                if (self.mantissa < 0) == (other.mantissa < 0) {
                    Dec { mantissa: MAX_MANTISSA, scale: 0 }
                } else {
                    Dec { mantissa: -MAX_MANTISSA, scale: 0 }
                }
            },
        }
    }

    pub fn round(self) -> (r: Dec)
        ensures
            r@ == decimal_round(self@),
            rounded_of(self@, r@),
    {
        decimal_round_wrapper(self)
    }

    pub fn ceil(self) -> (r: Dec)
        ensures
            r@ == decimal_ceil(self@),
            ceiled_of(self@, r@),
    {
        decimal_ceil_wrapper(self)
    }

    /// The text of the value with `dp` digits after the point.
    pub fn to_text_dp(&self, dp: usize) -> (r: String)
        ensures
            r@ == decimal_text_dp(self@, dp as nat),
    {
        decimal_format_dp(*self, dp)
    }

    /// The text of the value.
    pub fn to_text(&self) -> (r: String)
        ensures
            r@ == decimal_text(self@),
    {
        decimal_to_string(*self)
    }
}

/// The integer part of a decimal, rounded toward zero.
pub open spec fn dtrunc(v: (int, int)) -> int {
    if v.0 >= 0 {
        v.0 / pow10(v.1 as nat)
    } else {
        -((-v.0) / pow10(v.1 as nat))
    }
}

impl Dec {
    /// The integer part of the value as an `i64`, `None` beyond its range.
    pub fn to_i64(&self) -> (r: Option<i64>)
        ensures
            r == if i64::MIN <= dtrunc(self@) <= i64::MAX {
                Some(dtrunc(self@) as i64)
            } else {
                None::<i64>
            },
    {
        decimal_to_i64(*self)
    }

    /// The decimal a text reads as, if any.
    pub fn parse(s: &str) -> (r: Option<Dec>)
        ensures
            opt_view(r) == decimal_parsed(s@),
    {
        decimal_from_str(s)
    }
}

/// Calls `<Decimal as PartialOrd>::lt`; claims that it compares the two values
/// exactly (rust_decimal compares by value, whatever the scales).
#[verifier::external_body]
fn decimal_lt(a: Dec, b: Dec) -> (r: bool)
    ensures
        r == (units(a@) < units(b@)),
{
    Decimal::from_i128_with_scale(a.mantissa, a.scale) < Decimal::from_i128_with_scale(
        b.mantissa,
        b.scale,
    )
}

/// Calls `<Decimal as PartialEq>::eq`; claims that it is equality of the two values.
#[verifier::external_body]
fn decimal_eq(a: Dec, b: Dec) -> (r: bool)
    ensures
        r == (units(a@) == units(b@)),
{
    Decimal::from_i128_with_scale(a.mantissa, a.scale) == Decimal::from_i128_with_scale(
        b.mantissa,
        b.scale,
    )
}

/// Calls `Decimal::saturating_add`; claims its result is the named sum, that
/// it is exact when both operands and the sum fit the decimal range at the
/// larger scale (`add_exact`), that its scale is at most the larger of the
/// operands' scales, that the sum has the sign of the exact sum (it is exact unless it needs more than
/// 96 bits, when it is rounded or saturated in the same direction), and that
/// adding a zero gives back the other operand unchanged.
#[verifier::external_body]
fn decimal_add(a: Dec, b: Dec) -> (r: Dec)
    ensures
        r@ == decimal_saturating_add(a@, b@),
        add_exact(a@, b@, true) ==> units(r@) == units(a@) + units(b@),
        r@.1 <= (if a@.1 >= b@.1 {
            a@.1
        } else {
            b@.1
        }),
        (units(r@) > 0) == (units(a@) + units(b@) > 0),
        (units(r@) < 0) == (units(a@) + units(b@) < 0),
        a@.0 == 0 ==> r@ == b@,
        b@.0 == 0 ==> r@ == a@,
{
    let d = Decimal::from_i128_with_scale(a.mantissa, a.scale).saturating_add(
        Decimal::from_i128_with_scale(b.mantissa, b.scale),
    );
    Dec { mantissa: d.mantissa(), scale: d.scale() }
}

/// Calls `Decimal::saturating_sub`; claims its result is the named difference,
/// that it is exact when both operands and the difference fit the decimal
/// range at the larger scale, that its scale is at most the larger of the
/// operands' scales, that it has the sign of the exact difference, and that subtracting a zero
/// gives back the first operand unchanged.
#[verifier::external_body]
fn decimal_sub(a: Dec, b: Dec) -> (r: Dec)
    ensures
        r@ == decimal_saturating_sub(a@, b@),
        add_exact(a@, b@, false) ==> units(r@) == units(a@) - units(b@),
        r@.1 <= (if a@.1 >= b@.1 {
            a@.1
        } else {
            b@.1
        }),
        (units(r@) > 0) == (units(a@) - units(b@) > 0),
        (units(r@) < 0) == (units(a@) - units(b@) < 0),
        b@.0 == 0 ==> r@ == a@,
{
    let d = Decimal::from_i128_with_scale(a.mantissa, a.scale).saturating_sub(
        Decimal::from_i128_with_scale(b.mantissa, b.scale),
    );
    Dec { mantissa: d.mantissa(), scale: d.scale() }
}

/// Calls `Decimal::saturating_mul`; claims its result is the named product,
/// that it is exact when the product of the mantissas fits the decimal range
/// and the scales add up to at most 28 (`mul_exact`), that its scale is at
/// most the sum of the operands' scales, that a zero factor gives zero, and that the product is not of the opposite
/// sign to the exact product (a tiny product may round to zero).
#[verifier::external_body]
fn decimal_mul(a: Dec, b: Dec) -> (r: Dec)
    ensures
        r@ == decimal_saturating_mul(a@, b@),
        mul_exact(a@, b@) ==> units(r@) == a@.0 * b@.0 * pow10((28 - a@.1 - b@.1) as nat),
        r@.1 <= a@.1 + b@.1,
        units(a@) == 0 || units(b@) == 0 ==> units(r@) == 0,
        (units(a@) >= 0) == (units(b@) >= 0) ==> units(r@) >= 0,
        (units(a@) >= 0) != (units(b@) >= 0) ==> units(r@) <= 0,
{
    let d = Decimal::from_i128_with_scale(a.mantissa, a.scale).saturating_mul(
        Decimal::from_i128_with_scale(b.mantissa, b.scale),
    );
    Dec { mantissa: d.mantissa(), scale: d.scale() }
}

/// Calls `Decimal::checked_div`; claims its result is the named quotient,
/// which is `None` for a zero divisor or a quotient beyond the decimal range,
/// and exact when the exact quotient is a decimal within the range
/// (`div_exact`);
/// a zero dividend gives zero, and a quotient is not of the opposite sign to
/// the exact quotient.
#[verifier::external_body]
fn decimal_div(a: Dec, b: Dec) -> (r: Option<Dec>)
    ensures
        forall|q: int, k: int|
            #[trigger] div_exact(a@, b@, q, k) ==> r is Some && units(r.unwrap()@) == q * pow10((28 - k) as nat),
        r is Some ==> decimal_checked_div(a@, b@) == Some(r.unwrap()@),
        r is None ==> decimal_checked_div(a@, b@) is None,
        b@.0 == 0 ==> r is None,
        b@.0 != 0 && a@.0 == 0 ==> r is Some && units(r.unwrap()@) == 0,
        r is Some && (units(a@) >= 0) == (units(b@) > 0) ==> units(r.unwrap()@) >= 0,
        r is Some && (units(a@) >= 0) != (units(b@) > 0) ==> units(r.unwrap()@) <= 0,
{
    match Decimal::from_i128_with_scale(a.mantissa, a.scale).checked_div(
        Decimal::from_i128_with_scale(b.mantissa, b.scale),
    ) {
        Some(d) => Some(Dec { mantissa: d.mantissa(), scale: d.scale() }),
        None => None,
    }
}

/// Calls `Decimal::from_str`; claims its result is the named reading of the
/// text (`None` where it reports an error).
#[verifier::external_body]
fn decimal_from_str(s: &str) -> (r: Option<Dec>)
    ensures
        opt_view(r) == decimal_parsed(s@),
{
    match <Decimal as std::str::FromStr>::from_str(s) {
        Ok(d) => Some(Dec { mantissa: d.mantissa(), scale: d.scale() }),
        Err(_) => None,
    }
}

/// Calls `<Decimal as num_traits::ToPrimitive>::to_i64`; claims, as its
/// source shows (it truncates, then checks the range), that it gives the
/// integer part rounded toward zero when that fits an `i64`.
#[verifier::external_body]
fn decimal_to_i64(a: Dec) -> (r: Option<i64>)
    ensures
        r == if i64::MIN <= dtrunc(a@) <= i64::MAX {
            Some(dtrunc(a@) as i64)
        } else {
            None::<i64>
        },
{
    num_traits::ToPrimitive::to_i64(&Decimal::from_i128_with_scale(a.mantissa, a.scale))
}

/// Calls `Decimal::round` (that is, `round_dp(0)`, banker's rounding);
/// claims its result is the named rounding: a whole number at scale zero,
/// within a half of the value, and even on a tie.
#[verifier::external_body]
fn decimal_round_wrapper(a: Dec) -> (r: Dec)
    ensures
        r@ == decimal_round(a@),
        rounded_of(a@, r@),
{
    let d = Decimal::from_i128_with_scale(a.mantissa, a.scale).round();
    Dec { mantissa: d.mantissa(), scale: d.scale() }
}

/// Calls `Decimal::ceil`; claims its result is the named ceiling: the least
/// whole number not below the value, at scale zero.
#[verifier::external_body]
fn decimal_ceil_wrapper(a: Dec) -> (r: Dec)
    ensures
        r@ == decimal_ceil(a@),
        ceiled_of(a@, r@),
{
    let d = Decimal::from_i128_with_scale(a.mantissa, a.scale).ceil();
    Dec { mantissa: d.mantissa(), scale: d.scale() }
}

/// Formats a decimal with `format!` and a precision; claims the text is the named one.
#[verifier::external_body]
fn decimal_format_dp(a: Dec, dp: usize) -> (r: String)
    ensures
        r@ == decimal_text_dp(a@, dp as nat),
{
    format!("{:.*}", dp, Decimal::from_i128_with_scale(a.mantissa, a.scale))
}

/// Calls `Decimal::to_string`; claims the text is the named one.
#[verifier::external_body]
fn decimal_to_string(a: Dec) -> (r: String)
    ensures
        r@ == decimal_text(a@),
{
    Decimal::from_i128_with_scale(a.mantissa, a.scale).to_string()
}

} // verus!
