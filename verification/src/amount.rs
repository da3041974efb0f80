use vstd::arithmetic::mul::{
    lemma_mul_basics, lemma_mul_inequality, lemma_mul_is_associative, lemma_mul_is_commutative,
    lemma_mul_is_distributive_add_other_way, lemma_mul_strict_inequality,
    lemma_mul_unary_negation,
};
use vstd::arithmetic::power::{
    lemma_pow_adds, lemma_pow_increases, lemma_pow_positive, pow,
};
use vstd::arithmetic::div_mod::{
    lemma_fundamental_div_mod, lemma_mod_division_less_than_divisor,
};
use vstd::prelude::*;

verus! {

/// Largest coefficient magnitude a 96-bit decimal can carry.
pub const MAX_COEFFICIENT: i128 = 79228162514264337593543950335;

/// Largest number of fractional digits a 96-bit decimal can carry.
pub const MAX_SCALE: u32 = 28;

/// Ten raised to the `e`-th power.
pub open spec fn pow10(e: nat) -> int {
    pow(10, e)
}

/// An exact monetary quantity: the value `mantissa / 10^scale`.
///
/// This is the shape of a 96-bit decimal number: an integer coefficient
/// together with a power-of-ten scale. Addition and subtraction on it are
/// exact, which is what keeps balances drift-free across arbitrarily long
/// dispute cycles.
#[derive(Debug, Clone, Copy)]
pub struct Amount {
    pub mantissa: i128,
    pub scale: u32,
}

impl Amount {
    /// Well-formedness: the coefficient and the scale both stay within the
    /// 96-bit decimal range.
    pub open spec fn inv(self) -> bool {
        &&& self.scale <= MAX_SCALE
        &&& -MAX_COEFFICIENT <= self.mantissa <= MAX_COEFFICIENT
    }

    /// The represented value, expressed as an integer count of 10^-28 units,
    /// the finest grain any amount can carry.
    pub open spec fn value(self) -> int {
        self.mantissa * pow10((MAX_SCALE - self.scale) as nat)
    }
}

/// The larger of the two scales; additions align both operands to it.
pub open spec fn spec_max_scale(a: Amount, b: Amount) -> u32 {
    if a.scale >= b.scale {
        a.scale
    } else {
        b.scale
    }
}

/// The coefficient of `a` rewritten at the coarser-grained scale `s`.
pub open spec fn aligned(a: Amount, s: u32) -> int
    recommends
        a.scale <= s,
{
    a.mantissa * pow10((s - a.scale) as nat)
}

/// Whether the value `v` (in 10^-28 units) is representable with a coefficient
/// within the 96-bit range at scale `s`.
pub open spec fn fits_scaled(v: int, s: u32) -> bool
    recommends
        s <= MAX_SCALE,
{
    -(MAX_COEFFICIENT * pow10((MAX_SCALE - s) as nat)) <= v
        <= MAX_COEFFICIENT * pow10((MAX_SCALE - s) as nat)
}

/// Whether `a + b` can be computed exactly: both operands and their sum stay
/// within the coefficient range once aligned to the common scale.
pub open spec fn add_fits(a: Amount, b: Amount) -> bool {
    let s = spec_max_scale(a, b);
    &&& fits_scaled(a.value(), s)
    &&& fits_scaled(b.value(), s)
    &&& fits_scaled(a.value() + b.value(), s)
}

/// The negation: the coefficient flips sign, the scale is kept.
pub open spec fn spec_neg(a: Amount) -> Amount {
    Amount { mantissa: (-(a.mantissa as int)) as i128, scale: a.scale }
}

pub proof fn lemma_pow10_pos(e: nat)
    ensures
        pow10(e) >= 1,
{
    lemma_pow_positive(10, e);
}

/// Splitting an exponent splits the power into a product.
pub proof fn lemma_pow10_adds(e1: nat, e2: nat)
    ensures
        pow10((e1 + e2) as nat) == pow10(e1) * pow10(e2),
{
    lemma_pow_adds(10, e1, e2);
}

/// Rescaling a coefficient to a coarser scale preserves the value.
pub proof fn lemma_aligned_value(a: Amount, s: u32)
    requires
        a.scale <= s <= MAX_SCALE,
    ensures
        aligned(a, s) * pow10((MAX_SCALE - s) as nat) == a.value(),
{
    let k = (s - a.scale) as nat;
    let r = (MAX_SCALE - s) as nat;
    assert((MAX_SCALE - a.scale) as nat == k + r);
    lemma_pow10_adds(k, r);
    lemma_mul_is_associative(a.mantissa as int, pow10(k), pow10(r));
}

/// A bound on a coefficient is the same as the bound on its scaled value.
pub proof fn lemma_scaled_bound_iff(x: int, bound: int, p: int)
    requires
        p >= 1,
        bound >= 0,
    ensures
        (-bound <= x <= bound) <==> (-(bound * p) <= x * p <= bound * p),
{
    if -bound <= x <= bound {
        lemma_mul_inequality(x, bound, p);
        lemma_mul_inequality(-bound, x, p);
        lemma_mul_unary_negation(bound, p);
    }
    if x > bound {
        lemma_mul_strict_inequality(bound, x, p);
    }
    if x < -bound {
        lemma_mul_strict_inequality(x, -bound, p);
        lemma_mul_unary_negation(bound, p);
    }
}

/// A value fits at scale `s` exactly when its coefficient at `s` is in range.
pub proof fn lemma_fits_aligned(a: Amount, s: u32)
    requires
        a.scale <= s <= MAX_SCALE,
    ensures
        fits_scaled(a.value(), s) <==> (-MAX_COEFFICIENT <= aligned(a, s) <= MAX_COEFFICIENT),
{
    lemma_aligned_value(a, s);
    lemma_pow10_pos((MAX_SCALE - s) as nat);
    lemma_scaled_bound_iff(aligned(a, s), MAX_COEFFICIENT as int, pow10((MAX_SCALE - s) as nat));
}

/// Two amounts have equal values exactly when their coefficients agree at a
/// common scale.
pub proof fn lemma_value_eq_iff_aligned(a: Amount, b: Amount, s: u32)
    requires
        a.scale <= s <= MAX_SCALE,
        b.scale <= s,
    ensures
        (a.value() == b.value()) <==> (aligned(a, s) == aligned(b, s)),
{
    let p = pow10((MAX_SCALE - s) as nat);
    lemma_aligned_value(a, s);
    lemma_aligned_value(b, s);
    lemma_pow10_pos((MAX_SCALE - s) as nat);
    if a.value() == b.value() {
        lemma_mul_is_commutative(aligned(a, s), p);
        lemma_mul_is_commutative(aligned(b, s), p);
        lemma_mul_equality_converse_helper(p, aligned(a, s), aligned(b, s));
    }
}

proof fn lemma_mul_equality_converse_helper(m: int, x: int, y: int)
    requires
        m != 0,
        m * x == m * y,
    ensures
        x == y,
{
    vstd::arithmetic::mul::lemma_mul_equality_converse(m, x, y);
}

/// Value order agrees with coefficient order at a common scale.
pub proof fn lemma_value_lt_iff_aligned(a: Amount, b: Amount, s: u32)
    requires
        a.scale <= s <= MAX_SCALE,
        b.scale <= s,
    ensures
        (a.value() < b.value()) <==> (aligned(a, s) < aligned(b, s)),
{
    let p = pow10((MAX_SCALE - s) as nat);
    lemma_aligned_value(a, s);
    lemma_aligned_value(b, s);
    lemma_pow10_pos((MAX_SCALE - s) as nat);
    if aligned(a, s) < aligned(b, s) {
        lemma_mul_strict_inequality(aligned(a, s), aligned(b, s), p);
    }
    if aligned(b, s) < aligned(a, s) {
        lemma_mul_strict_inequality(aligned(b, s), aligned(a, s), p);
    }
}

/// A value is negative exactly when its coefficient is.
pub proof fn lemma_value_sign(a: Amount)
    requires
        a.inv(),
    ensures
        (a.value() < 0) <==> (a.mantissa < 0),
{
    let p = pow10((MAX_SCALE - a.scale) as nat);
    lemma_pow10_pos((MAX_SCALE - a.scale) as nat);
    lemma_mul_basics(p);
    if a.mantissa < 0 {
        lemma_mul_strict_inequality(a.mantissa as int, 0, p);
    } else {
        lemma_mul_inequality(0, a.mantissa as int, p);
    }
}

/// Negation is well formed and flips the value.
pub proof fn lemma_spec_neg(a: Amount)
    requires
        a.inv(),
    ensures
        spec_neg(a).inv(),
        spec_neg(a).scale == a.scale,
        spec_neg(a).value() == -a.value(),
{
    lemma_mul_unary_negation(a.mantissa as int, pow10((MAX_SCALE - a.scale) as nat));
}

impl Amount {
    /// The zero amount.
    pub fn zero() -> (r: Amount)
        ensures
            r.inv(),
            r.value() == 0,
            r.mantissa == 0,
            r.scale == 0,
    {
        proof {
            lemma_mul_basics(pow10((MAX_SCALE - 0) as nat));
        }
        Amount { mantissa: 0, scale: 0 }
    }

    /// Builds an amount from a coefficient and a scale, refusing shapes
    /// outside the 96-bit decimal range.
    pub fn from_parts(mantissa: i128, scale: u32) -> (r: Option<Amount>)
        ensures
            match r {
                Some(a) => a.inv() && a.mantissa == mantissa && a.scale == scale,
                None => !(Amount { mantissa, scale }).inv(),
            },
    {
        if scale <= MAX_SCALE && -MAX_COEFFICIENT <= mantissa && mantissa <= MAX_COEFFICIENT {
            Some(Amount { mantissa, scale })
        } else {
            None
        }
    }

    /// The negated amount.
    pub fn negated(&self) -> (r: Amount)
        requires
            self.inv(),
        ensures
            r == spec_neg(*self),
            r.inv(),
            r.value() == -self.value(),
    {
        proof {
            lemma_spec_neg(*self);
        }
        Amount { mantissa: -self.mantissa, scale: self.scale }
    }

    /// Whether the amount is strictly below zero.
    pub fn is_negative(&self) -> (r: bool)
        requires
            self.inv(),
        ensures
            r == (self.value() < 0),
    {
        proof {
            lemma_value_sign(*self);
        }
        self.mantissa < 0
    }

    /// Whether this amount and `other` denote the same value, across scales.
    pub fn eq_value(&self, other: &Amount) -> (r: bool)
        requires
            self.inv(),
            other.inv(),
        ensures
            r == (self.value() == other.value()),
    {
        if self.scale == other.scale {
            proof {
                lemma_value_eq_iff_aligned(*self, *other, self.scale);
                lemma_mul_basics(self.mantissa as int);
                lemma_mul_basics(other.mantissa as int);
                assert(pow10(0) == 1) by {
                    vstd::arithmetic::power::lemma_pow0(10);
                }
            }
            self.mantissa == other.mantissa
        } else if self.scale < other.scale {
            amounts_eq_aligned(self, other)
        } else {
            amounts_eq_aligned(other, self)
        }
    }

    /// Whether this amount denotes a strictly smaller value than `other`.
    pub fn lt_value(&self, other: &Amount) -> (r: bool)
        requires
            self.inv(),
            other.inv(),
        ensures
            r == (self.value() < other.value()),
    {
        if self.scale == other.scale {
            proof {
                lemma_value_lt_iff_aligned(*self, *other, self.scale);
                lemma_mul_basics(self.mantissa as int);
                lemma_mul_basics(other.mantissa as int);
                assert(pow10(0) == 1) by {
                    vstd::arithmetic::power::lemma_pow0(10);
                }
            }
            self.mantissa < other.mantissa
        } else if self.scale < other.scale {
            amounts_lt_aligned_left(self, other)
        } else {
            amounts_lt_aligned_right(other, self)
        }
    }
}

/// Compares values of two amounts where `fine` has the larger scale, by
/// rescaling `coarse`'s coefficient up to it.
fn amounts_eq_aligned(coarse: &Amount, fine: &Amount) -> (r: bool)
    requires
        coarse.inv(),
        fine.inv(),
        coarse.scale < fine.scale,
    ensures
        r == (coarse.value() == fine.value()),
{
    let s = fine.scale;
    let p = pow10_i128(s - coarse.scale);
    proof {
        lemma_value_eq_iff_aligned(*coarse, *fine, s);
        lemma_mul_basics(fine.mantissa as int);
        assert(pow10(0) == 1) by {
            vstd::arithmetic::power::lemma_pow0(10);
        }
        assert(aligned(*fine, s) == fine.mantissa);
    }
    match coarse.mantissa.checked_mul(p) {
        Some(x) => x == fine.mantissa,
        None => {
            proof {
                // The rescaled coefficient overflows an i128, so its magnitude
                // exceeds any in-range coefficient and the values must differ.
                assert(aligned(*coarse, s) == coarse.mantissa * p);
                assert(aligned(*coarse, s) > i128::MAX || aligned(*coarse, s) < i128::MIN);
            }
            false
        },
    }
}

/// Value order where `coarse` (smaller scale) is the left operand.
fn amounts_lt_aligned_left(coarse: &Amount, fine: &Amount) -> (r: bool)
    requires
        coarse.inv(),
        fine.inv(),
        coarse.scale < fine.scale,
    ensures
        r == (coarse.value() < fine.value()),
{
    let s = fine.scale;
    let p = pow10_i128(s - coarse.scale);
    proof {
        lemma_value_lt_iff_aligned(*coarse, *fine, s);
        lemma_mul_basics(fine.mantissa as int);
        assert(pow10(0) == 1) by {
            vstd::arithmetic::power::lemma_pow0(10);
        }
        assert(aligned(*fine, s) == fine.mantissa);
    }
    match coarse.mantissa.checked_mul(p) {
        Some(x) => x < fine.mantissa,
        None => {
            proof {
                lemma_overflow_sign(coarse.mantissa as int, p as int);
                assert(aligned(*coarse, s) == coarse.mantissa * p);
            }
            // Overflow means the rescaled coefficient is out of every in-range
            // coefficient's reach; its sign settles the comparison.
            coarse.mantissa < 0
        },
    }
}

/// Value order where `coarse` (smaller scale) is the right operand.
fn amounts_lt_aligned_right(coarse: &Amount, fine: &Amount) -> (r: bool)
    requires
        coarse.inv(),
        fine.inv(),
        coarse.scale < fine.scale,
    ensures
        r == (fine.value() < coarse.value()),
{
    let s = fine.scale;
    let p = pow10_i128(s - coarse.scale);
    proof {
        lemma_value_lt_iff_aligned(*fine, *coarse, s);
        lemma_mul_basics(fine.mantissa as int);
        assert(pow10(0) == 1) by {
            vstd::arithmetic::power::lemma_pow0(10);
        }
        assert(aligned(*fine, s) == fine.mantissa);
    }
    match coarse.mantissa.checked_mul(p) {
        Some(x) => fine.mantissa < x,
        None => {
            proof {
                lemma_overflow_sign(coarse.mantissa as int, p as int);
                assert(aligned(*coarse, s) == coarse.mantissa * p);
            }
            0 < coarse.mantissa
        },
    }
}

/// A product whose magnitude escapes the i128 range keeps the sign of its
/// first factor when the second is positive.
proof fn lemma_overflow_sign(m: int, p: int)
    requires
        p >= 1,
        m * p > i128::MAX || m * p < i128::MIN,
    ensures
        m < 0 ==> m * p < i128::MIN,
        m > 0 ==> m * p > i128::MAX,
        m != 0,
{
    lemma_mul_basics(p);
    if m < 0 {
        lemma_mul_strict_inequality(m, 0, p);
    }
    if m > 0 {
        lemma_mul_strict_inequality(0, m, p);
    }
}

/// Ten to the `k`-th power as a machine integer.
fn pow10_i128(k: u32) -> (r: i128)
    requires
        k <= MAX_SCALE,
    ensures
        r == pow10(k as nat),
        r >= 1,
{
    proof {
        assert(pow10(0) == 1) by {
            vstd::arithmetic::power::lemma_pow0(10);
        }
    }
    let mut i: u32 = 0;
    let mut p: i128 = 1;
    while i < k
        invariant
            i <= k <= MAX_SCALE,
            p == pow10(i as nat),
            p >= 1,
        decreases k - i,
    {
        proof {
            assert(pow10((i + 1) as nat) == 10 * pow10(i as nat)) by {
                lemma_pow10_adds(1 as nat, i as nat);
                assert(pow10(1) == 10) by {
                    vstd::arithmetic::power::lemma_pow1(10);
                }
            }
            assert(pow10(i as nat) <= pow10((MAX_SCALE - 1) as nat)) by {
                lemma_pow_increases(10, i as nat, (MAX_SCALE - 1) as nat);
            }
            assert(pow10((MAX_SCALE - 1) as nat) == 1000000000000000000000000000) by {
                reveal_with_fuel(pow, 29);
            }
        }
        p = p * 10;
        i = i + 1;
    }
    p
}

/// For nonnegative `x` and `d` and positive `p`: `x <= d / p` exactly when
/// `x * p <= d`.
proof fn lemma_le_div_iff(x: int, d: int, p: int)
    requires
        x >= 0,
        d >= 0,
        p >= 1,
    ensures
        (x <= d / p) <==> (x * p <= d),
{
    lemma_fundamental_div_mod(d, p);
    lemma_mod_division_less_than_divisor(d, p);
    let q = d / p;
    assert(d == p * q + d % p);
    if x <= q {
        lemma_mul_inequality(x, q, p);
        lemma_mul_is_commutative(q, p);
    } else {
        lemma_mul_inequality(q + 1, x, p);
        lemma_mul_is_distributive_add_other_way(p, q, 1);
        lemma_mul_is_commutative(q, p);
        lemma_mul_basics(p);
    }
}

/// The magnitude of a product of a coefficient with a positive power.
proof fn lemma_abs_mul(m: int, a: int, p: int)
    requires
        p >= 1,
        a == if m < 0 { -m } else { m },
    ensures
        m * p == if m < 0 { -(a * p) } else { a * p },
{
    if m < 0 {
        lemma_mul_unary_negation(a, p);
    }
}

/// What the 96-bit decimal library prints for a coefficient and a scale; the
/// text depends on those two values alone.
pub uninterp spec fn dec_display(mantissa: int, scale: int) -> Seq<char>;

/// Exact decimal addition.
///
/// Relies on rust_decimal's `Add` for `Decimal`: when both operands and their
/// sum, aligned to the common scale, stay inside the 96-bit coefficient range,
/// the crate rescales the finer-grained operand losslessly and returns the
/// exact sum; `from_i128_with_scale`, `mantissa` and `scale` move coefficients
/// in and out unchanged within that range.
#[verifier::external_body]
pub(crate) fn dec_add(a: &Amount, b: &Amount) -> (r: Amount)
    requires
        a.inv(),
        b.inv(),
        add_fits(*a, *b),
    ensures
        r.inv(),
        r.value() == a.value() + b.value(),
{
    let x = rust_decimal::Decimal::from_i128_with_scale(a.mantissa, a.scale);
    let y = rust_decimal::Decimal::from_i128_with_scale(b.mantissa, b.scale);
    let z = x + y;
    Amount { mantissa: z.mantissa(), scale: z.scale() }
}

/// Renders an amount the way the decimal library prints it: the plain decimal
/// digits with a point when the scale is positive.
///
/// Relies on rust_decimal's `Display` for `Decimal`, whose text is a function
/// of the coefficient and the scale alone.
#[verifier::external_body]
pub(crate) fn amount_text(a: &Amount) -> (r: String)
    requires
        a.inv(),
    ensures
        r@ == dec_display(a.mantissa as int, a.scale as int),
{
    rust_decimal::Decimal::from_i128_with_scale(a.mantissa, a.scale).to_string()
}

impl Amount {
    /// The exact sum, or `None` when the 96-bit decimal range cannot hold it.
    pub fn try_plus(&self, other: &Amount) -> (r: Option<Amount>)
        requires
            self.inv(),
            other.inv(),
        ensures
            match r {
                Some(s) => add_fits(*self, *other) && s.inv() && s.value() == self.value()
                    + other.value(),
                None => !add_fits(*self, *other),
            },
    {
        if can_add(self, other) {
            Some(dec_add(self, other))
        } else {
            None
        }
    }
}

/// Whether `a + b` can be computed exactly within the decimal range.
pub fn can_add(a: &Amount, b: &Amount) -> (r: bool)
    requires
        a.inv(),
        b.inv(),
    ensures
        r == add_fits(*a, *b),
{
    let s: u32 = if a.scale >= b.scale { a.scale } else { b.scale };
    let pa = pow10_i128(s - a.scale);
    let pb = pow10_i128(s - b.scale);
    let a_abs: i128 = if a.mantissa < 0 { -a.mantissa } else { a.mantissa };
    let b_abs: i128 = if b.mantissa < 0 { -b.mantissa } else { b.mantissa };
    proof {
        lemma_fits_aligned(*a, s);
        lemma_fits_aligned(*b, s);
        lemma_abs_mul(a.mantissa as int, a_abs as int, pa as int);
        lemma_abs_mul(b.mantissa as int, b_abs as int, pb as int);
        lemma_le_div_iff(a_abs as int, MAX_COEFFICIENT as int, pa as int);
        lemma_le_div_iff(b_abs as int, MAX_COEFFICIENT as int, pb as int);
    }
    let ta: u128 = (MAX_COEFFICIENT as u128) / (pa as u128);
    let tb: u128 = (MAX_COEFFICIENT as u128) / (pb as u128);
    if (a_abs as u128) > ta {
        return false;
    }
    if (b_abs as u128) > tb {
        return false;
    }
    let am: i128 = a.mantissa * pa;
    let bm: i128 = b.mantissa * pb;
    let sum: i128 = am + bm;
    proof {
        lemma_aligned_value(*a, s);
        lemma_aligned_value(*b, s);
        let p = pow10((MAX_SCALE - s) as nat);
        lemma_pow10_pos((MAX_SCALE - s) as nat);
        lemma_mul_is_distributive_add_other_way(p, am as int, bm as int);
        lemma_mul_is_commutative((am + bm) as int, p);
        lemma_mul_is_commutative(am as int, p);
        lemma_mul_is_commutative(bm as int, p);
        assert((am + bm) * p == a.value() + b.value());
        lemma_scaled_bound_iff(sum as int, MAX_COEFFICIENT as int, p);
    }
    -MAX_COEFFICIENT <= sum && sum <= MAX_COEFFICIENT
}

} // verus!
