//! Exact decimal amounts: an integer mantissa and a scale, the number of
//! digits behind the decimal point. The arithmetic itself is `rust_decimal`'s.

use vstd::prelude::*;
use rust_decimal::Decimal;

verus! {

/// The mantissa of an amount lies strictly between `-MANTISSA_LIMIT` and
/// `MANTISSA_LIMIT` (2 to the power 96).
pub const MANTISSA_LIMIT: i128 = 0x1_0000_0000_0000_0000_0000_0000;

/// The largest scale an amount can have.
pub const MAX_SCALE: u32 = 28;

/// What `Decimal::checked_add` returns for two decimals, each given by its
/// mantissa and scale: the mantissa and scale of the sum, or `None`.
pub uninterp spec fn decimal_sum(
    a_mantissa: i128,
    a_scale: u32,
    b_mantissa: i128,
    b_scale: u32,
) -> Option<(i128, u32)>;

/// What `Decimal::checked_sub` returns for two decimals, each given by its
/// mantissa and scale: the mantissa and scale of the difference, or `None`.
pub uninterp spec fn decimal_difference(
    a_mantissa: i128,
    a_scale: u32,
    b_mantissa: i128,
    b_scale: u32,
) -> Option<(i128, u32)>;

/// Ten to the power `n`.
pub open spec fn pow10(n: nat) -> int
    decreases n,
{
    if n == 0 {
        1
    } else {
        10 * pow10((n - 1) as nat)
    }
}

/// Whether `m` can be the mantissa of an amount.
pub open spec fn representable(m: int) -> bool {
    -MANTISSA_LIMIT < m < MANTISSA_LIMIT
}

/// A signed decimal number `mantissa / 10^scale`.
///
/// Two amounts are `==` when mantissa and scale agree; `1.0` and `1.00` are
/// different amounts of the same value (see [`Amount::scaled`]).
#[derive(Clone, Copy, Debug, PartialEq, Eq, Structural)]
pub struct Amount {
    mantissa: i128,
    scale: u32,
}

impl Amount {
    pub closed spec fn spec_mantissa(self) -> i128 {
        self.mantissa
    }

    pub closed spec fn spec_scale(self) -> u32 {
        self.scale
    }

    /// The amount with the given mantissa and scale.
    pub closed spec fn of(mantissa: i128, scale: u32) -> Amount {
        Amount { mantissa, scale }
    }

    /// Every amount that the program holds is in range.
    #[verifier::type_invariant]
    pub open spec fn in_range(self) -> bool {
        representable(self.spec_mantissa() as int) && self.spec_scale() <= MAX_SCALE
    }

    /// The value in units of `10^-28`, the finest any amount can resolve.
    pub open spec fn scaled(self) -> int {
        self.spec_mantissa() * pow10((MAX_SCALE - self.spec_scale()) as nat)
    }

    /// The mantissa this amount has when written with `scale` digits behind
    /// the point, for a `scale` that is not below its own.
    pub open spec fn aligned(self, scale: u32) -> int {
        self.spec_mantissa() * pow10((scale - self.spec_scale()) as nat)
    }

    /// The larger of the two scales.
    pub open spec fn common_scale(self, other: Amount) -> u32 {
        if self.spec_scale() >= other.spec_scale() {
            self.spec_scale()
        } else {
            other.spec_scale()
        }
    }

    /// Both amounts and their sum can be written at the larger of the two
    /// scales: the addition then neither rounds nor overflows.
    pub open spec fn sum_is_exact(self, other: Amount) -> bool {
        let s = self.common_scale(other);
        &&& representable(self.aligned(s))
        &&& representable(other.aligned(s))
        &&& representable(self.aligned(s) + other.aligned(s))
    }

    /// Both amounts and their difference can be written at the larger of the
    /// two scales: the subtraction then neither rounds nor overflows.
    pub open spec fn difference_is_exact(self, other: Amount) -> bool {
        let s = self.common_scale(other);
        &&& representable(self.aligned(s))
        &&& representable(other.aligned(s))
        &&& representable(self.aligned(s) - other.aligned(s))
    }

    /// The sum where [`Amount::sum_is_exact`] holds: with an operand that is
    /// zero it is the other operand as it stands; else it has the larger of
    /// the two scales.
    pub open spec fn exact_sum(self, other: Amount) -> Amount {
        let s = self.common_scale(other);
        if self.spec_mantissa() == 0 {
            other
        } else if other.spec_mantissa() == 0 {
            self
        } else {
            Amount::of((self.aligned(s) + other.aligned(s)) as i128, s)
        }
    }

    /// The difference where [`Amount::difference_is_exact`] holds: zero less
    /// an amount is its negation, an amount less zero is itself; else the
    /// difference has the larger of the two scales.
    pub open spec fn exact_difference(self, other: Amount) -> Amount {
        let s = self.common_scale(other);
        if self.spec_mantissa() == 0 {
            other.negation()
        } else if other.spec_mantissa() == 0 {
            self
        } else {
            Amount::of((self.aligned(s) - other.aligned(s)) as i128, s)
        }
    }

    /// A result of the decimal arithmetic as an amount.
    pub closed spec fn lift(parts: Option<(i128, u32)>) -> Option<Amount> {
        match parts {
            Some((mantissa, scale)) => Some(Amount { mantissa, scale }),
            None => None,
        }
    }

    /// `self + other` as the decimal arithmetic gives it; `None` on overflow.
    pub open spec fn sum(self, other: Amount) -> Option<Amount> {
        Amount::lift(
            decimal_sum(
                self.spec_mantissa(),
                self.spec_scale(),
                other.spec_mantissa(),
                other.spec_scale(),
            ),
        )
    }

    /// `self - other` as the decimal arithmetic gives it; `None` on overflow.
    pub open spec fn difference(self, other: Amount) -> Option<Amount> {
        Amount::lift(
            decimal_difference(
                self.spec_mantissa(),
                self.spec_scale(),
                other.spec_mantissa(),
                other.spec_scale(),
            ),
        )
    }

    /// The amount of the same scale and the opposite sign.
    pub open spec fn negation(self) -> Amount {
        Amount::of((-self.spec_mantissa()) as i128, self.spec_scale())
    }

    /// The amount `mantissa / 10^scale`, if it is in range.
    pub fn new(mantissa: i128, scale: u32) -> (r: Option<Amount>)
        ensures
            r is Some <==> representable(mantissa as int) && scale <= MAX_SCALE,
            r is Some ==> r == Some(Amount::of(mantissa, scale)),
    {
        if -MANTISSA_LIMIT < mantissa && mantissa < MANTISSA_LIMIT && scale <= MAX_SCALE {
            Some(Amount { mantissa, scale })
        } else {
            None
        }
    }

    /// Zero, with scale 0.
    pub fn zero() -> (r: Amount)
        ensures
            r == Amount::of(0, 0),
    {
        Amount { mantissa: 0, scale: 0 }
    }

    pub fn mantissa(&self) -> (r: i128)
        ensures
            r == self.spec_mantissa(),
            representable(r as int),
    {
        proof {
            use_type_invariant(self);
        }
        self.mantissa
    }

    pub fn scale(&self) -> (r: u32)
        ensures
            r == self.spec_scale(),
            r <= MAX_SCALE,
    {
        proof {
            use_type_invariant(self);
        }
        self.scale
    }

    /// `self + other`; `None` where the decimal arithmetic overflows. Where
    /// the sum is exact, it is [`Amount::exact_sum`], and its value is the sum
    /// of the two values.
    pub fn checked_add(self, other: Amount) -> (r: Option<Amount>)
        ensures
            r == self.sum(other),
            self.sum_is_exact(other) ==> r == Some(self.exact_sum(other)) && r->0.scaled()
                == self.scaled() + other.scaled(),
    {
        proof {
            use_type_invariant(&self);
            use_type_invariant(&other);
            if self.sum_is_exact(other) {
                lemma_exact_sum_value(self, other);
            }
        }
        decimal_checked_add(self, other)
    }

    /// `self - other`; `None` where the decimal arithmetic overflows. Where
    /// the difference is exact, it is [`Amount::exact_difference`], and its
    /// value is the difference of the two values.
    pub fn checked_sub(self, other: Amount) -> (r: Option<Amount>)
        ensures
            r == self.difference(other),
            self.difference_is_exact(other) ==> r == Some(self.exact_difference(other))
                && r->0.scaled() == self.scaled() - other.scaled(),
    {
        proof {
            use_type_invariant(&self);
            use_type_invariant(&other);
            if self.difference_is_exact(other) {
                lemma_exact_difference_value(self, other);
            }
        }
        decimal_checked_sub(self, other)
    }

    /// Whether the value is below zero.
    pub fn is_negative(&self) -> (r: bool)
        ensures
            r == (self.spec_mantissa() < 0),
            r == (self.scaled() < 0),
    {
        proof {
            use_type_invariant(self);
            lemma_sign_of_scaled(*self);
        }
        self.mantissa < 0
    }

    /// The amount of the same scale and the opposite sign.
    pub fn negated(&self) -> (r: Amount)
        ensures
            r == self.negation(),
            r.scaled() == -self.scaled(),
    {
        proof {
            use_type_invariant(self);
            assert((-self.mantissa) * pow10((MAX_SCALE - self.scale) as nat) == -(self.mantissa
                * pow10((MAX_SCALE - self.scale) as nat))) by (nonlinear_arith);
        }
        Amount { mantissa: -self.mantissa, scale: self.scale }
    }
}

/// The parts of an amount made of parts are those parts.
pub proof fn lemma_parts_of(mantissa: i128, scale: u32)
    ensures
        Amount::of(mantissa, scale).spec_mantissa() == mantissa,
        Amount::of(mantissa, scale).spec_scale() == scale,
{
}

/// Every power of ten is positive.
pub proof fn lemma_pow10_positive(n: nat)
    ensures
        pow10(n) > 0,
    decreases n,
{
    if n > 0 {
        lemma_pow10_positive((n - 1) as nat);
    }
}

/// An amount's value has the sign of its mantissa.
pub proof fn lemma_sign_of_scaled(a: Amount)
    requires
        a.spec_scale() <= MAX_SCALE,
    ensures
        (a.scaled() < 0) == (a.spec_mantissa() < 0),
        (a.scaled() == 0) == (a.spec_mantissa() == 0),
{
    let p = pow10((MAX_SCALE - a.spec_scale()) as nat);
    let m = a.spec_mantissa() as int;
    lemma_pow10_positive((MAX_SCALE - a.spec_scale()) as nat);
    assert((m * p < 0) == (m < 0) && (m * p == 0) == (m == 0)) by (nonlinear_arith)
        requires
            p > 0,
    ;
}

/// Powers of ten multiply as their exponents add.
pub proof fn lemma_pow10_sum(x: nat, y: nat)
    ensures
        pow10(x + y) == pow10(x) * pow10(y),
    decreases x,
{
    if x > 0 {
        lemma_pow10_sum((x - 1) as nat, y);
        assert(pow10(x + y) == 10 * pow10(((x - 1) as nat) + y));
        assert(10 * (pow10((x - 1) as nat) * pow10(y)) == (10 * pow10((x - 1) as nat)) * pow10(y))
            by (nonlinear_arith);
    } else {
        assert(pow10(0) == 1);
        assert(1 * pow10(y) == pow10(y));
    }
}

/// The value of an amount, from its mantissa at any scale between its own
/// and the largest.
pub proof fn lemma_scaled_of_aligned(a: Amount, scale: u32)
    requires
        a.spec_scale() <= scale <= MAX_SCALE,
    ensures
        a.scaled() == a.aligned(scale) * pow10((MAX_SCALE - scale) as nat),
{
    let up = (scale - a.spec_scale()) as nat;
    let rest = (MAX_SCALE - scale) as nat;
    let m = a.spec_mantissa() as int;
    lemma_pow10_sum(up, rest);
    assert(up + rest == (MAX_SCALE - a.spec_scale()) as nat);
    assert(m * (pow10(up) * pow10(rest)) == (m * pow10(up)) * pow10(rest)) by (nonlinear_arith);
}

/// The exact sum is in range, and its value is the sum of the values.
pub proof fn lemma_exact_sum_value(a: Amount, b: Amount)
    requires
        a.in_range(),
        b.in_range(),
        a.sum_is_exact(b),
    ensures
        a.exact_sum(b).in_range(),
        a.exact_sum(b).scaled() == a.scaled() + b.scaled(),
{
    let s = a.common_scale(b);
    let rest = pow10((MAX_SCALE - s) as nat);
    let x = a.aligned(s);
    let y = b.aligned(s);
    lemma_scaled_of_aligned(a, s);
    lemma_scaled_of_aligned(b, s);
    assert((x + y) * rest == x * rest + y * rest) by (nonlinear_arith);
    if a.spec_mantissa() == 0 {
        assert(a.scaled() == 0) by (nonlinear_arith)
            requires
                a.scaled() == a.spec_mantissa() * pow10((MAX_SCALE - a.spec_scale()) as nat),
                a.spec_mantissa() == 0,
        ;
    } else if b.spec_mantissa() == 0 {
        assert(b.scaled() == 0) by (nonlinear_arith)
            requires
                b.scaled() == b.spec_mantissa() * pow10((MAX_SCALE - b.spec_scale()) as nat),
                b.spec_mantissa() == 0,
        ;
    }
}

/// The exact difference is in range, and its value is the difference of the
/// values.
pub proof fn lemma_exact_difference_value(a: Amount, b: Amount)
    requires
        a.in_range(),
        b.in_range(),
        a.difference_is_exact(b),
    ensures
        a.exact_difference(b).in_range(),
        a.exact_difference(b).scaled() == a.scaled() - b.scaled(),
{
    let s = a.common_scale(b);
    let rest = pow10((MAX_SCALE - s) as nat);
    let x = a.aligned(s);
    let y = b.aligned(s);
    lemma_scaled_of_aligned(a, s);
    lemma_scaled_of_aligned(b, s);
    assert((x - y) * rest == x * rest - y * rest) by (nonlinear_arith);
    if a.spec_mantissa() == 0 {
        let p = pow10((MAX_SCALE - b.spec_scale()) as nat);
        let m = b.spec_mantissa() as int;
        assert(a.scaled() == 0) by (nonlinear_arith)
            requires
                a.scaled() == a.spec_mantissa() * pow10((MAX_SCALE - a.spec_scale()) as nat),
                a.spec_mantissa() == 0,
        ;
        assert((-m) * p == -(m * p)) by (nonlinear_arith);
    } else if b.spec_mantissa() == 0 {
        assert(b.scaled() == 0) by (nonlinear_arith)
            requires
                b.scaled() == b.spec_mantissa() * pow10((MAX_SCALE - b.spec_scale()) as nat),
                b.spec_mantissa() == 0,
        ;
    }
}

/// At its own scale an amount's mantissa is as it stands, and zero is zero at
/// every scale.
pub proof fn lemma_aligned_trivially(a: Amount, scale: u32)
    ensures
        a.aligned(a.spec_scale()) == a.spec_mantissa(),
        a.spec_mantissa() == 0 ==> a.aligned(scale) == 0,
{
    assert(pow10(0) == 1);
    let m = a.spec_mantissa() as int;
    assert(m * 1 == m);
    let p = pow10((scale - a.spec_scale()) as nat);
    assert(0 * p == 0);
}

/// Where taking `m` from `a` is exact, so is giving it back, and so is
/// taking it once more from what that gives.
pub proof fn lemma_exact_there_and_back(a: Amount, m: Amount)
    requires
        a.in_range(),
        m.in_range(),
        a.difference_is_exact(m),
    ensures
        a.exact_difference(m).in_range(),
        a.exact_difference(m).sum_is_exact(m),
        a.exact_difference(m).exact_sum(m).in_range(),
        a.exact_difference(m).exact_sum(m).difference_is_exact(m),
{
    let s = a.common_scale(m);
    let d = a.exact_difference(m);
    let b = d.exact_sum(m);
    lemma_aligned_trivially(a, s);
    lemma_aligned_trivially(m, s);
    lemma_aligned_trivially(m, m.spec_scale());
    lemma_aligned_trivially(d, d.common_scale(m));
    lemma_aligned_trivially(d, d.spec_scale());
    lemma_aligned_trivially(b, b.common_scale(m));
    lemma_aligned_trivially(b, b.spec_scale());
}

/// Where adding `m` to `a` is exact, so is taking it away again, and so is
/// adding it once more to what that gives.
pub proof fn lemma_exact_back_and_there(a: Amount, m: Amount)
    requires
        a.in_range(),
        m.in_range(),
        a.sum_is_exact(m),
    ensures
        a.exact_sum(m).in_range(),
        a.exact_sum(m).difference_is_exact(m),
        a.exact_sum(m).exact_difference(m).in_range(),
        a.exact_sum(m).exact_difference(m).sum_is_exact(m),
{
    let s = a.common_scale(m);
    let d = a.exact_sum(m);
    let b = d.exact_difference(m);
    lemma_aligned_trivially(a, s);
    lemma_aligned_trivially(m, s);
    lemma_aligned_trivially(m, m.spec_scale());
    lemma_aligned_trivially(d, d.common_scale(m));
    lemma_aligned_trivially(d, d.spec_scale());
    lemma_aligned_trivially(b, b.common_scale(m));
    lemma_aligned_trivially(b, b.spec_scale());
}

/// `Decimal::checked_add` on the decimals that `a` and `b` stand for.
///
/// Trusted: the result is the one that [`decimal_sum`] names, and it is in
/// range. Where [`Amount::sum_is_exact`] holds, the crate neither rounds nor
/// fails: it hands back the other operand where one is zero, and else adds the
/// two mantissas at the larger scale, which the result keeps.
#[verifier::external_body]
fn decimal_checked_add(a: Amount, b: Amount) -> (r: Option<Amount>)
    requires
        a.in_range(),
        b.in_range(),
    ensures
        r == Amount::lift(
            decimal_sum(a.spec_mantissa(), a.spec_scale(), b.spec_mantissa(), b.spec_scale()),
        ),
        r is Some ==> r->0.in_range(),
        a.sum_is_exact(b) ==> r == Some(a.exact_sum(b)),
{
    let x = Decimal::from_i128_with_scale(a.mantissa, a.scale);
    let y = Decimal::from_i128_with_scale(b.mantissa, b.scale);
    match x.checked_add(y) {
        Some(d) => Some(Amount { mantissa: d.mantissa(), scale: d.scale() }),
        None => None,
    }
}

/// `Decimal::checked_sub` on the decimals that `a` and `b` stand for.
///
/// Trusted: the result is the one that [`decimal_difference`] names, and it is
/// in range. Where [`Amount::difference_is_exact`] holds, the crate neither
/// rounds nor fails: zero less an amount is its negation, an amount less zero
/// is itself, and else it subtracts the two mantissas at the larger scale,
/// which the result keeps.
#[verifier::external_body]
fn decimal_checked_sub(a: Amount, b: Amount) -> (r: Option<Amount>)
    requires
        a.in_range(),
        b.in_range(),
    ensures
        r == Amount::lift(
            decimal_difference(
                a.spec_mantissa(),
                a.spec_scale(),
                b.spec_mantissa(),
                b.spec_scale(),
            ),
        ),
        r is Some ==> r->0.in_range(),
        a.difference_is_exact(b) ==> r == Some(a.exact_difference(b)),
{
    let x = Decimal::from_i128_with_scale(a.mantissa, a.scale);
    let y = Decimal::from_i128_with_scale(b.mantissa, b.scale);
    match x.checked_sub(y) {
        Some(d) => Some(Amount { mantissa: d.mantissa(), scale: d.scale() }),
        None => None,
    }
}

} // verus!
