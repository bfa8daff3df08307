//! Exact decimal amounts.
//!
//! An [`Amount`] is a signed integer mantissa together with a scale, the
//! number of digits that stand after the decimal point: the amount `12.50` is
//! the mantissa `1250` at scale `2`. The mantissa has at most 96 bits and the
//! scale is at most 28, the range of `rust_decimal::Decimal`, which does the
//! arithmetic.
//!
//! Sums and differences are exact or they are not computed: [`sum_fits`] and
//! [`difference_fits`] say when `Decimal` neither rounds nor overflows, and
//! every operation here asks for that.

use rust_decimal::Decimal;
use vstd::prelude::*;

verus! {

/// The largest scale an amount can have.
pub const MAX_SCALE: u32 = 28;

/// The largest magnitude a mantissa can have: `2^96 - 1`.
pub const MAX_MANTISSA: i128 = 0xFFFF_FFFF_FFFF_FFFF_FFFF_FFFF;

/// The largest scale that the ledger accepts in a deposit or a withdrawal.
pub const MAX_LEDGER_SCALE: u32 = 4;

/// `10^n` for `n` up to 28, the largest scale; `10^28` beyond.
pub open spec fn pow10(n: nat) -> int {
    if n == 0 {
        1
    } else if n == 1 {
        10
    } else if n == 2 {
        100
    } else if n == 3 {
        1_000
    } else if n == 4 {
        10_000
    } else if n == 5 {
        100_000
    } else if n == 6 {
        1_000_000
    } else if n == 7 {
        10_000_000
    } else if n == 8 {
        100_000_000
    } else if n == 9 {
        1_000_000_000
    } else if n == 10 {
        10_000_000_000
    } else if n == 11 {
        100_000_000_000
    } else if n == 12 {
        1_000_000_000_000
    } else if n == 13 {
        10_000_000_000_000
    } else if n == 14 {
        100_000_000_000_000
    } else if n == 15 {
        1_000_000_000_000_000
    } else if n == 16 {
        10_000_000_000_000_000
    } else if n == 17 {
        100_000_000_000_000_000
    } else if n == 18 {
        1_000_000_000_000_000_000
    } else if n == 19 {
        10_000_000_000_000_000_000
    } else if n == 20 {
        100_000_000_000_000_000_000
    } else if n == 21 {
        1_000_000_000_000_000_000_000
    } else if n == 22 {
        10_000_000_000_000_000_000_000
    } else if n == 23 {
        100_000_000_000_000_000_000_000
    } else if n == 24 {
        1_000_000_000_000_000_000_000_000
    } else if n == 25 {
        10_000_000_000_000_000_000_000_000
    } else if n == 26 {
        100_000_000_000_000_000_000_000_000
    } else if n == 27 {
        1_000_000_000_000_000_000_000_000_000
    } else {
        10_000_000_000_000_000_000_000_000_000
    }
}

/// Whether `m` is a mantissa that an amount can hold.
pub open spec fn mantissa_in_range(m: int) -> bool {
    -MAX_MANTISSA <= m <= MAX_MANTISSA
}

/// The larger of the two amounts' scales: the scale at which both can be
/// written without dropping a digit.
pub open spec fn common_scale(a: Amount, b: Amount) -> nat {
    if a.scale() >= b.scale() {
        a.scale() as nat
    } else {
        b.scale() as nat
    }
}

/// Whether `a + b` is computed without rounding. It is where one of the two
/// is zero, and where the sum of the two mantissas, taken at the common
/// scale, has at most 96 bits.
pub open spec fn sum_fits(a: Amount, b: Amount) -> bool {
    let s = common_scale(a, b);
    a.mantissa() == 0 || b.mantissa() == 0 || mantissa_in_range(a.aligned(s) + b.aligned(s))
}

/// Whether `a - b` is computed without rounding. It is where one of the two
/// is zero, and where the difference of the two mantissas, taken at the
/// common scale, has at most 96 bits.
pub open spec fn difference_fits(a: Amount, b: Amount) -> bool {
    let s = common_scale(a, b);
    a.mantissa() == 0 || b.mantissa() == 0 || mantissa_in_range(a.aligned(s) - b.aligned(s))
}

/// The scale of `a + b` and of `a - b`: where one of the two is zero, that of
/// the other; else their common scale.
pub open spec fn result_scale(a: Amount, b: Amount) -> nat {
    if a.mantissa() == 0 {
        b.scale() as nat
    } else if b.mantissa() == 0 {
        a.scale() as nat
    } else {
        common_scale(a, b)
    }
}

/// `sum` is `a + b` as it is written: with the mantissas added at the scale
/// of the result.
pub open spec fn is_sum(sum: Amount, a: Amount, b: Amount) -> bool {
    &&& sum.scale() == result_scale(a, b)
    &&& sum.mantissa() == if a.mantissa() == 0 {
        b.mantissa() as int
    } else if b.mantissa() == 0 {
        a.mantissa() as int
    } else {
        a.aligned(common_scale(a, b)) + b.aligned(common_scale(a, b))
    }
}

/// `difference` is `a - b` as it is written: with the mantissas subtracted at
/// the scale of the result.
pub open spec fn is_difference(difference: Amount, a: Amount, b: Amount) -> bool {
    &&& difference.scale() == result_scale(a, b)
    &&& difference.mantissa() == if a.mantissa() == 0 {
        -b.mantissa()
    } else if b.mantissa() == 0 {
        a.mantissa() as int
    } else {
        a.aligned(common_scale(a, b)) - b.aligned(common_scale(a, b))
    }
}

/// The text that `rust_decimal` writes for the decimal `mantissa / 10^scale`
/// when it is asked for four digits after the point.
pub uninterp spec fn four_digit_text(mantissa: int, scale: int) -> Seq<char>;

/// Whether the text ends in a point and four digits, with something before
/// the point.
pub open spec fn ends_in_four_digits(text: Seq<char>) -> bool {
    &&& text.len() >= 6
    &&& text[text.len() - 5] == '.'
    &&& forall|i: int|
        text.len() - 4 <= i < text.len() ==> '0' <= #[trigger] text[i] && text[i] <= '9'
}

/// An exact decimal number: `mantissa / 10^scale`.
#[derive(Clone, Copy, Debug)]
pub struct Amount {
    mantissa: i128,
    scale: u32,
}

impl View for Amount {
    type V = int;

    /// The value of the amount, counted in steps of `10^-28`, the finest step
    /// that any amount can have. Two amounts stand for the same number exactly
    /// when their views are equal, whatever their scales.
    open spec fn view(&self) -> int {
        self.mantissa() * pow10((MAX_SCALE - self.scale()) as nat)
    }
}

impl Amount {
    /// The mantissa, as a specification value.
    pub closed spec fn spec_mantissa(&self) -> i128 {
        self.mantissa
    }

    /// The scale, as a specification value.
    pub closed spec fn spec_scale(&self) -> u32 {
        self.scale
    }

    /// The mantissa that the amount has once it is written at the scale `s`,
    /// which is at least its own: `1.5` written at scale 3 is `1500`.
    pub open spec fn aligned(&self, s: nat) -> int {
        self.mantissa() * pow10((s - self.scale()) as nat)
    }

    /// Every amount that exists at run time is well formed.
    #[verifier::type_invariant]
    pub open spec fn wf(&self) -> bool {
        &&& self.scale() <= MAX_SCALE
        &&& mantissa_in_range(self.mantissa() as int)
    }

    /// The amount `num / 10^scale`.
    pub fn new(num: i64, scale: u32) -> (r: Amount)
        requires
            scale <= MAX_SCALE,
        ensures
            r.mantissa() == num,
            r.scale() == scale,
    {
        Amount { mantissa: num as i128, scale }
    }

    /// The amount `mantissa / 10^scale`, or `None` where the mantissa has more
    /// than 96 bits or the scale is above 28.
    pub fn from_mantissa(mantissa: i128, scale: u32) -> (r: Option<Amount>)
        ensures
            r is Some <==> scale <= MAX_SCALE && mantissa_in_range(mantissa as int),
            r matches Some(a) ==> a.mantissa() == mantissa && a.scale() == scale,
    {
        if scale <= MAX_SCALE && -MAX_MANTISSA <= mantissa && mantissa <= MAX_MANTISSA {
            Some(Amount { mantissa, scale })
        } else {
            None
        }
    }

    /// Zero, at scale 0.
    pub fn zero() -> (r: Amount)
        ensures
            r.mantissa() == 0,
            r.scale() == 0,
            r@ == 0,
    {
        Amount { mantissa: 0, scale: 0 }
    }

    /// The mantissa: the amount's digits read as one signed integer.
    #[verifier::when_used_as_spec(spec_mantissa)]
    pub fn mantissa(&self) -> (m: i128)
        ensures
            m == self.mantissa(),
    {
        self.mantissa
    }

    /// The scale: how many of the amount's digits stand after the point.
    #[verifier::when_used_as_spec(spec_scale)]
    pub fn scale(&self) -> (s: u32)
        ensures
            s == self.scale(),
    {
        self.scale
    }

    /// Whether the amount is below zero.
    pub fn is_sign_negative(&self) -> (r: bool)
        ensures
            r == (self.mantissa() < 0),
            r == (self@ < 0),
    {
        proof {
            lemma_pow10_positive((MAX_SCALE - self.scale) as nat);
            lemma_sign_of_product(self.mantissa as int, pow10((MAX_SCALE - self.scale) as nat));
        }
        self.mantissa < 0
    }

    /// The mantissa at the scale `s`, or `None` where it does not fit in 128
    /// bits.
    fn aligned_to(&self, s: u32) -> (r: Option<i128>)
        requires
            self.scale() <= s <= MAX_SCALE,
        ensures
            match r {
                Some(m) => m == self.aligned(s as nat),
                None => self.aligned(s as nat) < i128::MIN || self.aligned(s as nat) > i128::MAX,
            },
    {
        let p = power_of_ten(s - self.scale);
        self.mantissa.checked_mul(p)
    }

    /// Both mantissas at the common scale, or `None` where one of them does
    /// not fit in 128 bits. One of the two is at the common scale already, so
    /// where the other does not fit, neither their sum nor their difference
    /// has 96 bits.
    fn aligned_with(&self, other: &Amount) -> (r: Option<(i128, i128)>)
        ensures
            match r {
                Some((x, y)) => {
                    &&& x == self.aligned(common_scale(*self, *other))
                    &&& y == other.aligned(common_scale(*self, *other))
                },
                None => {
                    let s = common_scale(*self, *other);
                    &&& !mantissa_in_range(self.aligned(s) + other.aligned(s))
                    &&& !mantissa_in_range(self.aligned(s) - other.aligned(s))
                },
            },
    {
        proof {
            use_type_invariant(self);
            use_type_invariant(other);
        }
        let s = if self.scale >= other.scale {
            self.scale
        } else {
            other.scale
        };
        match (self.aligned_to(s), other.aligned_to(s)) {
            (Some(x), Some(y)) => Some((x, y)),
            _ => None,
        }
    }

    /// Whether `self + other` is computed without rounding.
    pub fn can_add(&self, other: &Amount) -> (ok: bool)
        ensures
            ok == sum_fits(*self, *other),
    {
        if self.mantissa == 0 || other.mantissa == 0 {
            return true;
        }
        match self.aligned_with(other) {
            Some((x, y)) => match x.checked_add(y) {
                Some(sum) => -MAX_MANTISSA <= sum && sum <= MAX_MANTISSA,
                None => false,
            },
            None => false,
        }
    }

    /// Whether `self - other` is computed without rounding.
    pub fn can_sub(&self, other: &Amount) -> (ok: bool)
        ensures
            ok == difference_fits(*self, *other),
    {
        if self.mantissa == 0 || other.mantissa == 0 {
            return true;
        }
        match self.aligned_with(other) {
            Some((x, y)) => match x.checked_sub(y) {
                Some(difference) => -MAX_MANTISSA <= difference && difference <= MAX_MANTISSA,
                None => false,
            },
            None => false,
        }
    }

    /// `self + other`, exact.
    pub fn plus(self, other: Amount) -> (sum: Amount)
        requires
            sum_fits(self, other),
        ensures
            sum@ == self@ + other@,
            is_sum(sum, self, other),
    {
        proof {
            use_type_invariant(self);
            use_type_invariant(other);
        }
        let sum = decimal_add(self, other);
        proof {
            lemma_sum_value(sum, self, other);
        }
        sum
    }

    /// `self - other`, exact.
    pub fn minus(self, other: Amount) -> (difference: Amount)
        requires
            difference_fits(self, other),
        ensures
            difference@ == self@ - other@,
            is_difference(difference, self, other),
    {
        proof {
            use_type_invariant(self);
            use_type_invariant(other);
        }
        let difference = decimal_sub(self, other);
        proof {
            lemma_difference_value(difference, self, other);
        }
        difference
    }

    /// `self + other`, exact, or `None` where the sum is not computed without
    /// rounding.
    pub fn checked_add(self, other: Amount) -> (r: Option<Amount>)
        ensures
            r is Some <==> sum_fits(self, other),
            r matches Some(sum) ==> sum@ == self@ + other@ && is_sum(sum, self, other),
    {
        if self.can_add(&other) {
            Some(self.plus(other))
        } else {
            None
        }
    }

    /// `self - other`, exact, or `None` where the difference is not computed
    /// without rounding.
    pub fn checked_sub(self, other: Amount) -> (r: Option<Amount>)
        ensures
            r is Some <==> difference_fits(self, other),
            r matches Some(difference) ==> difference@ == self@ - other@ && is_difference(
                difference,
                self,
                other,
            ),
    {
        if self.can_sub(&other) {
            Some(self.minus(other))
        } else {
            None
        }
    }

    /// Whether the amount can be written as text: whether fewer than 28
    /// digits stand before its point.
    pub open spec fn printable(&self) -> bool {
        self.scale() >= 2 || -pow10((27 + self.scale()) as nat) < self.mantissa() < pow10(
            (27 + self.scale()) as nat,
        )
    }

    /// The amount as text, with four digits after the point: `1.5` reads
    /// `1.5000`. It is `None` where 28 digits or more stand before the point,
    /// which `rust_decimal` cannot write.
    pub fn to_text(&self) -> (text: Option<String>)
        ensures
            text is Some <==> self.printable(),
            text matches Some(t) ==> {
                &&& t@ == four_digit_text(self.mantissa() as int, self.scale() as int)
                &&& ends_in_four_digits(t@)
            },
    {
        proof {
            use_type_invariant(self);
        }
        if self.scale >= 2 {
            return Some(decimal_text(self));
        }
        let limit = power_of_ten(27 + self.scale);
        if -limit < self.mantissa && self.mantissa < limit {
            Some(decimal_text(self))
        } else {
            None
        }
    }

    /// Whether `self` is at least `other`, by value: `1.50` is at least `1.5`.
    pub fn ge(&self, other: &Amount) -> (r: bool)
        ensures
            r == (self@ >= other@),
    {
        proof {
            use_type_invariant(self);
            use_type_invariant(other);
        }
        decimal_ge(self, other)
    }
}

/// `==` on amounts is equality of values: `1.50 == 1.5`.
impl PartialEq for Amount {
    fn eq(&self, other: &Amount) -> (r: bool) {
        self.ge(other) && other.ge(self)
    }
}

impl vstd::std_specs::cmp::PartialEqSpecImpl for Amount {
    open spec fn obeys_eq_spec() -> bool {
        true
    }

    open spec fn eq_spec(&self, other: &Amount) -> bool {
        self@ == other@
    }
}

/// Whether `amount` is written with at most four digits after the point.
///
/// This looks at the digits as they are written, not at the value: `1.50000`
/// has five and is refused although it equals `1.5`.
pub fn has_valid_precision(amount: &Amount) -> (r: bool)
    ensures
        r == (amount.scale() <= MAX_LEDGER_SCALE),
{
    amount.scale() <= MAX_LEDGER_SCALE
}

/// `10^n` as a machine integer.
fn power_of_ten(n: u32) -> (p: i128)
    requires
        n <= MAX_SCALE,
    ensures
        p == pow10(n as nat),
        p > 0,
{
    let mut p: i128 = 1;
    let mut i: u32 = 0;
    while i < n
        invariant
            i <= n <= MAX_SCALE,
            p == pow10(i as nat),
            p > 0,
        decreases n - i,
    {
        proof {
            lemma_pow10_step(i as nat);
            lemma_pow10_positive((i + 1) as nat);
        }
        p = p * 10;
        i = i + 1;
    }
    p
}

/// Adds two amounts with `rust_decimal`: `Decimal`'s `+`.
///
/// Trusted, of `rust_decimal` 1.43: where one operand is zero, `+` returns
/// the other as it is written. Where the sum of the two mantissas, taken at
/// the larger of the two scales, fits in 96 bits, it returns that sum at that
/// scale. It neither rounds nor overflows on such operands.
#[verifier::external_body]
fn decimal_add(a: Amount, b: Amount) -> (r: Amount)
    requires
        a.wf(),
        b.wf(),
        sum_fits(a, b),
    ensures
        r.wf(),
        is_sum(r, a, b),
{
    let x = Decimal::from_i128_with_scale(a.mantissa, a.scale);
    let y = Decimal::from_i128_with_scale(b.mantissa, b.scale);
    let d = x + y;
    Amount { mantissa: d.mantissa(), scale: d.scale() }
}

/// Subtracts two amounts with `rust_decimal`: `Decimal`'s `-`.
///
/// Trusted, of `rust_decimal` 1.43: `x - 0` is `x` as it is written, and
/// `0 - y` is `y` with its sign turned. Where the difference of the two
/// mantissas, taken at the larger of the two scales, fits in 96 bits, `-`
/// returns that difference at that scale. It neither rounds nor overflows on
/// such operands.
#[verifier::external_body]
fn decimal_sub(a: Amount, b: Amount) -> (r: Amount)
    requires
        a.wf(),
        b.wf(),
        difference_fits(a, b),
    ensures
        r.wf(),
        is_difference(r, a, b),
{
    let x = Decimal::from_i128_with_scale(a.mantissa, a.scale);
    let y = Decimal::from_i128_with_scale(b.mantissa, b.scale);
    let d = x - y;
    Amount { mantissa: d.mantissa(), scale: d.scale() }
}

/// Compares two amounts with `rust_decimal`: `Decimal`'s `>=`.
///
/// Trusted: `Decimal` orders by value, whatever the scales of the operands.
#[verifier::external_body]
fn decimal_ge(a: &Amount, b: &Amount) -> (r: bool)
    requires
        a.wf(),
        b.wf(),
    ensures
        r == (a@ >= b@),
{
    let x = Decimal::from_i128_with_scale(a.mantissa, a.scale);
    let y = Decimal::from_i128_with_scale(b.mantissa, b.scale);
    x >= y
}

/// Writes an amount with `rust_decimal`: `Decimal`'s `Display`, asked for
/// four digits after the point.
///
/// Trusted: the text depends on the mantissa and the scale alone, and it ends
/// in a point and four digits, with something before the point. Nothing more
/// is claimed of what it is. `rust_decimal` 1.43 writes into a buffer of 32
/// characters, which an amount with 28 digits or more before the point
/// overruns: such an amount is not passed.
#[verifier::external_body]
fn decimal_text(a: &Amount) -> (text: String)
    requires
        a.wf(),
        a.printable(),
    ensures
        text@ == four_digit_text(a.mantissa() as int, a.scale() as int),
        ends_in_four_digits(text@),
{
    let d = Decimal::from_i128_with_scale(a.mantissa, a.scale);
    format!("{:.4}", d)
}

/// Each power of ten is ten times the one before.
pub proof fn lemma_pow10_step(n: nat)
    requires
        n < MAX_SCALE,
    ensures
        pow10(n + 1) == 10 * pow10(n),
{
}

/// Powers of ten multiply as their exponents add.
pub proof fn lemma_pow10_adds(m: nat, n: nat)
    requires
        m + n <= MAX_SCALE,
    ensures
        pow10(m + n) == pow10(m) * pow10(n),
    decreases m,
{
    if m > 0 {
        lemma_pow10_adds((m - 1) as nat, n);
        lemma_pow10_step((m - 1) as nat);
        lemma_pow10_step((m - 1 + n) as nat);
        assert(10 * (pow10((m - 1) as nat) * pow10(n)) == (10 * pow10((m - 1) as nat)) * pow10(n))
            by (nonlinear_arith);
    }
}

/// An amount written at a larger scale keeps its value.
pub proof fn lemma_aligned_value(a: Amount, s: nat)
    requires
        a.scale() <= s <= MAX_SCALE,
    ensures
        a.aligned(s) * pow10((MAX_SCALE - s) as nat) == a@,
{
    let up = (s - a.scale()) as nat;
    let rest = (MAX_SCALE - s) as nat;
    lemma_pow10_adds(up, rest);
    assert((a.mantissa() * pow10(up)) * pow10(rest) == a.mantissa() * (pow10(up) * pow10(rest)))
        by (nonlinear_arith);
}

/// What is written as the sum has the value of the sum.
pub proof fn lemma_sum_value(sum: Amount, a: Amount, b: Amount)
    requires
        a.wf(),
        b.wf(),
        is_sum(sum, a, b),
    ensures
        sum@ == a@ + b@,
{
    if a.mantissa() == 0 {
        assert(a@ == 0) by (nonlinear_arith)
            requires
                a.mantissa() == 0,
                a@ == a.mantissa() * pow10((MAX_SCALE - a.scale()) as nat),
        ;
    } else if b.mantissa() == 0 {
        assert(b@ == 0) by (nonlinear_arith)
            requires
                b.mantissa() == 0,
                b@ == b.mantissa() * pow10((MAX_SCALE - b.scale()) as nat),
        ;
    } else {
        let s = common_scale(a, b);
        let rest = pow10((MAX_SCALE - s) as nat);
        lemma_aligned_value(a, s);
        lemma_aligned_value(b, s);
        assert((a.aligned(s) + b.aligned(s)) * rest == a.aligned(s) * rest + b.aligned(s) * rest)
            by (nonlinear_arith);
    }
}

/// What is written as the difference has the value of the difference.
pub proof fn lemma_difference_value(difference: Amount, a: Amount, b: Amount)
    requires
        a.wf(),
        b.wf(),
        is_difference(difference, a, b),
    ensures
        difference@ == a@ - b@,
{
    if a.mantissa() == 0 {
        let rest = pow10((MAX_SCALE - b.scale()) as nat);
        assert((-b.mantissa()) * rest == -(b.mantissa() * rest)) by (nonlinear_arith);
        assert(a@ == 0) by (nonlinear_arith)
            requires
                a.mantissa() == 0,
                a@ == a.mantissa() * pow10((MAX_SCALE - a.scale()) as nat),
        ;
    } else if b.mantissa() == 0 {
        assert(b@ == 0) by (nonlinear_arith)
            requires
                b.mantissa() == 0,
                b@ == b.mantissa() * pow10((MAX_SCALE - b.scale()) as nat),
        ;
    } else {
        let s = common_scale(a, b);
        let rest = pow10((MAX_SCALE - s) as nat);
        lemma_aligned_value(a, s);
        lemma_aligned_value(b, s);
        assert((a.aligned(s) - b.aligned(s)) * rest == a.aligned(s) * rest - b.aligned(s) * rest)
            by (nonlinear_arith);
    }
}

/// Every power of ten is positive, and none is above `10^28`.
pub proof fn lemma_pow10_positive(n: nat)
    ensures
        0 < pow10(n) <= 10_000_000_000_000_000_000_000_000_000,
{
}

/// A product with a positive factor has the sign of the other factor.
proof fn lemma_sign_of_product(m: int, p: int)
    requires
        p > 0,
    ensures
        (m * p < 0) == (m < 0),
        (m * p == 0) == (m == 0),
{
    assert((m * p < 0) == (m < 0) && (m * p == 0) == (m == 0)) by (nonlinear_arith)
        requires
            p > 0,
    ;
}

} // verus!
