//! The library's decimal number: a 96-bit signed mantissa with a scale of at
//! most 28 digits, so that a value is `mantissa / 10^scale`.
//!
//! Arithmetic, comparison and the transcendental operations are done by
//! `rust_decimal`; the results are brought back as mantissa and scale.
//! Representations matter to the arithmetic (`1.0 + 1` and `1 + 1` differ in
//! scale), so the results of the outside operations are named over the pair
//! `(mantissa, scale)`, and the value of a pair is `units`, counted in
//! steps of `10^-28`.

use rust_decimal::prelude::MathematicalOps;
use crate::error::{MMError, MMResult};
use vstd::prelude::*;

verus! {

/// The largest number of fractional digits.
pub const MAX_SCALE: u32 = 28;

/// The largest magnitude of a mantissa: `2^96 - 1`.
pub const MAX_MANTISSA: i128 = 79228162514264337593543950335;

/// `10^n`.
pub open spec fn pow10(n: nat) -> int
    decreases n,
{
    if n == 0 {
        1
    } else {
        10 * pow10((n - 1) as nat)
    }
}

/// A pair `(mantissa, scale)` that the decimal type can hold.
pub open spec fn is_repr(v: (int, nat)) -> bool {
    &&& v.1 <= MAX_SCALE
    &&& -MAX_MANTISSA <= v.0 <= MAX_MANTISSA
}

/// The value of a representation, as a whole number of `10^-28`.
pub open spec fn units(v: (int, nat)) -> int {
    v.0 * pow10((MAX_SCALE - v.1) as nat)
}

/// The representation of zero that `rust_decimal` produces.
pub open spec fn zero_repr() -> (int, nat) {
    (0, 0)
}

/// The product of the mantissas fits in 96 bits and the scales add up to at
/// most 28: `rust_decimal` multiplies such non-zero operands without rounding.
pub open spec fn exact_product(a: (int, nat), b: (int, nat)) -> bool {
    &&& a.1 + b.1 <= MAX_SCALE
    &&& -MAX_MANTISSA <= a.0 * b.0 <= MAX_MANTISSA
}

/// The mantissas of `a` and `b` brought to the larger of their scales.
pub open spec fn aligned(a: (int, nat), b: (int, nat)) -> (int, int, nat) {
    if a.1 >= b.1 {
        (a.0, b.0 * pow10((a.1 - b.1) as nat), a.1)
    } else {
        (a.0 * pow10((b.1 - a.1) as nat), b.0, b.1)
    }
}

pub open spec fn fits_mantissa(m: int) -> bool {
    -MAX_MANTISSA <= m <= MAX_MANTISSA
}

/// Both operands, brought to the larger scale, and `sum`, fit in 96 bits.
pub open spec fn exact_alignment(a: (int, nat), b: (int, nat), sum: int) -> bool {
    let (x, y, s) = aligned(a, b);
    fits_mantissa(x) && fits_mantissa(y) && fits_mantissa(sum)
}

/// What `rust_decimal::Decimal::checked_add` returns on two representations.
pub uninterp spec fn sum_of(a: (int, nat), b: (int, nat)) -> Option<(int, nat)>;

/// What `rust_decimal::Decimal::checked_sub` returns on two representations.
pub uninterp spec fn difference_of(a: (int, nat), b: (int, nat)) -> Option<(int, nat)>;

/// What `rust_decimal::Decimal::checked_mul` returns on two representations.
pub uninterp spec fn product_of(a: (int, nat), b: (int, nat)) -> Option<(int, nat)>;

/// What `rust_decimal::Decimal::checked_div` returns on two representations.
pub uninterp spec fn quotient_of(a: (int, nat), b: (int, nat)) -> Option<(int, nat)>;

/// What `MathematicalOps::checked_ln` of `rust_decimal` returns.
pub uninterp spec fn ln_of(a: (int, nat)) -> Option<(int, nat)>;

/// What `MathematicalOps::checked_powd` of `rust_decimal` returns.
pub uninterp spec fn power_of(a: (int, nat), e: (int, nat)) -> Option<(int, nat)>;

/// What `rust_decimal::Decimal::round_sf` returns for `digits` significant
/// digits.
pub uninterp spec fn rounded_sf_of(a: (int, nat), digits: int) -> Option<(int, nat)>;

/// The significant digits a square root keeps: the precision of a double.
pub const ROOT_DIGITS: u32 = 16;

/// The square root as this library computes it: missing for a negative
/// value, zero for zero, else `a` raised to the power `0.5` and rounded to
/// `ROOT_DIGITS` significant digits.
pub open spec fn square_root(a: (int, nat)) -> Option<(int, nat)> {
    if units(a) < 0 {
        None
    } else if units(a) == 0 {
        Some(zero_repr())
    } else {
        match power_of(a, (5int, 1nat)) {
            Some(p) => rounded_sf_of(p, ROOT_DIGITS as int),
            None => None,
        }
    }
}

/// What `MathematicalOps::checked_powi` of `rust_decimal` returns.
pub uninterp spec fn powi_of(a: (int, nat), n: int) -> Option<(int, nat)>;

/// The character of a decimal digit.
pub open spec fn digit_char(d: int) -> char {
    seq!['0', '1', '2', '3', '4', '5', '6', '7', '8', '9'][d]
}

/// The decimal digits of `n`, most significant first; none for zero.
pub open spec fn digits(n: nat) -> Seq<char>
    decreases n,
{
    if n == 0 {
        Seq::empty()
    } else {
        digits(n / 10).push(digit_char((n % 10) as int))
    }
}

/// `d` with zeros in front, up to `len` characters.
pub open spec fn pad_zeros(d: Seq<char>, len: nat) -> Seq<char> {
    if d.len() >= len {
        d
    } else {
        Seq::new((len - d.len()) as nat, |i: int| '0') + d
    }
}

/// How `Display` of `rust_decimal::Decimal` writes a representation: the
/// digits of the mantissa, with a point `scale` digits from the right, a
/// `0` before a point with nothing in front of it, and a leading `-` for a
/// negative value.
pub open spec fn decimal_text(a: (int, nat)) -> Seq<char> {
    let d = pad_zeros(digits(if a.0 < 0 { (-a.0) as nat } else { a.0 as nat }), a.1);
    let whole = (d.len() - a.1) as int;
    let body = if a.1 == 0 {
        if d.len() == 0 {
            seq!['0']
        } else {
            d
        }
    } else {
        (if whole == 0 {
            seq!['0']
        } else {
            d.take(whole)
        }) + seq!['.'] + d.skip(whole)
    };
    if a.0 < 0 {
        seq!['-'] + body
    } else {
        body
    }
}

/// A fixed-point decimal number.
#[derive(Clone, Copy, Debug)]
pub struct Decimal {
    mantissa: i128,
    scale: u32,
}

impl View for Decimal {
    type V = (int, nat);

    closed spec fn view(&self) -> (int, nat) {
        (self.mantissa as int, self.scale as nat)
    }
}

/// The representations of a sequence of decimals.
pub open spec fn reprs(s: Seq<Decimal>) -> Seq<(int, nat)> {
    s.map_values(|d: Decimal| d@)
}

// The outside operations lifted to possibly missing operands: a missing
// operand, like an overflow, leaves the result missing.

pub open spec fn add_opt(a: Option<(int, nat)>, b: Option<(int, nat)>) -> Option<(int, nat)> {
    match (a, b) {
        (Some(x), Some(y)) => sum_of(x, y),
        _ => None,
    }
}

pub open spec fn sub_opt(a: Option<(int, nat)>, b: Option<(int, nat)>) -> Option<(int, nat)> {
    match (a, b) {
        (Some(x), Some(y)) => difference_of(x, y),
        _ => None,
    }
}

pub open spec fn mul_opt(a: Option<(int, nat)>, b: Option<(int, nat)>) -> Option<(int, nat)> {
    match (a, b) {
        (Some(x), Some(y)) => product_of(x, y),
        _ => None,
    }
}

pub open spec fn div_opt(a: Option<(int, nat)>, b: Option<(int, nat)>) -> Option<(int, nat)> {
    match (a, b) {
        (Some(x), Some(y)) => quotient_of(x, y),
        _ => None,
    }
}

pub open spec fn ln_opt(a: Option<(int, nat)>) -> Option<(int, nat)> {
    match a {
        Some(x) => ln_of(x),
        None => None,
    }
}

pub open spec fn sqrt_opt(a: Option<(int, nat)>) -> Option<(int, nat)> {
    match a {
        Some(x) => square_root(x),
        None => None,
    }
}

/// `r` is the value `v` names, or a numerical error where `v` is `None`.
pub open spec fn numeric_outcome(r: MMResult<Decimal>, v: Option<(int, nat)>) -> bool {
    match v {
        Some(x) => r is Ok && r->Ok_0@ == x,
        None => r is Err && r->Err_0 is NumericalError,
    }
}

/// The representation of an optional decimal.
pub open spec fn opt_view(r: Option<Decimal>) -> Option<(int, nat)> {
    match r {
        Some(d) => Some(d@),
        None => None,
    }
}

proof fn lemma_pow10_pos(n: nat)
    ensures
        pow10(n) >= 1,
    decreases n,
{
    if n > 0 {
        lemma_pow10_pos((n - 1) as nat);
    }
}

/// The sign of a value is the sign of its mantissa.
pub proof fn lemma_units_sign(v: (int, nat))
    ensures
        (units(v) > 0) == (v.0 > 0),
        (units(v) < 0) == (v.0 < 0),
        (units(v) == 0) == (v.0 == 0),
{
    let p = pow10((MAX_SCALE - v.1) as nat);
    lemma_pow10_pos((MAX_SCALE - v.1) as nat);
    assert(v.0 > 0 ==> v.0 * p > 0) by (nonlinear_arith)
        requires
            p >= 1,
    ;
    assert(v.0 < 0 ==> v.0 * p < 0) by (nonlinear_arith)
        requires
            p >= 1,
    ;
}

/// Flipping the mantissa's sign flips the value's.
pub proof fn lemma_units_neg(v: (int, nat))
    ensures
        units((-v.0, v.1)) == -units(v),
{
    let p = pow10((MAX_SCALE - v.1) as nat);
    assert((-v.0) * p == -(v.0 * p)) by (nonlinear_arith);
}

impl Decimal {
    #[verifier::type_invariant]
    spec fn well_formed(self) -> bool {
        is_repr(self@)
    }

    /// `num / 10^scale`.
    pub fn new(num: i64, scale: u32) -> (r: Decimal)
        requires
            scale <= MAX_SCALE,
        ensures
            r@ == (num as int, scale as nat),
    {
        Decimal { mantissa: num as i128, scale }
    }

    /// `num / 10^scale`, or `None` where the pair is out of range.
    pub fn try_from_i128_with_scale(num: i128, scale: u32) -> (r: Option<Decimal>)
        ensures
            r is Some <==> is_repr((num as int, scale as nat)),
            r matches Some(d) ==> d@ == (num as int, scale as nat),
    {
        if scale <= MAX_SCALE && -MAX_MANTISSA <= num && num <= MAX_MANTISSA {
            Some(Decimal { mantissa: num, scale })
        } else {
            None
        }
    }

    pub fn zero() -> (r: Decimal)
        ensures
            r@ == zero_repr(),
    {
        Decimal { mantissa: 0, scale: 0 }
    }

    pub fn one() -> (r: Decimal)
        ensures
            r@ == (1int, 0nat),
    {
        Decimal { mantissa: 1, scale: 0 }
    }

    pub fn two() -> (r: Decimal)
        ensures
            r@ == (2int, 0nat),
    {
        Decimal { mantissa: 2, scale: 0 }
    }

    pub fn from_u64(n: u64) -> (r: Decimal)
        ensures
            r@ == (n as int, 0nat),
    {
        Decimal { mantissa: n as i128, scale: 0 }
    }

    pub fn from_usize(n: usize) -> (r: Decimal)
        ensures
            r@ == (n as int, 0nat),
    {
        Decimal { mantissa: n as i128, scale: 0 }
    }

    pub fn mantissa(&self) -> (r: i128)
        ensures
            r as int == self@.0,
    {
        self.mantissa
    }

    pub fn scale(&self) -> (r: u32)
        ensures
            r as nat == self@.1,
    {
        self.scale
    }

    pub fn is_zero(&self) -> (r: bool)
        ensures
            r == (units(self@) == 0),
    {
        proof {
            lemma_units_sign(self@);
        }
        self.mantissa == 0
    }

    /// Strictly greater than zero.
    pub fn is_positive(&self) -> (r: bool)
        ensures
            r == (units(self@) > 0),
    {
        proof {
            lemma_units_sign(self@);
        }
        self.mantissa > 0
    }

    /// Strictly less than zero.
    pub fn is_negative(&self) -> (r: bool)
        ensures
            r == (units(self@) < 0),
    {
        proof {
            lemma_units_sign(self@);
        }
        self.mantissa < 0
    }
}


/// Relies on `rust_decimal::Decimal::checked_add`; `x + 0` gives `x` back
/// and `0 + x` gives `x` back; non-zero operands whose mantissas, brought
/// to the larger scale, and their sum fit in 96 bits are added without
/// rounding at that scale (ops/add.rs).
#[verifier::external_body]
fn ext_add(a: Decimal, b: Decimal) -> (r: Option<Decimal>)
    ensures
        opt_view(r) == sum_of(a@, b@),
        units(a@) == 0 ==> opt_view(r) == Some(b@),
        units(a@) != 0 && units(b@) == 0 ==> opt_view(r) == Some(a@),
        units(a@) != 0 && units(b@) != 0 && exact_alignment(a@, b@, aligned(a@, b@).0 + aligned(a@, b@).1)
            ==> opt_view(r) == Some((aligned(a@, b@).0 + aligned(a@, b@).1, aligned(a@, b@).2)),
{
    let x = rust_decimal::Decimal::from_i128_with_scale(a.mantissa, a.scale);
    let y = rust_decimal::Decimal::from_i128_with_scale(b.mantissa, b.scale);
    match x.checked_add(y) {
        Some(z) => Some(Decimal { mantissa: z.mantissa(), scale: z.scale() }),
        None => None,
    }
}

/// Relies on `rust_decimal::Decimal::checked_sub`; `x - 0` gives `x` back
/// and `0 - x` gives `x` with its sign flipped; non-zero operands whose
/// mantissas, brought to the larger scale, and their difference fit in 96
/// bits are subtracted without rounding at that scale (ops/add.rs).
#[verifier::external_body]
fn ext_sub(a: Decimal, b: Decimal) -> (r: Option<Decimal>)
    ensures
        opt_view(r) == difference_of(a@, b@),
        units(a@) == 0 ==> opt_view(r) == Some((-b@.0, b@.1)),
        units(a@) != 0 && units(b@) == 0 ==> opt_view(r) == Some(a@),
        units(a@) != 0 && units(b@) != 0 && exact_alignment(a@, b@, aligned(a@, b@).0 - aligned(a@, b@).1)
            ==> opt_view(r) == Some((aligned(a@, b@).0 - aligned(a@, b@).1, aligned(a@, b@).2)),
{
    let x = rust_decimal::Decimal::from_i128_with_scale(a.mantissa, a.scale);
    let y = rust_decimal::Decimal::from_i128_with_scale(b.mantissa, b.scale);
    match x.checked_sub(y) {
        Some(z) => Some(Decimal { mantissa: z.mantissa(), scale: z.scale() }),
        None => None,
    }
}

/// Relies on `rust_decimal::Decimal::checked_mul`: a zero operand gives
/// `Decimal::ZERO`; for non-zero operands whose mantissa product fits in 96
/// bits and whose scales add up to at most 28, the product is returned
/// unrounded (ops/mul.rs).
#[verifier::external_body]
fn ext_mul(a: Decimal, b: Decimal) -> (r: Option<Decimal>)
    ensures
        opt_view(r) == product_of(a@, b@),
        units(a@) == 0 || units(b@) == 0 ==> opt_view(r) == Some(zero_repr()),
        units(a@) != 0 && units(b@) != 0 && exact_product(a@, b@) ==> opt_view(r) == Some(
            (a@.0 * b@.0, a@.1 + b@.1),
        ),
{
    let x = rust_decimal::Decimal::from_i128_with_scale(a.mantissa, a.scale);
    let y = rust_decimal::Decimal::from_i128_with_scale(b.mantissa, b.scale);
    match x.checked_mul(y) {
        Some(z) => Some(Decimal { mantissa: z.mantissa(), scale: z.scale() }),
        None => None,
    }
}

/// Relies on `rust_decimal::Decimal::checked_div`: `None` for a zero divisor,
/// `Decimal::ZERO` for a zero dividend (ops/div.rs).
#[verifier::external_body]
fn ext_div(a: Decimal, b: Decimal) -> (r: Option<Decimal>)
    ensures
        opt_view(r) == quotient_of(a@, b@),
        units(b@) == 0 ==> r is None,
        units(a@) == 0 && units(b@) != 0 ==> opt_view(r) == Some(zero_repr()),
{
    let x = rust_decimal::Decimal::from_i128_with_scale(a.mantissa, a.scale);
    let y = rust_decimal::Decimal::from_i128_with_scale(b.mantissa, b.scale);
    match x.checked_div(y) {
        Some(z) => Some(Decimal { mantissa: z.mantissa(), scale: z.scale() }),
        None => None,
    }
}

/// Relies on `Ord::cmp` of `rust_decimal::Decimal`, which orders by value.
#[verifier::external_body]
fn ext_cmp(a: Decimal, b: Decimal) -> (r: core::cmp::Ordering)
    ensures
        (r == core::cmp::Ordering::Less) == (units(a@) < units(b@)),
        (r == core::cmp::Ordering::Equal) == (units(a@) == units(b@)),
        (r == core::cmp::Ordering::Greater) == (units(a@) > units(b@)),
{
    let x = rust_decimal::Decimal::from_i128_with_scale(a.mantissa, a.scale);
    let y = rust_decimal::Decimal::from_i128_with_scale(b.mantissa, b.scale);
    x.cmp(&y)
}

/// Relies on `MathematicalOps::checked_ln` of `rust_decimal`: `None` exactly
/// for zero and negative values, zero for a value equal to one (ops/wide.rs,
/// `ln_wide`). For a positive value every checked step of `ln_wide` works
/// on bounded magnitudes: the reduced argument lies in (e^-1, 1], the series
/// terms shrink, and `k * ln 10` has `|k| <= 28`; none of them overflows.
#[verifier::external_body]
fn ext_ln(a: Decimal) -> (r: Option<Decimal>)
    ensures
        opt_view(r) == ln_of(a@),
        r is None <==> units(a@) <= 0,
        units(a@) == pow10(MAX_SCALE as nat) ==> opt_view(r) == Some(zero_repr()),
{
    let x = rust_decimal::Decimal::from_i128_with_scale(a.mantissa, a.scale);
    match x.checked_ln() {
        Some(z) => Some(Decimal { mantissa: z.mantissa(), scale: z.scale() }),
        None => None,
    }
}

/// Relies on `MathematicalOps::checked_powd` of `rust_decimal` (maths.rs).
/// For a positive base and an exponent that is neither zero, one nor a
/// whole number it computes `exp(e * ln(a))` with `ln()`, which panics only
/// where `checked_ln` fails, hence never for a positive base (see `ext_ln`),
/// then `checked_mul` and `checked_exp` (ops/wide.rs `exp_wide`), which do
/// not panic. The `requires` keeps the base positive.
#[verifier::external_body]
fn ext_powd(a: Decimal, e: Decimal) -> (r: Option<Decimal>)
    requires
        units(a@) > 0,
    ensures
        opt_view(r) == power_of(a@, e@),
{
    let x = rust_decimal::Decimal::from_i128_with_scale(a.mantissa, a.scale);
    let y = rust_decimal::Decimal::from_i128_with_scale(e.mantissa, e.scale);
    match x.checked_powd(y) {
        Some(z) => Some(Decimal { mantissa: z.mantissa(), scale: z.scale() }),
        None => None,
    }
}

/// Relies on `rust_decimal::Decimal::round_sf` (decimal.rs,
/// `round_sf_with_strategy`, half to even): every step there is checked, and
/// a zero value gives `Decimal::ZERO`.
#[verifier::external_body]
fn ext_round_sf(a: Decimal, digits: u32) -> (r: Option<Decimal>)
    ensures
        opt_view(r) == rounded_sf_of(a@, digits as int),
        units(a@) == 0 ==> opt_view(r) == Some(zero_repr()),
{
    let x = rust_decimal::Decimal::from_i128_with_scale(a.mantissa, a.scale);
    match x.round_sf(digits) {
        Some(z) => Some(Decimal { mantissa: z.mantissa(), scale: z.scale() }),
        None => None,
    }
}

/// Relies on `MathematicalOps::checked_powi` of `rust_decimal`: exponent 0
/// gives `Decimal::ONE`; exponent 2 gives `checked_mul(a, a)`, except for a
/// value equal to one, which gives `Decimal::ONE` (maths.rs, ops/wide.rs
/// `powu_wide`).
#[verifier::external_body]
fn ext_powi(a: Decimal, n: i64) -> (r: Option<Decimal>)
    ensures
        opt_view(r) == powi_of(a@, n as int),
        n == 0 ==> opt_view(r) == Some((1int, 0nat)),
        n == 2 && units(a@) != pow10(MAX_SCALE as nat) ==> opt_view(r) == product_of(a@, a@),
{
    let x = rust_decimal::Decimal::from_i128_with_scale(a.mantissa, a.scale);
    match x.checked_powi(n) {
        Some(z) => Some(Decimal { mantissa: z.mantissa(), scale: z.scale() }),
        None => None,
    }
}

/// The error reported where an arithmetic step leaves the decimal range.
pub fn numerical_error() -> (e: MMError)
    ensures
        e is NumericalError,
{
    MMError::NumericalError("decimal arithmetic overflowed".to_string())
}

/// `a + b`, with overflow reported as a numerical error.
pub fn dec_add(a: Decimal, b: Decimal) -> (r: MMResult<Decimal>)
    ensures
        numeric_outcome(r, sum_of(a@, b@)),
        units(a@) == 0 ==> r is Ok && r->Ok_0@ == b@,
        units(a@) != 0 && units(b@) == 0 ==> r is Ok && r->Ok_0@ == a@,
        units(a@) != 0 && units(b@) != 0 && exact_alignment(a@, b@, aligned(a@, b@).0 + aligned(a@, b@).1)
            ==> r is Ok && r->Ok_0@ == (aligned(a@, b@).0 + aligned(a@, b@).1, aligned(a@, b@).2),
{
    match ext_add(a, b) {
        Some(v) => Ok(v),
        None => Err(numerical_error()),
    }
}

/// `a - b`, with overflow reported as a numerical error.
pub fn dec_sub(a: Decimal, b: Decimal) -> (r: MMResult<Decimal>)
    ensures
        numeric_outcome(r, difference_of(a@, b@)),
        units(a@) == 0 ==> r is Ok && r->Ok_0@ == (-b@.0, b@.1),
        units(a@) != 0 && units(b@) == 0 ==> r is Ok && r->Ok_0@ == a@,
        units(a@) != 0 && units(b@) != 0 && exact_alignment(a@, b@, aligned(a@, b@).0 - aligned(a@, b@).1)
            ==> r is Ok && r->Ok_0@ == (aligned(a@, b@).0 - aligned(a@, b@).1, aligned(a@, b@).2),
{
    match ext_sub(a, b) {
        Some(v) => Ok(v),
        None => Err(numerical_error()),
    }
}

/// `a * b`, with overflow reported as a numerical error.
pub fn dec_mul(a: Decimal, b: Decimal) -> (r: MMResult<Decimal>)
    ensures
        numeric_outcome(r, product_of(a@, b@)),
        units(a@) == 0 || units(b@) == 0 ==> r is Ok && r->Ok_0@ == zero_repr(),
        units(a@) != 0 && units(b@) != 0 && exact_product(a@, b@) ==> r is Ok && r->Ok_0@ == (
            a@.0 * b@.0,
            a@.1 + b@.1,
        ),
{
    match ext_mul(a, b) {
        Some(v) => Ok(v),
        None => Err(numerical_error()),
    }
}

/// `a / b`, with overflow or a zero divisor reported as a numerical error.
pub fn dec_div(a: Decimal, b: Decimal) -> (r: MMResult<Decimal>)
    ensures
        numeric_outcome(r, quotient_of(a@, b@)),
        units(b@) == 0 ==> r is Err,
        units(a@) == 0 && units(b@) != 0 ==> r is Ok && r->Ok_0@ == zero_repr(),
{
    match ext_div(a, b) {
        Some(v) => Ok(v),
        None => Err(numerical_error()),
    }
}

/// Natural logarithm; fails with `NumericalError` for a non-positive value.
pub fn decimal_ln(value: Decimal) -> (r: MMResult<Decimal>)
    ensures
        numeric_outcome(r, ln_of(value@)),
        r is Err <==> units(value@) <= 0,
        units(value@) == pow10(MAX_SCALE as nat) ==> r is Ok && r->Ok_0@ == zero_repr(),
{
    match ext_ln(value) {
        Some(v) => Ok(v),
        None => Err(MMError::NumericalError("decimal_ln: invalid value".to_string())),
    }
}

/// `value` raised to an integer power.
pub fn decimal_powi(value: Decimal, exponent: i32) -> (r: MMResult<Decimal>)
    ensures
        numeric_outcome(r, powi_of(value@, exponent as int)),
        exponent == 0 ==> r is Ok && r->Ok_0@ == (1int, 0nat),
        exponent == 2 && units(value@) != pow10(MAX_SCALE as nat) ==> numeric_outcome(
            r,
            product_of(value@, value@),
        ),
{
    match ext_powi(value, exponent as i64) {
        Some(v) => Ok(v),
        None => Err(MMError::NumericalError("decimal_powi: conversion error".to_string())),
    }
}

/// Square root, as the power `0.5` rounded to the 16 significant digits of
/// a double; fails with `NumericalError` for a negative value.
pub fn decimal_sqrt(value: Decimal) -> (r: MMResult<Decimal>)
    ensures
        numeric_outcome(r, square_root(value@)),
        units(value@) < 0 ==> r is Err,
        units(value@) == 0 ==> r is Ok && r->Ok_0@ == zero_repr(),
{
    if value.is_negative() {
        return Err(MMError::NumericalError("decimal_sqrt: invalid value".to_string()));
    }
    if value.is_zero() {
        return Ok(Decimal::zero());
    }
    let root = match ext_powd(value, Decimal::new(5, 1)) {
        Some(v) => v,
        None => return Err(MMError::NumericalError("decimal_sqrt: conversion error".to_string())),
    };
    match ext_round_sf(root, ROOT_DIGITS) {
        Some(v) => Ok(v),
        None => Err(MMError::NumericalError("decimal_sqrt: conversion error".to_string())),
    }
}

/// Relies on `Display` of `rust_decimal::Decimal` (`to_string`, no
/// precision given; str.rs `to_str_internal`).
#[verifier::external_body]
fn ext_to_string(a: Decimal) -> (r: String)
    ensures
        r@ == decimal_text(a@),
{
    let x = rust_decimal::Decimal::from_i128_with_scale(a.mantissa, a.scale);
    x.to_string()
}

impl Decimal {
    /// The decimal notation of the value, as `rust_decimal` writes it.
    pub fn to_text(&self) -> (r: String)
        ensures
            r@ == decimal_text(self@),
    {
        ext_to_string(*self)
    }

    /// `self + other`, `None` on overflow.
    pub fn checked_add(self, other: Decimal) -> (r: Option<Decimal>)
        ensures
            opt_view(r) == sum_of(self@, other@),
            units(self@) == 0 ==> opt_view(r) == Some(other@),
            units(self@) != 0 && units(other@) == 0 ==> opt_view(r) == Some(self@),
            units(self@) != 0 && units(other@) != 0 && exact_alignment(self@, other@, aligned(self@, other@).0 + aligned(self@, other@).1)
                ==> opt_view(r) == Some((aligned(self@, other@).0 + aligned(self@, other@).1, aligned(self@, other@).2)),
    {
        ext_add(self, other)
    }

    /// `self - other`, `None` on overflow.
    pub fn checked_sub(self, other: Decimal) -> (r: Option<Decimal>)
        ensures
            opt_view(r) == difference_of(self@, other@),
            units(self@) == 0 ==> opt_view(r) == Some((-other@.0, other@.1)),
            units(self@) != 0 && units(other@) == 0 ==> opt_view(r) == Some(self@),
            units(self@) != 0 && units(other@) != 0 && exact_alignment(self@, other@, aligned(self@, other@).0 - aligned(self@, other@).1)
                ==> opt_view(r) == Some((aligned(self@, other@).0 - aligned(self@, other@).1, aligned(self@, other@).2)),
    {
        ext_sub(self, other)
    }

    /// `self * other`, `None` on overflow.
    pub fn checked_mul(self, other: Decimal) -> (r: Option<Decimal>)
        ensures
            opt_view(r) == product_of(self@, other@),
            units(self@) == 0 || units(other@) == 0 ==> opt_view(r) == Some(zero_repr()),
            units(self@) != 0 && units(other@) != 0 && exact_product(self@, other@) ==> opt_view(r)
                == Some((self@.0 * other@.0, self@.1 + other@.1)),
    {
        ext_mul(self, other)
    }

    /// `self / other`, `None` on overflow or a zero divisor.
    pub fn checked_div(self, other: Decimal) -> (r: Option<Decimal>)
        ensures
            opt_view(r) == quotient_of(self@, other@),
            units(other@) == 0 ==> r is None,
            units(self@) == 0 && units(other@) != 0 ==> opt_view(r) == Some(zero_repr()),
    {
        ext_div(self, other)
    }

    /// Compares by value.
    pub fn compare(&self, other: &Decimal) -> (r: core::cmp::Ordering)
        ensures
            (r == core::cmp::Ordering::Less) == (units(self@) < units(other@)),
            (r == core::cmp::Ordering::Equal) == (units(self@) == units(other@)),
            (r == core::cmp::Ordering::Greater) == (units(self@) > units(other@)),
    {
        ext_cmp(*self, *other)
    }

    /// The value with its sign flipped.
    pub fn neg(self) -> (r: Decimal)
        ensures
            r@ == (-self@.0, self@.1),
            units(r@) == -units(self@),
    {
        proof {
            use_type_invariant(self);
            lemma_units_neg(self@);
        }
        Decimal { mantissa: -self.mantissa, scale: self.scale }
    }

    /// The magnitude.
    pub fn abs(self) -> (r: Decimal)
        ensures
            r@.1 == self@.1,
            r@.0 == if self@.0 < 0 { -self@.0 } else { self@.0 },
            units(r@) == if units(self@) < 0 { -units(self@) } else { units(self@) },
    {
        proof {
            use_type_invariant(self);
            lemma_units_sign(self@);
            lemma_units_neg(self@);
        }
        if self.mantissa < 0 {
            Decimal { mantissa: -self.mantissa, scale: self.scale }
        } else {
            self
        }
    }
}

/// Two decimals are equal when their values are: `1.0 == 1`.
impl PartialEq for Decimal {
    fn eq(&self, other: &Decimal) -> (r: bool) {
        match ext_cmp(*self, *other) {
            core::cmp::Ordering::Equal => true,
            _ => false,
        }
    }
}

impl vstd::std_specs::cmp::PartialEqSpecImpl for Decimal {
    open spec fn obeys_eq_spec() -> bool {
        true
    }

    open spec fn eq_spec(&self, other: &Decimal) -> bool {
        units(self@) == units(other@)
    }
}

pub open spec fn order_of(a: int, b: int) -> core::cmp::Ordering {
    if a < b {
        core::cmp::Ordering::Less
    } else if a == b {
        core::cmp::Ordering::Equal
    } else {
        core::cmp::Ordering::Greater
    }
}

/// Decimals are ordered by value.
impl PartialOrd for Decimal {
    fn partial_cmp(&self, other: &Decimal) -> (r: Option<core::cmp::Ordering>) {
        Some(ext_cmp(*self, *other))
    }
}

impl vstd::std_specs::cmp::PartialOrdSpecImpl for Decimal {
    open spec fn obeys_partial_cmp_spec() -> bool {
        true
    }

    open spec fn partial_cmp_spec(&self, other: &Decimal) -> Option<core::cmp::Ordering> {
        Some(order_of(units(self@), units(other@)))
    }
}

} // verus!
