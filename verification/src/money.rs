//! Amounts of money. A transaction's amount is a decimal with four places, held here
//! as a whole number of ten-thousandths; a balance is shown rounded to cents.

use vstd::prelude::*;

verus! {

/// The largest magnitude of a `rust_decimal::Decimal` mantissa (96 bits).
pub const DECIMAL_MAX_MANTISSA: i128 = 0xFFFF_FFFF_FFFF_FFFF_FFFF_FFFFi128;

/// Decimal places of a stored amount (the column is `decimal(14, 4)`).
pub const AMOUNT_SCALE: u32 = 4;

/// Decimal places of a shown balance.
pub const BALANCE_SCALE: u32 = 2;

pub open spec fn abs(x: int) -> int {
    if x < 0 { -x } else { x }
}

/// `value` divided by `step` and rounded to the nearest whole number, ties to the even
/// one ("banker's rounding"), the sign kept apart from the magnitude.
pub open spec fn round_half_even(value: int, step: int) -> int
    recommends
        step > 0,
{
    let q = abs(value) / step;
    let r = abs(value) % step;
    let m = if 2 * r > step || (2 * r == step && q % 2 == 1) { q + 1 } else { q };
    if value < 0 { -m } else { m }
}

/// A mantissa that a `Decimal` can hold.
pub open spec fn fits_decimal(mantissa: int) -> bool {
    -DECIMAL_MAX_MANTISSA <= mantissa <= DECIMAL_MAX_MANTISSA
}

/// The character of a decimal digit.
pub open spec fn digit_char(d: int) -> char {
    (48 + d) as char
}

/// The decimal digits of `n`, most significant first; none for zero.
pub open spec fn digits(n: nat) -> Seq<char>
    decreases n,
{
    if n == 0 {
        Seq::empty()
    } else {
        digits(n / 10).push(digit_char((n % 10) as int))
    }
}

/// `text` with zeros in front until it has at least `width` characters.
pub open spec fn zero_padded(text: Seq<char>, width: nat) -> Seq<char> {
    if text.len() >= width {
        text
    } else {
        Seq::new((width - text.len()) as nat, |i: int| '0') + text
    }
}

/// What `Decimal`'s `Display` writes for the decimal `mantissa / 10^scale`: a minus
/// sign for a negative mantissa; the digits of its magnitude, padded with zeros to
/// `scale` of them; where `scale` is positive a point before the last `scale` digits,
/// with `0` in front of a point that would lead; and `0` for a zero at scale 0.
pub open spec fn decimal_display(mantissa: int, scale: nat) -> Seq<char> {
    let d = zero_padded(digits(abs(mantissa) as nat), scale);
    let whole = d.take(d.len() - scale);
    let frac = d.skip(d.len() - scale);
    let body = if scale == 0 {
        if d.len() == 0 { seq!['0'] } else { d }
    } else {
        (if whole.len() == 0 { seq!['0'] } else { whole }) + seq!['.'] + frac
    };
    if mantissa < 0 { seq!['-'] + body } else { body }
}

/// Ten to the power `n`.
pub open spec fn pow10(n: nat) -> int
    decreases n,
{
    if n == 0 { 1 } else { 10 * pow10((n - 1) as nat) }
}

/// `Decimal::from_i128_with_scale`, `Decimal::round_dp` and `Decimal::mantissa`:
/// rust_decimal documents `round_dp` as banker's rounding; where `dp` is below the
/// scale its source divides the magnitude by `10^(scale - dp)`, rounds half to even,
/// keeps the sign and gives scale `dp`.
#[verifier::external_body]
fn decimal_round_dp(mantissa: i128, scale: u32, dp: u32) -> (rounded: i128)
    requires
        fits_decimal(mantissa as int),
        dp < scale <= 28,
    ensures
        rounded == round_half_even(mantissa as int, pow10((scale - dp) as nat)),
{
    rust_decimal::Decimal::from_i128_with_scale(mantissa, scale).round_dp(dp).mantissa()
}

/// `Decimal::from_i128_with_scale` and `Display` through `to_string`: rust_decimal's
/// source writes the digits of the magnitude, padded with zeros to the scale, puts the
/// point before the last `scale` of them (`0.` where no whole digit is left), writes
/// `0` for an empty text, and puts `-` in front of a negative value.
#[verifier::external_body]
fn decimal_to_string(mantissa: i128, scale: u32) -> (text: String)
    requires
        fits_decimal(mantissa as int),
        scale <= 28,
    ensures
        text@ == decimal_display(mantissa as int, scale as nat),
{
    rust_decimal::Decimal::from_i128_with_scale(mantissa, scale).to_string()
}

proof fn lemma_round_magnitude(value: int)
    ensures
        abs(round_half_even(value, 100)) <= abs(value) / 100 + 1,
{
}

/// Rounding to cents moves an amount by at most half a cent, and a tie goes to an even
/// number of cents.
pub proof fn lemma_round_to_cents_close(units: int)
    ensures
        abs(round_half_even(units, 100) * 100 - units) <= 50,
        abs(round_half_even(units, 100) * 100 - units) == 50 ==> round_half_even(units, 100) % 2
            == 0,
{
}

/// A balance in ten-thousandths rounded to cents.
pub fn round_to_cents(units: i128) -> (cents: Option<i128>)
    ensures
        cents is Some <==> fits_decimal(units as int),
        cents matches Some(c) ==> c == round_half_even(units as int, 100),
{
    if units < -DECIMAL_MAX_MANTISSA || units > DECIMAL_MAX_MANTISSA {
        None
    } else {
        proof {
            reveal_with_fuel(pow10, 3);
        }
        Some(decimal_round_dp(units, AMOUNT_SCALE, BALANCE_SCALE))
    }
}

/// The label of a balance, given the decimal text of its amount.
pub fn money_label(text: &str) -> (label: String)
    ensures
        label@ == "$ "@ + text@,
{
    String::from_str("$ ").concat(text)
}

/// The label the pages show for a balance of `units` ten-thousandths.
pub open spec fn balance_label(units: int) -> Seq<char> {
    "$ "@ + decimal_display(round_half_even(units, 100), 2)
}

/// The label of a balance in ten-thousandths: its amount rounded to cents and written
/// with two places after a dollar sign. `None` where the balance does not fit a decimal.
pub fn format_balance(units: i128) -> (label: Option<String>)
    ensures
        label is Some <==> fits_decimal(units as int),
        label matches Some(l) ==> l@ == balance_label(units as int),
{
    match round_to_cents(units) {
        None => None,
        Some(cents) => {
            proof {
                lemma_round_magnitude(units as int);
            }
            let text = decimal_to_string(cents, BALANCE_SCALE);
            Some(money_label(text.as_str()))
        },
    }
}

} // verus!
